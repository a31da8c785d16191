//! Moderation engine for chat communities: punishments that strip and later
//! restore roles, bans with expiry, and join-time verification with a
//! kick-on-timeout policy. Everything here decides; the caller performs the
//! store writes and platform calls that the decisions describe.

pub mod config;
pub mod effects;
pub mod emoji;
pub mod events;
pub mod error;
pub mod model;
pub mod restore;
pub mod scheduler;
pub mod commands;
