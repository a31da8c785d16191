//! Rows of the durable store.

pub mod optional_role;
pub mod punishment;
pub mod punishment_removed_role;
pub mod server;
