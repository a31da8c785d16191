//! Decisions on events that the platform delivers: a reaction added to a
//! message, and a member joining a community.

use vstd::prelude::*;
use crate::effects::Step;
use crate::emoji::{Emoji, emoji_eq, parse_emoji, parsed_emoji};
use crate::model::punishment::{self, PunishmentType};
use crate::model::server;

verus! {

/// What to do about an added reaction.
#[derive(Clone, Debug, PartialEq, Eq, Structural)]
pub enum ReactionDecision {
    /// Not a verification attempt, or verification is not set up here.
    Ignore,
    /// The community's configured emoji cannot be read; verification there is
    /// inert until it is configured again.
    BadEmoji,
    /// Give `role_id` to `user_id`.
    Grant { user_id: u64, role_id: u64 },
}

/// The decision on a reaction: `emoji` added to message `message_id`
/// by member `user_id` in the community whose settings are `server`;
/// `expected` is the configured emoji after parsing, `None` if unreadable.
pub open spec fn reaction_spec(
    server: Option<server::Model>,
    user_id: Option<u64>,
    expected: Option<crate::emoji::EmojiView>,
    message_id: u64,
    emoji: crate::emoji::EmojiView,
) -> ReactionDecision {
    match (server, user_id) {
        (Some(m), Some(u)) => match (m.verified_role_id, m.verification_message_id, m.verification_emoji) {
            (Some(role), Some(msg), Some(_)) => match expected {
                None => ReactionDecision::BadEmoji,
                Some(x) => if msg == message_id && x == emoji {
                    ReactionDecision::Grant { user_id: u, role_id: role }
                } else {
                    ReactionDecision::Ignore
                },
            },
            _ => ReactionDecision::Ignore,
        },
        _ => ReactionDecision::Ignore,
    }
}

/// Decides on a reaction, given the community's configured emoji as already
/// read (`None` where it cannot be read).
pub fn match_reaction(
    server: Option<&server::Model>,
    user_id: Option<u64>,
    expected: Option<&Emoji>,
    message_id: u64,
    emoji: &Emoji,
) -> (r: ReactionDecision)
    ensures
        r == reaction_spec(
            match server {
                Some(m) => Some(*m),
                None => None,
            },
            user_id,
            match expected {
                Some(x) => Some(x@),
                None => None,
            },
            message_id,
            emoji@,
        ),
{
    let m = match server {
        None => {
            return ReactionDecision::Ignore;
        },
        Some(m) => m,
    };
    let u = match user_id {
        None => {
            return ReactionDecision::Ignore;
        },
        Some(u) => u,
    };
    match (m.verified_role_id, m.verification_message_id, &m.verification_emoji) {
        (Some(role), Some(msg), Some(_)) => match expected {
            None => ReactionDecision::BadEmoji,
            Some(x) => {
                if msg == message_id && emoji_eq(x, emoji) {
                    ReactionDecision::Grant { user_id: u, role_id: role }
                } else {
                    ReactionDecision::Ignore
                }
            },
        },
        _ => ReactionDecision::Ignore,
    }
}

/// Decides on a reaction with `emoji` by `user_id` (if known) on message
/// `message_id`, in a community configured as `server` (if it is managed).
/// Only a reaction on the configured message with the configured emoji grants
/// the verified role; nothing is written to the store.
pub fn reaction_add(server: Option<&server::Model>, user_id: Option<u64>, message_id: u64, emoji: &Emoji) -> (r:
    ReactionDecision)
    ensures
        r == reaction_spec(
            match server {
                Some(m) => Some(*m),
                None => None,
            },
            user_id,
            match server {
                Some(m) => match m.verification_emoji {
                    Some(t) => parsed_emoji(t@),
                    None => None,
                },
                None => None,
            },
            message_id,
            emoji@,
        ),
{
    let expected = match server {
        Some(m) => match &m.verification_emoji {
            Some(t) => parse_emoji(t.clone()),
            None => None,
        },
        None => None,
    };
    let r = match &expected {
        Some(x) => match_reaction(server, user_id, Some(x), message_id, emoji),
        None => match_reaction(server, user_id, None, message_id, emoji),
    };
    r
}

/// The steps that put `punishments` back into force on `user_id`, who has
/// just joined community `server_id` (whose dunce role is `dunce_role_id`):
/// each of the user's punishments there is re-applied, a dunce by giving the
/// dunce role again and a ban by banning again. No row is written.
pub open spec fn rejoin_spec(
    server_id: u64,
    user_id: u64,
    dunce_role_id: Option<u64>,
    punishments: Seq<punishment::Model>,
) -> Seq<Step>
    decreases punishments.len(),
{
    if punishments.len() == 0 {
        seq![]
    } else {
        let p = punishments.last();
        rejoin_spec(server_id, user_id, dunce_role_id, punishments.drop_last()) + if p.server_id
            == server_id && p.user_id == user_id {
            match p.punishment_type {
                PunishmentType::Dunce => match dunce_role_id {
                    Some(d) => seq![Step::AddRole(d)],
                    None => seq![],
                },
                PunishmentType::Ban => seq![Step::Ban],
            }
        } else {
            seq![]
        }
    }
}

/// Decides how to re-apply the punishments of a user who has just joined a
/// community, given the punishments the store returned for them.
pub fn guild_member_addition(
    server_id: u64,
    user_id: u64,
    dunce_role_id: Option<u64>,
    punishments: &Vec<punishment::Model>,
) -> (r: Vec<Step>)
    ensures
        r@ == rejoin_spec(server_id, user_id, dunce_role_id, punishments@),
{
    let mut r: Vec<Step> = Vec::new();
    let mut i: usize = 0;
    while i < punishments.len()
        invariant
            i <= punishments@.len(),
            r@ == rejoin_spec(server_id, user_id, dunce_role_id, punishments@.subrange(0, i as int)),
        decreases punishments@.len() - i,
    {
        let p = punishments[i];
        proof {
            assert(punishments@.subrange(0, i + 1).drop_last() =~= punishments@.subrange(0, i as int));
        }
        if p.server_id == server_id && p.user_id == user_id {
            match p.punishment_type {
                PunishmentType::Dunce => match dunce_role_id {
                    Some(d) => {
                        r.push(Step::AddRole(d));
                    },
                    None => {},
                },
                PunishmentType::Ban => {
                    r.push(Step::Ban);
                },
            }
        }
        i = i + 1;
        assert(r@ =~= rejoin_spec(server_id, user_id, dunce_role_id, punishments@.subrange(0, i as int)));
    }
    assert(punishments@.subrange(0, punishments@.len() as int) =~= punishments@);
    r
}

} // verus!
