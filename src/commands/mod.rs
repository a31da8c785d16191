//! Commands that moderators and members run, reduced to their decisions.

pub mod manage_roles;
pub mod options;
pub mod punishments;
pub mod role;
pub mod verification;

use vstd::prelude::*;
use crate::commands::options::text_is;

verus! {

/// The commands the bot answers.
#[derive(Clone, Copy, Debug, PartialEq, Eq, Structural)]
pub enum CommandKind {
    Role,
    AddRole,
    RemoveRole,
    Verification,
    Dunce,
    Undunce,
    Ban,
    Unban,
    /// A command the bot does not know.
    Unknown,
}

/// The command that an invocation named `name` asks for.
pub open spec fn command_kind_of(name: Seq<char>) -> CommandKind {
    if name == "role"@ {
        CommandKind::Role
    } else if name == "addrole"@ {
        CommandKind::AddRole
    } else if name == "removerole"@ {
        CommandKind::RemoveRole
    } else if name == "verification"@ {
        CommandKind::Verification
    } else if name == "dunce"@ {
        CommandKind::Dunce
    } else if name == "undunce"@ {
        CommandKind::Undunce
    } else if name == "ban"@ {
        CommandKind::Ban
    } else if name == "unban"@ {
        CommandKind::Unban
    } else {
        CommandKind::Unknown
    }
}

/// Routes an invocation by its command name.
pub fn command_kind(name: &str) -> (r: CommandKind)
    ensures
        r == command_kind_of(name@),
{
    if text_is(name, "role") {
        CommandKind::Role
    } else if text_is(name, "addrole") {
        CommandKind::AddRole
    } else if text_is(name, "removerole") {
        CommandKind::RemoveRole
    } else if text_is(name, "verification") {
        CommandKind::Verification
    } else if text_is(name, "dunce") {
        CommandKind::Dunce
    } else if text_is(name, "undunce") {
        CommandKind::Undunce
    } else if text_is(name, "ban") {
        CommandKind::Ban
    } else if text_is(name, "unban") {
        CommandKind::Unban
    } else {
        CommandKind::Unknown
    }
}

impl CommandKind {
    /// Whether only the community's moderator role may run the command:
    /// every known command but `role`.
    pub fn moderator_only(&self) -> (r: bool)
        ensures
            r == !(*self == CommandKind::Role || *self == CommandKind::Unknown),
    {
        match self {
            CommandKind::Role => false,
            CommandKind::Unknown => false,
            _ => true,
        }
    }
}

/// The message components the bot answers.
#[derive(Clone, Copy, Debug, PartialEq, Eq, Structural)]
pub enum ComponentKind {
    /// The optional-role menu.
    RoleSelect,
    Unknown,
}

/// Routes a component interaction by its custom identifier.
pub fn component_kind(custom_id: &str) -> (r: ComponentKind)
    ensures
        r == (if custom_id@ == "role_select"@ {
            ComponentKind::RoleSelect
        } else {
            ComponentKind::Unknown
        }),
{
    if text_is(custom_id, "role_select") {
        ComponentKind::RoleSelect
    } else {
        ComponentKind::Unknown
    }
}

} // verus!
