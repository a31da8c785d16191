use vstd::prelude::*;

verus! {

/// What a punishment does to its target.
#[derive(Clone, Copy, Debug, PartialEq, Eq, Structural)]
pub enum PunishmentType {
    /// All roles are stripped and the community's dunce role is given.
    Dunce,
    /// The user is banned from the community.
    Ban,
}

/// One active punishment episode. `expires` is a Unix timestamp in seconds;
/// `None` means the punishment lasts until it is lifted by hand.
#[derive(Clone, Copy, Debug, PartialEq, Eq, Structural)]
pub struct Model {
    pub id: i64,
    pub user_id: u64,
    pub server_id: u64,
    pub punishment_type: PunishmentType,
    pub expires: Option<i64>,
}

/// The rows that a punishment row is related to.
#[derive(Clone, Copy, Debug, PartialEq, Eq, Structural)]
pub enum Relation {
    /// The roles that the punishment removed.
    PunishmentRemovedRole,
}

} // verus!
