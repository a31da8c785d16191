use vstd::prelude::*;

verus! {

/// One role that a punishment took from its target, kept so that it can be
/// given back when the punishment ends.
#[derive(Clone, Copy, Debug, PartialEq, Eq, Structural)]
pub struct Model {
    pub id: i64,
    pub punishment_id: i64,
    pub role_id: u64,
}

/// The rows that a removed-role row is related to.
#[derive(Clone, Copy, Debug, PartialEq, Eq, Structural)]
pub enum Relation {
    /// The punishment that owns the row.
    Punishment,
}

} // verus!
