use vstd::prelude::*;

verus! {

/// A role that members of a community may give themselves.
#[derive(Clone, Debug)]
pub struct Model {
    pub role_id: u64,
    pub server_id: u64,
    pub emoji: Option<String>,
    pub description: Option<String>,
}

} // verus!
