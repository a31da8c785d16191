use vstd::prelude::*;

verus! {

/// Per-community configuration. The verification fields are set and cleared
/// together; `verification_timeout` is in hours.
#[derive(Clone, Debug)]
pub struct Model {
    pub id: u64,
    pub mod_role_id: u64,
    pub verified_role_id: Option<u64>,
    pub verification_message_id: Option<u64>,
    pub verification_emoji: Option<String>,
    pub verification_timeout: Option<i64>,
    pub dunce_role_id: Option<u64>,
}

} // verus!
