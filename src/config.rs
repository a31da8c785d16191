use vstd::prelude::*;

verus! {

/// Start-up settings of the bot process.
#[derive(Clone, Debug)]
pub struct Config {
    pub discord_application_id: u64,
    pub discord_bot_token: String,
    pub postgres_password: String,
}

} // verus!
