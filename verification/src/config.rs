use vstd::prelude::*;

verus! {

/// Settings of the bot, read from its environment.
#[derive(Debug)]
pub struct Config {
    pub host: String,
    pub port: u16,
    pub slack_api_token: String,
    pub rust_log: String,
    pub log_file: String,
}

} // verus!
