use vstd::prelude::*;

verus! {

/// Settings of the NLP service, read from its environment.
#[derive(Debug)]
pub struct Config {
    pub host: String,
    pub port: u16,
    pub rust_log: String,
}

} // verus!
