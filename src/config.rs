//! Settings of the statistics reporter.
use vstd::prelude::*;
use vstd::string::StringExecFns;

verus! {

/// The server to report to, and the API key; without a key nothing is sent.
#[derive(Debug)]
pub struct Config {
    pub server: String,
    pub key: Option<String>,
}

impl Default for Config {
    fn default() -> (r: Config)
        ensures
            r.server@ == "https://codestats.net/"@,
            r.key is None,
    {
        Config { server: String::from_str("https://codestats.net/"), key: None }
    }
}

} // verus!
