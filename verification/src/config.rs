//! The configuration of the probe: read once at startup, fixed for the life of the process.

use vstd::prelude::*;

verus! {

/// The settings of one run.
#[derive(Clone, Debug, PartialEq, Eq)]
pub struct Config {
    /// Whether to print more than the failures.
    pub verbose: bool,
    /// Host name of the collection service.
    pub server: String,
    /// Port of the collection service.
    pub port: u16,
    /// Credential to attach to outbound requests, if any.
    pub auth_token: Option<String>,
    /// Identifier of this device, if any.
    pub device_id: Option<String>,
    /// Seconds between two cycles.
    pub time_interval: u16,
}

impl Default for Config {
    /// A quiet probe that reports to `localhost:5666` every five seconds.
    fn default() -> (config: Config)
        ensures
            !config.verbose,
            config.server@ == "localhost"@,
            config.port == 5666,
            config.auth_token is None,
            config.device_id is None,
            config.time_interval == 5,
    {
        Config {
            verbose: false,
            server: String::from_str("localhost"),
            port: 5666,
            auth_token: None,
            device_id: None,
            time_interval: 5,
        }
    }
}

} // verus!
