//! The timeouts of the configuration as durations.

use vstd::prelude::*;
use std::time::Duration;
use crate::clock::duration_from_secs;
use crate::config::Config;

verus! {

/// A view of the configuration that hands out its timeouts as durations.
pub struct TcpConfig<'a> {
    config: &'a Config,
}

impl<'a> TcpConfig<'a> {
    /// The configuration that the timeouts are read from.
    pub closed spec fn config(&self) -> &Config {
        self.config
    }

    /// A view of `config`.
    pub fn new(config: &'a Config) -> (tcp: Self)
        ensures
            tcp.config() == config,
    {
        Self { config }
    }

    /// The timeout of a request for `path`: that of the first override whose
    /// prefix matches, else the default.
    pub fn timeout_for_path(&self, path: &str) -> (timeout: Duration)
        ensures
            timeout == duration_from_secs(self.config().spec_timeout_for_path(path@)),
    {
        let secs: u64 = self.config.timeout_for_path(path);
        Duration::from_secs(secs)
    }

    /// The timeout of a request that no override applies to.
    pub fn default_timeout(&self) -> (timeout: Duration)
        ensures
            timeout == duration_from_secs(self.config().limits.default_timeout_secs),
    {
        Duration::from_secs(self.config.limits.default_timeout_secs)
    }
}

} // verus!
