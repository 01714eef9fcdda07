//! The handle that requests to an agent are made through.

use vstd::prelude::*;
use crate::config::Config;

verus! {

/// A client of one agent: the configuration its requests are made with.
#[derive(Clone, Debug)]
pub struct ConsulClient {
    config: Config,
}

impl View for ConsulClient {
    type V = Config;

    closed spec fn view(&self) -> Config {
        self.config
    }
}

impl ConsulClient {
    /// A client that makes its requests with `config`.
    pub fn new(config: Config) -> (r: ConsulClient)
        ensures
            r@ == config,
    {
        ConsulClient { config }
    }

    /// The configuration this client makes its requests with.
    pub fn config(&self) -> (r: &Config)
        ensures
            *r == self@,
    {
        &self.config
    }
}

} // verus!
