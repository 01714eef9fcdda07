//! What a single request carries along, and what comes back beside the
//! answer.

use vstd::prelude::*;
use std::time::Duration;

verus! {

/// The options of a query. Each one that is set overrides the client's
/// configuration for that query.
#[derive(Clone, Debug)]
pub struct QueryOptions {
    pub datacenter: Option<String>,
    pub namespace: Option<String>,
    pub filter: Option<String>,
    pub wait_index: Option<u64>,
    pub wait_time: Option<Duration>,
}

impl Default for QueryOptions {
    /// The options in which nothing is set.
    fn default() -> (r: QueryOptions)
        ensures
            r.datacenter is None,
            r.namespace is None,
            r.filter is None,
            r.wait_index is None,
            r.wait_time is None,
    {
        QueryOptions {
            datacenter: None,
            namespace: None,
            filter: None,
            wait_index: None,
            wait_time: None,
        }
    }
}

/// What the agent reports beside the answer to a query.
#[derive(Clone, Debug)]
pub struct QueryMeta {
    pub last_index: Option<u64>,
    pub request_time: Duration,
}

/// The options of a write.
#[derive(Clone, Debug)]
pub struct WriteOptions {
    pub datacenter: Option<String>,
    pub namespace: Option<String>,
}

impl Default for WriteOptions {
    /// The options in which nothing is set.
    fn default() -> (r: WriteOptions)
        ensures
            r.datacenter is None,
            r.namespace is None,
    {
        WriteOptions { datacenter: None, namespace: None }
    }
}

/// What the agent reports beside the answer to a write.
#[derive(Clone, Debug)]
pub struct WriteMeta {
    pub request_time: Duration,
}

} // verus!
