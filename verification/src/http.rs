//! The blocking HTTP client that requests to the agent go through, and the
//! few calls this crate makes to obtain one. Nothing here is proved: each
//! item states what the crate takes on trust of reqwest.

use vstd::prelude::*;
use std::time::Duration;

verus! {

/// `reqwest::blocking::Client`, a handle to a running HTTP client. Its
/// contents are hidden; the crate only stores and hands on such a value.
#[verifier::external_type_specification]
#[verifier::external_body]
pub struct ExHttpClient(reqwest::blocking::Client);

/// `reqwest::blocking::ClientBuilder`, the settings of a client that is yet
/// to be built. Its contents are hidden.
#[verifier::external_type_specification]
#[verifier::external_body]
pub struct ExHttpClientBuilder(reqwest::blocking::ClientBuilder);

/// `reqwest::Error`, the reason a client could not be built. Its contents
/// are hidden.
#[verifier::external_type_specification]
#[verifier::external_body]
pub struct ExHttpError(reqwest::Error);

/// `ClientBuilder::new` returns the settings of a client with reqwest's
/// defaults. Nothing is claimed of them.
pub assume_specification[ reqwest::blocking::ClientBuilder::new ]() -> (b:
    reqwest::blocking::ClientBuilder)
;

/// `ClientBuilder::timeout` returns the settings with the request timeout
/// replaced. Nothing is claimed of them.
pub assume_specification<T>[ reqwest::blocking::ClientBuilder::timeout::<T> ](
    b: reqwest::blocking::ClientBuilder,
    timeout: T,
) -> (r: reqwest::blocking::ClientBuilder) where T: Into<Option<Duration>>
;

/// `ClientBuilder::build` starts a client with the given settings, or
/// fails where the TLS backend or the resolver cannot be set up. Whether it
/// succeeds depends on the machine, so nothing is claimed of the outcome.
/// reqwest documents that it panics when called from inside an
/// asynchronous runtime: callers must be on an ordinary thread.
pub assume_specification[ reqwest::blocking::ClientBuilder::build ](
    b: reqwest::blocking::ClientBuilder,
) -> (r: Result<reqwest::blocking::Client, reqwest::Error>)
;

/// `Client::clone` returns another handle to the same client: reqwest
/// derives it, and all a client holds is its timeout and a shared pointer
/// to its runtime. The clone is stated to equal the original.
pub assume_specification[ <reqwest::blocking::Client as Clone>::clone ](
    c: &reqwest::blocking::Client,
) -> (r: reqwest::blocking::Client)
    ensures
        r == *c,
;

} // verus!
