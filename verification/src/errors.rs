//! What can go wrong while a configuration is put together.

use vstd::prelude::*;

verus! {

/// The reason a configuration could not be produced.
#[derive(Debug)]
pub enum ConfigError {
    /// The address begins with neither `http://` nor `https://`.
    InvalidScheme,
    /// The HTTP client could not be built; the cause is kept.
    HttpClient(reqwest::Error),
}

impl ConfigError {
    /// The text that describes this error to a reader.
    pub open spec fn spec_message(&self) -> Seq<char> {
        match self {
            ConfigError::InvalidScheme => "No valid HTTP scheme in address"@,
            ConfigError::HttpClient(_) => "Failed to build reqwest client"@,
        }
    }

    /// A description of this error.
    pub fn message(&self) -> (r: String)
        ensures
            r@ == self.spec_message(),
    {
        match self {
            ConfigError::InvalidScheme => "No valid HTTP scheme in address".to_string(),
            ConfigError::HttpClient(_) => "Failed to build reqwest client".to_string(),
        }
    }
}

} // verus!
