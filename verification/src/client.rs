//! Provider-agnostic transport configuration for the underlying HTTP client.
//! The normalization layer treats it as an immutable value: every accessor
//! hands out an independent copy.

use vstd::prelude::*;

verus! {

/// Settings for the network client shared by all providers: timeouts and
/// whether plain HTTP endpoints are allowed. The layer never interprets
/// these values; it only stores and returns them.
#[derive(Clone, Copy, Debug, PartialEq, Eq, Structural)]
pub struct ClientOptions {
    /// Request timeout, in seconds.
    pub timeout_secs: u64,
    /// Connection timeout, in seconds.
    pub connect_timeout_secs: u64,
    /// Whether endpoints reached over plain HTTP are accepted.
    pub allow_http: bool,
}

/// The standard transport configuration used when the caller supplies none.
pub open spec fn default_client_options() -> ClientOptions {
    ClientOptions { timeout_secs: 30, connect_timeout_secs: 5, allow_http: false }
}

impl Default for ClientOptions {
    fn default() -> (r: Self)
        ensures
            r == default_client_options(),
    {
        ClientOptions { timeout_secs: 30, connect_timeout_secs: 5, allow_http: false }
    }
}

} // verus!
