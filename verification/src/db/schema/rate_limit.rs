//! The rate-limit counter record.

use vstd::prelude::*;

verus! {

/// A rate-limit counter.
#[derive(Debug, Clone, PartialEq, Eq)]
pub struct RateLimit {
    /// The limited key (`ip:path`, ...).
    pub key: String,
    /// Requests counted in the current window.
    pub count: i64,
    /// Time of the last request, in milliseconds since the Unix epoch.
    pub last_request: i64,
}

} // verus!
