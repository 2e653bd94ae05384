//! Errors: the base error-code set, the library's generic error, and the raw error shape.

pub mod codes;

pub use codes::{ApiErrorCode, BaseErrorCode};

use vstd::prelude::*;

verus! {

/// The library's generic error: a human-readable message.
#[derive(Debug, Clone, PartialEq, Eq)]
pub struct BetterAuthError {
    /// What went wrong.
    pub message: String,
}

impl BetterAuthError {
    /// An error with the given message.
    pub fn new(message: String) -> (e: Self)
        ensures
            e.message == message,
    {
        BetterAuthError { message }
    }
}

/// A raw error entry: a machine-readable `code` and a human-readable `message`.
#[derive(Debug, Clone, Copy, PartialEq, Eq)]
pub struct RawError {
    /// The machine-readable error code.
    pub code: &'static str,
    /// The human-readable message.
    pub message: &'static str,
}

} // verus!
