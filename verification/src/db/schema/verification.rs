//! The verification record: a value to confirm, such as an email token.

use vstd::prelude::*;
use crate::db::schema::shared::CoreFields;
use crate::db::types::Timestamp;

verus! {

/// A verification.
#[derive(Debug, Clone, PartialEq, Eq)]
pub struct Verification {
    /// Id and timestamps.
    pub core: CoreFields,
    /// The value to verify.
    pub value: String,
    /// When the verification expires.
    pub expires_at: Timestamp,
    /// What is being verified (an email address, ...).
    pub identifier: String,
}

} // verus!
