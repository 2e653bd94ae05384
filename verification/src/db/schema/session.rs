//! The session record.

use vstd::prelude::*;
use crate::db::schema::shared::CoreFields;
use crate::db::types::Timestamp;

verus! {

/// A session.
#[derive(Debug, Clone, PartialEq, Eq)]
pub struct Session {
    /// Id and timestamps.
    pub core: CoreFields,
    /// The user this session belongs to.
    pub user_id: String,
    /// When the session expires.
    pub expires_at: Timestamp,
    /// The session token.
    pub token: String,
    /// The client's IP address.
    pub ip_address: Option<String>,
    /// The client's user agent.
    pub user_agent: Option<String>,
}

} // verus!
