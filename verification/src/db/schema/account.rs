//! The account record: a user's link to a provider.

use vstd::prelude::*;
use crate::db::schema::shared::CoreFields;
use crate::db::types::Timestamp;

verus! {

/// An account.
#[derive(Debug, Clone, PartialEq, Eq)]
pub struct Account {
    /// Id and timestamps.
    pub core: CoreFields,
    /// The provider (`credential`, `google`, ...).
    pub provider_id: String,
    /// The account's id at the provider.
    pub account_id: String,
    /// The user this account belongs to.
    pub user_id: String,
    /// OAuth access token.
    pub access_token: Option<String>,
    /// OAuth refresh token.
    pub refresh_token: Option<String>,
    /// OpenID Connect id token.
    pub id_token: Option<String>,
    /// When the access token expires.
    pub access_token_expires_at: Option<Timestamp>,
    /// When the refresh token expires.
    pub refresh_token_expires_at: Option<Timestamp>,
    /// Granted scopes.
    pub scope: Option<String>,
    /// Password hash (credential accounts).
    pub password: Option<String>,
}

} // verus!
