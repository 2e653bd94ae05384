//! The data an OAuth 2.0 provider exchanges: tokens, user info, the parameters of the
//! authorization URL and of code validation, and provider options. (The provider interface
//! itself, with its network calls, is application code.)

use vstd::prelude::*;
use crate::db::json::JsonValue;
use crate::db::types::Timestamp;

verus! {

/// An error reported by a provider.
#[derive(Debug, Clone, PartialEq, Eq)]
pub enum OAuthError {
    /// The provider failed, with this message.
    Provider(String),
}

/// Tokens returned by a provider.
#[derive(Debug, Clone, Default, PartialEq, Eq)]
pub struct OAuth2Tokens {
    /// The token type (`bearer`).
    pub token_type: Option<String>,
    /// The access token.
    pub access_token: Option<String>,
    /// The refresh token.
    pub refresh_token: Option<String>,
    /// When the access token expires.
    pub access_token_expires_at: Option<Timestamp>,
    /// When the refresh token expires.
    pub refresh_token_expires_at: Option<Timestamp>,
    /// Granted scopes.
    pub scopes: Option<Vec<String>>,
    /// OpenID Connect id token.
    pub id_token: Option<String>,
    /// The provider's raw token response.
    pub raw: Option<JsonValue>,
}

/// A user as a provider describes them.
#[derive(Debug, Clone, PartialEq, Eq)]
pub struct OAuth2UserInfo {
    /// The user's id at the provider.
    pub id: String,
    /// Display name.
    pub name: Option<String>,
    /// Email address.
    pub email: Option<String>,
    /// Profile image URL.
    pub image: Option<String>,
    /// Whether the provider verified the email.
    pub email_verified: bool,
}

/// The user info and the provider's raw profile.
#[derive(Debug, Clone, PartialEq, Eq)]
pub struct UserInfoResult {
    /// The user info.
    pub user: OAuth2UserInfo,
    /// The raw profile.
    pub data: JsonValue,
}

/// The parameters of an authorization URL.
#[derive(Debug, Clone, Default, PartialEq, Eq)]
pub struct AuthorizationUrlParams {
    /// The state parameter.
    pub state: String,
    /// The PKCE code verifier.
    pub code_verifier: String,
    /// Scopes to request.
    pub scopes: Option<Vec<String>>,
    /// Where the provider redirects back to.
    pub redirect_uri: String,
    /// The display mode.
    pub display: Option<String>,
    /// A login hint.
    pub login_hint: Option<String>,
}

/// The parameters of code validation.
#[derive(Debug, Clone, Default, PartialEq, Eq)]
pub struct ValidateCodeParams {
    /// The authorization code.
    pub code: String,
    /// The redirect URI used for the authorization.
    pub redirect_uri: String,
    /// The PKCE code verifier.
    pub code_verifier: Option<String>,
    /// A device id.
    pub device_id: Option<String>,
}

/// The `prompt` parameter.
#[derive(Debug, Clone, Copy, PartialEq, Eq, Structural)]
pub enum Prompt {
    /// `select_account`
    SelectAccount,
    /// `consent`
    Consent,
    /// `login`
    Login,
    /// `none`
    NoPrompt,
    /// `select_account consent`
    SelectAccountConsent,
}

/// The `response_mode` parameter.
#[derive(Debug, Clone, Copy, PartialEq, Eq, Structural)]
pub enum ResponseMode {
    /// `query`
    Query,
    /// `form_post`
    FormPost,
}

/// Provider options.
#[derive(Debug, Clone, Default, PartialEq, Eq)]
pub struct ProviderOptions {
    /// The client id.
    pub client_id: Option<String>,
    /// The client secret.
    pub client_secret: Option<String>,
    /// Scopes to request.
    pub scope: Option<Vec<String>>,
    /// Leave out the default scopes.
    pub disable_default_scope: Option<bool>,
    /// The redirect URI.
    pub redirect_uri: Option<String>,
    /// A custom authorization endpoint.
    pub authorization_endpoint: Option<String>,
    /// The client key (some providers).
    pub client_key: Option<String>,
    /// Refuse sign-in with an id token.
    pub disable_id_token_sign_in: Option<bool>,
    /// Refuse implicit sign-up.
    pub disable_implicit_sign_up: Option<bool>,
    /// Refuse sign-up.
    pub disable_sign_up: Option<bool>,
    /// The `prompt` parameter.
    pub prompt: Option<Prompt>,
    /// The `response_mode` parameter.
    pub response_mode: Option<ResponseMode>,
    /// Overwrite the stored user info on each sign-in.
    pub override_user_info_on_sign_in: Option<bool>,
}

} // verus!
