//! OAuth 2.0 provider data.

pub mod oauth_provider;
