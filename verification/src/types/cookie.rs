//! Cookie names and attributes.

use vstd::prelude::*;
use crate::db::types::Timestamp;

verus! {

/// A cookie name prefix.
#[derive(Debug, Clone, Copy, PartialEq, Eq, Structural)]
pub enum CookiePrefix {
    /// `__Host-`
    Host,
    /// `__Secure-`
    Secure,
}

/// The `SameSite` attribute.
#[derive(Debug, Clone, Copy, PartialEq, Eq, Structural)]
pub enum SameSite {
    /// `Strict`
    Strict,
    /// `Lax`
    Lax,
    /// `None`: sent on cross-site requests too.
    NoRestriction,
}

/// A span of time, in whole seconds and nanoseconds (as a duration's parts).
#[derive(Debug, Clone, Copy, PartialEq, Eq, Structural)]
pub struct TimeSpan {
    /// Whole seconds.
    pub seconds: i64,
    /// Nanoseconds beyond the whole seconds.
    pub nanoseconds: i32,
}

/// Cookie attributes.
#[derive(Debug, Clone, Default, PartialEq, Eq)]
pub struct CookieOptions {
    /// `Domain`
    pub domain: Option<String>,
    /// `Expires`
    pub expires: Option<Timestamp>,
    /// `HttpOnly`
    pub http_only: Option<bool>,
    /// `Max-Age`
    pub max_age: Option<TimeSpan>,
    /// `Path`
    pub path: Option<String>,
    /// `Secure`
    pub secure: Option<bool>,
    /// `SameSite`
    pub same_site: Option<SameSite>,
    /// `Partitioned`
    pub partitioned: Option<bool>,
    /// The name prefix.
    pub prefix: Option<CookiePrefix>,
}

/// A cookie: its name and attributes.
#[derive(Debug, Clone, PartialEq, Eq)]
pub struct BetterAuthCookie {
    /// The name.
    pub name: String,
    /// The attributes.
    pub attributes: CookieOptions,
}

/// The cookies the library sets.
#[derive(Debug, Clone, PartialEq, Eq)]
pub struct BetterAuthCookies {
    /// The session token.
    pub session_token: BetterAuthCookie,
    /// The cached session data.
    pub session_data: BetterAuthCookie,
    /// The cached account data.
    pub account_data: BetterAuthCookie,
    /// The "don't remember me" marker.
    pub dont_remember_token: BetterAuthCookie,
}

} // verus!
