//! The option vocabulary for configuring an instance: id generation, base URLs, rate limiting,
//! per-model database options, and the advanced options. Options that hold application code
//! (custom storage, background-task runners, custom identifier hashing) are held by the
//! application beside these.

use vstd::prelude::*;
use std::sync::Arc;
use crate::db::types::DbFieldAttribute;
use crate::strmap::StrMap;
use crate::types::cookie::CookieOptions;
use crate::env::logger::Logger;

verus! {

/// The input to a custom id generator.
#[derive(Debug, Clone, PartialEq, Eq)]
pub struct GenerateIdInput {
    /// The model the id is for.
    pub model: String,
    /// The requested length, if any.
    pub size: Option<usize>,
}

/// A custom id generator. `None` lets the database generate the id.
pub type GenerateIdFn = Arc<dyn Fn(GenerateIdInput) -> Option<String>>;

/// How ids are generated. A custom generator ([`GenerateIdFn`]) is held by the application;
/// `Custom` records that one is configured.
#[derive(Debug, Clone, Copy, PartialEq, Eq, Structural)]
pub enum GenerateIdConfig {
    /// The built-in random id (the default).
    Default,
    /// The database generates ids.
    Database,
    /// Serial (auto-increment) ids.
    Serial,
    /// UUIDs.
    Uuid,
    /// A custom generator.
    Custom,
}

impl Default for GenerateIdConfig {
    fn default() -> (r: Self)
        ensures
            r is Default,
    {
        GenerateIdConfig::Default
    }
}

/// How verification identifiers are stored. A custom hashing function is held by the
/// application; `Custom` records that one is configured.
#[derive(Debug, Clone, Copy, PartialEq, Eq, Structural)]
pub enum StoreIdentifierOption {
    /// Stored as given (the default).
    Plain,
    /// Stored hashed.
    Hashed,
    /// Stored through a custom function.
    Custom,
}

impl Default for StoreIdentifierOption {
    fn default() -> (r: Self)
        ensures
            r == StoreIdentifierOption::Plain,
    {
        StoreIdentifierOption::Plain
    }
}

/// The protocol of a dynamic base URL.
#[derive(Debug, Clone, Copy, PartialEq, Eq, Structural)]
pub enum BaseUrlProtocol {
    /// `http`
    Http,
    /// `https`
    Https,
    /// From the request (the default).
    Auto,
}

impl Default for BaseUrlProtocol {
    fn default() -> (r: Self)
        ensures
            r == BaseUrlProtocol::Auto,
    {
        BaseUrlProtocol::Auto
    }
}

/// A base URL derived from the request host, limited to allowed hosts.
#[derive(Debug, Clone, Default, PartialEq, Eq)]
pub struct DynamicBaseUrlConfig {
    /// The hosts a request may come from.
    pub allowed_hosts: Vec<String>,
    /// The base URL when the host is not allowed.
    pub fallback: Option<String>,
    /// The protocol.
    pub protocol: Option<BaseUrlProtocol>,
}

/// A fixed base URL or one derived from each request.
#[derive(Debug, Clone, PartialEq, Eq)]
pub enum BaseUrlConfig {
    /// A fixed base URL.
    Static(String),
    /// A base URL derived from the request.
    Dynamic(DynamicBaseUrlConfig),
}

/// A rate-limit rule: at most `max` requests per `window` seconds.
#[derive(Debug, Clone, Copy, PartialEq, Eq, Structural)]
pub struct BetterAuthRateLimitRule {
    /// The window, in seconds.
    pub window: u64,
    /// The maximum number of requests in a window.
    pub max: u64,
}

impl Default for BetterAuthRateLimitRule {
    fn default() -> (r: Self)
        ensures
            r.window == 10,
            r.max == 100,
    {
        BetterAuthRateLimitRule { window: 10, max: 100 }
    }
}

/// Per-model database options.
#[derive(Debug, Default)]
pub struct BetterAuthDbOptions {
    /// The table name.
    pub model_name: Option<String>,
    /// Field name to column name.
    pub fields: Option<StrMap<String>>,
    /// Extra fields of the model.
    pub additional_fields: Option<StrMap<DbFieldAttribute>>,
}

/// The outcome of an atomic rate-limit consumption.
#[derive(Debug, Clone, Copy, PartialEq, Eq, Structural)]
pub struct RateLimitConsumeResult {
    /// Whether the request is allowed.
    pub allowed: bool,
    /// Seconds until a request is allowed again, when it is not.
    pub retry_after: Option<u64>,
}

/// Where rate-limit counters are kept.
#[derive(Debug, Clone, Copy, PartialEq, Eq, Structural)]
pub enum RateLimitStorageKind {
    /// In memory (the default).
    Memory,
    /// In the database.
    Database,
    /// In the secondary storage.
    SecondaryStorage,
}

impl Default for RateLimitStorageKind {
    fn default() -> (r: Self)
        ensures
            r == RateLimitStorageKind::Memory,
    {
        RateLimitStorageKind::Memory
    }
}

/// Rate-limit options. A custom storage backend is held by the application.
#[derive(Debug, Default)]
pub struct BetterAuthRateLimitOptions {
    /// The default window, in seconds.
    pub window: Option<u64>,
    /// The default maximum per window.
    pub max: Option<u64>,
    /// The table name of the counters.
    pub model_name: Option<String>,
    /// Field name to column name.
    pub fields: Option<StrMap<String>>,
    /// Whether rate limiting is on.
    pub enabled: Option<bool>,
    /// Rules per path.
    pub custom_rules: Option<StrMap<BetterAuthRateLimitRule>>,
    /// Where counters are kept.
    pub storage: Option<RateLimitStorageKind>,
}

/// Client IP address options.
#[derive(Debug, Clone, Default, PartialEq, Eq)]
pub struct IpAddressOptions {
    /// Headers to read the address from.
    pub ip_address_headers: Option<Vec<String>>,
    /// Turn IP tracking off.
    pub disable_ip_tracking: Option<bool>,
    /// The IPv6 subnet prefix length to group addresses by.
    pub ipv6_subnet: Option<u8>,
    /// Proxies whose forwarding headers are trusted.
    pub trusted_proxies: Option<Vec<String>>,
}

/// Sharing cookies across subdomains.
#[derive(Debug, Clone, Default, PartialEq, Eq)]
pub struct CrossSubDomainCookies {
    /// Whether cookies are shared.
    pub enabled: bool,
    /// More cookies to share.
    pub additional_cookies: Option<Vec<String>>,
    /// The shared domain.
    pub domain: Option<String>,
}

/// An override of one cookie's name and attributes.
#[derive(Debug, Clone, Default, PartialEq, Eq)]
pub struct CookieOverride {
    /// The cookie name.
    pub name: Option<String>,
    /// The cookie attributes.
    pub attributes: Option<CookieOptions>,
}

/// Advanced database options.
#[derive(Debug, Clone, Copy, Default, PartialEq, Eq)]
pub struct AdvancedDatabaseOptions {
    /// The limit of `find_many` when none is given.
    pub default_find_many_limit: Option<u64>,
    /// How ids are generated.
    pub generate_id: Option<GenerateIdConfig>,
}

/// Advanced options. A background-task runner is held by the application.
#[derive(Debug, Default)]
pub struct BetterAuthAdvancedOptions {
    /// Client IP address options.
    pub ip_address: Option<IpAddressOptions>,
    /// Force secure cookies.
    pub use_secure_cookies: Option<bool>,
    /// Turn the CSRF check off.
    pub disable_csrf_check: Option<bool>,
    /// Turn the origin check off.
    pub disable_origin_check: Option<bool>,
    /// Sharing cookies across subdomains.
    pub cross_sub_domain_cookies: Option<CrossSubDomainCookies>,
    /// Overrides per cookie.
    pub cookies: Option<StrMap<CookieOverride>>,
    /// Attributes of every cookie.
    pub default_cookie_attributes: Option<CookieOptions>,
    /// The cookie name prefix.
    pub cookie_prefix: Option<String>,
    /// Advanced database options.
    pub database: Option<AdvancedDatabaseOptions>,
    /// Trust proxy headers.
    pub trusted_proxy_headers: Option<bool>,
    /// Ignore trailing slashes in paths.
    pub skip_trailing_slashes: Option<bool>,
}

/// The options of an instance, as far as this crate defines their parts: the base URL, rate
/// limiting, the per-model database options, the advanced options and the logger.
#[derive(Debug, Default)]
pub struct BetterAuthOptions {
    /// The base URL.
    pub base_url: Option<BaseUrlConfig>,
    /// Rate limiting.
    pub rate_limit: Option<BetterAuthRateLimitOptions>,
    /// Options of the user model.
    pub user: Option<BetterAuthDbOptions>,
    /// Options of the session model.
    pub session: Option<BetterAuthDbOptions>,
    /// Options of the account model.
    pub account: Option<BetterAuthDbOptions>,
    /// Options of the verification model.
    pub verification: Option<BetterAuthDbOptions>,
    /// Advanced options.
    pub advanced: Option<BetterAuthAdvancedOptions>,
    /// The logger configuration.
    pub logger: Option<Logger>,
}

} // verus!
