//! What a plugin's initialization contributes. (The plugin interface itself, its hooks and its
//! rate-limit path matchers are application code.)

use vstd::prelude::*;
use crate::types::init_options::BetterAuthOptions;

verus! {

/// Context fields a plugin's initialization overrides.
#[derive(Debug, Clone, Default, PartialEq, Eq)]
pub struct AuthContextPatch {
    /// Replaces the trusted origins.
    pub trusted_origins: Option<Vec<String>>,
    /// Replaces the trusted providers.
    pub trusted_providers: Option<Vec<String>>,
}

/// What a plugin's initialization returns.
#[derive(Debug, Default)]
pub struct InitResult {
    /// Context overrides (`None`: no change).
    pub context: Option<AuthContextPatch>,
    /// Option overrides (`None`: no change).
    pub options: Option<BetterAuthOptions>,
}

} // verus!
