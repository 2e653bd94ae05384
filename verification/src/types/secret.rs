//! The rotating-secret configuration: secrets by version number.

use vstd::prelude::*;
use std::collections::BTreeMap;

verus! {

/// Secrets by version. It has no `Debug`, so secret material cannot be printed by accident.
#[derive(Clone)]
pub struct SecretConfig {
    /// Version number to secret.
    pub keys: BTreeMap<u32, String>,
    /// The version used for new encryption.
    pub current_version: u32,
    /// The secret of payloads from before versioning.
    pub legacy_secret: Option<String>,
}

} // verus!
