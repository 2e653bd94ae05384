//! Secret material and the versioned secret configuration used for key rotation.

use vstd::prelude::*;
use vstd::string::*;
use std::collections::BTreeMap;

verus! {

/// A secret string. It has no `Debug`, so it cannot be printed by accident; the raw value is
/// reached only through [`Secret::expose`].
#[derive(Clone, PartialEq, Eq)]
pub struct Secret(String);

impl Secret {
    /// The secret's text.
    pub closed spec fn text(self) -> Seq<char> {
        self.0@
    }

    /// The secret holding a string, as a spec value.
    pub closed spec fn from_text(v: String) -> Secret {
        Secret(v)
    }

    /// A secret holding the given text.
    pub fn new(value: &str) -> (r: Secret)
        ensures
            r.text() == value@,
    {
        Secret(String::from_str(value))
    }

    /// The raw secret.
    pub fn expose(&self) -> (r: &str)
        ensures
            r@ == self.text(),
    {
        self.0.as_str()
    }
}

impl From<String> for Secret {
    fn from(s: String) -> (r: Secret)
        ensures
            r.text() == s@,
    {
        Secret(s)
    }
}

impl From<&str> for Secret {
    fn from(s: &str) -> (r: Secret)
        ensures
            r.text() == s@,
    {
        Secret(String::from_str(s))
    }
}

// A spec function cannot build a `String` from a `&str`, so this conversion states its result in
// its own `ensures` above rather than through `from_spec`.
impl vstd::std_specs::convert::FromSpecImpl<&str> for Secret {
    open spec fn obeys_from_spec() -> bool {
        false
    }

    open spec fn from_spec(v: &str) -> Secret {
        arbitrary()
    }
}

impl vstd::std_specs::convert::FromSpecImpl<String> for Secret {
    open spec fn obeys_from_spec() -> bool {
        true
    }

    open spec fn from_spec(v: String) -> Secret {
        Secret::from_text(v)
    }
}

/// Versioned secrets for key rotation: new ciphertexts use `current_version`; older versions
/// stay in `keys` for decryption only; `legacy_secret` decrypts payloads from before versioning.
#[derive(Clone)]
pub struct SecretConfig {
    /// The version new ciphertexts are tagged with.
    pub current_version: u32,
    /// The secret of each version.
    pub keys: BTreeMap<u32, Secret>,
    /// The secret of payloads from before versioning.
    pub legacy_secret: Option<Secret>,
}

impl SecretConfig {
    /// The secret of the current version, if there is one.
    pub fn current(&self) -> (r: Option<&Secret>)
        ensures
            match r {
                Some(s) => self.keys@.contains_key(self.current_version) && *s == self.keys@[self.current_version],
                None => !self.keys@.contains_key(self.current_version),
            },
    {
        self.keys.get(&self.current_version)
    }
}

/// Either a single secret (no versioning) or a versioned configuration.
#[derive(Clone)]
pub enum SecretSource {
    /// A single secret; ciphertexts carry no version envelope.
    Plain(Secret),
    /// Versioned secrets; ciphertexts carry the version envelope.
    Versioned(SecretConfig),
}

impl From<&str> for SecretSource {
    fn from(s: &str) -> (r: SecretSource)
        ensures
            r matches SecretSource::Plain(p) && p.text() == s@,
    {
        SecretSource::Plain(Secret::from(s))
    }
}

// As for `Secret`, the conversion from a `&str` states its result in its own `ensures`.
impl vstd::std_specs::convert::FromSpecImpl<&str> for SecretSource {
    open spec fn obeys_from_spec() -> bool {
        false
    }

    open spec fn from_spec(v: &str) -> SecretSource {
        arbitrary()
    }
}

impl From<String> for SecretSource {
    fn from(s: String) -> (r: SecretSource)
        ensures
            r matches SecretSource::Plain(p) && p.text() == s@,
    {
        SecretSource::Plain(Secret::from(s))
    }
}

impl vstd::std_specs::convert::FromSpecImpl<String> for SecretSource {
    open spec fn obeys_from_spec() -> bool {
        true
    }

    open spec fn from_spec(v: String) -> SecretSource {
        SecretSource::Plain(Secret::from_text(v))
    }
}

impl From<SecretConfig> for SecretSource {
    fn from(c: SecretConfig) -> (r: SecretSource)
        ensures
            r == SecretSource::Versioned(c),
    {
        SecretSource::Versioned(c)
    }
}

impl vstd::std_specs::convert::FromSpecImpl<SecretConfig> for SecretSource {
    open spec fn obeys_from_spec() -> bool {
        true
    }

    open spec fn from_spec(v: SecretConfig) -> SecretSource {
        SecretSource::Versioned(v)
    }
}

} // verus!
