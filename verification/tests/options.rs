use std::collections::BTreeMap;
use std::sync::Arc;

use better_auth_rs_core::secret::{Secret, SecretConfig, SecretSource};
use better_auth_rs_core::types::init_options::{
    BaseUrlProtocol, BetterAuthRateLimitRule, GenerateIdConfig, GenerateIdFn, GenerateIdInput,
    RateLimitStorageKind, StoreIdentifierOption,
};
use better_auth_rs_core::types::plugin::InitResult;
use better_auth_rs_core::utils::id::generate_id;

#[test]
fn rate_limit_rule_defaults() {
    let r = BetterAuthRateLimitRule::default();
    assert_eq!(r.window, 10);
    assert_eq!(r.max, 100);
}

#[test]
fn enum_defaults() {
    assert!(matches!(GenerateIdConfig::default(), GenerateIdConfig::Default));
    assert_eq!(BaseUrlProtocol::default(), BaseUrlProtocol::Auto);
    assert!(matches!(StoreIdentifierOption::default(), StoreIdentifierOption::Plain));
    assert_eq!(RateLimitStorageKind::default(), RateLimitStorageKind::Memory);
}

#[test]
fn generate_id_fn_returns_value_or_none() {
    let f: GenerateIdFn = Arc::new(|input| Some(format!("{}-id", input.model)));
    assert_eq!(
        f(GenerateIdInput { model: "user".to_owned(), size: None }),
        Some("user-id".to_owned())
    );
    // `false` (let the DB generate) -> None
    let db_gen: GenerateIdFn = Arc::new(|_| None);
    assert_eq!(db_gen(GenerateIdInput { model: "x".to_owned(), size: Some(8) }), None);
}

#[test]
fn init_result_default_is_empty() {
    let r = InitResult::default();
    assert!(r.context.is_none());
    assert!(r.options.is_none());
}

#[test]
fn default_length_is_32_and_alnum() {
    let id = generate_id(None);
    assert_eq!(id.len(), 32);
    assert!(id.chars().all(|c| c.is_ascii_alphanumeric()));
}

#[test]
fn honors_custom_size() {
    assert_eq!(generate_id(Some(8)).len(), 8);
    assert_eq!(generate_id(Some(64)).len(), 64);
    assert_eq!(generate_id(Some(0)).len(), 0);
}

#[test]
fn ids_are_distinct() {
    assert_ne!(generate_id(None), generate_id(None));
}

#[test]
fn secret_exposes_its_text_and_current_version_resolves() {
    let s = Secret::new("k1");
    assert_eq!(s.expose(), "k1");
    assert_eq!(Secret::from("k2".to_owned()).expose(), "k2");
    let mut keys = BTreeMap::new();
    keys.insert(1, Secret::new("old"));
    keys.insert(2, Secret::new("new"));
    let cfg = SecretConfig { current_version: 2, keys, legacy_secret: None };
    assert_eq!(cfg.current().map(Secret::expose), Some("new"));
    let missing = SecretConfig { current_version: 3, ..cfg.clone() };
    assert!(missing.current().is_none());
    assert!(matches!(SecretSource::from(cfg), SecretSource::Versioned(_)));
}

#[test]
fn secrets_from_str_and_string_hold_the_same_text() {
    assert!(Secret::new("k") == Secret::from("k"));
    assert!(Secret::from("k") == Secret::from("k".to_owned()));
    assert!(Secret::new("k") != Secret::new("j"));
    match SecretSource::from("k") {
        SecretSource::Plain(s) => assert_eq!(s.expose(), "k"),
        SecretSource::Versioned(_) => panic!("expected a plain secret"),
    }
    match SecretSource::from("k".to_owned()) {
        SecretSource::Plain(s) => assert_eq!(s.expose(), "k"),
        SecretSource::Versioned(_) => panic!("expected a plain secret"),
    }
}
