use better_auth_rs_core::db::schema::User;
use better_auth_rs_core::db::types::{
    BaseModel, DbFieldAttribute, DbFieldType, DbValue, FloatBits, ReferentialAction, Timestamp,
};

#[test]
fn db_value_from_and_accessors() {
    assert_eq!(DbValue::from("hi").as_str(), Some("hi"));
    assert_eq!(DbValue::from(String::from("hey")).as_str(), Some("hey"));
    assert_eq!(DbValue::from(7_i64).as_i64(), Some(7));
    assert_eq!(DbValue::from(true).as_bool(), Some(true));
    let one_and_a_half = FloatBits { bits: 1.5_f64.to_bits() };
    assert_eq!(
        DbValue::from(one_and_a_half).as_float_bits().map(|f| f64::from_bits(f.bits)),
        Some(1.5)
    );
    assert!(DbValue::from(one_and_a_half).as_i64().is_none());
    assert!(DbValue::Null.is_null());
    assert!(DbValue::from(None::<String>).is_null());
    assert_eq!(DbValue::from(Some("x")).as_str(), Some("x"));
}

#[test]
fn db_value_dates_round_trip_through_accessor() {
    let t = Timestamp { unix_nanos: 1_704_164_645_000_000_000, offset_seconds: 0 };
    assert_eq!(DbValue::from(t).as_date(), Some(t));
    assert_eq!(DbValue::from("x").as_date(), None);
    assert_eq!(DbValue::text("abc"), DbValue::String("abc".to_owned()));
}

#[test]
fn field_attribute_new_has_empty_config() {
    let f = DbFieldAttribute::new(DbFieldType::String);
    assert_eq!(f.field_type, DbFieldType::String);
    assert!(f.config.required.is_none());
    assert!(f.config.default_value.is_none());
    assert!(f.config.references.is_none());
}

#[test]
fn enum_field_type_carries_values() {
    let t = DbFieldType::Enum(vec!["a".to_owned(), "b".to_owned()]);
    assert_eq!(t, DbFieldType::Enum(vec!["a".to_owned(), "b".to_owned()]));
    assert_ne!(t, DbFieldType::String);
}

#[test]
fn referential_action_defaults_to_cascade() {
    assert_eq!(ReferentialAction::default(), ReferentialAction::Cascade);
}

#[test]
fn base_model_names() {
    assert_eq!(BaseModel::User.as_str(), "user");
    assert_eq!(
        BaseModel::ALL.map(BaseModel::as_str),
        ["user", "account", "session", "verification"]
    );
}

#[test]
fn new_lowercases_email_and_applies_defaults() {
    let u = User::new("u1", "Foo@Example.COM", "Foo Bar");
    assert_eq!(u.core.id, "u1");
    assert_eq!(u.email, "foo@example.com");
    assert!(!u.email_verified);
    assert_eq!(u.name, "Foo Bar");
    assert!(u.image.is_none());
    assert_eq!(u.core.created_at, u.core.updated_at);
}

#[test]
fn new_user_is_created_in_utc() {
    let u = User::new("u2", "a@b.com", "A");
    assert_eq!(u.core.created_at.offset_seconds, 0);
    assert!(u.core.created_at.unix_nanos > 0);
}

#[test]
fn floats_compare_as_numbers() {
    let f = |x: f64| FloatBits { bits: x.to_bits() };
    assert_eq!(f(0.0), f(-0.0));
    assert_ne!(f(f64::NAN), f(f64::NAN));
    assert_eq!(f(1.5), f(1.5));
    assert_ne!(f(1.5), f(2.5));
    assert_eq!(DbValue::Float(f(0.0)), DbValue::Float(f(-0.0)));
    assert_ne!(DbValue::Float(f(f64::NAN)), DbValue::Float(f(f64::NAN)));
}

#[test]
fn date_times_compare_as_instants() {
    let a = Timestamp { unix_nanos: 1_000, offset_seconds: 0 };
    let b = Timestamp { unix_nanos: 1_000, offset_seconds: 3_600 };
    let c = Timestamp { unix_nanos: 2_000, offset_seconds: 0 };
    assert_eq!(a, b);
    assert_ne!(a, c);
    assert_eq!(DbValue::Date(a), DbValue::Date(b));
}

#[test]
fn db_value_clone_is_equal() {
    let v = DbValue::StringArray(vec!["a".to_owned(), "b".to_owned()]);
    assert_eq!(v.clone(), v);
    let w = DbValue::from("x");
    assert_eq!(w.clone(), w);
}
