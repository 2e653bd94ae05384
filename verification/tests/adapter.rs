use better_auth_rs_core::db::adapter::get_default_field_name::get_default_field_name;
use better_auth_rs_core::db::adapter::get_default_model_name::get_default_model_name;
use better_auth_rs_core::db::adapter::get_field_name::get_field_name;
use better_auth_rs_core::db::adapter::get_model_name::get_model_name;
use better_auth_rs_core::db::adapter::utils::{with_apply_default, ApplyAction, DefaultOutcome};
use better_auth_rs_core::db::adapter::{Connector, MatchMode, RelationType, Where, WhereOperator};
use better_auth_rs_core::db::json::{deepmerge, JsonNumber, JsonValue};
use better_auth_rs_core::db::types::{
    BetterAuthDbSchema, DbFieldAttribute, DbFieldType, DbTableSchema, DbValue, DefaultValue,
};
use better_auth_rs_core::strmap::StrMap;

fn schema() -> BetterAuthDbSchema {
    let mut fields = StrMap::new();
    fields.insert("email".to_owned(), DbFieldAttribute::new(DbFieldType::String));
    let mut display = DbFieldAttribute::new(DbFieldType::String);
    display.config.field_name = Some("display_name".to_owned());
    fields.insert("displayName".to_owned(), display);

    let mut s: BetterAuthDbSchema = StrMap::new();
    s.insert(
        "user".to_owned(),
        DbTableSchema {
            model_name: "app_user".to_owned(),
            fields,
            disable_migrations: None,
            order: None,
        },
    );
    s
}

#[test]
fn default_model_name_by_key_custom_and_plural() {
    let s = schema();
    assert_eq!(get_default_model_name(&s, false, "user").unwrap(), "user");
    assert_eq!(get_default_model_name(&s, false, "app_user").unwrap(), "user");
    assert_eq!(get_default_model_name(&s, true, "users").unwrap(), "user");
    assert!(get_default_model_name(&s, false, "nope").is_err());
}

#[test]
fn default_field_name_id_key_and_field_name_override() {
    let s = schema();
    assert_eq!(get_default_field_name(&s, false, "user", "id").unwrap(), "id");
    assert_eq!(get_default_field_name(&s, false, "user", "_id").unwrap(), "id");
    assert_eq!(get_default_field_name(&s, false, "user", "email").unwrap(), "email");
    assert_eq!(
        get_default_field_name(&s, false, "user", "display_name").unwrap(),
        "displayName"
    );
    assert!(get_default_field_name(&s, false, "user", "nope").is_err());
}

#[test]
fn field_name_returns_db_column() {
    let s = schema();
    assert_eq!(get_field_name(&s, false, "user", "displayName").unwrap(), "display_name");
    assert_eq!(get_field_name(&s, false, "user", "email").unwrap(), "email");
    assert_eq!(get_field_name(&s, false, "user", "id").unwrap(), "id");
}

#[test]
fn model_name_custom_and_plural() {
    let s = schema();
    assert_eq!(get_model_name(&s, false, "user").unwrap(), "app_user");
    assert_eq!(get_model_name(&s, true, "user").unwrap(), "app_users");
}

#[test]
fn unknown_model_error_names_the_model() {
    let s = schema();
    let e = get_default_model_name(&s, false, "nope").unwrap_err();
    assert!(e.message.contains("nope"));
}

#[test]
fn where_constructors_and_defaults() {
    let w = Where::eq("email", "a@b.com");
    assert_eq!(w.field, "email");
    assert_eq!(w.operator, WhereOperator::Eq);
    assert_eq!(w.connector, Connector::And);
    assert_eq!(w.mode, MatchMode::Sensitive);

    let w2 = Where::new("count", WhereOperator::Gt, 0_i64)
        .with_connector(Connector::Or)
        .with_mode(MatchMode::Insensitive);
    assert_eq!(w2.operator, WhereOperator::Gt);
    assert_eq!(w2.connector, Connector::Or);
    assert_eq!(w2.mode, MatchMode::Insensitive);
    assert_eq!(w2.value, DbValue::Int(0));
}

#[test]
fn operator_and_relation_defaults() {
    assert_eq!(WhereOperator::default(), WhereOperator::Eq);
    assert_eq!(Connector::default(), Connector::And);
    assert_eq!(MatchMode::default(), MatchMode::Sensitive);
    assert_eq!(RelationType::default(), RelationType::OneToMany);
}

#[test]
fn create_applies_default_value_when_missing() {
    let mut f = DbFieldAttribute::new(DbFieldType::String);
    f.config.default_value = Some(DefaultValue::Static(DbValue::from("d")));
    // undefined (None) -> default applied
    assert_eq!(
        with_apply_default(None, &f, ApplyAction::Create),
        DefaultOutcome::Value(Some(DbValue::from("d")))
    );
    // a provided value is kept
    assert_eq!(
        with_apply_default(Some(DbValue::from("x")), &f, ApplyAction::Create),
        DefaultOutcome::Value(Some(DbValue::from("x")))
    );
}

#[test]
fn create_applies_default_for_null_only_when_strictly_required() {
    let mut f = DbFieldAttribute::new(DbFieldType::String);
    f.config.default_value = Some(DefaultValue::Static(DbValue::from("d")));
    // null + not strictly required -> null kept (no default)
    assert_eq!(
        with_apply_default(Some(DbValue::Null), &f, ApplyAction::Create),
        DefaultOutcome::Value(Some(DbValue::Null))
    );
    // null + strictly required -> default applied
    f.config.required = Some(true);
    assert_eq!(
        with_apply_default(Some(DbValue::Null), &f, ApplyAction::Create),
        DefaultOutcome::Value(Some(DbValue::from("d")))
    );
}

#[test]
fn update_applies_on_update_when_missing() {
    let mut f = DbFieldAttribute::new(DbFieldType::Date);
    f.config.on_update = true;
    assert_eq!(with_apply_default(None, &f, ApplyAction::Update), DefaultOutcome::ApplyOnUpdate);
    // a provided value is kept
    assert_eq!(
        with_apply_default(Some(DbValue::from("x")), &f, ApplyAction::Update),
        DefaultOutcome::Value(Some(DbValue::from("x")))
    );
    // find actions never change the value
    assert_eq!(with_apply_default(None, &f, ApplyAction::FindOne), DefaultOutcome::Value(None));
}

#[test]
fn missing_value_without_default_stays_missing() {
    let mut f = DbFieldAttribute::new(DbFieldType::String);
    assert_eq!(with_apply_default(None, &f, ApplyAction::Create), DefaultOutcome::Value(None));
    f.config.default_value = Some(DefaultValue::Generator);
    assert_eq!(with_apply_default(None, &f, ApplyAction::Update), DefaultOutcome::Value(None));
    assert_eq!(with_apply_default(None, &f, ApplyAction::Create), DefaultOutcome::GenerateDefault);
}

fn num(n: i64) -> JsonValue {
    JsonValue::Number(JsonNumber { text: n.to_string() })
}

fn arr(items: Vec<JsonValue>) -> JsonValue {
    JsonValue::Array(items)
}

fn obj(members: Vec<(&str, JsonValue)>) -> JsonValue {
    let mut m = StrMap::new();
    for (k, v) in members {
        m.insert(k.to_owned(), v);
    }
    JsonValue::Object(m)
}

#[test]
fn deepmerge_concatenates_arrays_merges_objects_overrides_primitives() {
    // arrays concatenate
    assert_eq!(
        deepmerge(arr(vec![num(1), num(2)]), arr(vec![num(3)])),
        arr(vec![num(1), num(2), num(3)])
    );
    // objects merge recursively
    assert_eq!(
        deepmerge(
            obj(vec![("a", obj(vec![("x", num(1))])), ("b", num(2))]),
            obj(vec![("a", obj(vec![("y", num(3))])), ("c", num(4))])
        ),
        obj(vec![("a", obj(vec![("x", num(1)), ("y", num(3))])), ("b", num(2)), ("c", num(4))])
    );
    // primitives: source overrides
    assert_eq!(deepmerge(num(1), JsonValue::String("two".to_owned())), JsonValue::String("two".to_owned()));
}

#[test]
fn deepmerge_mixed_kinds_take_the_source() {
    assert_eq!(deepmerge(arr(vec![num(1)]), obj(vec![])), obj(vec![]));
    assert_eq!(deepmerge(obj(vec![("a", num(1))]), arr(vec![])), arr(vec![]));
    assert_eq!(
        deepmerge(obj(vec![("a", num(1))]), obj(vec![("a", JsonValue::Null)])),
        obj(vec![("a", JsonValue::Null)])
    );
}

#[test]
fn deepmerge_with_empty_source_keeps_target() {
    let target = obj(vec![("a", num(1)), ("b", arr(vec![num(2)]))]);
    assert_eq!(deepmerge(target.clone(), obj(vec![])), target);
    assert_eq!(deepmerge(arr(vec![num(1)]), arr(vec![])), arr(vec![num(1)]));
}

#[test]
fn json_clone_copies_nested_values() {
    let v = obj(vec![
        ("a", arr(vec![num(1), JsonValue::String("x".to_owned()), JsonValue::Null])),
        ("b", obj(vec![("c", JsonValue::Bool(true))])),
    ]);
    assert_eq!(v.clone(), v);
}
