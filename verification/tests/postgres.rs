use better_auth_rs_core::db::adapter::{
    CountArgs, CreateArgs, DeleteArgs, FindManyArgs, FindOneArgs, IncrementOneArgs, MatchMode,
    NumericDelta, Row, SortBy, SortDirection, UpdateArgs, Where, WhereOperator, Connector,
};
use better_auth_rs_core::db::types::{
    DbFieldAttribute, DbFieldType, DbTableSchema, DbValue, FloatBits, Reference, ReferentialAction,
};
use better_auth_rs_core::postgres::ddl::{create_table_sql, quote_ident, schema_sql};
use better_auth_rs_core::postgres::dml::to_arg;
use better_auth_rs_core::postgres::query::SqlQuery;
use better_auth_rs_core::postgres::statements::{project, SqlxPostgresStatements};
use better_auth_rs_core::postgres::token::SqlArg;
use better_auth_rs_core::strmap::StrMap;
use better_auth_rs_core::test_utils::{test_schema, MODEL};

fn show(a: &SqlArg) -> String {
    match a {
        SqlArg::Null => "NULL".to_owned(),
        SqlArg::Bool(b) => format!("bool:{b}"),
        SqlArg::Int(i) => format!("int:{i}"),
        SqlArg::Float(f) => format!("float:{}", f64::from_bits(f.bits)),
        SqlArg::Text(s) => format!("text:{s}"),
        SqlArg::Timestamp(t) => format!("ts:{}", t.unix_nanos),
        SqlArg::Json(_) => "json".to_owned(),
        SqlArg::NumberList(ns) => format!("numbers:{}", ns.len()),
    }
}

fn render(q: SqlQuery) -> (String, Vec<String>) {
    let sql = q.sql();
    let args = q.into_args().iter().map(show).collect();
    (sql, args)
}

fn row(pairs: Vec<(&str, DbValue)>) -> Row {
    let mut r = StrMap::new();
    for (k, v) in pairs {
        r.insert(k.to_owned(), v);
    }
    r
}

fn stmts() -> SqlxPostgresStatements {
    SqlxPostgresStatements::new()
}

fn find_one(model: &str, conditions: Vec<Where>) -> FindOneArgs {
    FindOneArgs { model: model.to_owned(), conditions, select: None, join: None }
}

#[test]
fn quote_ident_doubles_quotes() {
    assert_eq!(quote_ident("user"), "\"user\"");
    assert_eq!(quote_ident("a\"b"), "\"a\"\"b\"");
    assert_eq!(quote_ident(""), "\"\"");
}

#[test]
fn create_table_for_the_conformance_schema() {
    let s = test_schema();
    let t = s.get(MODEL).unwrap();
    assert_eq!(
        create_table_sql(t),
        "CREATE TABLE IF NOT EXISTS \"ba_test\" (\n  \"id\" text PRIMARY KEY,\n  \"active\" boolean NOT NULL,\n  \"age\" integer NOT NULL,\n  \"name\" text NOT NULL,\n  \"tag\" text\n)"
    );
}

fn table(name: &str, order: Option<i64>) -> DbTableSchema {
    DbTableSchema { model_name: name.to_owned(), fields: StrMap::new(), disable_migrations: None, order }
}

#[test]
fn schema_statements_follow_explicit_order_then_name() {
    let mut s = StrMap::new();
    s.insert("a".to_owned(), table("a", None));
    s.insert("b".to_owned(), table("b", Some(2)));
    s.insert("c".to_owned(), table("c", None));
    s.insert("z".to_owned(), table("z", Some(1)));
    let names: Vec<String> = schema_sql(&s)
        .iter()
        .map(|stmt| stmt.split('"').nth(1).unwrap().to_owned())
        .collect();
    assert_eq!(names, vec!["z", "b", "a", "c"]);
}

fn referencing(name: &str, order: Option<i64>, target: &str) -> DbTableSchema {
    let mut t = table(name, order);
    let mut f = DbFieldAttribute::new(DbFieldType::String);
    f.config.references = Some(Reference {
        model: target.to_owned(),
        field: "id".to_owned(),
        on_delete: ReferentialAction::Cascade,
    });
    t.fields.insert(format!("{target}Id"), f);
    t
}

fn table_names(s: &StrMap<DbTableSchema>) -> Vec<String> {
    schema_sql(s).iter().map(|stmt| stmt.split('"').nth(1).unwrap().to_owned()).collect()
}

#[test]
fn foreign_key_targets_are_created_first() {
    let mut s = StrMap::new();
    s.insert("account".to_owned(), referencing("account", None, "user"));
    s.insert("user".to_owned(), table("user", None));
    assert_eq!(table_names(&s), vec!["user", "account"]);
}

#[test]
fn references_come_before_explicit_order() {
    let mut s = StrMap::new();
    s.insert("session".to_owned(), referencing("session", Some(1), "user"));
    s.insert("user".to_owned(), table("user", Some(2)));
    s.insert("verification".to_owned(), table("verification", Some(0)));
    assert_eq!(table_names(&s), vec!["verification", "user", "session"]);
}

#[test]
fn reference_cycles_fall_back_to_order_then_name() {
    let mut s = StrMap::new();
    s.insert("a".to_owned(), referencing("a", None, "b"));
    s.insert("b".to_owned(), referencing("b", None, "a"));
    s.insert("c".to_owned(), referencing("c", None, "a"));
    assert_eq!(table_names(&s), vec!["a", "b", "c"]);
}

#[test]
fn find_one_equality() {
    let (sql, args) = render(stmts().find_one(find_one("user", vec![Where::eq("email", "a@b.com")])));
    assert_eq!(sql, "SELECT * FROM \"user\" WHERE (\"email\" = $1) LIMIT 1");
    assert_eq!(args, vec!["text:a@b.com"]);
}

#[test]
fn case_insensitive_equality_lowercases_both_sides() {
    let w = Where::eq("email", "A@B.COM").with_mode(MatchMode::Insensitive);
    let (sql, args) = render(stmts().find_one(find_one("user", vec![w])));
    assert_eq!(sql, "SELECT * FROM \"user\" WHERE (LOWER(\"email\") = LOWER($1)) LIMIT 1");
    assert_eq!(args, vec!["text:A@B.COM"]);
}

#[test]
fn and_group_then_or_group() {
    let ws = vec![
        Where::eq("a", 1_i64),
        Where::eq("b", 2_i64).with_connector(Connector::Or),
        Where::eq("c", 3_i64),
        Where::eq("d", 4_i64).with_connector(Connector::Or),
    ];
    let (sql, args) = render(stmts().find_one(find_one("t", ws)));
    assert_eq!(
        sql,
        "SELECT * FROM \"t\" WHERE (\"a\" = $1 AND \"c\" = $2) AND (\"b\" = $3 OR \"d\" = $4) LIMIT 1"
    );
    assert_eq!(args, vec!["int:1", "int:3", "int:2", "int:4"]);
}

#[test]
fn only_or_conditions_open_the_clause() {
    let ws = vec![Where::eq("b", 2_i64).with_connector(Connector::Or)];
    let (sql, _) = render(stmts().find_one(find_one("t", ws)));
    assert_eq!(sql, "SELECT * FROM \"t\" WHERE (\"b\" = $1) LIMIT 1");
}

#[test]
fn null_comparisons_and_ordering_operators() {
    let ws = vec![
        Where::eq("tag", DbValue::Null),
        Where::new("x", WhereOperator::Ne, DbValue::Null),
        Where::new("n", WhereOperator::Gte, 5_i64),
        Where::new("m", WhereOperator::Ne, "v"),
    ];
    let (sql, args) = render(stmts().find_one(find_one("t", ws)));
    assert_eq!(
        sql,
        "SELECT * FROM \"t\" WHERE (\"tag\" IS NULL AND \"x\" IS NOT NULL AND \"n\" >= $1 AND \"m\" <> $2) LIMIT 1"
    );
    assert_eq!(args, vec!["int:5", "text:v"]);
}

#[test]
fn membership_lists() {
    let ws = vec![
        Where::new("id", WhereOperator::In, DbValue::StringArray(vec!["x".to_owned(), "y".to_owned()])),
        Where::new("k", WhereOperator::In, DbValue::StringArray(vec![])),
        Where::new("k", WhereOperator::NotIn, DbValue::StringArray(vec![])),
        Where::new("s", WhereOperator::In, "one"),
    ];
    let (sql, args) = render(stmts().find_one(find_one("t", ws)));
    assert_eq!(
        sql,
        "SELECT * FROM \"t\" WHERE (\"id\" IN ($1, $2) AND FALSE AND TRUE AND \"s\" IN ($3)) LIMIT 1"
    );
    assert_eq!(args, vec!["text:x", "text:y", "text:one"]);
}

#[test]
fn case_insensitive_membership_and_numbers() {
    let ws = vec![
        Where::new("id", WhereOperator::NotIn, DbValue::StringArray(vec!["X".to_owned()]))
            .with_mode(MatchMode::Insensitive),
        Where::new("n", WhereOperator::In, DbValue::NumberArray(vec![FloatBits { bits: 2.0_f64.to_bits() }]))
            .with_mode(MatchMode::Insensitive),
    ];
    let (sql, args) = render(stmts().find_one(find_one("t", ws)));
    assert_eq!(
        sql,
        "SELECT * FROM \"t\" WHERE (LOWER(\"id\") NOT IN (LOWER($1)) AND \"n\" IN ($2)) LIMIT 1"
    );
    assert_eq!(args, vec!["text:X", "float:2"]);
}

#[test]
fn pattern_matches() {
    let ws = vec![
        Where::new("name", WhereOperator::Contains, "ab"),
        Where::new("name", WhereOperator::StartsWith, "ab").with_mode(MatchMode::Insensitive),
        Where::new("name", WhereOperator::EndsWith, "ab"),
        Where::new("age", WhereOperator::Contains, 3_i64),
    ];
    let (sql, args) = render(stmts().find_one(find_one("t", ws)));
    assert_eq!(
        sql,
        "SELECT * FROM \"t\" WHERE (\"name\" LIKE $1 AND \"name\" ILIKE $2 AND \"name\" LIKE $3 AND FALSE) LIMIT 1"
    );
    assert_eq!(args, vec!["text:%ab%", "text:ab%", "text:%ab"]);
}

#[test]
fn list_values_bind_as_json_text() {
    let ws = vec![Where::eq("tags", DbValue::StringArray(vec!["a".to_owned(), "b\"c".to_owned()]))];
    let (_, args) = render(stmts().find_one(find_one("t", ws)));
    assert_eq!(args, vec!["text:[\"a\",\"b\\\"c\"]"]);
}

#[test]
fn find_many_with_selection_sort_limit_and_offset() {
    let args = FindManyArgs {
        model: MODEL.to_owned(),
        conditions: vec![Where::eq("active", true)],
        limit: Some(10),
        select: Some(vec!["name".to_owned(), "age".to_owned()]),
        sort_by: Some(SortBy { field: "age".to_owned(), direction: SortDirection::Desc }),
        offset: Some(5),
        join: None,
    };
    let (sql, binds) = render(stmts().find_many(args));
    assert_eq!(
        sql,
        "SELECT \"name\", \"age\" FROM \"ba_test\" WHERE (\"active\" = $1) ORDER BY \"age\" DESC LIMIT $2 OFFSET $3"
    );
    assert_eq!(binds, vec!["bool:true", "int:10", "int:5"]);
}

#[test]
fn count_and_plural_tables() {
    let (sql, _) = render(stmts().count(CountArgs { model: MODEL.to_owned(), conditions: vec![] }));
    assert_eq!(sql, "SELECT count(\"id\") FROM \"ba_test\"");
    let plural = stmts().with_plural(true);
    assert_eq!(plural.table("user"), "users");
    let (sql, _) = render(plural.count(CountArgs { model: "user".to_owned(), conditions: vec![] }));
    assert_eq!(sql, "SELECT count(\"id\") FROM \"users\"");
    assert_eq!(stmts().count_result(-3), 0);
    assert_eq!(stmts().count_result(7), 7);
}

#[test]
fn insert_replaces_id_and_skips_nulls() {
    let data = row(vec![("name", DbValue::from("Ann")), ("tag", DbValue::Null), ("id", DbValue::from("old"))]);
    let q = stmts().create_with_id(
        CreateArgs { model: "user".to_owned(), data, select: None },
        "new1".to_owned(),
    );
    let (sql, args) = render(q);
    assert_eq!(sql, "INSERT INTO \"user\" (\"id\", \"name\") VALUES ($1, $2) RETURNING *");
    assert_eq!(args, vec!["text:new1", "text:Ann"]);
}

#[test]
fn insert_generates_a_fresh_id() {
    let data = row(vec![("name", DbValue::from("Ann"))]);
    let q = stmts().create(CreateArgs { model: "user".to_owned(), data, select: None });
    let (sql, args) = render(q);
    assert_eq!(sql, "INSERT INTO \"user\" (\"id\", \"name\") VALUES ($1, $2) RETURNING *");
    let id = args[0].strip_prefix("text:").unwrap();
    assert_eq!(id.len(), 32);
    assert!(id.chars().all(|c| c.is_ascii_hexdigit() && !c.is_ascii_uppercase()));
}

#[test]
fn update_statements_and_their_no_op_cases() {
    let upd = |conditions: Vec<Where>, update: Row| UpdateArgs { model: "user".to_owned(), conditions, update };
    assert!(stmts().update(upd(vec![], row(vec![("name", DbValue::from("Bob"))]))).is_none());
    assert!(stmts().update(upd(vec![Where::eq("email", "a@b.com")], row(vec![]))).is_none());
    let q = stmts()
        .update(upd(
            vec![Where::eq("email", "a@b.com")],
            row(vec![("name", DbValue::from("Bob")), ("image", DbValue::Null)]),
        ))
        .unwrap();
    let (sql, args) = render(q);
    assert_eq!(sql, "UPDATE \"user\" SET \"image\" = NULL, \"name\" = $1 WHERE \"id\" IN (SELECT \"id\" FROM \"user\" WHERE (\"email\" = $2) LIMIT 1) RETURNING *");
    assert_eq!(args, vec!["text:Bob", "text:a@b.com"]);
    assert!(stmts().update_many(upd(vec![], row(vec![]))).is_none());
    let (sql, _) = render(stmts().update_many(upd(vec![], row(vec![("name", DbValue::from("Z"))]))).unwrap());
    assert_eq!(sql, "UPDATE \"user\" SET \"name\" = $1");
}

#[test]
fn delete_statements() {
    let del = |conditions: Vec<Where>| DeleteArgs { model: "user".to_owned(), conditions };
    assert!(stmts().delete(del(vec![])).is_none());
    let (sql, _) = render(stmts().delete(del(vec![Where::eq("id", "1")])).unwrap());
    assert_eq!(sql, "DELETE FROM \"user\" WHERE (\"id\" = $1)");
    let (sql, _) = render(stmts().delete_many(del(vec![])));
    assert_eq!(sql, "DELETE FROM \"user\"");
    let (sql, args) = render(stmts().consume_one(DeleteArgs {
        model: "verification".to_owned(),
        conditions: vec![Where::eq("value", "code")],
    }));
    assert_eq!(
        sql,
        "DELETE FROM \"verification\" WHERE \"id\" IN (SELECT \"id\" FROM \"verification\" WHERE (\"value\" = $1) LIMIT 1) RETURNING *"
    );
    assert_eq!(args, vec!["text:code"]);
}

#[test]
fn increment_one_statement() {
    let mut inc = StrMap::new();
    inc.insert("count".to_owned(), NumericDelta::Whole(1));
    inc.insert("score".to_owned(), NumericDelta::Fraction(FloatBits { bits: 0.5_f64.to_bits() }));
    let args = IncrementOneArgs {
        model: "rateLimit".to_owned(),
        conditions: vec![Where::eq("key", "k")],
        increment: inc,
        set: Some(row(vec![("lastRequest", DbValue::Int(5))])),
    };
    let (sql, binds) = render(stmts().increment_one(args).unwrap());
    assert_eq!(
        sql,
        "UPDATE \"rateLimit\" SET \"count\" = \"count\" + $1, \"score\" = \"score\" + $2, \"lastRequest\" = $3 WHERE \"id\" IN (SELECT \"id\" FROM \"rateLimit\" WHERE (\"key\" = $4) LIMIT 1) RETURNING *"
    );
    assert_eq!(binds, vec!["int:1", "float:0.5", "int:5", "text:k"]);
    let nothing = IncrementOneArgs {
        model: "rateLimit".to_owned(),
        conditions: vec![],
        increment: StrMap::new(),
        set: Some(StrMap::new()),
    };
    assert!(stmts().increment_one(nothing).is_none());
    let only_set = IncrementOneArgs {
        model: "t".to_owned(),
        conditions: vec![],
        increment: StrMap::new(),
        set: Some(row(vec![("x", DbValue::Null)])),
    };
    let (sql, _) = render(stmts().increment_one(only_set).unwrap());
    assert_eq!(sql, "UPDATE \"t\" SET \"x\" = NULL WHERE \"id\" IN (SELECT \"id\" FROM \"t\" LIMIT 1) RETURNING *");
}

#[test]
fn projection_keeps_selected_columns() {
    let r = row(vec![("a", DbValue::Int(1)), ("b", DbValue::Int(2)), ("c", DbValue::Int(3))]);
    let sel = vec!["c".to_owned(), "a".to_owned(), "zz".to_owned()];
    let p = project(r, Some(&sel));
    assert_eq!(p.len(), 2);
    assert_eq!(p.get("a"), Some(&DbValue::Int(1)));
    assert_eq!(p.get("c"), Some(&DbValue::Int(3)));
    assert!(p.get("b").is_none());
    let all = project(row(vec![("a", DbValue::Int(1))]), Some(&[]));
    assert_eq!(all.len(), 1);
    let none = project(row(vec![("a", DbValue::Int(1))]), None);
    assert_eq!(none.len(), 1);
}

#[test]
fn placeholders_count_past_nine() {
    let ws: Vec<Where> = (0..11).map(|i| Where::eq("n", i as i64)).collect();
    let (sql, args) = render(stmts().delete_many(DeleteArgs { model: "t".to_owned(), conditions: ws }));
    assert!(sql.ends_with("\"n\" = $9 AND \"n\" = $10 AND \"n\" = $11)"));
    assert_eq!(args.len(), 11);
    assert_eq!(args[10], "int:10");
}

#[test]
fn statement_text_does_not_depend_on_values() {
    let q1 = stmts().find_one(find_one(
        "user",
        vec![Where::eq("email", "a@b.com"), Where::new("name", WhereOperator::Contains, "x")],
    ));
    let q2 = stmts().find_one(find_one(
        "user",
        vec![
            Where::eq("email", "'; DROP TABLE \"user\"; --"),
            Where::new("name", WhereOperator::Contains, "%_\"'"),
        ],
    ));
    let (s1, a1) = render(q1);
    let (s2, a2) = render(q2);
    assert_eq!(s1, s2);
    assert_ne!(a1, a2);
}

#[test]
fn projecting_twice_is_projecting_once() {
    let r = row(vec![("a", DbValue::Int(1)), ("b", DbValue::Int(2))]);
    let sel = vec!["b".to_owned()];
    let once = project(r, Some(&sel));
    let twice = project(once.clone(), Some(&sel));
    assert_eq!(once, twice);
}

#[test]
fn string_lists_bind_as_escaped_json_text() {
    let items = vec!["a\"b".to_owned(), "c\\d".to_owned(), "\n\t\u{1}\u{1f}".to_owned(), "é/x".to_owned()];
    match to_arg(DbValue::StringArray(items)) {
        SqlArg::Text(t) => assert_eq!(t, "[\"a\\\"b\",\"c\\\\d\",\"\\n\\t\\u0001\\u001f\",\"é/x\"]"),
        other => panic!("unexpected {}", show(&other)),
    }
    match to_arg(DbValue::StringArray(vec![])) {
        SqlArg::Text(t) => assert_eq!(t, "[]"),
        other => panic!("unexpected {}", show(&other)),
    }
}
