//! The statements of the adapter operations: bound values, `WHERE` clauses, column lists,
//! `SET` lists, and the `INSERT`, `SELECT`, `UPDATE` and `DELETE` statements built from them.
//!
//! Values are always bound as parameters, never written into the text. Conditions with the
//! `AND` connector form one group and those with `OR` another, combined as
//! `(AND group) AND (OR group)`. Case-insensitive matching uses `ILIKE` for the substring
//! operators and `LOWER(column) = LOWER($n)` for equality and membership.

use vstd::prelude::*;
use vstd::string::*;
use crate::db::adapter::{Connector, MatchMode, Where, WhereOperator};
use crate::db::types::DbValue;
use crate::db::adapter::Row;
use crate::strmap::sorted_keys;
use crate::postgres::ddl::{quote_ident, quoted};
use crate::postgres::query::{
    lemma_one_param_sql, lemma_plain_sql, lemma_skeleton_concat, lemma_skeleton_param, lemma_text_tokens_concat, param,
    params_of, skeleton, sql_text, text_tokens, SqlQuery,
};
use crate::postgres::token::{ArgView, SqlArg, SqlToken};

verus! {

/// A hexadecimal digit in lowercase.
pub open spec fn hex_digit(n: int) -> char {
    if n < 10 {
        ('0' as int + n) as char
    } else {
        ('a' as int + n - 10) as char
    }
}

/// One character inside a JSON string as `serde_json` writes it: `"` and `\` behind a backslash;
/// the control characters below U+0020 as `\b`, `\t`, `\n`, `\f`, `\r`, or else `\u00` and two
/// lowercase hexadecimal digits; every other character as itself.
pub open spec fn json_escape_char(c: char) -> Seq<char> {
    let n = c as int;
    if c == '"' {
        seq!['\\', '"']
    } else if c == '\\' {
        seq!['\\', '\\']
    } else if n == 8 {
        seq!['\\', 'b']
    } else if n == 9 {
        seq!['\\', 't']
    } else if n == 10 {
        seq!['\\', 'n']
    } else if n == 12 {
        seq!['\\', 'f']
    } else if n == 13 {
        seq!['\\', 'r']
    } else if n < 32 {
        seq!['\\', 'u', '0', '0', hex_digit(n / 16), hex_digit(n % 16)]
    } else {
        seq![c]
    }
}

/// The characters of a text inside a JSON string.
pub open spec fn json_escape(s: Seq<char>) -> Seq<char>
    decreases s.len(),
{
    if s.len() == 0 {
        Seq::empty()
    } else {
        json_escape(s.drop_last()) + json_escape_char(s.last())
    }
}

/// The strings of a list as JSON strings, separated by commas.
pub open spec fn json_string_items(items: Seq<Seq<char>>) -> Seq<char>
    decreases items.len(),
{
    if items.len() == 0 {
        Seq::empty()
    } else {
        json_string_items(items.drop_last()) + (if items.len() > 1 { ","@ } else { Seq::empty() }) + "\""@
            + json_escape(items.last()) + "\""@
    }
}

/// The compact JSON array text of a list of strings.
pub open spec fn json_string_list(items: Seq<Seq<char>>) -> Seq<char> {
    "["@ + json_string_items(items) + "]"@
}

/// Serializes a list of strings with `serde_json::to_string`. The contract claims what its
/// source shows: a list of strings always serializes, compactly, as a JSON array of JSON
/// strings, escaped as [`json_escape_char`] says.
#[verifier::external_body]
fn string_list_json(items: &Vec<String>) -> (r: Option<String>)
    ensures
        r is Some,
        r->Some_0@ == json_string_list(items.deep_view()),
{
    serde_json::to_string(items).ok()
}

/// The parameter a value binds as. Lists bind as JSON array text (the columns store them as
/// text); `NULL` binds as a typed null.
pub open spec fn bound(v: DbValue) -> ArgView {
    match v {
        DbValue::Null => ArgView::Null,
        DbValue::String(s) => ArgView::Text(s@),
        DbValue::Bool(b) => ArgView::Bool(b),
        DbValue::Int(i) => ArgView::Int(i),
        DbValue::Float(f) => ArgView::Float(f),
        DbValue::Date(t) => ArgView::Timestamp(t),
        DbValue::StringArray(items) => ArgView::Text(json_string_list(items.deep_view())),
        DbValue::NumberArray(ns) => ArgView::NumberList(ns@),
        DbValue::Json(j) => ArgView::Json(j),
    }
}

/// The parameter a value binds as.
pub fn to_arg(v: DbValue) -> (a: SqlArg)
    ensures
        a@ == bound(v),
{
    match v {
        DbValue::Null => SqlArg::Null,
        DbValue::String(s) => SqlArg::Text(s),
        DbValue::Bool(b) => SqlArg::Bool(b),
        DbValue::Int(i) => SqlArg::Int(i),
        DbValue::Float(f) => SqlArg::Float(f),
        DbValue::Date(t) => SqlArg::Timestamp(t),
        DbValue::StringArray(items) => {
            let text = match string_list_json(&items) {
                Some(t) => t,
                None => String::from_str("[]"),
            };
            SqlArg::Text(text)
        },
        DbValue::NumberArray(ns) => SqlArg::NumberList(ns),
        DbValue::Json(j) => SqlArg::Json(j),
    }
}

/// Bind a value as the next parameter.
pub fn bind_value(q: &mut SqlQuery, v: DbValue)
    ensures
        final(q).tokens() == old(q).tokens() + param(bound(v)),
{
    q.push_bind(to_arg(v));
}

/// The tokens of a quoted column name.
pub open spec fn column_tokens(field: Seq<char>) -> Seq<SqlToken> {
    text_tokens(quoted(field))
}

/// The text parameter of a string.
pub open spec fn text_arg(s: String) -> ArgView {
    ArgView::Text(s@)
}

/// The float parameter of a number.
pub open spec fn float_arg(f: crate::db::types::FloatBits) -> ArgView {
    ArgView::Float(f)
}

/// The text parameters of a list of strings.
pub open spec fn text_args(items: Seq<String>) -> Seq<ArgView>
    decreases items.len(),
{
    if items.len() == 0 {
        Seq::empty()
    } else {
        text_args(items.drop_last()).push(text_arg(items.last()))
    }
}

/// The float parameters of a list of numbers.
pub open spec fn float_args(items: Seq<crate::db::types::FloatBits>) -> Seq<ArgView>
    decreases items.len(),
{
    if items.len() == 0 {
        Seq::empty()
    } else {
        float_args(items.drop_last()).push(float_arg(items.last()))
    }
}

/// The members of an `IN` list: each element of a list value, or the value itself.
pub open spec fn in_items(v: DbValue) -> Seq<ArgView> {
    match v {
        DbValue::StringArray(a) => text_args(a@),
        DbValue::NumberArray(ns) => float_args(ns@),
        _ => seq![bound(v)],
    }
}

/// Whether an `IN` list compares lower-cased: only case-insensitively, and only when every
/// member is a string.
pub open spec fn in_lowered(v: DbValue, insensitive: bool) -> bool {
    insensitive && (v is StringArray || v is String)
}

/// One member of an `IN` list.
pub open spec fn in_member(a: ArgView, lower: bool) -> Seq<SqlToken> {
    if lower {
        text_tokens("LOWER("@) + param(a) + text_tokens(")"@)
    } else {
        param(a)
    }
}

/// The members of an `IN` list, separated by `, `.
pub open spec fn in_list(items: Seq<ArgView>, lower: bool) -> Seq<SqlToken>
    decreases items.len(),
{
    if items.len() == 0 {
        Seq::empty()
    } else {
        in_list(items.drop_last(), lower) + (if items.len() > 1 {
            text_tokens(", "@)
        } else {
            Seq::empty()
        }) + in_member(items.last(), lower)
    }
}

/// A membership test. An empty list is `FALSE` (`TRUE` when negated).
pub open spec fn in_tokens(col: Seq<SqlToken>, v: DbValue, negate: bool, insensitive: bool) -> Seq<SqlToken> {
    let items = in_items(v);
    let lower = in_lowered(v, insensitive);
    if items.len() == 0 {
        text_tokens(if negate { "TRUE"@ } else { "FALSE"@ })
    } else {
        (if lower { text_tokens("LOWER("@) + col + text_tokens(")"@) } else { col })
            + text_tokens(if negate { " NOT IN ("@ } else { " IN ("@ }) + in_list(items, lower)
            + text_tokens(")"@)
    }
}

/// A pattern match: the string between `prefix` and `suffix`, matched with `LIKE` (`ILIKE`
/// case-insensitively). A value that is not a string matches nothing: `FALSE`.
pub open spec fn like_tokens(
    col: Seq<SqlToken>,
    v: DbValue,
    insensitive: bool,
    prefix: Seq<char>,
    suffix: Seq<char>,
) -> Seq<SqlToken> {
    match v {
        DbValue::String(s) => col + text_tokens(if insensitive { " ILIKE "@ } else { " LIKE "@ })
            + param(ArgView::Text(prefix + s@ + suffix)),
        _ => text_tokens("FALSE"@),
    }
}

/// A comparison of the column with a bound value.
pub open spec fn compare_tokens(col: Seq<SqlToken>, op: Seq<char>, v: DbValue) -> Seq<SqlToken> {
    col + text_tokens(op) + param(bound(v))
}

/// A comparison of the lower-cased column with the lower-cased bound value.
pub open spec fn lowered_compare_tokens(col: Seq<SqlToken>, op: Seq<char>, v: DbValue) -> Seq<SqlToken> {
    text_tokens("LOWER("@) + col + text_tokens(op) + param(bound(v)) + text_tokens(")"@)
}

/// One condition.
pub open spec fn condition_tokens(c: Where) -> Seq<SqlToken> {
    let col = column_tokens(c.field@);
    let insensitive = c.mode == MatchMode::Insensitive;
    match c.operator {
        WhereOperator::Eq => if c.value is Null {
            col + text_tokens(" IS NULL"@)
        } else if insensitive && c.value is String {
            lowered_compare_tokens(col, ") = LOWER("@, c.value)
        } else {
            compare_tokens(col, " = "@, c.value)
        },
        WhereOperator::Ne => if c.value is Null {
            col + text_tokens(" IS NOT NULL"@)
        } else if insensitive && c.value is String {
            lowered_compare_tokens(col, ") <> LOWER("@, c.value)
        } else {
            compare_tokens(col, " <> "@, c.value)
        },
        WhereOperator::Lt => compare_tokens(col, " < "@, c.value),
        WhereOperator::Lte => compare_tokens(col, " <= "@, c.value),
        WhereOperator::Gt => compare_tokens(col, " > "@, c.value),
        WhereOperator::Gte => compare_tokens(col, " >= "@, c.value),
        WhereOperator::In => in_tokens(col, c.value, false, insensitive),
        WhereOperator::NotIn => in_tokens(col, c.value, true, insensitive),
        WhereOperator::Contains => like_tokens(col, c.value, insensitive, "%"@, "%"@),
        WhereOperator::StartsWith => like_tokens(col, c.value, insensitive, ""@, "%"@),
        WhereOperator::EndsWith => like_tokens(col, c.value, insensitive, "%"@, ""@),
    }
}

/// The text parameters of a list of strings, one per string.
pub proof fn lemma_text_args(items: Seq<String>)
    ensures
        text_args(items).len() == items.len(),
        forall|j: int| 0 <= j < items.len() ==> #[trigger] text_args(items)[j] == text_arg(items[j]),
    decreases items.len(),
{
    if items.len() > 0 {
        lemma_text_args(items.drop_last());
    }
}

/// The float parameters of a list of numbers, one per number.
pub proof fn lemma_float_args(items: Seq<crate::db::types::FloatBits>)
    ensures
        float_args(items).len() == items.len(),
        forall|j: int| 0 <= j < items.len() ==> #[trigger] float_args(items)[j] == float_arg(items[j]),
    decreases items.len(),
{
    if items.len() > 0 {
        lemma_float_args(items.drop_last());
    }
}

/// The members of an `IN` list for a value, as parameters.
fn in_members(v: DbValue) -> (items: Vec<SqlArg>)
    ensures
        items@.len() == in_items(v).len(),
        forall|j: int| 0 <= j < items@.len() ==> (#[trigger] items@[j])@ == in_items(v)[j],
{
    let ghost v0 = v;
    let mut items: Vec<SqlArg> = Vec::new();
    match v {
        DbValue::StringArray(a) => {
            let ghost all = a@;
            let total = a.len();
            proof {
                lemma_text_args(all);
            }
            let mut rest = a;
            let mut i: usize = 0;
            while rest.len() > 0
                invariant
                    v0 == DbValue::StringArray(a),
                    all == a@,
                    all.len() == total,
                    text_args(all).len() == all.len(),
                    forall|j: int| 0 <= j < all.len() ==> #[trigger] text_args(all)[j] == text_arg(all[j]),
                    i <= all.len(),
                    rest@ == all.subrange(i as int, all.len() as int),
                    items@.len() == i,
                    forall|j: int| 0 <= j < i ==> (#[trigger] items@[j])@ == text_args(all)[j],
                decreases rest.len(),
            {
                let s = rest.remove(0);
                assert(s == all[i as int]);
                items.push(SqlArg::Text(s));
                i += 1;
            }
        },
        DbValue::NumberArray(ns) => {
            let ghost all = ns@;
            let total = ns.len();
            proof {
                lemma_float_args(all);
            }
            let mut rest = ns;
            let mut i: usize = 0;
            while rest.len() > 0
                invariant
                    v0 == DbValue::NumberArray(ns),
                    all == ns@,
                    all.len() == total,
                    float_args(all).len() == all.len(),
                    forall|j: int| 0 <= j < all.len() ==> #[trigger] float_args(all)[j] == float_arg(all[j]),
                    i <= all.len(),
                    rest@ == all.subrange(i as int, all.len() as int),
                    items@.len() == i,
                    forall|j: int| 0 <= j < i ==> (#[trigger] items@[j])@ == float_args(all)[j],
                decreases rest.len(),
            {
                let f = rest.remove(0);
                assert(f == all[i as int]);
                items.push(SqlArg::Float(f));
                i += 1;
            }
        },
        other => {
            items.push(to_arg(other));
        },
    }
    items
}

/// Append a membership test of column `col` against a value: each element of a list value, or
/// the value itself.
pub fn push_in(q: &mut SqlQuery, col: &str, value: DbValue, negate: bool, insensitive: bool)
    ensures
        final(q).tokens() == old(q).tokens() + in_tokens(text_tokens(col@), value, negate, insensitive),
{
    let ghost v0 = value;
    let ghost base = q.tokens();
    let lower = insensitive && match &value {
        DbValue::StringArray(_) => true,
        DbValue::String(_) => true,
        _ => false,
    };
    let mut items = in_members(value);
    let ghost views = in_items(v0);
    if items.len() == 0 {
        q.push(if negate { "TRUE" } else { "FALSE" });
        return;
    }
    if lower {
        q.push("LOWER(");
        q.push(col);
        q.push(")");
    } else {
        q.push(col);
    }
    q.push(if negate { " NOT IN (" } else { " IN (" });
    let ghost head = q.tokens();
    let n = items.len();
    let mut i: usize = 0;
    while i < n
        invariant
            n == views.len(),
            i <= n,
            items@.len() == n - i,
            forall|j: int| 0 <= j < items@.len() ==> (#[trigger] items@[j])@ == views[j + i],
            q.tokens() == head + in_list(views.take(i as int), lower),
        decreases n - i,
    {
        let a = items.remove(0);
        proof {
            assert(a@ == views[i as int]);
            assert(views.take(i + 1).drop_last() =~= views.take(i as int));
        }
        if i > 0 {
            q.push(", ");
        }
        if lower {
            q.push("LOWER(");
            q.push_bind(a);
            q.push(")");
        } else {
            q.push_bind(a);
        }
        i += 1;
        proof {
            assert(q.tokens() =~= head + in_list(views.take(i as int), lower));
        }
    }
    q.push(")");
    proof {
        assert(views.take(n as int) =~= views);
        assert(q.tokens() =~= base + in_tokens(text_tokens(col@), v0, negate, insensitive));
    }
}

/// Append a pattern match of column `col`: the string value between `prefix` and `suffix`, with
/// `LIKE` (`ILIKE` case-insensitively). A value that is not a string appends `FALSE`.
pub fn push_like(q: &mut SqlQuery, col: &str, value: DbValue, insensitive: bool, prefix: &str, suffix: &str)
    ensures
        final(q).tokens() == old(q).tokens() + like_tokens(text_tokens(col@), value, insensitive, prefix@, suffix@),
{
    let ghost base = q.tokens();
    let ghost v0 = value;
    match value {
        DbValue::String(s) => {
            let mut bound_text = String::from_str(prefix);
            bound_text.append(s.as_str());
            bound_text.append(suffix);
            q.push(col);
            q.push(if insensitive { " ILIKE " } else { " LIKE " });
            q.push_bind(SqlArg::Text(bound_text));
            proof {
                assert(q.tokens() =~= base + like_tokens(text_tokens(col@), v0, insensitive, prefix@, suffix@));
            }
        },
        _ => {
            q.push("FALSE");
        },
    }
}

/// Append a comparison of column `col` with a bound value.
fn push_compare(q: &mut SqlQuery, col: &str, op: &str, v: DbValue)
    ensures
        final(q).tokens() == old(q).tokens() + compare_tokens(text_tokens(col@), op@, v),
{
    let ghost base = q.tokens();
    let ghost v0 = v;
    q.push(col);
    q.push(op);
    bind_value(q, v);
    proof {
        assert(q.tokens() =~= base + compare_tokens(text_tokens(col@), op@, v0));
    }
}

/// Append a comparison of the lower-cased column `col` with the lower-cased bound value.
fn push_lowered_compare(q: &mut SqlQuery, col: &str, op: &str, v: DbValue)
    ensures
        final(q).tokens() == old(q).tokens() + lowered_compare_tokens(text_tokens(col@), op@, v),
{
    let ghost base = q.tokens();
    let ghost v0 = v;
    q.push("LOWER(");
    q.push(col);
    q.push(op);
    bind_value(q, v);
    q.push(")");
    proof {
        assert(q.tokens() =~= base + lowered_compare_tokens(text_tokens(col@), op@, v0));
    }
}

/// Append a column test against `NULL`: the column, then the test.
fn push_null_test(q: &mut SqlQuery, col: &str, test: &str)
    ensures
        final(q).tokens() == old(q).tokens() + text_tokens(col@) + text_tokens(test@),
{
    q.push(col);
    q.push(test);
}

/// Append one condition.
pub fn push_condition(q: &mut SqlQuery, c: Where)
    ensures
        final(q).tokens() == old(q).tokens() + condition_tokens(c),
{
    let ghost c0 = c;
    let ghost base = q.tokens();
    let Where { field, value, operator, connector: _, mode } = c;
    let col = quote_ident(field.as_str());
    let insensitive = match mode {
        MatchMode::Insensitive => true,
        MatchMode::Sensitive => false,
    };
    let is_null = value.is_null();
    let is_string = match &value {
        DbValue::String(_) => true,
        _ => false,
    };
    let cs = col.as_str();
    match operator {
        WhereOperator::Eq => if is_null {
            push_null_test(q, cs, " IS NULL");
        } else if insensitive && is_string {
            push_lowered_compare(q, cs, ") = LOWER(", value);
        } else {
            push_compare(q, cs, " = ", value);
        },
        WhereOperator::Ne => if is_null {
            push_null_test(q, cs, " IS NOT NULL");
        } else if insensitive && is_string {
            push_lowered_compare(q, cs, ") <> LOWER(", value);
        } else {
            push_compare(q, cs, " <> ", value);
        },
        WhereOperator::Lt => push_compare(q, cs, " < ", value),
        WhereOperator::Lte => push_compare(q, cs, " <= ", value),
        WhereOperator::Gt => push_compare(q, cs, " > ", value),
        WhereOperator::Gte => push_compare(q, cs, " >= ", value),
        WhereOperator::In => push_in(q, cs, value, false, insensitive),
        WhereOperator::NotIn => push_in(q, cs, value, true, insensitive),
        WhereOperator::Contains => push_like(q, cs, value, insensitive, "%", "%"),
        WhereOperator::StartsWith => push_like(q, cs, value, insensitive, "", "%"),
        WhereOperator::EndsWith => push_like(q, cs, value, insensitive, "%", ""),
    }
    proof {
        assert(q.tokens() =~= base + condition_tokens(c0));
    }
}

/// The conditions with connector `k`, in their order.
pub open spec fn with_connector(ws: Seq<Where>, k: Connector) -> Seq<Where>
    decreases ws.len(),
{
    if ws.len() == 0 {
        Seq::empty()
    } else {
        let r = with_connector(ws.drop_last(), k);
        if ws.last().connector == k {
            r.push(ws.last())
        } else {
            r
        }
    }
}

/// Conditions separated by `sep`.
pub open spec fn joined_conditions(ws: Seq<Where>, sep: Seq<char>) -> Seq<SqlToken>
    decreases ws.len(),
{
    if ws.len() == 0 {
        Seq::empty()
    } else {
        joined_conditions(ws.drop_last(), sep) + (if ws.len() > 1 {
            text_tokens(sep)
        } else {
            Seq::empty()
        }) + condition_tokens(ws.last())
    }
}

/// The `WHERE` clause: the `AND` conditions joined by `AND` in parentheses, then the `OR`
/// conditions joined by `OR` in parentheses, the two groups combined with `AND`. No conditions,
/// no clause.
pub open spec fn where_tokens(ws: Seq<Where>) -> Seq<SqlToken> {
    let and = with_connector(ws, Connector::And);
    let or = with_connector(ws, Connector::Or);
    (if and.len() > 0 {
        text_tokens(" WHERE ("@) + joined_conditions(and, " AND "@) + text_tokens(")"@)
    } else {
        Seq::empty()
    }) + (if or.len() > 0 {
        text_tokens(if and.len() > 0 { " AND ("@ } else { " WHERE ("@ }) + joined_conditions(or, " OR "@)
            + text_tokens(")"@)
    } else {
        Seq::empty()
    })
}

/// Append conditions separated by `sep`.
fn push_joined(q: &mut SqlQuery, group: Vec<Where>, sep: &str)
    ensures
        final(q).tokens() == old(q).tokens() + joined_conditions(group@, sep@),
{
    let ghost all = group@;
    let ghost base = q.tokens();
    let total = group.len();
    let mut rest = group;
    let mut i: usize = 0;
    while rest.len() > 0
        invariant
            all.len() == total,
            i <= total,
            rest@ == all.subrange(i as int, total as int),
            q.tokens() == base + joined_conditions(all.take(i as int), sep@),
        decreases rest.len(),
    {
        let c = rest.remove(0);
        proof {
            assert(c == all[i as int]);
            assert(all.take(i + 1).drop_last() =~= all.take(i as int));
        }
        if i > 0 {
            q.push(sep);
        }
        push_condition(q, c);
        i += 1;
        proof {
            assert(q.tokens() =~= base + joined_conditions(all.take(i as int), sep@));
        }
    }
    proof {
        assert(all.take(total as int) =~= all);
    }
}

/// Split conditions by connector, keeping their order.
fn split_by_connector(ws: Vec<Where>) -> (r: (Vec<Where>, Vec<Where>))
    ensures
        r.0@ == with_connector(ws@, Connector::And),
        r.1@ == with_connector(ws@, Connector::Or),
{
    let ghost all = ws@;
    let total = ws.len();
    let mut rest = ws;
    let mut ands: Vec<Where> = Vec::new();
    let mut ors: Vec<Where> = Vec::new();
    let mut i: usize = 0;
    while rest.len() > 0
        invariant
            all.len() == total,
            i <= total,
            rest@ == all.subrange(i as int, total as int),
            ands@ == with_connector(all.take(i as int), Connector::And),
            ors@ == with_connector(all.take(i as int), Connector::Or),
        decreases rest.len(),
    {
        let c = rest.remove(0);
        proof {
            assert(c == all[i as int]);
            assert(all.take(i + 1).drop_last() =~= all.take(i as int));
        }
        match c.connector {
            Connector::And => ands.push(c),
            Connector::Or => ors.push(c),
        }
        i += 1;
    }
    proof {
        assert(all.take(total as int) =~= all);
    }
    (ands, ors)
}

/// Append the `WHERE` clause of the conditions.
pub fn push_where(q: &mut SqlQuery, ws: Vec<Where>)
    ensures
        final(q).tokens() == old(q).tokens() + where_tokens(ws@),
{
    let ghost all = ws@;
    let ghost base = q.tokens();
    let (ands, ors) = split_by_connector(ws);
    let started = ands.len() > 0;
    let has_or = ors.len() > 0;
    if started {
        q.push(" WHERE (");
        push_joined(q, ands, " AND ");
        q.push(")");
    }
    if has_or {
        q.push(if started { " AND (" } else { " WHERE (" });
        push_joined(q, ors, " OR ");
        q.push(")");
    }
    proof {
        assert(q.tokens() =~= base + where_tokens(all));
    }
}

/// Quoted column names separated by `, `.
pub open spec fn column_list(cols: Seq<Seq<char>>) -> Seq<SqlToken>
    decreases cols.len(),
{
    if cols.len() == 0 {
        Seq::empty()
    } else {
        column_list(cols.drop_last()) + (if cols.len() > 1 {
            text_tokens(", "@)
        } else {
            Seq::empty()
        }) + column_tokens(cols.last())
    }
}

/// The selected columns: the listed ones, or `*` when none are listed.
pub open spec fn select_tokens(select: Option<Vec<String>>) -> Seq<SqlToken> {
    match select {
        Some(cols) => if cols@.len() > 0 {
            column_list(cols.deep_view())
        } else {
            text_tokens("*"@)
        },
        None => text_tokens("*"@),
    }
}

/// Append the selected columns.
pub fn push_select_cols(q: &mut SqlQuery, select: &Option<Vec<String>>)
    ensures
        final(q).tokens() == old(q).tokens() + select_tokens(*select),
{
    let ghost base = q.tokens();
    match select {
        Some(cols) => {
            if cols.len() > 0 {
                let ghost names = cols.deep_view();
                let n = cols.len();
                let mut i: usize = 0;
                while i < n
                    invariant
                        n == cols@.len(),
                        names == cols.deep_view(),
                        i <= n,
                        q.tokens() == base + column_list(names.take(i as int)),
                    decreases n - i,
                {
                    proof {
                        assert(names.take(i + 1).drop_last() =~= names.take(i as int));
                    }
                    if i > 0 {
                        q.push(", ");
                    }
                    let c = quote_ident(cols[i].as_str());
                    q.push(c.as_str());
                    i += 1;
                    proof {
                        assert(q.tokens() =~= base + column_list(names.take(i as int)));
                    }
                }
                proof {
                    assert(names.take(n as int) =~= names);
                }
            } else {
                q.push("*");
            }
        },
        None => {
            q.push("*");
        },
    }
}

/// An assignment `column = value`, with a null value written as `NULL`.
pub open spec fn assignment(k: Seq<char>, v: DbValue) -> Seq<SqlToken> {
    column_tokens(k) + text_tokens(" = "@) + (if v is Null {
        text_tokens("NULL"@)
    } else {
        param(bound(v))
    })
}

/// The assignments of the given keys from `m`, each preceded by `, ` except the first of all
/// (when nothing has been `started` before them).
pub open spec fn assignments_after(keys: Seq<Seq<char>>, m: Map<Seq<char>, DbValue>, started: bool) -> Seq<SqlToken>
    decreases keys.len(),
{
    if keys.len() == 0 {
        Seq::empty()
    } else {
        assignments_after(keys.drop_last(), m, started) + (if started || keys.len() > 1 {
            text_tokens(", "@)
        } else {
            Seq::empty()
        }) + assignment(keys.last(), m[keys.last()])
    }
}

/// The `SET` list of an update: one assignment per field, in increasing field order.
pub open spec fn set_tokens(update: Map<Seq<char>, DbValue>) -> Seq<SqlToken> {
    text_tokens(" SET "@) + assignments_after(sorted_keys(update), update, false)
}

/// Append the assignments of a row, in increasing field order, each preceded by `, ` except the
/// first of all.
pub fn push_assignments(q: &mut SqlQuery, row: Row, started: bool)
    ensures
        final(q).tokens() == old(q).tokens() + assignments_after(sorted_keys(row@), row@, started),
{
    let ghost m = row@;
    let ghost base = q.tokens();
    let n = row.len();
    let ghost keys = row.keys();
    let ghost values = row.values();
    proof {
        row.lemma_canonical();
    }
    let mut rest = row.into_entries();
    let mut i: usize = 0;
    while rest.len() > 0
        invariant
            keys == sorted_keys(m),
            keys.len() == n,
            forall|j: int| 0 <= j < n ==> #[trigger] values[j] == m[keys[j]],
            i <= n,
            rest@.len() == n - i,
            forall|j: int| 0 <= j < rest@.len() ==> (#[trigger] rest@[j]).0@ == keys[j + i] && rest@[j].1 == values[j + i],
            q.tokens() == base + assignments_after(keys.take(i as int), m, started),
        decreases rest.len(),
    {
        let (k, v) = rest.remove(0);
        proof {
            assert(keys.take(i + 1).drop_last() =~= keys.take(i as int));
            assert(k@ == keys[i as int]);
            assert(v == m[keys[i as int]]);
        }
        if started || i > 0 {
            q.push(", ");
        }
        let col = quote_ident(k.as_str());
        q.push(col.as_str());
        q.push(" = ");
        if v.is_null() {
            q.push("NULL");
        } else {
            bind_value(q, v);
        }
        i += 1;
        proof {
            assert(q.tokens() =~= base + assignments_after(keys.take(i as int), m, started));
        }
    }
    proof {
        assert(keys.take(n as int) =~= keys);
    }
}

/// Append the `SET` list of an update.
pub fn push_set(q: &mut SqlQuery, update: Row)
    ensures
        final(q).tokens() == old(q).tokens() + set_tokens(update@),
{
    let ghost base = q.tokens();
    let ghost m = update@;
    q.push(" SET ");
    push_assignments(q, update, false);
    proof {
        assert(q.tokens() =~= base + set_tokens(m));
    }
}

/// Two values of the same shape: both null or neither, both strings or neither, both lists of
/// the same kind or neither, with as many members in an `IN` list.
pub open spec fn same_shape(v: DbValue, w: DbValue) -> bool {
    &&& (v is Null <==> w is Null)
    &&& (v is String <==> w is String)
    &&& (v is StringArray <==> w is StringArray)
    &&& (v is NumberArray <==> w is NumberArray)
    &&& in_items(v).len() == in_items(w).len()
}

/// Two conditions alike but for their values, which have the same shape.
pub open spec fn alike_but_values(c: Where, d: Where) -> bool {
    &&& c.field@ == d.field@
    &&& c.operator == d.operator
    &&& c.connector == d.connector
    &&& c.mode == d.mode
    &&& same_shape(c.value, d.value)
}

proof fn lemma_in_list_skeleton(a: Seq<ArgView>, b: Seq<ArgView>, lower: bool)
    requires
        a.len() == b.len(),
    ensures
        skeleton(in_list(a, lower)) == skeleton(in_list(b, lower)),
    decreases a.len(),
{
    if a.len() > 0 {
        lemma_in_list_skeleton(a.drop_last(), b.drop_last(), lower);
        let sep: Seq<SqlToken> = if a.len() > 1 { text_tokens(", "@) } else { Seq::empty() };
        let ma = in_member(a.last(), lower);
        let mb = in_member(b.last(), lower);
        lemma_skeleton_param(a.last(), b.last());
        if lower {
            lemma_skeleton_concat(text_tokens("LOWER("@), param(a.last()));
            lemma_skeleton_concat(text_tokens("LOWER("@), param(b.last()));
            lemma_skeleton_concat(text_tokens("LOWER("@) + param(a.last()), text_tokens(")"@));
            lemma_skeleton_concat(text_tokens("LOWER("@) + param(b.last()), text_tokens(")"@));
        }
        assert(skeleton(ma) == skeleton(mb));
        lemma_skeleton_concat(in_list(a.drop_last(), lower), sep);
        lemma_skeleton_concat(in_list(b.drop_last(), lower), sep);
        lemma_skeleton_concat(in_list(a.drop_last(), lower) + sep, ma);
        lemma_skeleton_concat(in_list(b.drop_last(), lower) + sep, mb);
    }
}

/// A column, an operator and one bound value read as the column, the operator and `$1`.
proof fn lemma_binary_sql(q: Seq<char>, op: Seq<char>, b: ArgView)
    ensures
        sql_text(text_tokens(q) + text_tokens(op) + param(b)) == q + op + "$1"@,
        params_of(text_tokens(q) + text_tokens(op) + param(b)) == seq![b],
{
    lemma_text_tokens_concat(q, op);
    assert(text_tokens(Seq::<char>::empty()) == Seq::<SqlToken>::empty());
    assert(text_tokens(q) + text_tokens(op) + param(b) =~= text_tokens(q + op) + param(b) + text_tokens(Seq::empty()));
    lemma_one_param_sql(q + op, b, Seq::empty());
    assert(q + op + "$1"@ + Seq::<char>::empty() =~= q + op + "$1"@);
}

/// `LOWER(` column operator `$1` `)`.
proof fn lemma_lowered_sql(q: Seq<char>, op: Seq<char>, b: ArgView)
    ensures
        sql_text(text_tokens("LOWER("@) + text_tokens(q) + text_tokens(op) + param(b) + text_tokens(")"@))
            == "LOWER("@ + q + op + "$1"@ + ")"@,
        params_of(text_tokens("LOWER("@) + text_tokens(q) + text_tokens(op) + param(b) + text_tokens(")"@))
            == seq![b],
{
    lemma_text_tokens_concat("LOWER("@, q);
    lemma_text_tokens_concat("LOWER("@ + q, op);
    assert(text_tokens("LOWER("@) + text_tokens(q) + text_tokens(op) + param(b) + text_tokens(")"@)
        =~= text_tokens("LOWER("@ + q + op) + param(b) + text_tokens(")"@));
    lemma_one_param_sql("LOWER("@ + q + op, b, ")"@);
}

/// Each comparison operator is written as its own SQL symbol, between the quoted column and the
/// one bound value: `"c" < $1` for `Lt`, `"c" <= $1` for `Lte`, `"c" > $1` for `Gt`, `"c" >= $1`
/// for `Gte`, whatever the value and the match mode.
pub proof fn lemma_comparison_sql(c: Where)
    requires
        c.operator == WhereOperator::Lt || c.operator == WhereOperator::Lte || c.operator == WhereOperator::Gt
            || c.operator == WhereOperator::Gte,
    ensures
        c.operator == WhereOperator::Lt ==> sql_text(condition_tokens(c)) == quoted(c.field@) + " < "@ + "$1"@,
        c.operator == WhereOperator::Lte ==> sql_text(condition_tokens(c)) == quoted(c.field@) + " <= "@ + "$1"@,
        c.operator == WhereOperator::Gt ==> sql_text(condition_tokens(c)) == quoted(c.field@) + " > "@ + "$1"@,
        c.operator == WhereOperator::Gte ==> sql_text(condition_tokens(c)) == quoted(c.field@) + " >= "@ + "$1"@,
        params_of(condition_tokens(c)) == seq![bound(c.value)],
{
    let q = quoted(c.field@);
    let b = bound(c.value);
    lemma_binary_sql(q, " < "@, b);
    lemma_binary_sql(q, " <= "@, b);
    lemma_binary_sql(q, " > "@, b);
    lemma_binary_sql(q, " >= "@, b);
}

/// Equality and inequality: with a null value, `"c" IS NULL` and `"c" IS NOT NULL`, binding
/// nothing; case-insensitively on a string, `LOWER("c") = LOWER($1)` and `LOWER("c") <> LOWER($1)`;
/// otherwise `"c" = $1` and `"c" <> $1`. A value that is not null is bound once.
pub proof fn lemma_equality_sql(c: Where)
    requires
        c.operator == WhereOperator::Eq || c.operator == WhereOperator::Ne,
    ensures
        c.value is Null ==> sql_text(condition_tokens(c)) == quoted(c.field@) + if c.operator == WhereOperator::Eq {
            " IS NULL"@
        } else {
            " IS NOT NULL"@
        },
        c.value is Null ==> params_of(condition_tokens(c)) == Seq::<ArgView>::empty(),
        !(c.value is Null) && c.mode == MatchMode::Insensitive && c.value is String ==> sql_text(condition_tokens(c))
            == "LOWER("@ + quoted(c.field@) + (if c.operator == WhereOperator::Eq {
            ") = LOWER("@
        } else {
            ") <> LOWER("@
        }) + "$1"@ + ")"@,
        !(c.value is Null) && !(c.mode == MatchMode::Insensitive && c.value is String) ==> sql_text(
            condition_tokens(c),
        ) == quoted(c.field@) + (if c.operator == WhereOperator::Eq {
            " = "@
        } else {
            " <> "@
        }) + "$1"@,
        !(c.value is Null) ==> params_of(condition_tokens(c)) == seq![bound(c.value)],
{
    let q = quoted(c.field@);
    let b = bound(c.value);
    let op: Seq<char> = if c.operator == WhereOperator::Eq { " = "@ } else { " <> "@ };
    let lop: Seq<char> = if c.operator == WhereOperator::Eq { ") = LOWER("@ } else { ") <> LOWER("@ };
    let nop: Seq<char> = if c.operator == WhereOperator::Eq { " IS NULL"@ } else { " IS NOT NULL"@ };
    lemma_binary_sql(q, op, b);
    lemma_lowered_sql(q, lop, b);
    lemma_text_tokens_concat(q, nop);
    lemma_plain_sql(q + nop);
}

/// Pattern operators: case-sensitively `"c" LIKE $1`, case-insensitively `"c" ILIKE $1`, the
/// bound pattern being the string with `%` before it (unless it must start the text) and after
/// it (unless it must end the text); a value that is not a string matches nothing (`FALSE`).
pub proof fn lemma_like_sql(c: Where)
    requires
        c.operator == WhereOperator::Contains || c.operator == WhereOperator::StartsWith || c.operator
            == WhereOperator::EndsWith,
    ensures
        c.value matches DbValue::String(s) ==> sql_text(condition_tokens(c)) == quoted(c.field@) + (if c.mode
            == MatchMode::Insensitive {
            " ILIKE "@
        } else {
            " LIKE "@
        }) + "$1"@,
        c.value matches DbValue::String(s) ==> params_of(condition_tokens(c)) == seq![
            ArgView::Text(
                (if c.operator == WhereOperator::StartsWith { ""@ } else { "%"@ }) + s@ + (if c.operator
                    == WhereOperator::EndsWith {
                    ""@
                } else {
                    "%"@
                }),
            ),
        ],
        !(c.value is String) ==> sql_text(condition_tokens(c)) == "FALSE"@,
{
    let q = quoted(c.field@);
    let op: Seq<char> = if c.mode == MatchMode::Insensitive { " ILIKE "@ } else { " LIKE "@ };
    if c.value is String {
        let s = c.value->String_0;
        let pre: Seq<char> = if c.operator == WhereOperator::StartsWith { ""@ } else { "%"@ };
        let post: Seq<char> = if c.operator == WhereOperator::EndsWith { ""@ } else { "%"@ };
        lemma_binary_sql(q, op, ArgView::Text(pre + s@ + post));
    } else {
        lemma_plain_sql("FALSE"@);
    }
}

/// Membership: an empty list is `FALSE` (`TRUE` for `NotIn`); a single value that is not a list
/// is `"c" IN ($1)` (`"c" NOT IN ($1)`), compared case-sensitively or on a value that is not a
/// string; its one bound value is the value itself.
pub proof fn lemma_membership_sql(c: Where)
    requires
        c.operator == WhereOperator::In || c.operator == WhereOperator::NotIn,
    ensures
        in_items(c.value).len() == 0 ==> sql_text(condition_tokens(c)) == if c.operator == WhereOperator::In {
            "FALSE"@
        } else {
            "TRUE"@
        },
        !(c.value is StringArray) && !(c.value is NumberArray) && !in_lowered(c.value, c.mode == MatchMode::Insensitive)
            ==> sql_text(condition_tokens(c)) == quoted(c.field@) + (if c.operator == WhereOperator::In {
            " IN ("@
        } else {
            " NOT IN ("@
        }) + "$1"@ + ")"@,
        !(c.value is StringArray) && !(c.value is NumberArray) ==> params_of(condition_tokens(c)) == seq![
            bound(c.value),
        ],
{
    let q = quoted(c.field@);
    let op: Seq<char> = if c.operator == WhereOperator::In { " IN ("@ } else { " NOT IN ("@ };
    let b = bound(c.value);
    lemma_plain_sql("FALSE"@);
    lemma_plain_sql("TRUE"@);
    if !(c.value is StringArray) && !(c.value is NumberArray) {
        let items = in_items(c.value);
        assert(items =~= seq![b]);
        let lower = in_lowered(c.value, c.mode == MatchMode::Insensitive);
        assert(items.drop_last() =~= Seq::<ArgView>::empty());
        assert(in_list(items.drop_last(), lower) == Seq::<SqlToken>::empty());
        assert(items.last() == b);
        assert(in_list(items, lower) =~= in_member(b, lower));
        lemma_text_tokens_concat(q, op);
        if !lower {
            assert(condition_tokens(c) =~= text_tokens(q + op) + param(b) + text_tokens(")"@));
            lemma_one_param_sql(q + op, b, ")"@);
        } else {
            lemma_text_tokens_concat("LOWER("@, q);
            lemma_text_tokens_concat("LOWER("@ + q, ")"@);
            lemma_text_tokens_concat("LOWER("@ + q + ")"@, op);
            lemma_text_tokens_concat("LOWER("@ + q + ")"@ + op, "LOWER("@);
            lemma_text_tokens_concat(")"@, ")"@);
            assert(condition_tokens(c) =~= text_tokens("LOWER("@ + q + ")"@ + op + "LOWER("@) + param(b) + text_tokens(
                ")"@ + ")"@,
            ));
            lemma_one_param_sql("LOWER("@ + q + ")"@ + op + "LOWER("@, b, ")"@ + ")"@);
        }
    }
}

proof fn lemma_with_connector_one(c: Where, k: Connector)
    ensures
        with_connector(seq![c], k) == if c.connector == k { seq![c] } else { Seq::<Where>::empty() },
{
    let ws = seq![c];
    assert(ws.drop_last() =~= Seq::<Where>::empty());
    assert(with_connector(ws.drop_last(), k) == Seq::<Where>::empty());
    assert(ws.last() == c);
    assert(Seq::<Where>::empty().push(c) =~= seq![c]);
}

proof fn lemma_with_connector_two(a: Where, b: Where, k: Connector)
    ensures
        with_connector(seq![a, b], k) == with_connector(seq![a], k) + if b.connector == k {
            seq![b]
        } else {
            Seq::<Where>::empty()
        },
{
    let ws = seq![a, b];
    assert(ws.drop_last() =~= seq![a]);
    assert(ws.last() == b);
    assert(with_connector(seq![a], k).push(b) =~= with_connector(seq![a], k) + seq![b]);
    assert(with_connector(seq![a], k) =~= with_connector(seq![a], k) + Seq::<Where>::empty());
}

proof fn lemma_joined_one(c: Where, sep: Seq<char>)
    ensures
        joined_conditions(seq![c], sep) == condition_tokens(c),
{
    let ws = seq![c];
    assert(ws.drop_last() =~= Seq::<Where>::empty());
    assert(joined_conditions(ws.drop_last(), sep) == Seq::<SqlToken>::empty());
    assert(ws.last() == c);
    assert(joined_conditions(ws, sep) =~= condition_tokens(c));
}

/// One condition alone: `WHERE (` the condition `)`, whichever its connector.
pub proof fn lemma_where_one(c: Where)
    ensures
        where_tokens(seq![c]) == text_tokens(" WHERE ("@) + condition_tokens(c) + text_tokens(")"@),
{
    let ws = seq![c];
    assert(ws.drop_last() =~= Seq::<Where>::empty());
    let and = with_connector(ws, Connector::And);
    let or = with_connector(ws, Connector::Or);
    lemma_with_connector_one(c, Connector::And);
    lemma_with_connector_one(c, Connector::Or);
    lemma_joined_one(c, " AND "@);
    lemma_joined_one(c, " OR "@);
    if c.connector == Connector::And {
        assert(and =~= seq![c]);
        assert(or.len() == 0);
    } else {
        assert(or =~= seq![c]);
        assert(and.len() == 0);
    }
    assert(where_tokens(ws) =~= text_tokens(" WHERE ("@) + condition_tokens(c) + text_tokens(")"@));
}

/// Two conditions: with the same connector they are joined by it inside one group; an `AND`
/// condition and an `OR` condition form two groups, the `AND` group first, joined by `AND`,
/// whichever order they are given in. No conditions, no clause.
#[verifier::spinoff_prover]
#[verifier::rlimit(60)]
pub proof fn lemma_where_two(a: Where, b: Where)
    ensures
        where_tokens(Seq::<Where>::empty()) == Seq::<SqlToken>::empty(),
        a.connector == Connector::And && b.connector == Connector::And ==> where_tokens(seq![a, b]) == text_tokens(
            " WHERE ("@,
        ) + condition_tokens(a) + text_tokens(" AND "@) + condition_tokens(b) + text_tokens(")"@),
        a.connector == Connector::Or && b.connector == Connector::Or ==> where_tokens(seq![a, b]) == text_tokens(
            " WHERE ("@,
        ) + condition_tokens(a) + text_tokens(" OR "@) + condition_tokens(b) + text_tokens(")"@),
        a.connector == Connector::And && b.connector == Connector::Or ==> where_tokens(seq![a, b]) == text_tokens(
            " WHERE ("@,
        ) + condition_tokens(a) + text_tokens(")"@) + text_tokens(" AND ("@) + condition_tokens(b) + text_tokens(")"@),
        a.connector == Connector::Or && b.connector == Connector::And ==> where_tokens(seq![a, b]) == text_tokens(
            " WHERE ("@,
        ) + condition_tokens(b) + text_tokens(")"@) + text_tokens(" AND ("@) + condition_tokens(a) + text_tokens(")"@),
{
    let ws = seq![a, b];
    assert(ws.drop_last() =~= seq![a]);
    assert(seq![a].drop_last() =~= Seq::<Where>::empty());
    assert(seq![b].drop_last() =~= Seq::<Where>::empty());
    let and = with_connector(ws, Connector::And);
    let or = with_connector(ws, Connector::Or);
    lemma_with_connector_one(a, Connector::And);
    lemma_with_connector_one(a, Connector::Or);
    lemma_with_connector_two(a, b, Connector::And);
    lemma_with_connector_two(a, b, Connector::Or);
    lemma_joined_one(a, " AND "@);
    lemma_joined_one(a, " OR "@);
    lemma_joined_one(b, " AND "@);
    lemma_joined_one(b, " OR "@);
    assert(ws.last() == b);
    assert(joined_conditions(ws, " AND "@) =~= condition_tokens(a) + text_tokens(" AND "@) + condition_tokens(b));
    assert(joined_conditions(ws, " OR "@) =~= condition_tokens(a) + text_tokens(" OR "@) + condition_tokens(b));
    if a.connector == Connector::And && b.connector == Connector::And {
        assert(and =~= ws);
        assert(or.len() == 0);
    } else if a.connector == Connector::Or && b.connector == Connector::Or {
        assert(or =~= ws);
        assert(and.len() == 0);
    } else if a.connector == Connector::And {
        assert(and =~= seq![a]);
        assert(or =~= seq![b]);
    } else {
        assert(and =~= seq![b]);
        assert(or =~= seq![a]);
    }
}

/// A condition's SQL text does not depend on its value, only on the value's shape: values reach
/// the statement as bound parameters, never as text.
pub proof fn lemma_condition_text_independent_of_value(c: Where, d: Where)
    requires
        alike_but_values(c, d),
    ensures
        skeleton(condition_tokens(c)) == skeleton(condition_tokens(d)),
{
    let col = column_tokens(c.field@);
    let insensitive = c.mode == MatchMode::Insensitive;
    lemma_skeleton_param(bound(c.value), bound(d.value));
    match c.operator {
        WhereOperator::In | WhereOperator::NotIn => {
            let negate = c.operator == WhereOperator::NotIn;
            let lower = in_lowered(c.value, insensitive);
            assert(lower == in_lowered(d.value, insensitive));
            if in_items(c.value).len() > 0 {
                lemma_in_list_skeleton(in_items(c.value), in_items(d.value), lower);
                let head: Seq<SqlToken> = (if lower { text_tokens("LOWER("@) + col + text_tokens(")"@) } else { col })
                    + text_tokens(if negate { " NOT IN ("@ } else { " IN ("@ });
                lemma_skeleton_concat(head, in_list(in_items(c.value), lower));
                lemma_skeleton_concat(head, in_list(in_items(d.value), lower));
                lemma_skeleton_concat(head + in_list(in_items(c.value), lower), text_tokens(")"@));
                lemma_skeleton_concat(head + in_list(in_items(d.value), lower), text_tokens(")"@));
            }
        },
        WhereOperator::Contains | WhereOperator::StartsWith | WhereOperator::EndsWith => {
            if c.value is String {
                let op = text_tokens(if insensitive { " ILIKE "@ } else { " LIKE "@ });
                let pre: Seq<char> = if c.operator == WhereOperator::StartsWith { ""@ } else { "%"@ };
                let post: Seq<char> = if c.operator == WhereOperator::EndsWith { ""@ } else { "%"@ };
                let sc = c.value->String_0;
                let sd = d.value->String_0;
                lemma_skeleton_param(ArgView::Text(pre + sc@ + post), ArgView::Text(pre + sd@ + post));
                lemma_skeleton_concat(col + op, param(ArgView::Text(pre + sc@ + post)));
                lemma_skeleton_concat(col + op, param(ArgView::Text(pre + sd@ + post)));
            }
        },
        _ => {
            let op: Seq<char> = match c.operator {
                WhereOperator::Eq => if insensitive && c.value is String { ") = LOWER("@ } else { " = "@ },
                WhereOperator::Ne => if insensitive && c.value is String { ") <> LOWER("@ } else { " <> "@ },
                WhereOperator::Lt => " < "@,
                WhereOperator::Lte => " <= "@,
                WhereOperator::Gt => " > "@,
                _ => " >= "@,
            };
            lemma_skeleton_concat(col + text_tokens(op), param(bound(c.value)));
            lemma_skeleton_concat(col + text_tokens(op), param(bound(d.value)));
            let lc = text_tokens("LOWER("@) + col + text_tokens(op);
            lemma_skeleton_concat(lc, param(bound(c.value)));
            lemma_skeleton_concat(lc, param(bound(d.value)));
            lemma_skeleton_concat(lc + param(bound(c.value)), text_tokens(")"@));
            lemma_skeleton_concat(lc + param(bound(d.value)), text_tokens(")"@));
        },
    }
}

proof fn lemma_with_connector_alike(ws: Seq<Where>, vs: Seq<Where>, k: Connector)
    requires
        ws.len() == vs.len(),
        forall|i: int| 0 <= i < ws.len() ==> alike_but_values(#[trigger] ws[i], vs[i]),
    ensures
        with_connector(ws, k).len() == with_connector(vs, k).len(),
        forall|i: int| 0 <= i < with_connector(ws, k).len()
            ==> alike_but_values(#[trigger] with_connector(ws, k)[i], with_connector(vs, k)[i]),
    decreases ws.len(),
{
    if ws.len() > 0 {
        lemma_with_connector_alike(ws.drop_last(), vs.drop_last(), k);
        assert(alike_but_values(ws.last(), vs.last()));
    }
}

proof fn lemma_joined_skeleton(ws: Seq<Where>, vs: Seq<Where>, sep: Seq<char>)
    requires
        ws.len() == vs.len(),
        forall|i: int| 0 <= i < ws.len() ==> alike_but_values(#[trigger] ws[i], vs[i]),
    ensures
        skeleton(joined_conditions(ws, sep)) == skeleton(joined_conditions(vs, sep)),
    decreases ws.len(),
{
    if ws.len() > 0 {
        lemma_joined_skeleton(ws.drop_last(), vs.drop_last(), sep);
        assert(alike_but_values(ws.last(), vs.last()));
        lemma_condition_text_independent_of_value(ws.last(), vs.last());
        let s: Seq<SqlToken> = if ws.len() > 1 { text_tokens(sep) } else { Seq::empty() };
        lemma_skeleton_concat(joined_conditions(ws.drop_last(), sep), s);
        lemma_skeleton_concat(joined_conditions(vs.drop_last(), sep), s);
        lemma_skeleton_concat(joined_conditions(ws.drop_last(), sep) + s, condition_tokens(ws.last()));
        lemma_skeleton_concat(joined_conditions(vs.drop_last(), sep) + s, condition_tokens(vs.last()));
    }
}

/// A `WHERE` clause's SQL text does not depend on the conditions' values, only on their shapes:
/// values reach the statement as bound parameters, never as text.
pub proof fn lemma_where_text_independent_of_values(ws: Seq<Where>, vs: Seq<Where>)
    requires
        ws.len() == vs.len(),
        forall|i: int| 0 <= i < ws.len() ==> alike_but_values(#[trigger] ws[i], vs[i]),
    ensures
        skeleton(where_tokens(ws)) == skeleton(where_tokens(vs)),
{
    lemma_with_connector_alike(ws, vs, Connector::And);
    lemma_with_connector_alike(ws, vs, Connector::Or);
    let aw = with_connector(ws, Connector::And);
    let av = with_connector(vs, Connector::And);
    let ow = with_connector(ws, Connector::Or);
    let ov = with_connector(vs, Connector::Or);
    lemma_joined_skeleton(aw, av, " AND "@);
    lemma_joined_skeleton(ow, ov, " OR "@);
    let a1 = text_tokens(" WHERE ("@);
    let close = text_tokens(")"@);
    lemma_skeleton_concat(a1, joined_conditions(aw, " AND "@));
    lemma_skeleton_concat(a1, joined_conditions(av, " AND "@));
    lemma_skeleton_concat(a1 + joined_conditions(aw, " AND "@), close);
    lemma_skeleton_concat(a1 + joined_conditions(av, " AND "@), close);
    let o1 = text_tokens(if aw.len() > 0 { " AND ("@ } else { " WHERE ("@ });
    lemma_skeleton_concat(o1, joined_conditions(ow, " OR "@));
    lemma_skeleton_concat(o1, joined_conditions(ov, " OR "@));
    lemma_skeleton_concat(o1 + joined_conditions(ow, " OR "@), close);
    lemma_skeleton_concat(o1 + joined_conditions(ov, " OR "@), close);
    let and_w: Seq<SqlToken> = if aw.len() > 0 { a1 + joined_conditions(aw, " AND "@) + close } else { Seq::empty() };
    let and_v: Seq<SqlToken> = if av.len() > 0 { a1 + joined_conditions(av, " AND "@) + close } else { Seq::empty() };
    let or_w: Seq<SqlToken> = if ow.len() > 0 { o1 + joined_conditions(ow, " OR "@) + close } else { Seq::empty() };
    let or_v: Seq<SqlToken> = if ov.len() > 0 { o1 + joined_conditions(ov, " OR "@) + close } else { Seq::empty() };
    lemma_skeleton_concat(and_w, or_w);
    lemma_skeleton_concat(and_v, or_v);
}

} // verus!
