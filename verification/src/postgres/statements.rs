//! The statement of each adapter operation, and what the adapter computes from the rows that come
//! back. `SqlxPostgresStatements` holds the adapter's one setting, plural table names.

use vstd::prelude::*;
use vstd::string::*;
use crate::db::adapter::{
    ConsumeOneArgs, CountArgs, CreateArgs, DeleteArgs, FindManyArgs, FindOneArgs, IncrementOneArgs,
    NumericDelta, Row, SortDirection, UpdateArgs, UpdateManyArgs, Where,
};
use crate::db::types::DbValue;
use crate::postgres::ddl::quote_ident;
use crate::postgres::dml::{
    alike_but_values, assignments_after, bind_value, bound, column_list, column_tokens,
    lemma_where_text_independent_of_values, push_select_cols, push_set, push_where, select_tokens,
    set_tokens, where_tokens,
};
use crate::postgres::query::{lemma_skeleton_concat, param, skeleton, sql_text, text_tokens, SqlQuery};
use crate::postgres::token::{ArgView, SqlArg, SqlToken};
use crate::strmap::{sorted_keys, StrMap};
use crate::text::text_eq;

verus! {

/// Whether a character is a lowercase hexadecimal digit.
pub open spec fn is_lower_hex(c: char) -> bool {
    ('0' <= c && c <= '9') || ('a' <= c && c <= 'f')
}

/// A fresh row id: a random (version 4) UUID in its simple form, `uuid::Uuid::new_v4().simple()`
/// written as text. The contract claims only the form `uuid` documents and its source shows:
/// 32 lowercase hexadecimal digits. Which digits come out is left open (they are random).
#[verifier::external_body]
fn new_row_id() -> (r: String)
    ensures
        r@.len() == 32,
        forall|i: int| 0 <= i < 32 ==> is_lower_hex(#[trigger] r@[i]),
{
    uuid::Uuid::new_v4().simple().to_string()
}

/// Whether an insert writes a field: always the id, any other field unless it is null (a null
/// field is left to default to `NULL`).
pub open spec fn inserted(k: Seq<char>, v: DbValue) -> bool {
    k == "id"@ || !(v is Null)
}

/// The fields an insert writes, in the given order.
pub open spec fn insert_keys(keys: Seq<Seq<char>>, m: Map<Seq<char>, DbValue>) -> Seq<Seq<char>>
    decreases keys.len(),
{
    if keys.len() == 0 {
        Seq::empty()
    } else {
        let r = insert_keys(keys.drop_last(), m);
        if inserted(keys.last(), m[keys.last()]) {
            r.push(keys.last())
        } else {
            r
        }
    }
}

/// The bound values of the given fields, separated by `, `.
pub open spec fn value_list(keys: Seq<Seq<char>>, m: Map<Seq<char>, DbValue>) -> Seq<SqlToken>
    decreases keys.len(),
{
    if keys.len() == 0 {
        Seq::empty()
    } else {
        value_list(keys.drop_last(), m) + (if keys.len() > 1 {
            text_tokens(", "@)
        } else {
            Seq::empty()
        }) + param(bound(m[keys.last()]))
    }
}

/// The insert of a record into a table, returning the inserted row.
pub open spec fn insert_tokens(table: Seq<char>, m: Map<Seq<char>, DbValue>) -> Seq<SqlToken> {
    let ks = insert_keys(sorted_keys(m), m);
    text_tokens("INSERT INTO "@) + column_tokens(table) + text_tokens(" ("@) + column_list(ks)
        + text_tokens(") VALUES ("@) + value_list(ks, m) + text_tokens(") RETURNING *"@)
}

/// The record an insert writes: the data with its id replaced by the fresh id.
pub open spec fn with_id(data: Map<Seq<char>, DbValue>, id: String) -> Map<Seq<char>, DbValue> {
    data.insert("id"@, DbValue::String(id))
}

/// The `SELECT` of `find_one`: at most one matching row.
pub open spec fn find_one_tokens(table: Seq<char>, select: Option<Vec<String>>, ws: Seq<Where>) -> Seq<SqlToken> {
    text_tokens("SELECT "@) + select_tokens(select) + text_tokens(" FROM "@) + column_tokens(table)
        + where_tokens(ws) + text_tokens(" LIMIT 1"@)
}

/// The sort clause of `find_many`.
pub open spec fn order_tokens(sort: Option<crate::db::adapter::SortBy>) -> Seq<SqlToken> {
    match sort {
        Some(sb) => text_tokens(" ORDER BY "@) + column_tokens(sb.field@) + text_tokens(
            match sb.direction {
                SortDirection::Asc => " ASC"@,
                SortDirection::Desc => " DESC"@,
            },
        ),
        None => Seq::empty(),
    }
}

/// A bound `LIMIT` or `OFFSET` clause (the count bound as a `bigint`).
pub open spec fn bound_count_tokens(keyword: Seq<char>, n: Option<u64>) -> Seq<SqlToken> {
    match n {
        Some(v) => text_tokens(keyword) + param(ArgView::Int(v as i64)),
        None => Seq::empty(),
    }
}

/// The `SELECT` of `find_many`: the selected columns of the matching rows, sorted, limited and
/// offset as asked.
pub open spec fn find_many_tokens(table: Seq<char>, args: FindManyArgs) -> Seq<SqlToken> {
    text_tokens("SELECT "@) + select_tokens(args.select) + text_tokens(" FROM "@) + column_tokens(table)
        + where_tokens(args.conditions@) + order_tokens(args.sort_by) + bound_count_tokens(" LIMIT "@, args.limit)
        + bound_count_tokens(" OFFSET "@, args.offset)
}

/// The `SELECT` of `count`: the number of matching rows.
pub open spec fn count_tokens(table: Seq<char>, ws: Seq<Where>) -> Seq<SqlToken> {
    text_tokens("SELECT count(\"id\") FROM "@) + column_tokens(table) + where_tokens(ws)
}

/// The `UPDATE` of `update`: the assignments, on the first matching row only, returning it.
pub open spec fn update_tokens(table: Seq<char>, ws: Seq<Where>, m: Map<Seq<char>, DbValue>) -> Seq<SqlToken> {
    text_tokens("UPDATE "@) + column_tokens(table) + set_tokens(m) + single_row_tokens(table, ws)
}

/// The `UPDATE` of `update_many`.
pub open spec fn update_many_tokens(table: Seq<char>, ws: Seq<Where>, m: Map<Seq<char>, DbValue>) -> Seq<SqlToken> {
    text_tokens("UPDATE "@) + column_tokens(table) + set_tokens(m) + where_tokens(ws)
}

/// The `DELETE` of `delete` and `delete_many`.
pub open spec fn delete_tokens(table: Seq<char>, ws: Seq<Where>) -> Seq<SqlToken> {
    text_tokens("DELETE FROM "@) + column_tokens(table) + where_tokens(ws)
}

/// The scope of a single-row operation: the row whose id is that of the first matching row,
/// returning it.
pub open spec fn single_row_tokens(table: Seq<char>, ws: Seq<Where>) -> Seq<SqlToken> {
    text_tokens(" WHERE \"id\" IN (SELECT \"id\" FROM "@) + column_tokens(table) + where_tokens(ws)
        + text_tokens(" LIMIT 1) RETURNING *"@)
}

/// The `DELETE` of `consume_one`: one matching row, deleted and returned.
pub open spec fn consume_tokens(table: Seq<char>, ws: Seq<Where>) -> Seq<SqlToken> {
    text_tokens("DELETE FROM "@) + column_tokens(table) + single_row_tokens(table, ws)
}

/// The parameter of a delta.
pub open spec fn delta_arg(d: NumericDelta) -> ArgView {
    match d {
        NumericDelta::Whole(i) => ArgView::Int(i),
        NumericDelta::Fraction(f) => ArgView::Float(f),
    }
}

/// An increment `column = column + delta`.
pub open spec fn increment_tokens(k: Seq<char>, d: NumericDelta) -> Seq<SqlToken> {
    column_tokens(k) + text_tokens(" = "@) + column_tokens(k) + text_tokens(" + "@) + param(delta_arg(d))
}

/// The increments of the given fields, separated by `, `.
pub open spec fn increments(keys: Seq<Seq<char>>, m: Map<Seq<char>, NumericDelta>) -> Seq<SqlToken>
    decreases keys.len(),
{
    if keys.len() == 0 {
        Seq::empty()
    } else {
        increments(keys.drop_last(), m) + (if keys.len() > 1 {
            text_tokens(", "@)
        } else {
            Seq::empty()
        }) + increment_tokens(keys.last(), m[keys.last()])
    }
}

/// The absolute assignments of `increment_one` (none when absent).
pub open spec fn set_part(set: Option<Row>) -> Map<Seq<char>, DbValue> {
    match set {
        Some(r) => r@,
        None => Map::empty(),
    }
}

/// The `UPDATE` of `increment_one`: the increments in increasing field order, then the absolute
/// assignments in increasing field order, on the first matching row, returning it.
pub open spec fn increment_one_tokens(
    table: Seq<char>,
    ws: Seq<Where>,
    inc: Map<Seq<char>, NumericDelta>,
    set: Map<Seq<char>, DbValue>,
) -> Seq<SqlToken> {
    let inc_keys = sorted_keys(inc);
    text_tokens("UPDATE "@) + column_tokens(table) + text_tokens(" SET "@) + increments(inc_keys, inc)
        + assignments_after(sorted_keys(set), set, inc_keys.len() > 0) + single_row_tokens(table, ws)
}

/// The statements of the PostgreSQL adapter. Table names are the model names, or the model names
/// with an `s` appended when plural table names are on.
#[derive(Debug, Clone, Copy)]
pub struct SqlxPostgresStatements {
    /// Whether table names are plural.
    pub use_plural: bool,
}

impl SqlxPostgresStatements {
    /// The table name of a model.
    pub open spec fn table_text(self, model: Seq<char>) -> Seq<char> {
        if self.use_plural {
            model + "s"@
        } else {
            model
        }
    }

    /// Statements with singular table names.
    pub fn new() -> (r: Self)
        ensures
            !r.use_plural,
    {
        SqlxPostgresStatements { use_plural: false }
    }

    /// The same statements with plural table names on or off.
    pub fn with_plural(self, plural: bool) -> (r: Self)
        ensures
            r.use_plural == plural,
    {
        SqlxPostgresStatements { use_plural: plural }
    }

    /// The table name of a model (`user`, or `users` with plural names).
    pub fn table(&self, model: &str) -> (r: String)
        ensures
            r@ == self.table_text(model@),
    {
        let mut r = String::from_str(model);
        if self.use_plural {
            r.append("s");
        }
        r
    }

    /// The insert statement of `create`, for a given fresh id: the data with its id replaced by
    /// `id`, null fields left out, returning the inserted row.
    pub fn create_with_id(&self, args: CreateArgs, id: String) -> (q: SqlQuery)
        ensures
            q.tokens() == insert_tokens(self.table_text(args.model@), with_id(args.data@, id)),
    {
        let ghost a0 = args;
        let ghost id0 = id;
        let CreateArgs { model, data, select: _ } = args;
        let mut data = data;
        let _ = data.remove("id");
        let _ = data.insert(String::from_str("id"), DbValue::String(id));
        let ghost m = data@;
        proof {
            assert(m =~= with_id(a0.data@, id0));
        }
        let n = data.len();
        let ghost keys = data.keys();
        let ghost values = data.values();
        proof {
            data.lemma_canonical();
        }
        let mut rest = data.into_entries();
        let mut kept: Vec<(String, DbValue)> = Vec::new();
        let mut i: usize = 0;
        while rest.len() > 0
            invariant
                keys == sorted_keys(m),
                keys.len() == n,
                forall|j: int| 0 <= j < n ==> #[trigger] values[j] == m[keys[j]],
                i <= n,
                rest@.len() == n - i,
                forall|j: int| 0 <= j < rest@.len() ==> (#[trigger] rest@[j]).0@ == keys[j + i] && rest@[j].1 == values[j + i],
                kept@.len() == insert_keys(keys.take(i as int), m).len(),
                forall|j: int| 0 <= j < kept@.len() ==> (#[trigger] kept@[j]).0@ == insert_keys(keys.take(i as int), m)[j]
                    && kept@[j].1 == m[kept@[j].0@],
            decreases rest.len(),
        {
            let (k, v) = rest.remove(0);
            proof {
                assert(keys.take(i + 1).drop_last() =~= keys.take(i as int));
                assert(k@ == keys[i as int]);
                assert(v == m[keys[i as int]]);
            }
            if text_eq(k.as_str(), "id") || !v.is_null() {
                kept.push((k, v));
            }
            i += 1;
        }
        proof {
            assert(keys.take(n as int) =~= keys);
        }
        let ghost ks = insert_keys(keys, m);
        let table = self.table(model.as_str());
        let mut q = SqlQuery::new("INSERT INTO ");
        let qt = quote_ident(table.as_str());
        q.push(qt.as_str());
        q.push(" (");
        let ghost head = q.tokens();
        let count = kept.len();
        let mut j: usize = 0;
        while j < count
            invariant
                count == ks.len(),
                count == kept@.len(),
                forall|t: int| 0 <= t < kept@.len() ==> (#[trigger] kept@[t]).0@ == ks[t],
                j <= count,
                q.tokens() == head + column_list(ks.take(j as int)),
            decreases count - j,
        {
            proof {
                assert(ks.take(j + 1).drop_last() =~= ks.take(j as int));
            }
            if j > 0 {
                q.push(", ");
            }
            let c = quote_ident(kept[j].0.as_str());
            q.push(c.as_str());
            j += 1;
            proof {
                assert(q.tokens() =~= head + column_list(ks.take(j as int)));
            }
        }
        proof {
            assert(ks.take(count as int) =~= ks);
        }
        q.push(") VALUES (");
        let ghost mid = q.tokens();
        let mut t: usize = 0;
        while kept.len() > 0
            invariant
                count == ks.len(),
                t <= count,
                kept@.len() == count - t,
                forall|u: int| 0 <= u < kept@.len() ==> (#[trigger] kept@[u]).1 == m[ks[u + t]],
                q.tokens() == mid + value_list(ks.take(t as int), m),
            decreases kept.len(),
        {
            let (_, v) = kept.remove(0);
            proof {
                assert(ks.take(t + 1).drop_last() =~= ks.take(t as int));
                assert(v == m[ks[t as int]]);
            }
            if t > 0 {
                q.push(", ");
            }
            bind_value(&mut q, v);
            t += 1;
            proof {
                assert(q.tokens() =~= mid + value_list(ks.take(t as int), m));
            }
        }
        q.push(") RETURNING *");
        proof {
            assert(ks.take(count as int) =~= ks);
            assert(q.tokens() =~= insert_tokens(self.table_text(a0.model@), m));
        }
        q
    }

    /// The insert statement of `create`, with a fresh random id.
    pub fn create(&self, args: CreateArgs) -> (q: SqlQuery)
        ensures
            exists|id: String|
                id@.len() == 32 && (forall|i: int| 0 <= i < 32 ==> is_lower_hex(#[trigger] id@[i]))
                    && q.tokens() == insert_tokens(self.table_text(args.model@), with_id(args.data@, id)),
    {
        let id = new_row_id();
        let ghost id0 = id;
        let q = self.create_with_id(args, id);
        proof {
            assert(id0@.len() == 32);
        }
        q
    }
    /// The `SELECT` of `find_one`.
    pub fn find_one(&self, args: FindOneArgs) -> (q: SqlQuery)
        ensures
            q.tokens() == find_one_tokens(self.table_text(args.model@), args.select, args.conditions@),
    {
        let ghost a0 = args;
        let FindOneArgs { model, conditions, select, join: _ } = args;
        let mut q = SqlQuery::new("SELECT ");
        push_select_cols(&mut q, &select);
        q.push(" FROM ");
        let t = quote_ident(self.table(model.as_str()).as_str());
        q.push(t.as_str());
        push_where(&mut q, conditions);
        q.push(" LIMIT 1");
        proof {
            assert(q.tokens() =~= find_one_tokens(self.table_text(a0.model@), a0.select, a0.conditions@));
        }
        q
    }

    /// The `SELECT` of `find_many`.
    pub fn find_many(&self, args: FindManyArgs) -> (q: SqlQuery)
        ensures
            q.tokens() == find_many_tokens(self.table_text(args.model@), args),
    {
        let ghost a0 = args;
        let FindManyArgs { model, conditions, limit, select, sort_by, offset, join: _ } = args;
        let mut q = SqlQuery::new("SELECT ");
        push_select_cols(&mut q, &select);
        q.push(" FROM ");
        let t = quote_ident(self.table(model.as_str()).as_str());
        q.push(t.as_str());
        push_where(&mut q, conditions);
        let ghost before_sort = q.tokens();
        match &sort_by {
            Some(sb) => {
                q.push(" ORDER BY ");
                let c = quote_ident(sb.field.as_str());
                q.push(c.as_str());
                match sb.direction {
                    SortDirection::Asc => q.push(" ASC"),
                    SortDirection::Desc => q.push(" DESC"),
                }
            },
            None => {},
        }
        proof {
            assert(q.tokens() =~= before_sort + order_tokens(sort_by));
        }
        let ghost before_limit = q.tokens();
        match limit {
            Some(l) => {
                q.push(" LIMIT ");
                q.push_bind(SqlArg::Int(l as i64));
            },
            None => {},
        }
        proof {
            assert(q.tokens() =~= before_limit + bound_count_tokens(" LIMIT "@, limit));
        }
        let ghost before_offset = q.tokens();
        match offset {
            Some(o) => {
                q.push(" OFFSET ");
                q.push_bind(SqlArg::Int(o as i64));
            },
            None => {},
        }
        proof {
            assert(q.tokens() =~= before_offset + bound_count_tokens(" OFFSET "@, offset));
            assert(q.tokens() =~= find_many_tokens(self.table_text(a0.model@), a0));
        }
        q
    }

    /// The `SELECT` of `count`.
    pub fn count(&self, args: CountArgs) -> (q: SqlQuery)
        ensures
            q.tokens() == count_tokens(self.table_text(args.model@), args.conditions@),
    {
        let ghost a0 = args;
        let CountArgs { model, conditions } = args;
        let mut q = SqlQuery::new("SELECT count(\"id\") FROM ");
        let t = quote_ident(self.table(model.as_str()).as_str());
        q.push(t.as_str());
        push_where(&mut q, conditions);
        proof {
            assert(q.tokens() =~= count_tokens(self.table_text(a0.model@), a0.conditions@));
        }
        q
    }

    /// The number of rows a count reports: the database's count, never below zero.
    pub fn count_result(&self, n: i64) -> (r: u64)
        ensures
            r == if n < 0 { 0 } else { n },
    {
        if n < 0 {
            0
        } else {
            n as u64
        }
    }

    /// The `UPDATE` of `update`: at most one matching row is updated, the one whose id the
    /// first matching row has. With no conditions, or nothing to set, there is no statement
    /// (`None`).
    pub fn update(&self, args: UpdateArgs) -> (q: Option<SqlQuery>)
        ensures
            args.conditions@.len() == 0 || args.update.size() == 0 <==> q is None,
            q matches Some(s) ==> s.tokens() == update_tokens(
                self.table_text(args.model@),
                args.conditions@,
                args.update@,
            ),
    {
        let ghost a0 = args;
        let UpdateArgs { model, conditions, update } = args;
        if conditions.len() == 0 || update.is_empty() {
            return None;
        }
        let mut q = SqlQuery::new("UPDATE ");
        let t = quote_ident(self.table(model.as_str()).as_str());
        q.push(t.as_str());
        push_set(&mut q, update);
        q.push(" WHERE \"id\" IN (SELECT \"id\" FROM ");
        q.push(t.as_str());
        push_where(&mut q, conditions);
        q.push(" LIMIT 1) RETURNING *");
        proof {
            assert(q.tokens() =~= update_tokens(self.table_text(a0.model@), a0.conditions@, a0.update@));
        }
        Some(q)
    }

    /// The `UPDATE` of `update_many`. With nothing to set there is no statement (`None`): no row
    /// is updated.
    pub fn update_many(&self, args: UpdateManyArgs) -> (q: Option<SqlQuery>)
        ensures
            args.update.size() == 0 <==> q is None,
            q matches Some(s) ==> s.tokens() == update_many_tokens(
                self.table_text(args.model@),
                args.conditions@,
                args.update@,
            ),
    {
        let ghost a0 = args;
        let UpdateArgs { model, conditions, update } = args;
        if update.is_empty() {
            return None;
        }
        let mut q = SqlQuery::new("UPDATE ");
        let t = quote_ident(self.table(model.as_str()).as_str());
        q.push(t.as_str());
        push_set(&mut q, update);
        push_where(&mut q, conditions);
        proof {
            assert(q.tokens() =~= update_many_tokens(self.table_text(a0.model@), a0.conditions@, a0.update@));
        }
        Some(q)
    }

    /// The `DELETE` of `delete`. With no conditions there is no statement (`None`): a single
    /// delete never deletes every row.
    pub fn delete(&self, args: DeleteArgs) -> (q: Option<SqlQuery>)
        ensures
            args.conditions@.len() == 0 <==> q is None,
            q matches Some(s) ==> s.tokens() == delete_tokens(self.table_text(args.model@), args.conditions@),
    {
        if args.conditions.len() == 0 {
            return None;
        }
        Some(self.delete_many(args))
    }

    /// The `DELETE` of `delete_many`.
    pub fn delete_many(&self, args: DeleteArgs) -> (q: SqlQuery)
        ensures
            q.tokens() == delete_tokens(self.table_text(args.model@), args.conditions@),
    {
        let ghost a0 = args;
        let DeleteArgs { model, conditions } = args;
        let mut q = SqlQuery::new("DELETE FROM ");
        let t = quote_ident(self.table(model.as_str()).as_str());
        q.push(t.as_str());
        push_where(&mut q, conditions);
        proof {
            assert(q.tokens() =~= delete_tokens(self.table_text(a0.model@), a0.conditions@));
        }
        q
    }

    /// The `DELETE` of `consume_one`: the first matching row, deleted and returned in one
    /// statement.
    pub fn consume_one(&self, args: ConsumeOneArgs) -> (q: SqlQuery)
        ensures
            q.tokens() == consume_tokens(self.table_text(args.model@), args.conditions@),
    {
        let ghost a0 = args;
        let DeleteArgs { model, conditions } = args;
        let t = quote_ident(self.table(model.as_str()).as_str());
        let mut q = SqlQuery::new("DELETE FROM ");
        q.push(t.as_str());
        q.push(" WHERE \"id\" IN (SELECT \"id\" FROM ");
        q.push(t.as_str());
        push_where(&mut q, conditions);
        q.push(" LIMIT 1) RETURNING *");
        proof {
            assert(q.tokens() =~= consume_tokens(self.table_text(a0.model@), a0.conditions@));
        }
        q
    }

    /// The `UPDATE` of `increment_one`. With no increments and nothing to set there is no
    /// statement (`None`).
    pub fn increment_one(&self, args: IncrementOneArgs) -> (q: Option<SqlQuery>)
        ensures
            args.increment.size() == 0 && (args.set is None || args.set->Some_0.size() == 0) <==> q is None,
            q matches Some(s) ==> s.tokens() == increment_one_tokens(
                self.table_text(args.model@),
                args.conditions@,
                args.increment@,
                set_part(args.set),
            ),
    {
        let ghost a0 = args;
        let IncrementOneArgs { model, conditions, increment, set } = args;
        let set_empty = match &set {
            Some(r) => r.is_empty(),
            None => true,
        };
        if increment.is_empty() && set_empty {
            return None;
        }
        let t = quote_ident(self.table(model.as_str()).as_str());
        let mut q = SqlQuery::new("UPDATE ");
        q.push(t.as_str());
        q.push(" SET ");
        let ghost head = q.tokens();
        let ghost inc_map = increment@;
        let ghost set_map = set_part(set);
        let started = push_increments(&mut q, increment);
        let ghost after_inc = q.tokens();
        match set {
            Some(r) => crate::postgres::dml::push_assignments(&mut q, r, started),
            None => {
                proof {
                    crate::strmap::lemma_sorted_empty::<DbValue>();
                    assert(assignments_after(sorted_keys(set_map), set_map, started) =~= Seq::<SqlToken>::empty());
                    assert(q.tokens() =~= after_inc + assignments_after(sorted_keys(set_map), set_map, started));
                }
            },
        }
        let ghost after_set = q.tokens();
        q.push(" WHERE \"id\" IN (SELECT \"id\" FROM ");
        q.push(t.as_str());
        push_where(&mut q, conditions);
        q.push(" LIMIT 1) RETURNING *");
        proof {
            let table = self.table_text(a0.model@);
            assert(q.tokens() =~= after_set + single_row_tokens(table, a0.conditions@));
            assert(after_set == head + increments(sorted_keys(inc_map), inc_map)
                + assignments_after(sorted_keys(set_map), set_map, started));
            assert(head =~= text_tokens("UPDATE "@) + column_tokens(table) + text_tokens(" SET "@));
            assert(q.tokens() =~= increment_one_tokens(table, a0.conditions@, inc_map, set_map));
        }
        Some(q)
    }
}

/// Append the increments of a map, in increasing field order; whether any was appended.
fn push_increments(q: &mut SqlQuery, inc: StrMap<NumericDelta>) -> (started: bool)
    ensures
        final(q).tokens() == old(q).tokens() + increments(sorted_keys(inc@), inc@),
        started == (sorted_keys(inc@).len() > 0),
{
    let ghost m = inc@;
    let ghost base = q.tokens();
    let n = inc.len();
    let ghost keys = inc.keys();
    let ghost values = inc.values();
    proof {
        inc.lemma_canonical();
    }
    let mut rest = inc.into_entries();
    let mut i: usize = 0;
    while rest.len() > 0
        invariant
            keys == sorted_keys(m),
            keys.len() == n,
            forall|j: int| 0 <= j < n ==> #[trigger] values[j] == m[keys[j]],
            i <= n,
            rest@.len() == n - i,
            forall|j: int| 0 <= j < rest@.len() ==> (#[trigger] rest@[j]).0@ == keys[j + i] && rest@[j].1 == values[j + i],
            q.tokens() == base + increments(keys.take(i as int), m),
        decreases rest.len(),
    {
        let (k, d) = rest.remove(0);
        proof {
            assert(keys.take(i + 1).drop_last() =~= keys.take(i as int));
            assert(k@ == keys[i as int]);
            assert(d == m[keys[i as int]]);
        }
        if i > 0 {
            q.push(", ");
        }
        let col = quote_ident(k.as_str());
        q.push(col.as_str());
        q.push(" = ");
        q.push(col.as_str());
        q.push(" + ");
        match d {
            NumericDelta::Whole(w) => q.push_bind(SqlArg::Int(w)),
            NumericDelta::Fraction(f) => q.push_bind(SqlArg::Float(f)),
        }
        i += 1;
        proof {
            assert(q.tokens() =~= base + increments(keys.take(i as int), m));
        }
    }
    proof {
        assert(keys.take(n as int) =~= keys);
    }
    n > 0
}

/// The SQL text of `find_one` does not depend on the conditions' values, only on their shapes:
/// the values are bound parameters.
pub proof fn lemma_find_one_text_independent_of_values(
    table: Seq<char>,
    select: Option<Vec<String>>,
    ws: Seq<Where>,
    vs: Seq<Where>,
)
    requires
        ws.len() == vs.len(),
        forall|i: int| 0 <= i < ws.len() ==> alike_but_values(#[trigger] ws[i], vs[i]),
    ensures
        sql_text(find_one_tokens(table, select, ws)) == sql_text(find_one_tokens(table, select, vs)),
{
    lemma_where_text_independent_of_values(ws, vs);
    let head = text_tokens("SELECT "@) + select_tokens(select) + text_tokens(" FROM "@) + column_tokens(table);
    let tail = text_tokens(" LIMIT 1"@);
    lemma_skeleton_concat(head, where_tokens(ws));
    lemma_skeleton_concat(head, where_tokens(vs));
    lemma_skeleton_concat(head + where_tokens(ws), tail);
    lemma_skeleton_concat(head + where_tokens(vs), tail);
    assert(skeleton(find_one_tokens(table, select, ws)) == skeleton(find_one_tokens(table, select, vs)));
}

/// Whether a field is one of the selected columns.
pub open spec fn selects(sel: Seq<String>, k: Seq<char>) -> bool {
    exists|i: int| 0 <= i < sel.len() && #[trigger] sel[i]@ == k
}

/// The fields of a returned row that a caller asked for: the selected ones, or all of them when
/// no column is selected.
pub open spec fn projected(row: Map<Seq<char>, DbValue>, select: Option<Seq<String>>) -> Map<Seq<char>, DbValue> {
    match select {
        Some(sel) => if sel.len() > 0 {
            row.restrict(Set::new(|k: Seq<char>| selects(sel, k)))
        } else {
            row
        },
        None => row,
    }
}

/// Projection only keeps fields of the row, with their values, and projecting again changes
/// nothing.
pub proof fn lemma_projection(row: Map<Seq<char>, DbValue>, select: Option<Seq<String>>)
    ensures
        projected(row, select).dom().subset_of(row.dom()),
        forall|k: Seq<char>| #[trigger] projected(row, select).contains_key(k) ==> projected(row, select)[k] == row[k],
        projected(projected(row, select), select) == projected(row, select),
{
    match select {
        Some(sel) => if sel.len() > 0 {
            let keep = Set::new(|k: Seq<char>| selects(sel, k));
            assert(row.restrict(keep).restrict(keep) =~= row.restrict(keep));
        },
        None => {},
    }
}

fn is_selected(sel: &[String], k: &str) -> (b: bool)
    ensures
        b == selects(sel@, k@),
{
    let mut i: usize = 0;
    while i < sel.len()
        invariant
            i <= sel@.len(),
            forall|j: int| 0 <= j < i ==> sel@[j]@ != k@,
        decreases sel@.len() - i,
    {
        if text_eq(sel[i].as_str(), k) {
            return true;
        }
        i += 1;
    }
    false
}

/// Keep only the selected columns of a returned row (all of them when none is selected).
pub fn project(row: Row, select: Option<&[String]>) -> (r: Row)
    ensures
        r@ == projected(row@, match select {
            Some(sel) => Some(sel@),
            None => None,
        }),
{
    let ghost m = row@;
    let sel = match select {
        Some(sel) => sel,
        None => {
            return row;
        },
    };
    if sel.len() == 0 {
        return row;
    }
    let n = row.len();
    let ghost keys = row.keys();
    let ghost values = row.values();
    proof {
        row.lemma_canonical();
    }
    let mut rest = row.into_entries();
    let mut out: Row = StrMap::new();
    let mut i: usize = 0;
    while rest.len() > 0
        invariant
            keys.len() == n,
            forall|k: Seq<char>| keys.contains(k) <==> m.dom().contains(k),
            forall|j: int| 0 <= j < n ==> #[trigger] values[j] == m[keys[j]],
            crate::strmap::keys_increasing(keys),
            i <= n,
            rest@.len() == n - i,
            forall|j: int| 0 <= j < rest@.len() ==> (#[trigger] rest@[j]).0@ == keys[j + i] && rest@[j].1 == values[j + i],
            out@ == Map::new(|k: Seq<char>| keys.take(i as int).contains(k) && selects(sel@, k), |k: Seq<char>| m[k]),
        decreases rest.len(),
    {
        let (k, v) = rest.remove(0);
        proof {
            assert(k@ == keys[i as int]);
            assert(v == m[keys[i as int]]);
        }
        let ghost before = out@;
        if is_selected(sel, k.as_str()) {
            out.insert(k, v);
        }
        i += 1;
        proof {
            let now = keys.take(i as int);
            let was = keys.take(i - 1);
            assert(now =~= was.push(keys[i - 1]));
            assert forall|key: Seq<char>| now.contains(key) <==> (was.contains(key) || key == keys[i - 1]) by {
                if now.contains(key) {
                    let p = choose|p: int| 0 <= p < now.len() && #[trigger] now[p] == key;
                    if p < i - 1 {
                        assert(was[p] == key);
                    }
                }
                if was.contains(key) {
                    let p = choose|p: int| 0 <= p < was.len() && #[trigger] was[p] == key;
                    assert(now[p] == key);
                }
                if key == keys[i - 1] {
                    assert(now[i - 1] == key);
                }
            }
            assert(out@ =~= Map::new(|key: Seq<char>| keys.take(i as int).contains(key) && selects(sel@, key), |key: Seq<char>| m[key]));
        }
    }
    proof {
        assert(keys.take(n as int) =~= keys);
        assert(out@ =~= projected(m, Some(sel@)));
    }
    out
}

} // verus!
