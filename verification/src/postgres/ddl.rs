//! Schema statements for PostgreSQL: identifier quoting, column types, and the
//! `CREATE TABLE IF NOT EXISTS` statement of each table, ordered so that the tables a table
//! references are created before it.

use vstd::prelude::*;
use vstd::string::*;
use crate::db::types::{BetterAuthDbSchema, DbFieldAttribute, DbFieldType, DbTableSchema};
use crate::strmap::{keys_increasing, StrMap};
use crate::text::{push_char, text_eq, text_lt};

verus! {

/// The text with every `"` doubled.
pub open spec fn escape_quotes(s: Seq<char>) -> Seq<char>
    decreases s.len(),
{
    if s.len() == 0 {
        Seq::empty()
    } else {
        escape_quotes(s.drop_last()) + if s.last() == '"' {
            seq!['"', '"']
        } else {
            seq![s.last()]
        }
    }
}

/// The identifier in double quotes, with embedded quotes doubled.
pub open spec fn quoted(s: Seq<char>) -> Seq<char> {
    seq!['"'] + escape_quotes(s) + seq!['"']
}

/// Escaping keeps at least every character.
pub proof fn lemma_escape_quotes_len(s: Seq<char>)
    ensures
        escape_quotes(s).len() >= s.len(),
    decreases s.len(),
{
    if s.len() > 0 {
        lemma_escape_quotes_len(s.drop_last());
    }
}

/// Two texts with the same escaped form are the same text.
pub proof fn lemma_escape_quotes_injective(a: Seq<char>, b: Seq<char>)
    requires
        escape_quotes(a) == escape_quotes(b),
    ensures
        a == b,
    decreases a.len(),
{
    if a.len() == 0 || b.len() == 0 {
        lemma_escape_quotes_len(a);
        lemma_escape_quotes_len(b);
        assert(a =~= b);
    } else {
        let ea = escape_quotes(a.drop_last());
        let eb = escape_quotes(b.drop_last());
        let ta: Seq<char> = if a.last() == '"' { seq!['"', '"'] } else { seq![a.last()] };
        let tb: Seq<char> = if b.last() == '"' { seq!['"', '"'] } else { seq![b.last()] };
        assert(escape_quotes(a) == ea + ta);
        assert(escape_quotes(b) == eb + tb);
        let e = escape_quotes(a);
        assert(e.last() == ta.last());
        assert(e.last() == tb.last());
        assert(a.last() == b.last()) by {
            if a.last() == '"' {
                assert(tb.last() == '"');
            } else {
                assert(ta.last() == a.last());
            }
        }
        assert(ta == tb);
        assert(ea =~= e.take(e.len() - ta.len()));
        assert(eb =~= e.take(e.len() - tb.len()));
        lemma_escape_quotes_injective(a.drop_last(), b.drop_last());
        assert(a =~= a.drop_last().push(a.last()));
        assert(b =~= b.drop_last().push(b.last()));
    }
}

/// Quoting is injective: two identifiers with the same quoted form are the same identifier, so a
/// quoted identifier cannot be taken for another.
pub proof fn lemma_quoted_injective(a: Seq<char>, b: Seq<char>)
    requires
        quoted(a) == quoted(b),
    ensures
        a == b,
{
    let q = quoted(a);
    assert(escape_quotes(a) =~= q.subrange(1, q.len() - 1));
    assert(escape_quotes(b) =~= q.subrange(1, q.len() - 1));
    lemma_escape_quotes_injective(a, b);
}

/// `"ident"`, with embedded quotes doubled.
pub fn quote_ident(s: &str) -> (r: String)
    ensures
        r@ == quoted(s@),
{
    let n = s.unicode_len();
    let mut r = String::new();
    push_char(&mut r, '"');
    let mut i: usize = 0;
    while i < n
        invariant
            n == s@.len(),
            i <= n,
            r@ == seq!['"'] + escape_quotes(s@.take(i as int)),
        decreases n - i,
    {
        let c = s.get_char(i);
        proof {
            assert(s@.take(i + 1).drop_last() =~= s@.take(i as int));
        }
        if c == '"' {
            push_char(&mut r, '"');
            push_char(&mut r, '"');
        } else {
            push_char(&mut r, c);
        }
        i += 1;
        proof {
            assert(r@ =~= seq!['"'] + escape_quotes(s@.take(i as int)));
        }
    }
    push_char(&mut r, '"');
    proof {
        assert(s@.take(n as int) =~= s@);
    }
    r
}

/// The column type of a field type.
pub open spec fn pg_type_text(t: DbFieldType, bigint: bool) -> Seq<char> {
    match t {
        DbFieldType::String => "text"@,
        DbFieldType::Enum(_) => "text"@,
        DbFieldType::Number => if bigint {
            "bigint"@
        } else {
            "integer"@
        },
        DbFieldType::Boolean => "boolean"@,
        DbFieldType::Date => "timestamptz"@,
        DbFieldType::Json => "jsonb"@,
        DbFieldType::StringArray => "text"@,
        DbFieldType::NumberArray => "text"@,
    }
}

/// The PostgreSQL column type for a field type. Arrays are stored as JSON text.
pub fn pg_type(t: &DbFieldType, bigint: bool) -> (r: &'static str)
    ensures
        r@ == pg_type_text(*t, bigint),
{
    match t {
        DbFieldType::String => "text",
        DbFieldType::Enum(_) => "text",
        DbFieldType::Number => if bigint {
            "bigint"
        } else {
            "integer"
        },
        DbFieldType::Boolean => "boolean",
        DbFieldType::Date => "timestamptz",
        DbFieldType::Json => "jsonb",
        DbFieldType::StringArray => "text",
        DbFieldType::NumberArray => "text",
    }
}

/// A field's column: its configured column name, or its key.
pub open spec fn column_of(key: Seq<char>, f: DbFieldAttribute) -> Seq<char> {
    match f.config.field_name {
        Some(c) => c@,
        None => key,
    }
}

/// Whether a field is required: it is unless its configuration says `required: false`.
pub open spec fn is_required(f: DbFieldAttribute) -> bool {
    f.config.required != Some(false)
}

/// The column definition of a field.
pub open spec fn column_def(key: Seq<char>, f: DbFieldAttribute) -> Seq<char> {
    ",\n  "@ + quoted(column_of(key, f)) + " "@ + pg_type_text(f.field_type, f.config.bigint == Some(true))
        + (if is_required(f) { " NOT NULL"@ } else { Seq::empty() })
        + (if f.config.unique == Some(true) { " UNIQUE"@ } else { Seq::empty() })
}

/// The foreign-key clause of a field (empty when it references nothing).
pub open spec fn foreign_key_def(key: Seq<char>, f: DbFieldAttribute) -> Seq<char> {
    match f.config.references {
        Some(r) => ",\n  FOREIGN KEY ("@ + quoted(column_of(key, f)) + ") REFERENCES "@ + quoted(r.model@)
            + " ("@ + quoted(r.field@) + ") ON DELETE CASCADE"@,
        None => Seq::empty(),
    }
}

/// The column definitions of the first `n` fields, in key order.
pub open spec fn columns_text(fields: StrMap<DbFieldAttribute>, n: int) -> Seq<char>
    decreases n,
{
    if n <= 0 {
        Seq::empty()
    } else {
        columns_text(fields, n - 1) + column_def(fields.keys()[n - 1], fields.values()[n - 1])
    }
}

/// The foreign-key clauses of the first `n` fields, in key order.
pub open spec fn foreign_keys_text(fields: StrMap<DbFieldAttribute>, n: int) -> Seq<char>
    decreases n,
{
    if n <= 0 {
        Seq::empty()
    } else {
        foreign_keys_text(fields, n - 1) + foreign_key_def(fields.keys()[n - 1], fields.values()[n - 1])
    }
}

/// The `CREATE TABLE IF NOT EXISTS` statement of a table: an `id` text primary key, a column per
/// field in key order, then the foreign keys.
pub open spec fn create_table_text(t: DbTableSchema) -> Seq<char> {
    "CREATE TABLE IF NOT EXISTS "@ + quoted(t.model_name@) + " (\n  "@ + quoted("id"@) + " text PRIMARY KEY"@
        + columns_text(t.fields, t.fields.size() as int) + foreign_keys_text(t.fields, t.fields.size() as int)
        + "\n)"@
}

/// Whether a text ends with `suffix`.
pub open spec fn ends_with(s: Seq<char>, suffix: Seq<char>) -> bool {
    s.len() >= suffix.len() && s.subrange(s.len() - suffix.len(), s.len() as int) == suffix
}

/// A text ending with `suffix` ends with its last character.
proof fn lemma_ends_with_last(s: Seq<char>, suffix: Seq<char>)
    requires
        ends_with(s, suffix),
        suffix.len() > 0,
    ensures
        s[s.len() - 1] == suffix[suffix.len() - 1],
{
    assert(s.subrange(s.len() - suffix.len(), s.len() as int)[suffix.len() - 1] == s[s.len() - 1]);
}

/// Every column type ends with a lowercase letter.
proof fn lemma_pg_type_last(t: DbFieldType, bigint: bool)
    ensures
        pg_type_text(t, bigint).len() > 0,
        'a' <= pg_type_text(t, bigint)[pg_type_text(t, bigint).len() - 1] <= 'z',
{
    reveal_strlit("text");
    reveal_strlit("bigint");
    reveal_strlit("integer");
    reveal_strlit("boolean");
    reveal_strlit("timestamptz");
    reveal_strlit("jsonb");
}

/// The start of a column definition: the quoted column name and the column type.
pub open spec fn column_head(key: Seq<char>, f: DbFieldAttribute) -> Seq<char> {
    ",\n  "@ + quoted(column_of(key, f)) + " "@ + pg_type_text(f.field_type, f.config.bigint == Some(true))
}

/// What follows the head in a column definition.
pub open spec fn column_constraints(key: Seq<char>, f: DbFieldAttribute) -> Seq<char> {
    column_def(key, f).subrange(column_head(key, f).len() as int, column_def(key, f).len() as int)
}

/// A column's constraints: it is `UNIQUE` exactly when its field's `unique` is `true` (the
/// definition then ends with ` UNIQUE`), and `NOT NULL` exactly when the field is required (the
/// constraints are then ` NOT NULL`, followed by ` UNIQUE` where it is unique). Before the
/// constraints come the quoted column name and the column type.
pub proof fn lemma_column_constraints(key: Seq<char>, f: DbFieldAttribute)
    ensures
        ends_with(column_def(key, f), " UNIQUE"@) <==> f.config.unique == Some(true),
        column_def(key, f) == column_head(key, f) + column_constraints(key, f),
        ends_with(column_constraints(key, f), " NOT NULL"@) || ends_with(column_constraints(key, f), " NOT NULL UNIQUE"@)
            <==> is_required(f),
        ends_with(column_constraints(key, f), " UNIQUE"@) <==> f.config.unique == Some(true),
{
    reveal_strlit(" UNIQUE");
    reveal_strlit(" NOT NULL");
    reveal_strlit(" NOT NULL UNIQUE");
    let ty = pg_type_text(f.field_type, f.config.bigint == Some(true));
    lemma_pg_type_last(f.field_type, f.config.bigint == Some(true));
    let head = column_head(key, f);
    let nn: Seq<char> = if is_required(f) { " NOT NULL"@ } else { Seq::empty() };
    let un: Seq<char> = if f.config.unique == Some(true) { " UNIQUE"@ } else { Seq::empty() };
    let cons = nn + un;
    let d = column_def(key, f);
    assert(d =~= head + cons);
    assert(column_constraints(key, f) =~= cons);
    assert(head.len() > 0 && head[head.len() - 1] == ty[ty.len() - 1]);
    if f.config.unique == Some(true) {
        assert(d.subrange(d.len() - 7, d.len() as int) =~= " UNIQUE"@);
        assert(cons.subrange(cons.len() - 7, cons.len() as int) =~= " UNIQUE"@);
        if is_required(f) {
            assert(cons =~= " NOT NULL UNIQUE"@);
            assert(cons.subrange(cons.len() - 16, cons.len() as int) =~= " NOT NULL UNIQUE"@);
        } else {
            assert(cons =~= " UNIQUE"@);
            if ends_with(cons, " NOT NULL"@) {
                lemma_ends_with_last(cons, " NOT NULL"@);
            }
            if ends_with(cons, " NOT NULL UNIQUE"@) {
                assert(cons.len() < 16);
            }
        }
    } else {
        if ends_with(d, " UNIQUE"@) {
            lemma_ends_with_last(d, " UNIQUE"@);
            if is_required(f) {
                assert(d[d.len() - 1] == 'L');
            } else {
                assert(d =~= head);
            }
        }
        if ends_with(cons, " UNIQUE"@) {
            lemma_ends_with_last(cons, " UNIQUE"@);
        }
        if is_required(f) {
            assert(cons =~= " NOT NULL"@);
            assert(cons.subrange(0, 9) =~= " NOT NULL"@);
            if ends_with(cons, " NOT NULL UNIQUE"@) {
                assert(cons.len() < 16);
            }
        } else {
            assert(cons.len() == 0);
        }
    }
}

/// The column definitions of the first `n` fields hold, for each `i` below `n`, the definition of
/// field `i`, with the definitions of the fields before it in front of it.
proof fn lemma_columns_text_holds(fields: StrMap<DbFieldAttribute>, n: int, i: int)
    requires
        0 <= i < n,
    ensures
        exists|rest: Seq<char>|
            columns_text(fields, n) == columns_text(fields, i) + column_def(fields.keys()[i], fields.values()[i])
                + rest,
    decreases n,
{
    if i == n - 1 {
        assert(columns_text(fields, n) == columns_text(fields, i) + column_def(fields.keys()[i], fields.values()[i])
            + Seq::<char>::empty());
    } else {
        lemma_columns_text_holds(fields, n - 1, i);
        let rest = choose|rest: Seq<char>|
            columns_text(fields, n - 1) == columns_text(fields, i) + column_def(fields.keys()[i], fields.values()[i])
                + rest;
        let last = column_def(fields.keys()[n - 1], fields.values()[n - 1]);
        assert(columns_text(fields, n) =~= columns_text(fields, i) + column_def(fields.keys()[i], fields.values()[i])
            + (rest + last));
    }
}

/// A table's statement holds the column definition of each of its fields, in key order after the
/// `id` column: so every field whose `unique` is `true` has a `UNIQUE` column.
pub proof fn lemma_create_table_holds_columns(t: DbTableSchema, i: int)
    requires
        0 <= i < t.fields.size(),
    ensures
        exists|before: Seq<char>, after: Seq<char>|
            create_table_text(t) == before + column_def(t.fields.keys()[i], t.fields.values()[i]) + after && before
                == "CREATE TABLE IF NOT EXISTS "@ + quoted(t.model_name@) + " (\n  "@ + quoted("id"@)
                + " text PRIMARY KEY"@ + columns_text(t.fields, i),
{
    let n = t.fields.size() as int;
    lemma_columns_text_holds(t.fields, n, i);
    let rest = choose|rest: Seq<char>|
        columns_text(t.fields, n) == columns_text(t.fields, i) + column_def(t.fields.keys()[i], t.fields.values()[i])
            + rest;
    let before = "CREATE TABLE IF NOT EXISTS "@ + quoted(t.model_name@) + " (\n  "@ + quoted("id"@)
        + " text PRIMARY KEY"@ + columns_text(t.fields, i);
    let after = rest + foreign_keys_text(t.fields, n) + "\n)"@;
    assert(create_table_text(t) =~= before + column_def(t.fields.keys()[i], t.fields.values()[i]) + after);
}

fn column_definition(key: &str, f: &DbFieldAttribute) -> (r: String)
    ensures
        r@ == column_def(key@, *f),
{
    let col = match &f.config.field_name {
        Some(c) => quote_ident(c.as_str()),
        None => quote_ident(key),
    };
    let bigint = match f.config.bigint {
        Some(b) => b,
        None => false,
    };
    let mut s = String::from_str(",\n  ");
    s.append(col.as_str());
    s.append(" ");
    s.append(pg_type(&f.field_type, bigint));
    let required = match f.config.required {
        Some(false) => false,
        _ => true,
    };
    if required {
        s.append(" NOT NULL");
    }
    let unique = match f.config.unique {
        Some(u) => u,
        None => false,
    };
    if unique {
        s.append(" UNIQUE");
    }
    proof {
        assert(bigint == (f.config.bigint == Some(true)));
        assert(unique == (f.config.unique == Some(true)));
        let base = ",\n  "@ + quoted(column_of(key@, *f)) + " "@ + pg_type_text(f.field_type, bigint);
        assert(s@ =~= column_def(key@, *f));
    }
    s
}

fn foreign_key_definition(key: &str, f: &DbFieldAttribute) -> (r: String)
    ensures
        r@ == foreign_key_def(key@, *f),
{
    match &f.config.references {
        Some(r) => {
            let col = match &f.config.field_name {
                Some(c) => quote_ident(c.as_str()),
                None => quote_ident(key),
            };
            let mut s = String::from_str(",\n  FOREIGN KEY (");
            s.append(col.as_str());
            s.append(") REFERENCES ");
            s.append(quote_ident(r.model.as_str()).as_str());
            s.append(" (");
            s.append(quote_ident(r.field.as_str()).as_str());
            s.append(") ON DELETE CASCADE");
            proof {
                assert(s@ =~= foreign_key_def(key@, *f));
            }
            s
        },
        None => {
            let s = String::new();
            proof {
                assert(s@ =~= foreign_key_def(key@, *f));
            }
            s
        },
    }
}

/// The `CREATE TABLE IF NOT EXISTS` statement for a table.
pub fn create_table_sql(t: &DbTableSchema) -> (r: String)
    ensures
        r@ == create_table_text(*t),
{
    let mut s = String::from_str("CREATE TABLE IF NOT EXISTS ");
    s.append(quote_ident(t.model_name.as_str()).as_str());
    s.append(" (\n  ");
    s.append(quote_ident("id").as_str());
    s.append(" text PRIMARY KEY");
    let ghost head = s@;
    let n = t.fields.len();
    let mut fks = String::new();
    let mut i: usize = 0;
    while i < n
        invariant
            n == t.fields.size(),
            t.fields.shape(),
            i <= n,
            s@ == head + columns_text(t.fields, i as int),
            fks@ == foreign_keys_text(t.fields, i as int),
        decreases n - i,
    {
        let key = t.fields.key_at(i);
        let f = t.fields.value_at(i);
        let col = column_definition(key.as_str(), f);
        s.append(col.as_str());
        let fk = foreign_key_definition(key.as_str(), f);
        fks.append(fk.as_str());
        i += 1;
        proof {
            assert(s@ =~= head + columns_text(t.fields, i as int));
        }
    }
    s.append(fks.as_str());
    s.append("\n)");
    proof {
        assert(s@ =~= create_table_text(*t));
    }
    s
}

/// Where a table goes among the schema's statements: its explicit order, or last.
pub open spec fn table_rank(t: DbTableSchema) -> int {
    match t.order {
        Some(o) => o as int,
        None => i64::MAX as int,
    }
}

/// Whether a field references table `b`, stored in the schema under `key_b`: by the table's name
/// or by its key.
pub open spec fn field_refers(f: DbFieldAttribute, key_b: Seq<char>, b: DbTableSchema) -> bool {
    match f.config.references {
        Some(r) => r.model@ == b.model_name@ || r.model@ == key_b,
        None => false,
    }
}

/// Whether the table at position `i` of the schema has a field referencing the other table at
/// position `j`.
pub open spec fn depends(schema: BetterAuthDbSchema, i: int, j: int) -> bool {
    let fields = schema.values()[i].fields;
    &&& 0 <= i < schema.size()
    &&& 0 <= j < schema.size()
    &&& i != j
    &&& exists|f: int|
        0 <= f < fields.values().len() && #[trigger] field_refers(fields.values()[f], schema.keys()[j], schema.values()[j])
}

/// Whether the table at position `j` can be created once the tables at the positions in `placed`
/// are: it is not among them, and every other table it references is.
pub open spec fn ready(schema: BetterAuthDbSchema, placed: Seq<int>, j: int) -> bool {
    &&& 0 <= j < schema.size()
    &&& !placed.contains(j)
    &&& forall|k: int| #[trigger] depends(schema, j, k) ==> placed.contains(k)
}

/// Whether the table at position `i` goes before the one at `j` by explicit order, then by name.
pub open spec fn first_of(schema: BetterAuthDbSchema, i: int, j: int) -> bool {
    let tables = schema.values();
    let keys = schema.keys();
    table_rank(tables[i]) < table_rank(tables[j]) || (table_rank(tables[i]) == table_rank(tables[j])
        && text_lt(keys[i], keys[j]))
}

/// Whether the table at position `c` is the one created after those in `placed`: the first, by
/// explicit order then name, of the tables whose referenced tables all exist; where no table is
/// (the remaining references form a cycle), the first of all remaining tables.
pub open spec fn next_table(schema: BetterAuthDbSchema, placed: Seq<int>, c: int) -> bool {
    &&& 0 <= c < schema.size()
    &&& !placed.contains(c)
    &&& if exists|j: int| #[trigger] ready(schema, placed, j) {
        &&& ready(schema, placed, c)
        &&& forall|j: int| #[trigger] ready(schema, placed, j) && j != c ==> first_of(schema, c, j)
    } else {
        forall|j: int| 0 <= j < schema.size() && !#[trigger] placed.contains(j) && j != c ==> first_of(schema, c, j)
    }
}

/// Whether `perm` lists the positions of the schema's tables in the order their statements are
/// made: each is the next table after those before it.
pub open spec fn schema_order(schema: BetterAuthDbSchema, perm: Seq<int>) -> bool {
    &&& perm.len() == schema.size()
    &&& forall|p: int| 0 <= p < perm.len() ==> #[trigger] next_table(schema, perm.take(p), perm[p])
}

/// Where references never lead from a table back to itself, some remaining table is ready: follow
/// references from a remaining table down the levels.
proof fn lemma_some_ready(schema: BetterAuthDbSchema, placed: Seq<int>, level: spec_fn(int) -> nat, j: int, m: nat)
    requires
        0 <= j < schema.size(),
        !placed.contains(j),
        level(j) <= m,
        forall|a: int, b: int| #[trigger] depends(schema, a, b) ==> level(b) < level(a),
    ensures
        exists|x: int| #[trigger] ready(schema, placed, x),
    decreases m,
{
    if !ready(schema, placed, j) {
        let k = choose|k: int| #[trigger] depends(schema, j, k) && !placed.contains(k);
        assert(level(k) < level(j));
        lemma_some_ready(schema, placed, level, k, (m - 1) as nat);
    }
}

/// The statements list each table once.
pub proof fn lemma_schema_order_distinct(schema: BetterAuthDbSchema, perm: Seq<int>)
    requires
        schema_order(schema, perm),
    ensures
        forall|p: int| 0 <= p < perm.len() ==> 0 <= #[trigger] perm[p] < schema.size(),
        forall|p: int, q: int| 0 <= p < q < perm.len() ==> #[trigger] perm[p] != #[trigger] perm[q],
{
    assert forall|p: int| 0 <= p < perm.len() implies 0 <= #[trigger] perm[p] < schema.size() by {
        assert(next_table(schema, perm.take(p), perm[p]));
    }
    assert forall|p: int, q: int| 0 <= p < q < perm.len() implies #[trigger] perm[p] != #[trigger] perm[q] by {
        assert(next_table(schema, perm.take(q), perm[q]));
        assert(perm.take(q)[p] == perm[p]);
    }
}

/// Foreign-key targets are created first: where no chain of references leads from a table back
/// to itself (some level drops along every reference), every table's statement comes after the
/// statement of each other table it references.
pub proof fn lemma_targets_created_first(schema: BetterAuthDbSchema, perm: Seq<int>, level: spec_fn(int) -> nat)
    requires
        schema_order(schema, perm),
        forall|a: int, b: int| #[trigger] depends(schema, a, b) ==> level(b) < level(a),
    ensures
        forall|p: int, q: int|
            0 <= p < perm.len() && 0 <= q < perm.len() && #[trigger] depends(schema, perm[q], perm[p]) ==> p < q,
{
    lemma_schema_order_distinct(schema, perm);
    assert forall|p: int, q: int|
        0 <= p < perm.len() && 0 <= q < perm.len() && #[trigger] depends(schema, perm[q], perm[p]) implies p < q by {
        let prefix = perm.take(q);
        assert(next_table(schema, prefix, perm[q]));
        lemma_some_ready(schema, prefix, level, perm[q], level(perm[q]));
        assert(prefix.contains(perm[p]));
        let t = choose|t: int| 0 <= t < prefix.len() && prefix[t] == perm[p];
        assert(perm[t] == perm[p]);
        if p >= q {
            assert(p != t);
        }
    }
}

fn rank_of(t: &DbTableSchema) -> (r: i64)
    ensures
        r == table_rank(*t),
{
    match t.order {
        Some(o) => o,
        None => i64::MAX,
    }
}

/// Whether the table at position `i` has a field referencing the other table at position `j`.
fn depends_on(schema: &BetterAuthDbSchema, i: usize, j: usize) -> (b: bool)
    requires
        i < schema.size(),
        j < schema.size(),
    ensures
        b == depends(*schema, i as int, j as int),
{
    let n = schema.len();
    if i == j {
        return false;
    }
    let t = schema.value_at(i);
    let key_b = schema.key_at(j);
    let b = schema.value_at(j);
    let m = t.fields.len();
    let mut f: usize = 0;
    while f < m
        invariant
            n == schema.size(),
            schema.shape(),
            i < n,
            j < n,
            i != j,
            *t == schema.values()[i as int],
            *b == schema.values()[j as int],
            key_b@ == schema.keys()[j as int],
            m == t.fields.size(),
            t.fields.shape(),
            f <= m,
            forall|g: int| 0 <= g < f ==> !#[trigger] field_refers(t.fields.values()[g], key_b@, *b),
        decreases m - f,
    {
        let fa = t.fields.value_at(f);
        match &fa.config.references {
            Some(r) => {
                if text_eq(r.model.as_str(), b.model_name.as_str()) || text_eq(r.model.as_str(), key_b.as_str()) {
                    let ghost fields = schema.values()[i as int].fields;
                    assert(field_refers(fields.values()[f as int], schema.keys()[j as int], schema.values()[j as int]));
                    assert(field_refers(fields.values()[f as int], schema.keys()[j as int], schema.values()[j as int]));
                    return true;
                }
            },
            None => {},
        }
        f += 1;
    }
    false
}

/// Whether every other table that the table at position `j` references is marked in `placed`.
fn is_ready(schema: &BetterAuthDbSchema, placed: &Vec<bool>, j: usize) -> (r: bool)
    requires
        j < schema.size(),
        placed@.len() == schema.size(),
    ensures
        r == (forall|k: int| 0 <= k < schema.size() && !placed@[k] ==> !#[trigger] depends(*schema, j as int, k)),
{
    let n = schema.len();
    let mut k: usize = 0;
    while k < n
        invariant
            n == schema.size(),
            placed@.len() == n,
            j < n,
            k <= n,
            forall|t: int| 0 <= t < k && !placed@[t] ==> !#[trigger] depends(*schema, j as int, t),
        decreases n - k,
    {
        if !placed[k] && depends_on(schema, j, k) {
            return false;
        }
        k += 1;
    }
    true
}

/// How many entries are `false`.
spec fn unplaced_count(s: Seq<bool>) -> nat
    decreases s.len(),
{
    if s.len() == 0 {
        0
    } else {
        unplaced_count(s.drop_last()) + if s.last() { 0nat } else { 1nat }
    }
}

proof fn lemma_unplaced_update(s: Seq<bool>, i: int)
    requires
        0 <= i < s.len(),
        !s[i],
    ensures
        unplaced_count(s.update(i, true)) + 1 == unplaced_count(s),
    decreases s.len(),
{
    let u = s.update(i, true);
    if i == s.len() - 1 {
        assert(u.drop_last() =~= s.drop_last());
    } else {
        assert(u.drop_last() =~= s.drop_last().update(i, true));
        lemma_unplaced_update(s.drop_last(), i);
    }
}

proof fn lemma_unplaced_witness(s: Seq<bool>) -> (i: int)
    requires
        unplaced_count(s) > 0,
    ensures
        0 <= i < s.len(),
        !s[i],
    decreases s.len(),
{
    if !s.last() {
        s.len() - 1
    } else {
        lemma_unplaced_witness(s.drop_last())
    }
}

/// The position of the next table after those marked in `placed` (the positions in `done`).
fn pick_next(schema: &BetterAuthDbSchema, placed: &Vec<bool>, Ghost(done): Ghost<Seq<int>>) -> (c: usize)
    requires
        placed@.len() == schema.size(),
        forall|t: int| 0 <= t < schema.size() ==> (placed@[t] <==> done.contains(t)),
        unplaced_count(placed@) > 0,
    ensures
        next_table(*schema, done, c as int),
{
    let n = schema.len();
    let ghost keys = schema.keys();
    let mut best: usize = n;
    let mut j: usize = 0;
    while j < n
        invariant
            n == schema.size(),
            keys == schema.keys(),
            keys_increasing(keys),
            placed@.len() == n,
            forall|t: int| 0 <= t < n ==> (placed@[t] <==> done.contains(t)),
            j <= n,
            best == n || best < j,
            best == n ==> forall|t: int| 0 <= t < j ==> !#[trigger] ready(*schema, done, t),
            best < n ==> ready(*schema, done, best as int),
            best < n ==> forall|t: int|
                0 <= t < j && #[trigger] ready(*schema, done, t) && t != best ==> first_of(*schema, best as int, t),
        decreases n - j,
    {
        if !placed[j] && is_ready(schema, placed, j) {
            assert(ready(*schema, done, j as int)) by {
                assert forall|k: int| #[trigger] depends(*schema, j as int, k) implies done.contains(k) by {
                    assert(placed@[k]);
                }
            }
            if best == n || rank_of(schema.value_at(j)) < rank_of(schema.value_at(best)) {
                best = j;
            } else {
                assert(text_lt(keys[best as int], keys[j as int]));
            }
        } else {
            assert(!ready(*schema, done, j as int)) by {
                if !placed@[j as int] {
                    let k = choose|k: int| 0 <= k < n && !placed@[k] && #[trigger] depends(*schema, j as int, k);
                    assert(!done.contains(k));
                }
            }
        }
        j += 1;
    }
    if best < n {
        return best;
    }
    let mut pick: usize = n;
    let mut k: usize = 0;
    while k < n
        invariant
            n == schema.size(),
            keys == schema.keys(),
            keys_increasing(keys),
            placed@.len() == n,
            forall|t: int| 0 <= t < n ==> (placed@[t] <==> done.contains(t)),
            forall|t: int| 0 <= t < n ==> !#[trigger] ready(*schema, done, t),
            k <= n,
            pick == n || pick < k,
            pick == n ==> forall|t: int| 0 <= t < k ==> placed@[t],
            pick < n ==> !placed@[pick as int],
            pick < n ==> forall|t: int| 0 <= t < k && !placed@[t] && t != pick ==> first_of(*schema, pick as int, t),
        decreases n - k,
    {
        if !placed[k] {
            if pick == n || rank_of(schema.value_at(k)) < rank_of(schema.value_at(pick)) {
                pick = k;
            } else {
                assert(text_lt(keys[pick as int], keys[k as int]));
            }
        }
        k += 1;
    }
    if pick == n {
        proof {
            let i = lemma_unplaced_witness(placed@);
            assert(placed@[i]);
        }
    }
    proof {
        assert(!exists|x: int| #[trigger] ready(*schema, done, x));
        assert forall|t: int| 0 <= t < n && !#[trigger] done.contains(t) && t != pick implies first_of(
            *schema,
            pick as int,
            t,
        ) by {
            assert(!placed@[t]);
        }
    }
    pick
}

/// The `CREATE TABLE IF NOT EXISTS` statements of a schema, each table after the tables it
/// references (where references form no cycle), and otherwise by explicit order (lowest first,
/// tables without one last), then by name.
pub fn schema_sql(schema: &BetterAuthDbSchema) -> (r: Vec<String>)
    ensures
        exists|perm: Seq<int>|
            schema_order(*schema, perm) && r@.len() == perm.len() && (forall|p: int|
                0 <= p < r@.len() ==> (#[trigger] r@[p])@ == create_table_text(schema.values()[perm[p]])),
{
    let n = schema.len();
    let mut placed: Vec<bool> = Vec::new();
    while placed.len() < n
        invariant
            n == schema.size(),
            placed@.len() <= n,
            forall|t: int| 0 <= t < placed@.len() ==> !placed@[t],
            unplaced_count(placed@) == placed@.len(),
        decreases n - placed@.len(),
    {
        proof {
            assert(placed@.push(false).drop_last() =~= placed@);
        }
        placed.push(false);
    }
    let mut order: Vec<usize> = Vec::new();
    let ghost mut perm: Seq<int> = Seq::empty();
    while order.len() < n
        invariant
            n == schema.size(),
            placed@.len() == n,
            order@.len() == perm.len(),
            perm.len() <= n,
            forall|t: int| 0 <= t < perm.len() ==> #[trigger] perm[t] == order@[t] as int,
            forall|t: int| 0 <= t < n ==> (placed@[t] <==> perm.contains(t)),
            unplaced_count(placed@) == n - perm.len(),
            forall|p: int| 0 <= p < perm.len() ==> #[trigger] next_table(*schema, perm.take(p), perm[p]),
        decreases n - order@.len(),
    {
        proof {
            assert forall|t: int| 0 <= t < n && !placed@[t] implies !perm.contains(t) by {}
        }
        let c = pick_next(schema, &placed, Ghost(perm));
        proof {
            lemma_unplaced_update(placed@, c as int);
        }
        placed.set(c, true);
        order.push(c);
        let ghost old_perm = perm;
        proof {
            perm = perm.push(c as int);
            assert forall|p: int| 0 <= p < perm.len() implies #[trigger] next_table(*schema, perm.take(p), perm[p]) by {
                if p < old_perm.len() {
                    assert(perm.take(p) =~= old_perm.take(p));
                } else {
                    assert(perm.take(p) =~= old_perm);
                }
            }
            assert forall|t: int| 0 <= t < n implies (placed@[t] <==> perm.contains(t)) by {
                if t == c as int {
                    assert(perm[old_perm.len() as int] == t);
                } else {
                    if perm.contains(t) {
                        let x = choose|x: int| 0 <= x < perm.len() && perm[x] == t;
                        assert(old_perm[x] == t);
                    }
                    if old_perm.contains(t) {
                        let x = choose|x: int| 0 <= x < old_perm.len() && old_perm[x] == t;
                        assert(perm[x] == t);
                    }
                }
            }
        }
    }
    proof {
        assert(schema_order(*schema, perm));
        lemma_schema_order_distinct(*schema, perm);
    }
    let mut out: Vec<String> = Vec::new();
    let mut p: usize = 0;
    while p < n
        invariant
            n == schema.size(),
            order@.len() == n,
            perm.len() == n,
            forall|t: int| 0 <= t < n ==> #[trigger] perm[t] == order@[t] as int,
            forall|t: int| 0 <= t < n ==> 0 <= #[trigger] perm[t] < n,
            p <= n,
            out@.len() == p,
            forall|t: int| 0 <= t < p ==> (#[trigger] out@[t])@ == create_table_text(schema.values()[perm[t]]),
        decreases n - p,
    {
        assert(perm[p as int] == order@[p as int] as int);
        let stmt = create_table_sql(schema.value_at(order[p]));
        out.push(stmt);
        p += 1;
    }
    out
}

} // verus!
