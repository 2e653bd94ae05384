//! Resolve a (possibly custom or pluralized) model name back to its schema key.

use vstd::prelude::*;
use vstd::string::*;
use crate::db::types::BetterAuthDbSchema;
use crate::error::BetterAuthError;
use crate::text::{lemma_text_lt_irreflexive, text_eq, text_lt};

verus! {

/// The text without its last character.
pub open spec fn drop_last_char(s: Seq<char>) -> Seq<char> {
    s.subrange(0, s.len() - 1)
}

/// Whether the text ends with `s`.
pub open spec fn ends_with_s(s: Seq<char>) -> bool {
    s.len() > 0 && s[s.len() - 1] == 's'
}

/// `i` is the position (in key order) of the first table whose database name is `name`.
pub open spec fn is_first_table_named(schema: BetterAuthDbSchema, name: Seq<char>, i: int) -> bool {
    &&& 0 <= i < schema.size()
    &&& schema.values()[i].model_name@ == name
    &&& forall|j: int| 0 <= j < i ==> schema.values()[j].model_name@ != name
}

/// The key of the first table (in key order) whose database name is `name`.
pub open spec fn key_of_table_named(schema: BetterAuthDbSchema, name: Seq<char>) -> Option<Seq<char>> {
    if exists|i: int| is_first_table_named(schema, name, i) {
        Some(schema.keys()[choose|i: int| is_first_table_named(schema, name, i)])
    } else {
        None
    }
}

/// The schema key a model name resolves to: with plural names on, a name ending in `s` is tried
/// without it first (as a key, then as a database name); then the name itself as a key, then as
/// a database name.
pub open spec fn default_model_key(schema: BetterAuthDbSchema, use_plural: bool, model: Seq<char>) -> Option<Seq<char>> {
    let stripped = drop_last_char(model);
    if use_plural && ends_with_s(model) && schema@.contains_key(stripped) {
        Some(stripped)
    } else if use_plural && ends_with_s(model) && key_of_table_named(schema, stripped) is Some {
        key_of_table_named(schema, stripped)
    } else if schema@.contains_key(model) {
        Some(model)
    } else {
        key_of_table_named(schema, model)
    }
}

/// The message of the error for a model missing from the schema.
pub open spec fn model_not_found_message(model: Seq<char>) -> Seq<char> {
    "Model \""@ + model + "\" not found in schema"@
}

/// The key of the first table (in key order) whose database name is `name`.
pub fn find_table_named(schema: &BetterAuthDbSchema, name: &str) -> (r: Option<String>)
    ensures
        r is Some <==> key_of_table_named(*schema, name@) is Some,
        r matches Some(k) ==> key_of_table_named(*schema, name@) == Some(k@),
{
    let n = schema.len();
    let mut i: usize = 0;
    while i < n
        invariant
            n == schema.size(),
            schema.shape(),
            i <= n,
            forall|j: int| 0 <= j < i ==> schema.values()[j].model_name@ != name@,
        decreases n - i,
    {
        let table = schema.value_at(i);
        if text_eq(table.model_name.as_str(), name) {
            proof {
                assert(is_first_table_named(*schema, name@, i as int));
                let c = choose|c: int| is_first_table_named(*schema, name@, c);
                assert(c == i as int) by {
                    if c < i {
                    } else if c > i {
                    }
                }
            }
            return Some(schema.key_at(i).clone());
        }
        i += 1;
    }
    None
}

/// The error for a model missing from the schema.
pub fn model_not_found(model: &str) -> (e: BetterAuthError)
    ensures
        e.message@ == model_not_found_message(model@),
{
    let mut m = String::from_str("Model \"");
    m.append(model);
    m.append("\" not found in schema");
    BetterAuthError::new(m)
}

/// The schema key for `model`, which may be a customized database name and/or pluralized.
///
/// Errors when no table matches.
pub fn get_default_model_name(schema: &BetterAuthDbSchema, use_plural: bool, model: &str) -> (r: Result<String, BetterAuthError>)
    ensures
        r is Ok <==> default_model_key(*schema, use_plural, model@) is Some,
        r matches Ok(k) ==> default_model_key(*schema, use_plural, model@) == Some(k@),
        r matches Err(e) ==> e.message@ == model_not_found_message(model@),
{
    let len = model.unicode_len();
    if use_plural && len > 0 && model.get_char(len - 1) == 's' {
        let stripped = model.substring_char(0, len - 1);
        if schema.contains_key(stripped) {
            return Ok(String::from_str(stripped));
        }
        if let Some(key) = find_table_named(schema, stripped) {
            return Ok(key);
        }
    }
    if schema.contains_key(model) {
        return Ok(String::from_str(model));
    }
    if let Some(key) = find_table_named(schema, model) {
        return Ok(key);
    }
    Err(model_not_found(model))
}

/// A name that resolves, resolves to a key of the schema.
pub proof fn lemma_default_model_key_is_schema_key(schema: BetterAuthDbSchema, use_plural: bool, model: Seq<char>)
    requires
        default_model_key(schema, use_plural, model) is Some,
    ensures
        schema@.contains_key(default_model_key(schema, use_plural, model)->0),
{
    let stripped = drop_last_char(model);
    if exists|i: int| is_first_table_named(schema, stripped, i) {
        let i = choose|i: int| is_first_table_named(schema, stripped, i);
        assert(schema.keys().contains(schema.keys()[i]));
    }
    if exists|i: int| is_first_table_named(schema, model, i) {
        let i = choose|i: int| is_first_table_named(schema, model, i);
        assert(schema.keys().contains(schema.keys()[i]));
    }
}

/// With plural names off, a schema key resolves to itself.
pub proof fn lemma_key_resolves_to_itself(schema: BetterAuthDbSchema, key: Seq<char>)
    requires
        schema@.contains_key(key),
    ensures
        default_model_key(schema, false, key) == Some(key),
{
}

/// With plural names on, a schema key with an `s` appended resolves to the key.
pub proof fn lemma_plural_key_resolves_to_key(schema: BetterAuthDbSchema, key: Seq<char>)
    requires
        schema@.contains_key(key),
    ensures
        default_model_key(schema, true, key + "s"@) == Some(key),
{
    reveal_strlit("s");
    let p = key + "s"@;
    assert(ends_with_s(p));
    assert(drop_last_char(p) =~= key);
}

/// The only table with database name `n` is found by that name: its key is the one returned.
pub proof fn lemma_unique_table_name_key(schema: BetterAuthDbSchema, k: Seq<char>, n: Seq<char>)
    requires
        schema.shape(),
        schema@.contains_key(k),
        schema@[k].model_name@ == n,
        forall|k2: Seq<char>| schema@.contains_key(k2) && k2 != k ==> schema@[k2].model_name@ != n,
    ensures
        key_of_table_named(schema, n) == Some(k),
{
    schema.lemma_canonical();
    let keys = schema.keys();
    let i0 = keys.index_of(k);
    assert(keys[i0] == k);
    assert forall|j: int| 0 <= j < i0 implies schema.values()[j].model_name@ != n by {
        assert(text_lt(keys[j], keys[i0]));
        lemma_text_lt_irreflexive(keys[j]);
        assert(keys.contains(keys[j]));
        assert(schema.values()[j] == schema@[keys[j]]);
    }
    assert(schema.values()[i0] == schema@[k]);
    assert(is_first_table_named(schema, n, i0));
    let c = choose|c: int| is_first_table_named(schema, n, c);
    assert(c == i0) by {
        if c < i0 {
        } else if c > i0 {
        }
    }
}

/// Where no table has database name `n`, nothing is found by that name.
pub proof fn lemma_no_table_named(schema: BetterAuthDbSchema, n: Seq<char>)
    requires
        schema.shape(),
        forall|k2: Seq<char>| schema@.contains_key(k2) ==> schema@[k2].model_name@ != n,
    ensures
        key_of_table_named(schema, n) is None,
{
    schema.lemma_canonical();
    if exists|i: int| is_first_table_named(schema, n, i) {
        let i = choose|i: int| is_first_table_named(schema, n, i);
        let keys = schema.keys();
        assert(keys.contains(keys[i]));
        assert(schema.values()[i] == schema@[keys[i]]);
    }
}

/// A table's database name resolves to the table's key, where no other table has that name and
/// the name is not itself a key; with plural names on, so does the name with an `s` appended.
pub proof fn lemma_table_name_resolves_to_key(schema: BetterAuthDbSchema, k: Seq<char>, n: Seq<char>)
    requires
        schema.shape(),
        schema@.contains_key(k),
        schema@[k].model_name@ == n,
        !schema@.contains_key(n),
        forall|k2: Seq<char>| schema@.contains_key(k2) && k2 != k ==> schema@[k2].model_name@ != n,
    ensures
        default_model_key(schema, false, n) == Some(k),
        default_model_key(schema, true, n + "s"@) == Some(k),
{
    reveal_strlit("s");
    lemma_unique_table_name_key(schema, k, n);
    let p = n + "s"@;
    assert(ends_with_s(p));
    assert(drop_last_char(p) =~= n);
}

} // verus!
