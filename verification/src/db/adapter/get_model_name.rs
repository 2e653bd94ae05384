//! The database table name for a model: its customized name, or the model name, pluralized when
//! plural names are on.

use vstd::prelude::*;
use vstd::string::*;
use crate::db::types::BetterAuthDbSchema;
use crate::db::adapter::get_default_model_name::{
    default_model_key, drop_last_char, ends_with_s, get_default_model_name, lemma_no_table_named, model_not_found_message,
};
use crate::error::BetterAuthError;
use crate::text::text_eq;

verus! {

/// `name`, with an `s` appended when plural names are on.
pub open spec fn pluralized(name: Seq<char>, use_plural: bool) -> Seq<char> {
    if use_plural {
        name + "s"@
    } else {
        name
    }
}

/// The table name `model` resolves to, or the message of the error. A table whose database name
/// differs from the requested name contributes its database name.
pub open spec fn table_name(schema: BetterAuthDbSchema, use_plural: bool, model: Seq<char>) -> Result<Seq<char>, Seq<char>> {
    match default_model_key(schema, use_plural, model) {
        None => Err(model_not_found_message(model)),
        Some(k) => if schema@.contains_key(k) && schema@[k].model_name@ != model {
            Ok(pluralized(schema@[k].model_name@, use_plural))
        } else {
            Ok(pluralized(model, use_plural))
        },
    }
}

fn pluralize(name: &str, use_plural: bool) -> (r: String)
    ensures
        r@ == pluralized(name@, use_plural),
{
    let mut r = String::from_str(name);
    if use_plural {
        r.append("s");
    }
    r
}

/// The database table name for `model`.
///
/// Errors when the model is not found.
pub fn get_model_name(schema: &BetterAuthDbSchema, use_plural: bool, model: &str) -> (r: Result<String, BetterAuthError>)
    ensures
        r is Ok <==> table_name(*schema, use_plural, model@) is Ok,
        r matches Ok(t) ==> table_name(*schema, use_plural, model@) == Ok::<Seq<char>, Seq<char>>(t@),
        r matches Err(e) ==> table_name(*schema, use_plural, model@) == Err::<Seq<char>, Seq<char>>(e.message@),
{
    let key = match get_default_model_name(schema, use_plural, model) {
        Ok(k) => k,
        Err(e) => return Err(e),
    };
    if let Some(table) = schema.get(key.as_str()) {
        if !text_eq(table.model_name.as_str(), model) {
            return Ok(pluralize(table.model_name.as_str(), use_plural));
        }
    }
    Ok(pluralize(model, use_plural))
}

/// With plural names on, every table name ends in `s`, after either the requested name or the
/// database name of a table of the schema.
pub proof fn lemma_plural_table_names_end_in_s(schema: BetterAuthDbSchema, m: Seq<char>)
    requires
        table_name(schema, true, m) is Ok,
    ensures
        ({
            let t = table_name(schema, true, m)->Ok_0;
            &&& t.len() > 0
            &&& t[t.len() - 1] == 's'
            &&& t == drop_last_char(t) + "s"@
            &&& drop_last_char(t) == m || exists|k: Seq<char>|
                schema@.contains_key(k) && #[trigger] schema@[k].model_name@ == drop_last_char(t)
        }),
{
    reveal_strlit("s");
    let t = table_name(schema, true, m)->Ok_0;
    let k = default_model_key(schema, true, m)->0;
    let name = if schema@.contains_key(k) && schema@[k].model_name@ != m { schema@[k].model_name@ } else { m };
    assert(t == name + "s"@);
    assert(drop_last_char(t) =~= name);
}

/// With plural names off, a table name is the requested name or the database name of a table of
/// the schema.
pub proof fn lemma_singular_table_names(schema: BetterAuthDbSchema, m: Seq<char>)
    requires
        table_name(schema, false, m) is Ok,
    ensures
        ({
            let t = table_name(schema, false, m)->Ok_0;
            t == m || exists|k: Seq<char>| schema@.contains_key(k) && #[trigger] schema@[k].model_name@ == t
        }),
{
}

/// A key's table name is its table's database name, with an `s` appended when plural names are
/// on, where the key resolves to itself: with plural names on, a key ending in `s` must not name
/// another table without that `s`.
pub proof fn lemma_key_table_name(schema: BetterAuthDbSchema, k: Seq<char>)
    requires
        schema.shape(),
        schema@.contains_key(k),
        ends_with_s(k) ==> !schema@.contains_key(drop_last_char(k)) && forall|k2: Seq<char>|
            schema@.contains_key(k2) ==> #[trigger] schema@[k2].model_name@ != drop_last_char(k),
    ensures
        table_name(schema, false, k) == Ok::<Seq<char>, Seq<char>>(schema@[k].model_name@),
        table_name(schema, true, k) == Ok::<Seq<char>, Seq<char>>(schema@[k].model_name@ + "s"@),
{
    if ends_with_s(k) {
        lemma_no_table_named(schema, drop_last_char(k));
    }
    assert(default_model_key(schema, true, k) == Some(k));
    assert(default_model_key(schema, false, k) == Some(k));
}

} // verus!
