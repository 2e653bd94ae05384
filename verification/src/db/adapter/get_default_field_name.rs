//! Resolve a (possibly customized) column name back to its schema field key. `id` and `_id`
//! always resolve to `id`: every model has an `id` that schemas do not list.

use vstd::prelude::*;
use vstd::string::*;
use crate::db::types::{BetterAuthDbSchema, DbFieldAttribute};
use crate::db::adapter::get_default_model_name::{default_model_key, get_default_model_name, model_not_found, model_not_found_message};
use crate::error::BetterAuthError;
use crate::strmap::StrMap;
use crate::text::text_eq;

verus! {

/// Whether a field's configured column name is `name`.
pub open spec fn has_column_name(f: DbFieldAttribute, name: Seq<char>) -> bool {
    f.config.field_name matches Some(c) && c@ == name
}

/// `i` is the position (in key order) of the first field whose column name is `name`.
pub open spec fn is_first_field_named(fields: StrMap<DbFieldAttribute>, name: Seq<char>, i: int) -> bool {
    &&& 0 <= i < fields.size()
    &&& has_column_name(fields.values()[i], name)
    &&& forall|j: int| 0 <= j < i ==> !has_column_name(fields.values()[j], name)
}

/// The key of the first field (in key order) whose column name is `name`.
pub open spec fn key_of_field_named(fields: StrMap<DbFieldAttribute>, name: Seq<char>) -> Option<Seq<char>> {
    if exists|i: int| is_first_field_named(fields, name, i) {
        Some(fields.keys()[choose|i: int| is_first_field_named(fields, name, i)])
    } else {
        None
    }
}

/// The message of the error for a field missing from a model.
pub open spec fn field_not_found_message(field: Seq<char>, model: Seq<char>) -> Seq<char> {
    "Field "@ + field + " not found in model "@ + model
}

/// The field key `field` resolves to in `model`, or the message of the error.
pub open spec fn default_field_key(schema: BetterAuthDbSchema, use_plural: bool, model: Seq<char>, field: Seq<char>) -> Result<Seq<char>, Seq<char>> {
    if field == "id"@ || field == "_id"@ {
        Ok("id"@)
    } else {
        match default_model_key(schema, use_plural, model) {
            None => Err(model_not_found_message(model)),
            Some(key) => if !schema@.contains_key(key) {
                Err(model_not_found_message(key))
            } else if schema@[key].fields@.contains_key(field) {
                Ok(field)
            } else {
                match key_of_field_named(schema@[key].fields, field) {
                    Some(k) => Ok(k),
                    None => Err(field_not_found_message(field, key)),
                }
            },
        }
    }
}

/// The key of the first field (in key order) whose column name is `name`.
pub fn find_field_named(fields: &StrMap<DbFieldAttribute>, name: &str) -> (r: Option<String>)
    ensures
        r is Some <==> key_of_field_named(*fields, name@) is Some,
        r matches Some(k) ==> key_of_field_named(*fields, name@) == Some(k@),
{
    let n = fields.len();
    let mut i: usize = 0;
    while i < n
        invariant
            n == fields.size(),
            fields.shape(),
            i <= n,
            forall|j: int| 0 <= j < i ==> !has_column_name(fields.values()[j], name@),
        decreases n - i,
    {
        let f = fields.value_at(i);
        match &f.config.field_name {
            Some(c) => {
                if text_eq(c.as_str(), name) {
                    proof {
                        assert(is_first_field_named(*fields, name@, i as int));
                        let c = choose|c: int| is_first_field_named(*fields, name@, c);
                        assert(c == i as int) by {
                            if c < i {
                            } else if c > i {
                            }
                        }
                    }
                    return Some(fields.key_at(i).clone());
                }
            },
            None => {},
        }
        i += 1;
    }
    None
}

/// The default field key for `(model, field)`.
///
/// Errors when the model or the field is not found.
pub fn get_default_field_name(schema: &BetterAuthDbSchema, use_plural: bool, model: &str, field: &str) -> (r: Result<String, BetterAuthError>)
    ensures
        r is Ok <==> default_field_key(*schema, use_plural, model@, field@) is Ok,
        r matches Ok(k) ==> default_field_key(*schema, use_plural, model@, field@) == Ok::<Seq<char>, Seq<char>>(k@),
        r matches Err(e) ==> default_field_key(*schema, use_plural, model@, field@) == Err::<Seq<char>, Seq<char>>(e.message@),
{
    if text_eq(field, "id") || text_eq(field, "_id") {
        proof {
            reveal_strlit("id");
        }
        return Ok(String::from_str("id"));
    }
    let key = match get_default_model_name(schema, use_plural, model) {
        Ok(k) => k,
        Err(e) => return Err(e),
    };
    let table = match schema.get(key.as_str()) {
        Some(t) => t,
        None => return Err(model_not_found(key.as_str())),
    };
    if table.fields.contains_key(field) {
        return Ok(String::from_str(field));
    }
    if let Some(k) = find_field_named(&table.fields, field) {
        return Ok(k);
    }
    let mut m = String::from_str("Field ");
    m.append(field);
    m.append(" not found in model ");
    m.append(key.as_str());
    Err(BetterAuthError::new(m))
}

/// `id` and `_id` always resolve to `id`, whatever the model.
pub proof fn lemma_id_resolves_to_id(schema: BetterAuthDbSchema, use_plural: bool, model: Seq<char>)
    ensures
        default_field_key(schema, use_plural, model, "id"@) == Ok::<Seq<char>, Seq<char>>("id"@),
        default_field_key(schema, use_plural, model, "_id"@) == Ok::<Seq<char>, Seq<char>>("id"@),
{
}

/// In a model that resolves, a field key (other than `_id`) resolves to itself.
pub proof fn lemma_field_key_resolves_to_itself(
    schema: BetterAuthDbSchema,
    use_plural: bool,
    model: Seq<char>,
    key: Seq<char>,
)
    requires
        default_model_key(schema, use_plural, model) matches Some(mk) && schema@.contains_key(mk)
            && schema@[mk].fields@.contains_key(key),
        key != "_id"@,
    ensures
        default_field_key(schema, use_plural, model, key) == Ok::<Seq<char>, Seq<char>>(key),
{
}

/// In a model that resolves, a customized column name resolves back to the key of the first
/// field that has it, unless it is itself a field key (or `id` or `_id`).
pub proof fn lemma_column_resolves_to_field(
    schema: BetterAuthDbSchema,
    use_plural: bool,
    model: Seq<char>,
    column: Seq<char>,
    i: int,
)
    requires
        default_model_key(schema, use_plural, model) matches Some(mk) && schema@.contains_key(mk)
            && is_first_field_named(schema@[mk].fields, column, i) && !schema@[mk].fields@.contains_key(column),
        column != "id"@,
        column != "_id"@,
    ensures
        default_field_key(schema, use_plural, model, column)
            == Ok::<Seq<char>, Seq<char>>(schema@[default_model_key(schema, use_plural, model)->0].fields.keys()[i]),
{
    let mk = default_model_key(schema, use_plural, model)->0;
    let fields = schema@[mk].fields;
    let c = choose|c: int| is_first_field_named(fields, column, c);
    assert(is_first_field_named(fields, column, c));
    assert(c == i) by {
        if c < i {
            assert(!has_column_name(fields.values()[c], column));
        } else if c > i {
            assert(!has_column_name(fields.values()[i], column));
        }
    }
}

} // verus!
