//! The database column name for `(model, field)`: the field's configured column name, or its key.

use vstd::prelude::*;
use vstd::string::*;
use crate::db::types::BetterAuthDbSchema;
use crate::db::adapter::get_default_model_name::{default_model_key, get_default_model_name, model_not_found_message};
use crate::db::adapter::get_default_field_name::{default_field_key, get_default_field_name};
use crate::error::BetterAuthError;

verus! {

/// The column name `(model, field)` resolves to, or the message of the error.
pub open spec fn column_name(schema: BetterAuthDbSchema, use_plural: bool, model: Seq<char>, field: Seq<char>) -> Result<Seq<char>, Seq<char>> {
    match default_model_key(schema, use_plural, model) {
        None => Err(model_not_found_message(model)),
        Some(mk) => match default_field_key(schema, use_plural, mk, field) {
            Err(e) => Err(e),
            Ok(fk) => if schema@.contains_key(mk) && schema@[mk].fields@.contains_key(fk)
                && schema@[mk].fields@[fk].config.field_name is Some {
                Ok(schema@[mk].fields@[fk].config.field_name->0@)
            } else {
                Ok(fk)
            },
        },
    }
}

/// The database column name for `(model, field)`.
///
/// Errors when the model or the field is not found.
pub fn get_field_name(schema: &BetterAuthDbSchema, use_plural: bool, model: &str, field: &str) -> (r: Result<String, BetterAuthError>)
    ensures
        r is Ok <==> column_name(*schema, use_plural, model@, field@) is Ok,
        r matches Ok(c) ==> column_name(*schema, use_plural, model@, field@) == Ok::<Seq<char>, Seq<char>>(c@),
        r matches Err(e) ==> column_name(*schema, use_plural, model@, field@) == Err::<Seq<char>, Seq<char>>(e.message@),
{
    let mk = match get_default_model_name(schema, use_plural, model) {
        Ok(k) => k,
        Err(e) => return Err(e),
    };
    let fk = match get_default_field_name(schema, use_plural, mk.as_str(), field) {
        Ok(k) => k,
        Err(e) => return Err(e),
    };
    match schema.get(mk.as_str()) {
        Some(table) => match table.fields.get(fk.as_str()) {
            Some(f) => match &f.config.field_name {
                Some(c) => Ok(c.clone()),
                None => Ok(fk),
            },
            None => Ok(fk),
        },
        None => Ok(fk),
    }
}

} // verus!
