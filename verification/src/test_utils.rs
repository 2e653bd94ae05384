//! The schema of the conformance model every storage backend is exercised on: a string, an
//! integer, a boolean and an optional string column.

use vstd::prelude::*;
use vstd::string::*;
use crate::db::types::{BetterAuthDbSchema, DbFieldAttribute, DbFieldType, DbTableSchema};
use crate::strmap::StrMap;

verus! {

/// A field of type `t` whose configuration is empty but for `required`.
pub open spec fn is_plain_field(f: DbFieldAttribute, t: DbFieldType, required: Option<bool>) -> bool {
    &&& f.field_type == t
    &&& f.config.required == required
    &&& f.config.returned is None
    &&& f.config.input is None
    &&& f.config.default_value is None
    &&& !f.config.on_update
    &&& f.config.references is None
    &&& f.config.unique is None
    &&& f.config.bigint is None
    &&& f.config.field_name is None
    &&& f.config.sortable is None
    &&& f.config.index is None
}

/// The conformance model.
pub const MODEL: &'static str = "ba_test";

/// The schema of [`MODEL`]: one table `ba_test` with fields `name` (string), `age` (number),
/// `active` (boolean) and the optional `tag` (string).
pub fn test_schema() -> (s: BetterAuthDbSchema)
    ensures
        s@.dom() == set!["ba_test"@],
        s@["ba_test"@].model_name@ == "ba_test"@,
        s@["ba_test"@].disable_migrations is None,
        s@["ba_test"@].order is None,
        s@["ba_test"@].fields@.dom() == set!["name"@, "age"@, "active"@, "tag"@],
        is_plain_field(s@["ba_test"@].fields@["name"@], DbFieldType::String, None),
        is_plain_field(s@["ba_test"@].fields@["age"@], DbFieldType::Number, None),
        is_plain_field(s@["ba_test"@].fields@["active"@], DbFieldType::Boolean, None),
        is_plain_field(s@["ba_test"@].fields@["tag"@], DbFieldType::String, Some(false)),
{
    proof {
        reveal_strlit("name");
        reveal_strlit("age");
        reveal_strlit("active");
        reveal_strlit("tag");
        assert("name"@.len() == 4 && "age"@.len() == 3 && "active"@.len() == 6 && "tag"@.len() == 3);
        assert("age"@[0] != "tag"@[0]);
    }
    let mut fields: StrMap<DbFieldAttribute> = StrMap::new();
    fields.insert(String::from_str("name"), DbFieldAttribute::new(DbFieldType::String));
    fields.insert(String::from_str("age"), DbFieldAttribute::new(DbFieldType::Number));
    fields.insert(String::from_str("active"), DbFieldAttribute::new(DbFieldType::Boolean));
    let mut tag = DbFieldAttribute::new(DbFieldType::String);
    tag.config.required = Some(false);
    fields.insert(String::from_str("tag"), tag);
    let mut schema: BetterAuthDbSchema = StrMap::new();
    schema.insert(
        String::from_str(MODEL),
        DbTableSchema { model_name: String::from_str(MODEL), fields, disable_migrations: None, order: None },
    );
    proof {
        assert(schema@.dom() =~= set!["ba_test"@]);
        assert(schema@["ba_test"@].fields@.dom() =~= set!["name"@, "age"@, "active"@, "tag"@]);
    }
    schema
}

} // verus!
