//! The tables a plugin contributes to the schema.

use vstd::prelude::*;
use crate::db::types::DbFieldAttribute;
use crate::strmap::StrMap;

verus! {

/// A plugin's table: its fields, and optionally its name and whether to skip migrations.
#[derive(Debug)]
pub struct PluginTableSchema {
    /// The table's fields, keyed by field name.
    pub fields: StrMap<DbFieldAttribute>,
    /// Whether to skip migrations for this table.
    pub disable_migration: Option<bool>,
    /// The table name, when it differs from the key.
    pub model_name: Option<String>,
}

/// A plugin's schema: model key to table.
pub type BetterAuthPluginDbSchema = StrMap<PluginTableSchema>;

} // verus!
