//! The database layer: values and schemas, JSON data, the core records, the adapter query
//! model, and schema name resolution.

pub mod json;
pub mod types;
pub mod adapter;
pub mod plugin;
pub mod schema;
