//! Framework-agnostic primitives of an authentication library: the error-code set, the database
//! vocabulary (values, fields, schemas, records, the adapter query model), schema name
//! resolution, JSON deep merging, the PostgreSQL statement builder, the logger's decisions,
//! random ids, secrets, OAuth 2.0 data, and configuration types.

pub mod error;
pub mod text;
pub mod types;
pub mod utils;
pub mod strmap;
pub mod db;
pub mod env;
pub mod oauth2;
pub mod postgres;
pub mod secret;
pub mod test_utils;

