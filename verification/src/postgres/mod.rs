//! The PostgreSQL statement builder: parameterized statements, schema statements, and the
//! statements of each adapter operation. Executing them is the application's part.

pub mod ddl;
pub mod dml;
pub mod query;
pub mod statements;
pub mod token;
