//! The storage layer's query model: `where` conditions and their operators, joins, sorting, and
//! the per-operation argument records a storage backend receives. A record is a [`Row`]: field
//! name to value, in increasing field order.

use vstd::prelude::*;
use crate::db::types::{DbValue, FloatBits};
use crate::strmap::StrMap;

pub mod get_default_field_name;
pub mod get_default_model_name;
pub mod get_field_name;
pub mod get_model_name;
pub mod utils;

pub use get_default_field_name::get_default_field_name;
pub use get_default_model_name::get_default_model_name;
pub use get_field_name::get_field_name;
pub use get_model_name::get_model_name;
pub use utils::{with_apply_default, ApplyAction, DefaultOutcome};

verus! {

/// The result of an adapter operation.
pub type AdapterResult<T> = Result<T, AdapterError>;

/// A dynamic database record: field name to value.
pub type Row = StrMap<DbValue>;

/// An error from a storage backend.
#[derive(Debug, Clone, PartialEq, Eq)]
pub enum AdapterError {
    /// The backend reported an error (connection, query, serialization, ...).
    Backend(String),
}

/// A `where`-clause comparison operator.
#[derive(Debug, Clone, Copy, PartialEq, Eq, Structural)]
pub enum WhereOperator {
    /// `=` (the default).
    Eq,
    /// `!=`
    Ne,
    /// `<`
    Lt,
    /// `<=`
    Lte,
    /// `>`
    Gt,
    /// `>=`
    Gte,
    /// `IN (...)`
    In,
    /// `NOT IN (...)`
    NotIn,
    /// substring match
    Contains,
    /// prefix match
    StartsWith,
    /// suffix match
    EndsWith,
}

impl Default for WhereOperator {
    fn default() -> (r: Self)
        ensures
            r == WhereOperator::Eq,
    {
        WhereOperator::Eq
    }
}

/// How a [`Where`] combines with its neighbors.
#[derive(Debug, Clone, Copy, PartialEq, Eq, Structural)]
pub enum Connector {
    /// `AND` (the default).
    And,
    /// `OR`
    Or,
}

impl Default for Connector {
    fn default() -> (r: Self)
        ensures
            r == Connector::And,
    {
        Connector::And
    }
}

/// Case sensitivity for string comparisons.
#[derive(Debug, Clone, Copy, PartialEq, Eq, Structural)]
pub enum MatchMode {
    /// Case-sensitive (the default).
    Sensitive,
    /// Case-insensitive (equality, membership and the substring operators).
    Insensitive,
}

impl Default for MatchMode {
    fn default() -> (r: Self)
        ensures
            r == MatchMode::Sensitive,
    {
        MatchMode::Sensitive
    }
}

/// Sort direction for `find_many`.
#[derive(Debug, Clone, Copy, PartialEq, Eq, Structural)]
pub enum SortDirection {
    /// Ascending.
    Asc,
    /// Descending.
    Desc,
}

/// A sort specification.
#[derive(Debug, Clone, PartialEq, Eq)]
pub struct SortBy {
    /// The field to sort by.
    pub field: String,
    /// The direction.
    pub direction: SortDirection,
}

/// A single `where` condition. All fields are populated.
#[derive(Debug, Clone, PartialEq)]
pub struct Where {
    /// The field to compare.
    pub field: String,
    /// The comparison value.
    pub value: DbValue,
    /// The comparison operator.
    pub operator: WhereOperator,
    /// How this condition combines with others.
    pub connector: Connector,
    /// String comparison case sensitivity.
    pub mode: MatchMode,
}

impl Where {
    /// An equality condition (`field = value`) with the default connector and mode.
    pub fn eq<V>(field: &str, value: V) -> (w: Self) where DbValue: From<V>
        ensures
            w.field@ == field@,
            call_ensures(<DbValue as From<V>>::from, (value,), w.value),
            w.operator == WhereOperator::Eq,
            w.connector == Connector::And,
            w.mode == MatchMode::Sensitive,
    {
        Where {
            field: String::from_str(field),
            value: DbValue::from(value),
            operator: WhereOperator::Eq,
            connector: Connector::And,
            mode: MatchMode::Sensitive,
        }
    }

    /// A condition with an explicit operator (default connector and mode).
    pub fn new<V>(field: &str, operator: WhereOperator, value: V) -> (w: Self) where DbValue: From<V>
        ensures
            w.field@ == field@,
            call_ensures(<DbValue as From<V>>::from, (value,), w.value),
            w.operator == operator,
            w.connector == Connector::And,
            w.mode == MatchMode::Sensitive,
    {
        Where { operator, ..Self::eq(field, value) }
    }

    /// The same condition with the given connector.
    pub fn with_connector(self, connector: Connector) -> (w: Self)
        ensures
            w == (Where { connector, ..self }),
    {
        let mut s = self;
        s.connector = connector;
        s
    }

    /// The same condition with the given match mode.
    pub fn with_mode(self, mode: MatchMode) -> (w: Self)
        ensures
            w == (Where { mode, ..self }),
    {
        let mut s = self;
        s.mode = mode;
        s
    }
}

/// The relation type of a join, determining the output shape.
#[derive(Debug, Clone, Copy, PartialEq, Eq, Structural)]
pub enum RelationType {
    /// A single related object.
    OneToOne,
    /// A list of related objects (the default).
    OneToMany,
    /// A list of related objects via a join table.
    ManyToMany,
}

impl Default for RelationType {
    fn default() -> (r: Self)
        ensures
            r == RelationType::OneToMany,
    {
        RelationType::OneToMany
    }
}

/// The joining columns.
#[derive(Debug, Clone, PartialEq, Eq)]
pub struct JoinOn {
    /// Column on the main table.
    pub from: String,
    /// Column on the joined table.
    pub to: String,
}

/// A single join of a [`JoinConfig`].
#[derive(Debug, Clone, PartialEq, Eq)]
pub struct JoinConfigEntry {
    /// The joining columns.
    pub on: JoinOn,
    /// Max rows to return.
    pub limit: Option<u64>,
    /// The relation type.
    pub relation: RelationType,
}

/// Resolved join configuration: joined-model name to [`JoinConfigEntry`].
pub type JoinConfig = StrMap<JoinConfigEntry>;

/// A schema-generation result for the `generate` command.
#[derive(Debug, Clone, PartialEq, Eq)]
pub struct DbAdapterSchemaCreation {
    /// Code to write into the file.
    pub code: String,
    /// Destination path (relative to the project directory).
    pub path: String,
    /// Append to the file if it exists (ignored when `overwrite` is set).
    pub append: Option<bool>,
    /// Overwrite the file if it exists.
    pub overwrite: Option<bool>,
}

/// Arguments to `create`.
#[derive(Debug, Clone, Default)]
pub struct CreateArgs {
    /// The (default) model name.
    pub model: String,
    /// The record to insert.
    pub data: Row,
    /// Columns to return (all if `None`).
    pub select: Option<Vec<String>>,
}

/// Arguments to `update` and `update_many`.
#[derive(Debug, Clone, Default)]
pub struct UpdateArgs {
    /// The model name.
    pub model: String,
    /// The match conditions.
    pub conditions: Vec<Where>,
    /// The fields to update.
    pub update: Row,
}

/// Arguments to `update_many`.
pub type UpdateManyArgs = UpdateArgs;

/// Arguments to `find_one`.
#[derive(Debug, Clone, Default)]
pub struct FindOneArgs {
    /// The model name.
    pub model: String,
    /// The match conditions.
    pub conditions: Vec<Where>,
    /// Columns to return (all if `None`).
    pub select: Option<Vec<String>>,
    /// Optional joins.
    pub join: Option<JoinConfig>,
}

/// Arguments to `find_many`.
#[derive(Debug, Clone, Default)]
pub struct FindManyArgs {
    /// The model name.
    pub model: String,
    /// The match conditions (empty = no filter).
    pub conditions: Vec<Where>,
    /// Max rows to return (`None` = unlimited).
    pub limit: Option<u64>,
    /// Columns to return (all if `None`).
    pub select: Option<Vec<String>>,
    /// Optional sort.
    pub sort_by: Option<SortBy>,
    /// Rows to skip.
    pub offset: Option<u64>,
    /// Optional joins.
    pub join: Option<JoinConfig>,
}

/// Arguments to `delete` and `delete_many`.
#[derive(Debug, Clone, Default)]
pub struct DeleteArgs {
    /// The model name.
    pub model: String,
    /// The match conditions.
    pub conditions: Vec<Where>,
}

/// Arguments to `count`.
#[derive(Debug, Clone, Default)]
pub struct CountArgs {
    /// The model name.
    pub model: String,
    /// The match conditions (empty = count all).
    pub conditions: Vec<Where>,
}

/// Arguments to `consume_one`.
pub type ConsumeOneArgs = DeleteArgs;

/// A signed delta added to a numeric column: a whole number (bound as an integer, so an integer
/// column stays integer) or a number with a fractional part (bound as a float).
#[derive(Debug, Clone, Copy, PartialEq)]
pub enum NumericDelta {
    /// A delta without a fractional part.
    Whole(i64),
    /// A delta with a fractional part, by its bit pattern.
    Fraction(FloatBits),
}

/// Arguments to `increment_one`.
#[derive(Debug, Clone, Default)]
pub struct IncrementOneArgs {
    /// The model name.
    pub model: String,
    /// The match conditions, acting as both selector and guard.
    pub conditions: Vec<Where>,
    /// Signed deltas to add per field (`field = field + delta`).
    pub increment: StrMap<NumericDelta>,
    /// Absolute values to set in the same operation.
    pub set: Option<Row>,
}

} // verus!
