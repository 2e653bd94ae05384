//! The database vocabulary the adapter layer is built on: model names, field types, the value
//! type, field attributes, table schemas and the schema map.
//!
//! Values that the application holds as floating-point numbers or date-times are held here as
//! plain data: a float by its IEEE-754 bit pattern, a date-time by its Unix timestamp in
//! nanoseconds and its UTC offset.

use vstd::prelude::*;
use crate::db::json::{same_json, JsonValue};
use crate::strmap::StrMap;
use vstd::std_specs::cmp::PartialEqSpecImpl;

verus! {

/// The four base model names. `"rate-limit"` is also a model but not a base model.
#[derive(Debug, Clone, Copy, PartialEq, Eq, Hash, Structural)]
pub enum BaseModel {
    /// `"user"`
    User,
    /// `"account"`
    Account,
    /// `"session"`
    Session,
    /// `"verification"`
    Verification,
}

impl BaseModel {
    /// All base models, in declaration order.
    pub const ALL: [BaseModel; 4] = [
        BaseModel::User,
        BaseModel::Account,
        BaseModel::Session,
        BaseModel::Verification,
    ];

    /// The model's table key, as text.
    pub open spec fn name_text(self) -> Seq<char> {
        match self {
            BaseModel::User => "user"@,
            BaseModel::Account => "account"@,
            BaseModel::Session => "session"@,
            BaseModel::Verification => "verification"@,
        }
    }

    /// The model's string name as used for the DB table key.
    pub fn as_str(self) -> (r: &'static str)
        ensures
            r@ == self.name_text(),
    {
        match self {
            BaseModel::User => "user",
            BaseModel::Account => "account",
            BaseModel::Session => "session",
            BaseModel::Verification => "verification",
        }
    }
}

/// A database field's logical type. `Enum` is a text column constrained to the given values.
#[derive(Debug, Clone, PartialEq, Eq)]
pub enum DbFieldType {
    /// `"string"`
    String,
    /// `"number"`
    Number,
    /// `"boolean"`
    Boolean,
    /// `"date"`
    Date,
    /// `"json"`
    Json,
    /// `"string[]"`
    StringArray,
    /// `"number[]"`
    NumberArray,
    /// A text column constrained to these values.
    Enum(Vec<String>),
}

/// A floating-point number, held by its IEEE-754 binary64 bit pattern. Two numbers are equal as
/// binary64 numbers are: the two zeros are equal, and a NaN equals nothing, not even itself.
#[derive(Debug, Clone, Copy)]
pub struct FloatBits {
    /// The bit pattern.
    pub bits: u64,
}

/// Whether a bit pattern is a NaN: all exponent bits set and a fraction that is not zero.
pub open spec fn is_nan_bits(b: u64) -> bool {
    b & 0x7ff0_0000_0000_0000u64 == 0x7ff0_0000_0000_0000u64 && b & 0x000f_ffff_ffff_ffffu64 != 0
}

/// Whether a bit pattern is a zero, positive or negative.
pub open spec fn is_zero_bits(b: u64) -> bool {
    b & 0x7fff_ffff_ffff_ffffu64 == 0
}

/// Whether two bit patterns are equal as binary64 numbers.
pub open spec fn float_bits_eq(a: u64, b: u64) -> bool {
    if is_zero_bits(a) && is_zero_bits(b) {
        true
    } else if is_nan_bits(a) || is_nan_bits(b) {
        false
    } else {
        a == b
    }
}

impl PartialEq for FloatBits {
    fn eq(&self, other: &Self) -> (r: bool) {
        let a = self.bits;
        let b = other.bits;
        if a & 0x7fff_ffff_ffff_ffffu64 == 0 && b & 0x7fff_ffff_ffff_ffffu64 == 0 {
            true
        } else if (a & 0x7ff0_0000_0000_0000u64 == 0x7ff0_0000_0000_0000u64 && a & 0x000f_ffff_ffff_ffffu64 != 0)
            || (b & 0x7ff0_0000_0000_0000u64 == 0x7ff0_0000_0000_0000u64 && b & 0x000f_ffff_ffff_ffffu64 != 0) {
            false
        } else {
            a == b
        }
    }
}

impl PartialEqSpecImpl for FloatBits {
    open spec fn obeys_eq_spec() -> bool {
        true
    }

    open spec fn eq_spec(&self, other: &FloatBits) -> bool {
        float_bits_eq(self.bits, other.bits)
    }
}

/// A date-time with a UTC offset: the instant as nanoseconds since the Unix epoch, and the offset
/// from UTC in seconds. Two date-times are equal when they are the same instant, whatever their
/// offsets.
#[derive(Debug, Clone, Copy, Eq)]
pub struct Timestamp {
    /// Nanoseconds since 1970-01-01T00:00:00Z.
    pub unix_nanos: i128,
    /// Offset from UTC, in seconds.
    pub offset_seconds: i32,
}

impl PartialEq for Timestamp {
    fn eq(&self, other: &Self) -> (r: bool) {
        self.unix_nanos == other.unix_nanos
    }
}

impl PartialEqSpecImpl for Timestamp {
    open spec fn obeys_eq_spec() -> bool {
        true
    }

    open spec fn eq_spec(&self, other: &Timestamp) -> bool {
        self.unix_nanos == other.unix_nanos
    }
}

/// A database field value. `null`/absent collapse to [`DbValue::Null`].
#[derive(Debug, PartialEq)]
pub enum DbValue {
    /// SQL `NULL`.
    Null,
    /// A string.
    String(String),
    /// A boolean.
    Bool(bool),
    /// An integer.
    Int(i64),
    /// A floating-point number.
    Float(FloatBits),
    /// A date/time.
    Date(Timestamp),
    /// A list of strings (`string[]`).
    StringArray(Vec<String>),
    /// A list of numbers (`number[]`).
    NumberArray(Vec<FloatBits>),
    /// Arbitrary JSON (`json`).
    Json(JsonValue),
}

/// Whether `b` is a copy of `a`: the same value, texts and lists compared by their contents.
pub open spec fn same_value(a: DbValue, b: DbValue) -> bool {
    match a {
        DbValue::String(s) => b matches DbValue::String(t) && t@ == s@,
        DbValue::StringArray(xs) => b matches DbValue::StringArray(ys) && ys.deep_view() == xs.deep_view(),
        DbValue::NumberArray(ns) => b matches DbValue::NumberArray(ms) && ms@ == ns@,
        DbValue::Json(j) => b matches DbValue::Json(k) && same_json(j, k),
        _ => b == a,
    }
}

impl Clone for DbValue {
    /// A copy of the value.
    fn clone(&self) -> (r: Self)
        ensures
            same_value(*self, r),
    {
        match self {
            DbValue::Null => DbValue::Null,
            DbValue::String(s) => DbValue::String(s.clone()),
            DbValue::Bool(b) => DbValue::Bool(*b),
            DbValue::Int(i) => DbValue::Int(*i),
            DbValue::Float(f) => DbValue::Float(*f),
            DbValue::Date(t) => DbValue::Date(*t),
            DbValue::StringArray(xs) => {
                let ys = xs.clone();
                proof {
                    assert(ys.deep_view() =~= xs.deep_view());
                }
                DbValue::StringArray(ys)
            },
            DbValue::NumberArray(ns) => {
                let ms = ns.clone();
                proof {
                    assert(ms@ =~= ns@);
                }
                DbValue::NumberArray(ms)
            },
            DbValue::Json(j) => DbValue::Json(j.clone()),
        }
    }
}

impl DbValue {
    /// A string value with the given text.
    pub fn text(s: &str) -> (r: DbValue)
        ensures
            r matches DbValue::String(t) && t@ == s@,
    {
        DbValue::String(String::from_str(s))
    }

    /// `true` if this is [`DbValue::Null`].
    pub fn is_null(&self) -> (b: bool)
        ensures
            b == (*self is Null),
    {
        match self {
            DbValue::Null => true,
            _ => false,
        }
    }

    /// The string value, if this is a [`DbValue::String`].
    pub fn as_str(&self) -> (r: Option<&str>)
        ensures
            r is Some <==> *self is String,
            r matches Some(t) ==> (*self matches DbValue::String(s) && t@ == s@),
    {
        match self {
            DbValue::String(s) => Some(s.as_str()),
            _ => None,
        }
    }

    /// The integer value, if this is a [`DbValue::Int`].
    pub fn as_i64(&self) -> (r: Option<i64>)
        ensures
            r is Some <==> *self is Int,
            r matches Some(n) ==> *self == DbValue::Int(n),
    {
        match self {
            DbValue::Int(n) => Some(*n),
            _ => None,
        }
    }

    /// The float value (by bit pattern), if this is a [`DbValue::Float`].
    pub fn as_float_bits(&self) -> (r: Option<FloatBits>)
        ensures
            r is Some <==> *self is Float,
            r matches Some(f) ==> *self == DbValue::Float(f),
    {
        match self {
            DbValue::Float(f) => Some(*f),
            _ => None,
        }
    }

    /// The boolean value, if this is a [`DbValue::Bool`].
    pub fn as_bool(&self) -> (r: Option<bool>)
        ensures
            r is Some <==> *self is Bool,
            r matches Some(b) ==> *self == DbValue::Bool(b),
    {
        match self {
            DbValue::Bool(b) => Some(*b),
            _ => None,
        }
    }

    /// The date value, if this is a [`DbValue::Date`].
    pub fn as_date(&self) -> (r: Option<Timestamp>)
        ensures
            r is Some <==> *self is Date,
            r matches Some(d) ==> *self == DbValue::Date(d),
    {
        match self {
            DbValue::Date(d) => Some(*d),
            _ => None,
        }
    }
}

impl From<&str> for DbValue {
    fn from(v: &str) -> (r: DbValue)
        ensures
            r matches DbValue::String(s) && s@ == v@,
    {
        DbValue::String(String::from_str(v))
    }
}

impl From<String> for DbValue {
    fn from(v: String) -> (r: DbValue)
        ensures
            r == DbValue::String(v),
    {
        DbValue::String(v)
    }
}

impl From<bool> for DbValue {
    fn from(v: bool) -> (r: DbValue)
        ensures
            r == DbValue::Bool(v),
    {
        DbValue::Bool(v)
    }
}

impl From<i64> for DbValue {
    fn from(v: i64) -> (r: DbValue)
        ensures
            r == DbValue::Int(v),
    {
        DbValue::Int(v)
    }
}

impl From<FloatBits> for DbValue {
    fn from(v: FloatBits) -> (r: DbValue)
        ensures
            r == DbValue::Float(v),
    {
        DbValue::Float(v)
    }
}

impl From<Timestamp> for DbValue {
    fn from(v: Timestamp) -> (r: DbValue)
        ensures
            r == DbValue::Date(v),
    {
        DbValue::Date(v)
    }
}

// A spec function cannot build a `String` from a `&str`, so this conversion states its result in
// its own `ensures` above rather than through `from_spec`.
impl vstd::std_specs::convert::FromSpecImpl<&str> for DbValue {
    open spec fn obeys_from_spec() -> bool {
        false
    }

    open spec fn from_spec(v: &str) -> DbValue {
        DbValue::Null
    }
}

impl vstd::std_specs::convert::FromSpecImpl<String> for DbValue {
    open spec fn obeys_from_spec() -> bool {
        true
    }

    open spec fn from_spec(v: String) -> DbValue {
        DbValue::String(v)
    }
}

impl vstd::std_specs::convert::FromSpecImpl<bool> for DbValue {
    open spec fn obeys_from_spec() -> bool {
        true
    }

    open spec fn from_spec(v: bool) -> DbValue {
        DbValue::Bool(v)
    }
}

impl vstd::std_specs::convert::FromSpecImpl<i64> for DbValue {
    open spec fn obeys_from_spec() -> bool {
        true
    }

    open spec fn from_spec(v: i64) -> DbValue {
        DbValue::Int(v)
    }
}

impl vstd::std_specs::convert::FromSpecImpl<FloatBits> for DbValue {
    open spec fn obeys_from_spec() -> bool {
        true
    }

    open spec fn from_spec(v: FloatBits) -> DbValue {
        DbValue::Float(v)
    }
}

impl vstd::std_specs::convert::FromSpecImpl<Timestamp> for DbValue {
    open spec fn obeys_from_spec() -> bool {
        true
    }

    open spec fn from_spec(v: Timestamp) -> DbValue {
        DbValue::Date(v)
    }
}

impl<T: Into<DbValue>> From<Option<T>> for DbValue {
    fn from(v: Option<T>) -> (r: DbValue)
        ensures
            v is None ==> r == DbValue::Null,
            v matches Some(x) ==> call_ensures(<T as Into<DbValue>>::into, (x,), r),
    {
        match v {
            Some(x) => x.into(),
            None => DbValue::Null,
        }
    }
}

impl<T: Into<DbValue>> vstd::std_specs::convert::FromSpecImpl<Option<T>> for DbValue {
    open spec fn obeys_from_spec() -> bool {
        false
    }

    open spec fn from_spec(v: Option<T>) -> DbValue {
        DbValue::Null
    }
}

/// The referential action when a referenced row is deleted.
#[derive(Debug, Clone, Copy, PartialEq, Eq, Structural)]
pub enum ReferentialAction {
    /// `"no action"`
    NoAction,
    /// `"restrict"`
    Restrict,
    /// `"cascade"`: the default.
    Cascade,
    /// `"set null"`
    SetNull,
    /// `"set default"`
    SetDefault,
}

impl Default for ReferentialAction {
    fn default() -> (r: Self)
        ensures
            r == ReferentialAction::Cascade,
    {
        ReferentialAction::Cascade
    }
}

/// A foreign-key reference to another model.
#[derive(Debug, Clone, PartialEq, Eq)]
pub struct Reference {
    /// The model being referenced.
    pub model: String,
    /// The field on the referenced model.
    pub field: String,
    /// The action on delete (default [`ReferentialAction::Cascade`]).
    pub on_delete: ReferentialAction,
}

/// A field default, applied when a record is created: a fixed value, or a generator called for
/// each new record (the generator itself is application code, held by the application).
#[derive(Debug, Clone, PartialEq)]
pub enum DefaultValue {
    /// A fixed value.
    Static(DbValue),
    /// A generator.
    Generator,
}

/// The configuration of a database field: everything except its type. (Generators, transforms
/// and validators are application code; the configuration records whether a field has them.)
#[derive(Debug, Clone, Default)]
pub struct DbFieldAttributeConfig {
    /// Required on a new record. `None` counts as required.
    pub required: Option<bool>,
    /// Returned in a response body. Defaults to `true`.
    pub returned: Option<bool>,
    /// Accepted as input when creating a record. Defaults to `true`.
    pub input: Option<bool>,
    /// Default value, applied when creating a record (not a database default).
    pub default_value: Option<DefaultValue>,
    /// Whether a generator produces the value on update.
    pub on_update: bool,
    /// Foreign-key reference to another model.
    pub references: Option<Reference>,
    /// Whether the column is unique.
    pub unique: Option<bool>,
    /// Whether the column is a bigint rather than an integer.
    pub bigint: Option<bool>,
    /// The column name in the database (defaults to the field key).
    pub field_name: Option<String>,
    /// Whether the column is sortable.
    pub sortable: Option<bool>,
    /// Whether the column is indexed. Defaults to `false`.
    pub index: Option<bool>,
}

/// A database field: its type plus its configuration.
#[derive(Debug, Clone)]
pub struct DbFieldAttribute {
    /// The field's logical type.
    pub field_type: DbFieldType,
    /// The field's configuration.
    pub config: DbFieldAttributeConfig,
}

impl DbFieldAttribute {
    /// A field of the given type with an empty configuration.
    pub fn new(field_type: DbFieldType) -> (r: Self)
        ensures
            r.field_type == field_type,
            r.config.required is None,
            r.config.returned is None,
            r.config.input is None,
            r.config.default_value is None,
            !r.config.on_update,
            r.config.references is None,
            r.config.unique is None,
            r.config.bigint is None,
            r.config.field_name is None,
            r.config.sortable is None,
            r.config.index is None,
    {
        DbFieldAttribute {
            field_type,
            config: DbFieldAttributeConfig {
                required: None,
                returned: None,
                input: None,
                default_value: None,
                on_update: false,
                references: None,
                unique: None,
                bigint: None,
                field_name: None,
                sortable: None,
                index: None,
            },
        }
    }
}

/// One table of a schema.
#[derive(Debug)]
pub struct DbTableSchema {
    /// The table name in the database.
    pub model_name: String,
    /// The table's fields, keyed by field name.
    pub fields: StrMap<DbFieldAttribute>,
    /// Whether to skip migrations for this table. Defaults to `false`.
    pub disable_migrations: Option<bool>,
    /// Explicit ordering of the table relative to others.
    pub order: Option<i64>,
}

/// The full database schema: model key to table.
pub type BetterAuthDbSchema = StrMap<DbTableSchema>;

/// An error from a secondary-storage backend.
#[derive(Debug, Clone, PartialEq, Eq)]
pub enum SecondaryStorageError {
    /// The backend reported an error.
    Backend(String),
}

} // verus!
