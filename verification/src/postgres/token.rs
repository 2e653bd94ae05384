//! The pieces a parameterized SQL statement is made of: bound values, text pieces, and the
//! tokens that give a statement its meaning.

use vstd::prelude::*;
use crate::db::json::JsonValue;
use crate::db::types::{FloatBits, Timestamp};

verus! {

/// A value bound to a statement parameter.
#[derive(Debug)]
pub enum SqlArg {
    /// A typed SQL `NULL` (bound as a null text value).
    Null,
    /// A boolean.
    Bool(bool),
    /// A 64-bit integer (`bigint`).
    Int(i64),
    /// A float (`double precision`), by its bit pattern.
    Float(FloatBits),
    /// A text value.
    Text(String),
    /// A `timestamptz`.
    Timestamp(Timestamp),
    /// A `jsonb` value.
    Json(JsonValue),
    /// A list of numbers, bound as its JSON array text.
    NumberList(Vec<FloatBits>),
}

/// What a bound value is, as plain data: texts and lists by their contents.
pub enum ArgView {
    /// A typed `NULL`.
    Null,
    /// A boolean.
    Bool(bool),
    /// A 64-bit integer.
    Int(i64),
    /// A float, by its bit pattern.
    Float(FloatBits),
    /// A text value.
    Text(Seq<char>),
    /// A `timestamptz`.
    Timestamp(Timestamp),
    /// A `jsonb` value.
    Json(JsonValue),
    /// A list of numbers.
    NumberList(Seq<FloatBits>),
}

impl SqlArg {
    /// The bound value as plain data.
    pub open spec fn view(self) -> ArgView {
        match self {
            SqlArg::Null => ArgView::Null,
            SqlArg::Bool(b) => ArgView::Bool(b),
            SqlArg::Int(i) => ArgView::Int(i),
            SqlArg::Float(f) => ArgView::Float(f),
            SqlArg::Text(s) => ArgView::Text(s@),
            SqlArg::Timestamp(t) => ArgView::Timestamp(t),
            SqlArg::Json(j) => ArgView::Json(j),
            SqlArg::NumberList(v) => ArgView::NumberList(v@),
        }
    }
}

/// A piece of a statement.
#[derive(Debug)]
pub enum SqlPart {
    /// SQL text.
    Text(String),
    /// A bound value.
    Bind(SqlArg),
}

/// One token of a statement's meaning: a character of its text, or a parameter.
pub enum SqlToken {
    /// A character of SQL text.
    Char(char),
    /// A parameter with the value bound to it.
    Param(ArgView),
}

} // verus!
