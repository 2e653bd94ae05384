//! The fields every core record has: its id and its creation and update times.

use vstd::prelude::*;
use vstd::string::*;
use crate::db::types::Timestamp;

verus! {

/// The current time, in UTC (`time::OffsetDateTime::now_utc()`, as its Unix time in nanoseconds
/// and its offset). The contract claims only what `now_utc` documents of its result: the offset
/// is UTC. Which instant it is, is the clock's.
#[verifier::external_body]
pub(crate) fn now_utc() -> (r: Timestamp)
    ensures
        r.offset_seconds == 0,
{
    let now = time::OffsetDateTime::now_utc();
    Timestamp { unix_nanos: now.unix_timestamp_nanos(), offset_seconds: now.offset().whole_seconds() }
}

/// The id and timestamps shared by every core record.
#[derive(Debug, Clone, PartialEq, Eq)]
pub struct CoreFields {
    /// Unique identifier.
    pub id: String,
    /// When the record was created.
    pub created_at: Timestamp,
    /// When the record was last updated.
    pub updated_at: Timestamp,
}

impl CoreFields {
    /// Fields for a new record with the given id, created and updated now (one instant, in UTC).
    pub fn new(id: &str) -> (r: Self)
        ensures
            r.id@ == id@,
            r.created_at == r.updated_at,
            r.created_at.offset_seconds == 0,
    {
        let now = now_utc();
        CoreFields { id: String::from_str(id), created_at: now, updated_at: now }
    }
}

} // verus!
