//! The user record.

use vstd::prelude::*;
use vstd::string::*;
use crate::db::schema::shared::CoreFields;

verus! {

/// The lowercase form of a text, as `str::to_lowercase` computes it (Unicode lowercase mapping).
pub uninterp spec fn unicode_lowercase(s: Seq<char>) -> Seq<char>;

/// Lowercases a text with `str::to_lowercase`. The contract claims only that the result is the
/// text's Unicode lowercase form, named by [`unicode_lowercase`].
#[verifier::external_body]
fn to_lowercase(s: &str) -> (r: String)
    ensures
        r@ == unicode_lowercase(s@),
{
    s.to_lowercase()
}

/// A user.
#[derive(Debug, Clone, PartialEq, Eq)]
pub struct User {
    /// Id and timestamps.
    pub core: CoreFields,
    /// Email address (stored lowercase).
    pub email: String,
    /// Whether the email has been verified.
    pub email_verified: bool,
    /// Display name.
    pub name: String,
    /// Profile image URL.
    pub image: Option<String>,
}

impl User {
    /// A new user, created now (in UTC): the email lowercased, not verified, no image.
    pub fn new(id: &str, email: &str, name: &str) -> (r: Self)
        ensures
            r.core.id@ == id@,
            r.core.created_at == r.core.updated_at,
            r.core.created_at.offset_seconds == 0,
            r.email@ == unicode_lowercase(email@),
            !r.email_verified,
            r.name@ == name@,
            r.image is None,
    {
        User {
            core: CoreFields::new(id),
            email: to_lowercase(email),
            email_verified: false,
            name: String::from_str(name),
            image: None,
        }
    }
}

} // verus!
