//! Notification identifiers.

use vstd::prelude::*;

verus! {

/// The length of an identifier in its hyphenated form.
pub const UUID_TEXT_LENGTH: usize = 36;

/// Whether `text` reads as a UUID, as `uuid::Uuid::try_parse` judges it.
pub uninterp spec fn uuid_accepted(text: Seq<char>) -> bool;

/// Draws a random version-4 UUID with `uuid::Uuid::new_v4` and writes it in
/// its hyphenated form. Which identifier comes out is chance; its length is
/// not, and neither is that `uuid::Uuid::try_parse` reads what was written.
#[verifier::external_body]
pub(crate) fn random_uuid_text() -> (r: String)
    ensures
        r@.len() == UUID_TEXT_LENGTH,
        uuid_accepted(r@),
{
    uuid::Uuid::new_v4().to_string()
}

/// Asks `uuid::Uuid::try_parse` whether `text` reads as a UUID.
#[verifier::external_body]
pub(crate) fn uuid_parses(text: &str) -> (r: bool)
    ensures
        r == uuid_accepted(text@),
{
    uuid::Uuid::try_parse(text).is_ok()
}

/// A fresh identifier for a notification, well formed as a key of a lookup.
pub fn fresh_id() -> (r: String)
    ensures
        r@.len() == UUID_TEXT_LENGTH,
        uuid_accepted(r@),
{
    random_uuid_text()
}

/// Whether `key` is a well-formed identifier.
pub fn is_well_formed(key: &str) -> (r: bool)
    ensures
        r == uuid_accepted(key@),
{
    uuid_parses(key)
}

} // verus!
