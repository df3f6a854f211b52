//! What the persistence port decides: which document of a stored record
//! describes the notification, which records of a listing are loaded, and
//! what a missing key amounts to. Reaching the store is the caller's.

use crate::errors::{joined, prefixed, StorageError};
use crate::notifications::{Notification, NotificationView};
use vstd::prelude::*;
use vstd::string::*;

verus! {

/// A JSON value of the JSON library. The library carries it; it does not
/// look inside.
#[verifier::external_type_specification]
#[verifier::external_body]
pub struct ExValue(serde_json::Value);

/// The error of the JSON library for a text that is not JSON.
#[verifier::external_type_specification]
#[verifier::external_body]
pub struct ExJsonError(serde_json::Error);

/// A JSON value by what the store's answer may be: an array of documents, or
/// one document.
#[derive(Debug)]
pub enum JsonShape {
    Array(Vec<serde_json::Value>),
    Other(serde_json::Value),
}

/// The value that `serde_json::from_str` reads `text` as, an array told from
/// any other value; `None` for a text that is not one JSON value.
pub uninterp spec fn json_parsed(text: Seq<char>) -> Option<JsonShape>;

/// Whether `text` is one JSON value.
pub open spec fn json_accepted(text: Seq<char>) -> bool {
    json_parsed(text) is Some
}

/// Whether `r` is the document that `shape` holds for the notification: the
/// value itself, or the first element of an array; for an empty array, the
/// error that it holds none.
pub open spec fn selected_from(shape: JsonShape, r: Result<serde_json::Value, StorageError>) -> bool {
    match shape {
        JsonShape::Array(items) => if items@.len() == 0 {
            r matches Err(StorageError::InvalidStructure)
        } else {
            r matches Ok(document) && document == items@[0]
        },
        JsonShape::Other(value) => r matches Ok(document) && document == value,
    }
}

/// Parses `raw` with `serde_json::from_str` and tells an array from any other
/// value. What the text is read as depends on the text alone.
#[verifier::external_body]
fn parse_json(raw: &str) -> (r: Result<JsonShape, serde_json::Error>)
    ensures
        match r {
            Ok(shape) => json_parsed(raw@) == Some(shape),
            Err(_) => json_parsed(raw@) is None,
        },
{
    match serde_json::from_str::<serde_json::Value>(raw)? {
        serde_json::Value::Array(items) => Ok(JsonShape::Array(items)),
        other => Ok(JsonShape::Other(other)),
    }
}

/// The words of the JSON library's error, as its `Display` writes them.
#[verifier::external_body]
fn json_error_text(error: &serde_json::Error) -> (r: String) {
    error.to_string()
}

/// The document that describes the notification: the value itself, or, where
/// the store answered with an array, its first element. An empty array holds
/// none.
pub fn select_document(shape: JsonShape) -> (r: Result<serde_json::Value, StorageError>)
    ensures
        selected_from(shape, r),
{
    match shape {
        JsonShape::Array(items) => {
            let mut items: Vec<serde_json::Value> = items;
            if items.len() == 0 {
                Err(StorageError::InvalidStructure)
            } else {
                Ok(items.swap_remove(0))
            }
        },
        JsonShape::Other(value) => Ok(value),
    }
}

/// The document of a stored record, from the text that the store answered
/// with. A text that is not JSON is a parse error; of a text that is JSON,
/// the document is the value itself, or the first element where the value is
/// an array, and an empty array is an invalid structure.
pub fn document_root(raw: &str) -> (r: Result<serde_json::Value, StorageError>)
    ensures
        json_parsed(raw@) is None <==> r matches Err(StorageError::Parse(_)),
        json_parsed(raw@) matches Some(shape) ==> selected_from(shape, r),
{
    match parse_json(raw) {
        Ok(shape) => select_document(shape),
        Err(e) => Err(StorageError::Parse(json_error_text(&e))),
    }
}

/// A lookup under a key that the store does not hold fails with the key.
pub fn require_existing(key: &str, exists: bool) -> (r: Result<(), StorageError>)
    ensures
        exists ==> r is Ok,
        !exists ==> (r matches Err(StorageError::NotFound(held)) && held@ == key@),
{
    if exists {
        Ok(())
    } else {
        Err(StorageError::NotFound(String::from_str(key)))
    }
}

/// The notifications among what a listing fetched, in the listing's order.
pub open spec fn loaded_of(
    fetched: Seq<(String, Result<Notification, StorageError>)>,
) -> Seq<NotificationView>
    decreases fetched.len(),
{
    if fetched.len() == 0 {
        Seq::empty()
    } else {
        match fetched.last().1 {
            Ok(notification) => loaded_of(fetched.drop_last()).push(notification@),
            Err(_) => loaded_of(fetched.drop_last()),
        }
    }
}

/// The text of the line that reports a record, stored under `key`, that
/// could not be loaded for `error`.
pub open spec fn skipped_line_text(key: Seq<char>, error: StorageError) -> Seq<char> {
    "Failed to get notification for key "@ + key + ": "@ + error.text()
}

/// The lines for the records among what a listing fetched that could not be
/// loaded, in the listing's order.
pub open spec fn skipped_lines_of(
    fetched: Seq<(String, Result<Notification, StorageError>)>,
) -> Seq<Seq<char>>
    decreases fetched.len(),
{
    if fetched.len() == 0 {
        Seq::empty()
    } else {
        match fetched.last().1 {
            Ok(_) => skipped_lines_of(fetched.drop_last()),
            Err(error) => skipped_lines_of(fetched.drop_last()).push(
                skipped_line_text(fetched.last().0@, error),
            ),
        }
    }
}

/// What a listing of the store amounts to.
#[derive(Debug)]
pub struct Loaded {
    /// The notifications that were loaded.
    pub notifications: Vec<Notification>,
    /// One line for each record that was skipped, with its key and the error.
    pub skipped: Vec<String>,
}

/// The line that reports a record that could not be loaded.
pub fn skipped_line(key: &str, error: &StorageError) -> (r: String)
    ensures
        r@ == skipped_line_text(key@, *error),
{
    let head: String = joined("Failed to get notification for key ", key, ": ");
    let cause: String = error.message();
    let line: String = prefixed(head.as_str(), cause.as_str());
    assert(line@ =~= skipped_line_text(key@, *error));
    line
}

/// Keeps every record of a listing that was loaded and skips every one that
/// was not, so that one corrupt record does not keep the others from loading.
pub fn collect_loaded(fetched: &Vec<(String, Result<Notification, StorageError>)>) -> (r: Loaded)
    ensures
        r.notifications@.map_values(|n: Notification| n@) == loaded_of(fetched@),
        r.skipped@.map_values(|line: String| line@) == skipped_lines_of(fetched@),
        r.notifications@.len() + r.skipped@.len() == fetched@.len(),
{
    let mut notifications: Vec<Notification> = Vec::new();
    let mut skipped: Vec<String> = Vec::new();
    let mut i: usize = 0;
    assert(fetched@.take(0) =~= Seq::empty());
    while i < fetched.len()
        invariant
            i <= fetched@.len(),
            notifications@.map_values(|n: Notification| n@) == loaded_of(fetched@.take(i as int)),
            skipped@.map_values(|line: String| line@) == skipped_lines_of(fetched@.take(i as int)),
            notifications@.len() + skipped@.len() == i,
        decreases fetched@.len() - i,
    {
        proof {
            assert(fetched@.take(i + 1).drop_last() =~= fetched@.take(i as int));
            assert(fetched@.take(i + 1).last() == fetched@[i as int]);
        }
        match &fetched[i].1 {
            Ok(notification) => {
                let copy: Notification = notification.snapshot();
                proof {
                    let before = notifications@;
                    assert(before.push(copy).map_values(|n: Notification| n@) =~= before.map_values(
                        |n: Notification| n@,
                    ).push(copy@));
                }
                notifications.push(copy);
            },
            Err(e) => {
                let line: String = skipped_line(fetched[i].0.as_str(), e);
                proof {
                    let before = skipped@;
                    assert(before.push(line).map_values(|line: String| line@) =~= before.map_values(
                        |line: String| line@,
                    ).push(line@));
                }
                skipped.push(line);
            },
        }
        i = i + 1;
    }
    assert(fetched@.take(fetched@.len() as int) =~= fetched@);
    Loaded { notifications, skipped }
}

} // verus!
