//! The errors of the library, each with the text shown to a caller.

use vstd::prelude::*;
use vstd::string::*;

verus! {

/// `head`, `middle` and `tail` in one string.
pub fn joined(head: &str, middle: &str, tail: &str) -> (s: String)
    ensures
        s@ == head@ + middle@ + tail@,
{
    let mut s: String = String::from_str(head);
    s.append(middle);
    s.append(tail);
    s
}

/// `head` and `tail` in one string.
pub fn prefixed(head: &str, tail: &str) -> (s: String)
    ensures
        s@ == head@ + tail@,
{
    let mut s: String = String::from_str(head);
    s.append(tail);
    s
}

/// A notification already holds as many daily timestamps as it may.
#[derive(Clone, Copy, Debug, PartialEq, Eq, Structural)]
pub struct CapacityError;

impl CapacityError {
    pub open spec fn text(self) -> Seq<char> {
        "You can only send 2 notification a day"@
    }

    pub fn message(&self) -> (s: String)
        ensures
            s@ == self.text(),
    {
        String::from_str("You can only send 2 notification a day")
    }
}

/// Why the scheduler did not take a notification.
#[derive(Clone, Copy, Debug, PartialEq, Eq, Structural)]
pub enum AdmissionError {
    /// The ingestion queue is full.
    Backpressure,
    /// The ingestion queue has no reader any more.
    Closed,
}

impl AdmissionError {
    pub open spec fn text(self) -> Seq<char> {
        match self {
            AdmissionError::Backpressure => "no available capacity"@,
            AdmissionError::Closed => "channel closed"@,
        }
    }

    pub fn message(&self) -> (s: String)
        ensures
            s@ == self.text(),
    {
        match self {
            AdmissionError::Backpressure => String::from_str("no available capacity"),
            AdmissionError::Closed => String::from_str("channel closed"),
        }
    }
}

/// Why a message did not reach its recipient.
#[derive(Clone, Debug)]
pub enum DeliveryError {
    /// The notification's platform has no delivery channel.
    Unsupported,
    /// The channel reported a failure, in its own words.
    Transport(String),
}

impl DeliveryError {
    pub open spec fn text(self) -> Seq<char> {
        match self {
            DeliveryError::Unsupported => "Email notifications are not implemented yet."@,
            DeliveryError::Transport(cause) => cause@,
        }
    }

    pub fn message(&self) -> (s: String)
        ensures
            s@ == self.text(),
    {
        match self {
            DeliveryError::Unsupported => String::from_str(
                "Email notifications are not implemented yet.",
            ),
            DeliveryError::Transport(cause) => cause.clone(),
        }
    }
}

/// Why a request was turned away at the boundary.
#[derive(Clone, Debug)]
pub enum ValidationError {
    /// A daily notification was requested without a timestamp.
    EmptyDailyTimestamps,
    /// The platform is not one that is accepted.
    IncorrectPlatform,
    /// The recipient, held here, is not an integer id.
    IncorrectRecipient(String),
    /// The timestamp, held here, is not in RFC 3339 form.
    IncorrectDate(String),
    /// More timestamps were given than a notification may hold.
    Capacity(CapacityError),
    /// The key of a lookup is not a well-formed identifier.
    InvalidKey,
}

/// Mathematical model of a [`ValidationError`].
pub enum ValidationErrorView {
    EmptyDailyTimestamps,
    IncorrectPlatform,
    IncorrectRecipient(Seq<char>),
    IncorrectDate(Seq<char>),
    Capacity,
    InvalidKey,
}

impl View for ValidationError {
    type V = ValidationErrorView;

    open spec fn view(&self) -> ValidationErrorView {
        match *self {
            ValidationError::EmptyDailyTimestamps => ValidationErrorView::EmptyDailyTimestamps,
            ValidationError::IncorrectPlatform => ValidationErrorView::IncorrectPlatform,
            ValidationError::IncorrectRecipient(given) => ValidationErrorView::IncorrectRecipient(
                given@,
            ),
            ValidationError::IncorrectDate(given) => ValidationErrorView::IncorrectDate(given@),
            ValidationError::Capacity(_) => ValidationErrorView::Capacity,
            ValidationError::InvalidKey => ValidationErrorView::InvalidKey,
        }
    }
}

impl ValidationError {
    pub open spec fn text(self) -> Seq<char> {
        match self {
            ValidationError::EmptyDailyTimestamps => "is_daily is set true, but daily_send_timestamps size is 0"@,
            ValidationError::IncorrectPlatform => "Incorrect platform. Supported is \"telegram\""@,
            ValidationError::IncorrectRecipient(given) => "Incorrect recipient: \""@ + given@
                + "\". Expected an integer id"@,
            ValidationError::IncorrectDate(given) => "Incorrect date string: \""@ + given@
                + "\". Expected format is RFC3339: 2025-04-18T12:00:00Z"@,
            ValidationError::Capacity(e) => "Error adding daily timestamp: "@ + e.text(),
            ValidationError::InvalidKey => "Invalid notification key"@,
        }
    }

    pub fn message(&self) -> (s: String)
        ensures
            s@ == self.text(),
    {
        match self {
            ValidationError::EmptyDailyTimestamps => String::from_str(
                "is_daily is set true, but daily_send_timestamps size is 0",
            ),
            ValidationError::IncorrectPlatform => String::from_str(
                "Incorrect platform. Supported is \"telegram\"",
            ),
            ValidationError::IncorrectRecipient(given) => joined(
                "Incorrect recipient: \"",
                given.as_str(),
                "\". Expected an integer id",
            ),
            ValidationError::IncorrectDate(given) => joined(
                "Incorrect date string: \"",
                given.as_str(),
                "\". Expected format is RFC3339: 2025-04-18T12:00:00Z",
            ),
            ValidationError::Capacity(e) => {
                let cause: String = e.message();
                prefixed("Error adding daily timestamp: ", cause.as_str())
            },
            ValidationError::InvalidKey => String::from_str("Invalid notification key"),
        }
    }
}

/// Why the store did not answer with a notification.
#[derive(Clone, Debug)]
pub enum StorageError {
    /// No connection to the store; the cause is held.
    Connection(String),
    /// The record could not be written.
    Write(String),
    /// The store could not say whether the key exists.
    Exists(String),
    /// No record is stored under the key, held here.
    NotFound(String),
    /// The record could not be read.
    Read(String),
    /// The record is not a JSON document.
    Parse(String),
    /// The record is an empty JSON array.
    InvalidStructure,
    /// The document does not describe a notification.
    Decode(String),
    /// The keys could not be listed.
    Keys(String),
    /// The record could not be deleted.
    Delete(String),
}

impl StorageError {
    pub open spec fn text(self) -> Seq<char> {
        match self {
            StorageError::Connection(cause) => "Failed to get redis connection: "@ + cause@,
            StorageError::Write(cause) => "Failed to set JSON value: "@ + cause@,
            StorageError::Exists(cause) => "Failed to check key existence: "@ + cause@,
            StorageError::NotFound(key) => "Key '"@ + key@ + "' not found"@,
            StorageError::Read(cause) => "Failed to get JSON value: "@ + cause@,
            StorageError::Parse(cause) => "Failed to parse JSON: "@ + cause@,
            StorageError::InvalidStructure => "Invalid JSON structure"@,
            StorageError::Decode(cause) => "Failed to deserialize JSON: "@ + cause@,
            StorageError::Keys(cause) => "Failed to get keys: "@ + cause@,
            StorageError::Delete(cause) => "Failed to delete key: "@ + cause@,
        }
    }

    pub fn message(&self) -> (s: String)
        ensures
            s@ == self.text(),
    {
        match self {
            StorageError::Connection(cause) => prefixed("Failed to get redis connection: ", cause.as_str()),
            StorageError::Write(cause) => prefixed("Failed to set JSON value: ", cause.as_str()),
            StorageError::Exists(cause) => prefixed("Failed to check key existence: ", cause.as_str()),
            StorageError::NotFound(key) => joined("Key '", key.as_str(), "' not found"),
            StorageError::Read(cause) => prefixed("Failed to get JSON value: ", cause.as_str()),
            StorageError::Parse(cause) => prefixed("Failed to parse JSON: ", cause.as_str()),
            StorageError::InvalidStructure => String::from_str("Invalid JSON structure"),
            StorageError::Decode(cause) => prefixed("Failed to deserialize JSON: ", cause.as_str()),
            StorageError::Keys(cause) => prefixed("Failed to get keys: ", cause.as_str()),
            StorageError::Delete(cause) => prefixed("Failed to delete key: ", cause.as_str()),
        }
    }
}

} // verus!
