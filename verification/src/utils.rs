//! What the boundary answers: a status and a body, and the reading of the
//! timestamps it is given.

use crate::clock::{parse_rfc3339_local, rfc3339_accepted, rfc3339_instant, LocalTimestamp};
use crate::endpoints::{MessageResponse, NotificationResponse};
use crate::errors::{ValidationError, ValidationErrorView};
use crate::notifications::Notification;
use vstd::prelude::*;
use vstd::string::*;

verus! {

/// The statuses that the boundary answers with.
#[derive(Clone, Copy, Debug, PartialEq, Eq, Structural)]
pub enum HttpStatus {
    Success,
    BadRequest,
    NotFound,
    InternalServerError,
}

impl HttpStatus {
    pub open spec fn number(self) -> int {
        match self {
            HttpStatus::Success => 200,
            HttpStatus::BadRequest => 400,
            HttpStatus::NotFound => 404,
            HttpStatus::InternalServerError => 500,
        }
    }

    pub fn code(&self) -> (c: u16)
        ensures
            c == self.number(),
    {
        match self {
            HttpStatus::Success => 200,
            HttpStatus::BadRequest => 400,
            HttpStatus::NotFound => 404,
            HttpStatus::InternalServerError => 500,
        }
    }
}

/// A body that carries a message and, beside it, something of its own.
pub trait Response: Sized {
    /// The message of the body.
    spec fn message_text(&self) -> Seq<char>;

    /// Whether the two bodies carry the same beside their messages.
    spec fn same_payload(&self, other: &Self) -> bool;

    /// Whether the body carries only what a body made of a message alone
    /// carries.
    spec fn bare(&self) -> bool;

    /// A body with the message and nothing of note beside it.
    fn with_message(message: String) -> (r: Self)
        ensures
            r.message_text() == message@,
            r.bare(),
    ;

    /// The body `existing` under another message.
    fn with_existing(message: String, existing: Self) -> (r: Self)
        ensures
            r.message_text() == message@,
            r.same_payload(&existing),
    ;
}

impl Response for MessageResponse {
    open spec fn message_text(&self) -> Seq<char> {
        self.message@
    }

    open spec fn same_payload(&self, other: &Self) -> bool {
        self.notification_id@ == other.notification_id@
    }

    open spec fn bare(&self) -> bool {
        self.notification_id@ == Seq::<char>::empty()
    }

    fn with_message(message: String) -> (r: Self) {
        MessageResponse { message, notification_id: String::new() }
    }

    fn with_existing(message: String, existing: Self) -> (r: Self) {
        MessageResponse { message, notification_id: existing.notification_id }
    }
}

impl Response for NotificationResponse {
    open spec fn message_text(&self) -> Seq<char> {
        self.message@
    }

    open spec fn same_payload(&self, other: &Self) -> bool {
        self.notification@ == other.notification@
    }

    /// The notification beside the message is a fresh default one.
    open spec fn bare(&self) -> bool {
        &&& self.notification@.daily_send_timestamps.len() == 0
        &&& self.notification@.text == "Default notification"@
        &&& self.notification@.kind == crate::notifications::NotificationKind::Instant
    }

    fn with_message(message: String) -> (r: Self) {
        NotificationResponse { message, notification: Notification::default() }
    }

    fn with_existing(message: String, existing: Self) -> (r: Self) {
        NotificationResponse { message, notification: existing.notification }
    }
}

/// Makes the answers of the boundary.
pub struct ResponseFabric {}

impl ResponseFabric {
    pub fn bad_request<T: Response>(message: &str) -> (r: (HttpStatus, T))
        ensures
            r.0 == HttpStatus::BadRequest,
            r.1.message_text() == message@,
            r.1.bare(),
    {
        (HttpStatus::BadRequest, T::with_message(String::from_str(message)))
    }

    pub fn not_found<T: Response>(message: &str) -> (r: (HttpStatus, T))
        ensures
            r.0 == HttpStatus::NotFound,
            r.1.message_text() == message@,
            r.1.bare(),
    {
        (HttpStatus::NotFound, T::with_message(String::from_str(message)))
    }

    pub fn internal_server_error<T: Response>(message: &str) -> (r: (HttpStatus, T))
        ensures
            r.0 == HttpStatus::InternalServerError,
            r.1.message_text() == message@,
            r.1.bare(),
    {
        (HttpStatus::InternalServerError, T::with_message(String::from_str(message)))
    }

    pub fn ok_with_existing<T: Response>(message: &str, existing: T) -> (r: (HttpStatus, T))
        ensures
            r.0 == HttpStatus::Success,
            r.1.message_text() == message@,
            r.1.same_payload(&existing),
    {
        (HttpStatus::Success, T::with_existing(String::from_str(message), existing))
    }

    pub fn ok_with_id(message: &str, notification_id: String) -> (r: (HttpStatus, MessageResponse))
        ensures
            r.0 == HttpStatus::Success,
            r.1.message@ == message@,
            r.1.notification_id@ == notification_id@,
    {
        (HttpStatus::Success, MessageResponse { message: String::from_str(message), notification_id })
    }
}

/// Reads a timestamp in RFC 3339 form as a reading of the local clock. A text
/// in another form is an error that holds the text.
pub fn rfc3339_to_local(rfc3339: &str) -> (r: Result<LocalTimestamp, ValidationError>)
    ensures
        r is Ok <==> rfc3339_accepted(rfc3339@),
        r matches Ok(t) ==> t@.valid() && rfc3339_instant(rfc3339@) == Some(
            (t@.utc_second(), t@.nanosecond),
        ),
        r matches Err(e) ==> e@ == ValidationErrorView::IncorrectDate(rfc3339@),
{
    match parse_rfc3339_local(rfc3339) {
        Ok(t) => Ok(t),
        Err(_) => Err(ValidationError::IncorrectDate(String::from_str(rfc3339))),
    }
}

} // verus!
