//! The two intakes of the boundary: registering a notification and looking
//! one up.

use crate::clock::{rfc3339_accepted, rfc3339_instant, LocalTimestamp};
use crate::errors::{
    prefixed,
    AdmissionError,
    DeliveryError,
    StorageError,
    ValidationError,
    ValidationErrorView,
};
use crate::ids::{is_well_formed, uuid_accepted, UUID_TEXT_LENGTH};
use crate::notifications::{
    Notification,
    NotificationBuilder,
    NotificationKind,
    NotificationPlatform,
    MAX_DAILY_TIMESTAMPS,
};
use crate::scheduler::Scheduler;
use crate::text::{lowercase_of, lowercased, parse_i64, parsed_i64, same_text};
use crate::utils::{rfc3339_to_local, HttpStatus, Response, ResponseFabric};
use vstd::prelude::*;
use vstd::string::*;

verus! {

/// A request to register a notification, as it arrives.
#[derive(Clone, Debug)]
pub struct RegisterNotificationMetadata {
    pub text: String,
    pub daily_send_timestamps: Vec<String>,
    pub is_daily: bool,
    pub platform: String,
    pub send_to: String,
}

/// An answer that names a notification.
#[derive(Clone, Debug)]
pub struct MessageResponse {
    pub message: String,
    pub notification_id: String,
}

/// An answer that holds a notification.
#[derive(Debug)]
pub struct NotificationResponse {
    pub message: String,
    pub notification: Notification,
}

/// Mathematical model of a [`RegisterNotificationMetadata`].
pub struct RegisterView {
    pub text: Seq<char>,
    pub daily_send_timestamps: Seq<Seq<char>>,
    pub is_daily: bool,
    pub platform: Seq<char>,
    pub send_to: Seq<char>,
}

impl View for RegisterNotificationMetadata {
    type V = RegisterView;

    open spec fn view(&self) -> RegisterView {
        RegisterView {
            text: self.text@,
            daily_send_timestamps: self.daily_send_timestamps@.map_values(|s: String| s@),
            is_daily: self.is_daily,
            platform: self.platform@,
            send_to: self.send_to@,
        }
    }
}

/// Whether a platform of this name is accepted: in any mixture of cases, the
/// name of the one platform with a delivery channel.
pub open spec fn platform_accepted(name: Seq<char>) -> bool {
    lowercase_of(name) == "telegram"@
}

/// The platform of a name that is already in lower case: `telegram` is the
/// one platform with a delivery channel, every other name is an error.
pub fn platform_of_normalized(normalized: &str) -> (r: Result<
    NotificationPlatform,
    ValidationError,
>)
    ensures
        normalized@ == "telegram"@ ==> r matches Ok(NotificationPlatform::Telegram),
        normalized@ != "telegram"@ ==> r matches Err(ValidationError::IncorrectPlatform),
{
    if same_text(normalized, "telegram") {
        Ok(NotificationPlatform::Telegram)
    } else {
        Err(ValidationError::IncorrectPlatform)
    }
}

/// The platform that a request names, or the error for a name that is not
/// accepted.
pub fn parse_platform_from_request(input: String) -> (r: Result<
    NotificationPlatform,
    ValidationError,
>)
    ensures
        platform_accepted(input@) ==> r matches Ok(NotificationPlatform::Telegram),
        !platform_accepted(input@) ==> r matches Err(ValidationError::IncorrectPlatform),
{
    let normalized: String = lowercased(input.as_str());
    platform_of_normalized(normalized.as_str())
}

/// The recipient of a request, given what its text was read as: the integer,
/// or the error that holds the text.
pub fn recipient_of_parsed(send_to: &str, parsed: Option<i64>) -> (r: Result<i64, ValidationError>)
    ensures
        parsed matches Some(id) ==> r == Ok::<i64, ValidationError>(id),
        parsed is None ==> (r matches Err(e) && e@ == ValidationErrorView::IncorrectRecipient(
            send_to@,
        )),
{
    match parsed {
        Some(id) => Ok(id),
        None => Err(ValidationError::IncorrectRecipient(String::from_str(send_to))),
    }
}

/// The recipient that a request names, or the error for a text that is not
/// an integer.
pub fn parse_recipient(send_to: &str) -> (r: Result<i64, ValidationError>)
    ensures
        parsed_i64(send_to@) matches Some(id) ==> r == Ok::<i64, ValidationError>(id),
        parsed_i64(send_to@) is None ==> (r matches Err(e) && e@
            == ValidationErrorView::IncorrectRecipient(send_to@)),
{
    recipient_of_parsed(send_to, parse_i64(send_to))
}

/// What is wrong with the timestamps from index `from` on, if anything: the
/// first that is not in RFC 3339 form, or that there is a third.
pub open spec fn timestamps_error(stamps: Seq<Seq<char>>, from: int) -> Option<ValidationErrorView>
    decreases stamps.len() - from,
{
    if from < 0 || from >= stamps.len() {
        None
    } else if !rfc3339_accepted(stamps[from]) {
        Some(ValidationErrorView::IncorrectDate(stamps[from]))
    } else if from >= MAX_DAILY_TIMESTAMPS {
        Some(ValidationErrorView::Capacity)
    } else {
        timestamps_error(stamps, from + 1)
    }
}

/// What is wrong with a request to register, if anything. The checks come in
/// this order, and the first that fails decides.
pub open spec fn registration_error(request: RegisterView) -> Option<ValidationErrorView> {
    if request.is_daily && request.daily_send_timestamps.len() == 0 {
        Some(ValidationErrorView::EmptyDailyTimestamps)
    } else if !platform_accepted(request.platform) {
        Some(ValidationErrorView::IncorrectPlatform)
    } else if parsed_i64(request.send_to) is None {
        Some(ValidationErrorView::IncorrectRecipient(request.send_to))
    } else if request.is_daily {
        timestamps_error(request.daily_send_timestamps, 0)
    } else {
        None
    }
}

/// Whether `timestamp` is a reading, in some zone, of the instant that `text`
/// names.
pub open spec fn reading_of(timestamp: LocalTimestamp, text: Seq<char>) -> bool {
    timestamp@.valid() && rfc3339_instant(text) == Some(
        (timestamp@.utc_second(), timestamp@.nanosecond),
    )
}

/// Whether `notification` is what an accepted `request` asks for.
pub open spec fn registered_as(
    notification: crate::notifications::NotificationView,
    request: RegisterView,
) -> bool {
    &&& notification.valid()
    &&& notification.uuid.len() == UUID_TEXT_LENGTH
    &&& uuid_accepted(notification.uuid)
    &&& notification.text == request.text
    &&& notification.kind == if request.is_daily {
        NotificationKind::Daily
    } else {
        NotificationKind::Instant
    }
    &&& notification.platform == NotificationPlatform::Telegram
    &&& parsed_i64(request.send_to) == Some(notification.send_to.user_id)
    &&& notification.daily_send_timestamps.len() == if request.is_daily {
        request.daily_send_timestamps.len()
    } else {
        0
    }
    &&& forall|i: int|
        0 <= i < notification.daily_send_timestamps.len() ==> reading_of(
            #[trigger] notification.daily_send_timestamps[i],
            request.daily_send_timestamps[i],
        )
    &&& notification.last_sent is None
}

/// A request that names a platform that is not accepted is rejected,
/// whatever else it holds.
pub proof fn lemma_unknown_platform_is_rejected(request: RegisterView)
    requires
        !platform_accepted(request.platform),
    ensures
        registration_error(request) == Some(ValidationErrorView::IncorrectPlatform)
            || registration_error(request) == Some(ValidationErrorView::EmptyDailyTimestamps),
{
}

/// A request for a daily notification that gives no timestamp is rejected,
/// whatever else it holds.
pub proof fn lemma_daily_without_timestamps_is_rejected(request: RegisterView)
    requires
        request.is_daily,
        request.daily_send_timestamps.len() == 0,
    ensures
        registration_error(request) == Some(ValidationErrorView::EmptyDailyTimestamps),
{
}

/// A request for a daily notification is accepted only with one or two
/// timestamps, so no accepted notification holds more than two.
pub proof fn lemma_accepted_daily_request_has_one_or_two_timestamps(request: RegisterView)
    requires
        request.is_daily,
        registration_error(request) is None,
    ensures
        1 <= request.daily_send_timestamps.len() <= MAX_DAILY_TIMESTAMPS,
{
    if request.daily_send_timestamps.len() > MAX_DAILY_TIMESTAMPS {
        let stamps = request.daily_send_timestamps;
        assert(timestamps_error(stamps, 2) is Some);
        assert(timestamps_error(stamps, 1) is Some);
        assert(timestamps_error(stamps, 0) is Some);
    }
}

/// The identifier of a registered notification is a key that a lookup takes
/// to the store.
pub proof fn lemma_registered_id_is_a_lookup_key(
    notification: crate::notifications::NotificationView,
    request: RegisterView,
)
    requires
        registered_as(notification, request),
    ensures
        uuid_accepted(notification.uuid),
{
}

/// What the boundary does with a request to register.
#[derive(Debug)]
pub enum Registration {
    /// Answer with the error. Nothing is stored and nothing is submitted.
    Reject(ValidationError),
    /// Have the notification delivered at once, then answer.
    SendNow(Notification),
    /// Store the notification, submit it to the scheduler, then answer.
    PersistAndSchedule(Notification),
}

/// Checks a request to register and builds its notification.
///
/// A request that fails a check is rejected with the error of the first
/// check that fails. An accepted request for a daily notification is to be
/// stored and scheduled, with one timestamp for each one given; any other
/// accepted request is to be sent at once, and its timestamps are not read.
pub fn plan_registration(payload: RegisterNotificationMetadata) -> (plan: Registration)
    ensures
        registration_error(payload@) matches Some(error) ==> (plan matches Registration::Reject(e)
            && e@ == error),
        registration_error(payload@) is None && payload.is_daily ==> (
        plan matches Registration::PersistAndSchedule(n) && registered_as(n@, payload@)),
        registration_error(payload@) is None && !payload.is_daily ==> (
        plan matches Registration::SendNow(n) && registered_as(n@, payload@)),
{
    let ghost request = payload@;
    let kind: NotificationKind = if payload.is_daily {
        NotificationKind::Daily
    } else {
        NotificationKind::Instant
    };
    if payload.is_daily && payload.daily_send_timestamps.len() == 0 {
        return Registration::Reject(ValidationError::EmptyDailyTimestamps);
    }
    let platform: NotificationPlatform = match parse_platform_from_request(payload.platform) {
        Ok(platform) => platform,
        Err(e) => {
            return Registration::Reject(e);
        },
    };
    let send_to: i64 = match parse_recipient(payload.send_to.as_str()) {
        Ok(id) => id,
        Err(e) => {
            return Registration::Reject(e);
        },
    };
    let mut notification: Notification = NotificationBuilder::new().text(payload.text).kind(
        kind,
    ).send_to(send_to).platform(platform).build();
    if payload.is_daily {
        let stamps: &Vec<String> = &payload.daily_send_timestamps;
        let ghost base = notification@;
        let mut i: usize = 0;
        while i < stamps.len()
            invariant
                i <= stamps@.len(),
                request == payload@,
                request.is_daily,
                registration_error(request) == timestamps_error(request.daily_send_timestamps, 0),
                registered_as(base, RegisterView { daily_send_timestamps: Seq::empty(), ..request }),
                request.daily_send_timestamps == stamps@.map_values(|s: String| s@),
                timestamps_error(request.daily_send_timestamps, 0) == timestamps_error(
                    request.daily_send_timestamps,
                    i as int,
                ),
                notification@.daily_send_timestamps.len() == i,
                notification@.valid(),
                forall|k: int|
                    0 <= k < i ==> reading_of(
                        #[trigger] notification@.daily_send_timestamps[k],
                        request.daily_send_timestamps[k],
                    ),
                notification@ == (crate::notifications::NotificationView {
                    daily_send_timestamps: notification@.daily_send_timestamps,
                    ..base
                }),
            decreases stamps@.len() - i,
        {
            let timestamp: LocalTimestamp = match rfc3339_to_local(stamps[i].as_str()) {
                Ok(timestamp) => timestamp,
                Err(e) => {
                    return Registration::Reject(e);
                },
            };
            match notification.add_daily_timestamp(timestamp) {
                Ok(()) => {},
                Err(e) => {
                    return Registration::Reject(ValidationError::Capacity(e));
                },
            }
            i = i + 1;
        }
        Registration::PersistAndSchedule(notification)
    } else {
        Registration::SendNow(notification)
    }
}

/// The answer to a request that was rejected: a client error with the
/// error's text.
pub fn rejection_response(error: &ValidationError) -> (r: (HttpStatus, MessageResponse))
    ensures
        r.0 == HttpStatus::BadRequest,
        r.1.message@ == error.text(),
        r.1.notification_id@ == Seq::<char>::empty(),
{
    let message: String = error.message();
    let r: (HttpStatus, MessageResponse) = ResponseFabric::bad_request::<MessageResponse>(
        message.as_str(),
    );
    r
}

/// The answer to a request for an instant notification, once the delivery was
/// attempted: a failure is a failed request, with the cause in the message.
pub fn instant_response(notification: &Notification, sent: Result<(), DeliveryError>) -> (r: (
    HttpStatus,
    MessageResponse,
))
    ensures
        sent is Ok ==> r.0 == HttpStatus::Success && r.1.message@ == "Sent!"@
            && r.1.notification_id@ == notification@.uuid,
        sent matches Err(e) ==> r.0 == HttpStatus::InternalServerError && r.1.message@
            == "Failed to send notification: "@ + e.text() && r.1.notification_id@ == Seq::<
            char,
        >::empty(),
{
    match sent {
        Ok(()) => ResponseFabric::ok_with_id("Sent!", notification.uuid().clone()),
        Err(e) => {
            let cause: String = e.message();
            let message: String = prefixed("Failed to send notification: ", cause.as_str());
            let r: (HttpStatus, MessageResponse) = ResponseFabric::internal_server_error::<
                MessageResponse,
            >(message.as_str());
            r
        },
    }
}

/// The answer to a request for a daily notification, given how storing it
/// and submitting it ended. A notification that was not stored counts as not
/// submitted, whatever `admitted` says.
pub fn daily_response(
    notification: &Notification,
    persisted: &Result<(), StorageError>,
    admitted: &Result<(), AdmissionError>,
) -> (r: (HttpStatus, MessageResponse))
    ensures
        persisted is Err ==> r.0 == HttpStatus::InternalServerError && r.1.message@
            == "Failed to save notification metadata"@ && r.1.notification_id@ == Seq::<
            char,
        >::empty(),
        persisted is Ok && admitted is Err ==> r.0 == HttpStatus::InternalServerError
            && r.1.message@ == "Failed to add notification to scheduler"@ && r.1.notification_id@
            == Seq::<char>::empty(),
        persisted is Ok && admitted is Ok ==> r.0 == HttpStatus::Success && r.1.message@
            == "Notification metadata successfully saved"@ && r.1.notification_id@
            == notification@.uuid,
{
    if persisted.is_err() {
        let r: (HttpStatus, MessageResponse) = ResponseFabric::internal_server_error::<
            MessageResponse,
        >("Failed to save notification metadata");
        r
    } else if admitted.is_err() {
        let r: (HttpStatus, MessageResponse) = ResponseFabric::internal_server_error::<
            MessageResponse,
        >("Failed to add notification to scheduler");
        r
    } else {
        ResponseFabric::ok_with_id(
            "Notification metadata successfully saved",
            notification.uuid().clone(),
        )
    }
}

/// Finishes the registration of a daily notification once the store has
/// answered: a stored notification is submitted to the scheduler, one that
/// was not stored is not. The answer is `daily_response` of the two
/// outcomes.
pub fn schedule_stored(
    scheduler: &Scheduler,
    notification: &Notification,
    persisted: Result<(), StorageError>,
) -> (r: (HttpStatus, MessageResponse))
    ensures
        persisted is Err ==> r.0 == HttpStatus::InternalServerError && r.1.message@
            == "Failed to save notification metadata"@ && r.1.notification_id@ == Seq::<
            char,
        >::empty(),
        persisted is Ok ==> (r.0 == HttpStatus::Success && r.1.message@
            == "Notification metadata successfully saved"@ && r.1.notification_id@
            == notification@.uuid) || (r.0 == HttpStatus::InternalServerError && r.1.message@
            == "Failed to add notification to scheduler"@ && r.1.notification_id@ == Seq::<
            char,
        >::empty()),
{
    if persisted.is_err() {
        daily_response(notification, &persisted, &Ok(()))
    } else {
        let admitted: Result<(), AdmissionError> = scheduler.add_notification(notification);
        daily_response(notification, &persisted, &admitted)
    }
}

/// Whether a lookup may go to the store, given whether its key is a
/// well-formed identifier.
pub fn key_verdict(well_formed: bool) -> (r: Result<(), ValidationError>)
    ensures
        well_formed ==> r is Ok,
        !well_formed ==> r matches Err(ValidationError::InvalidKey),
{
    if well_formed {
        Ok(())
    } else {
        Err(ValidationError::InvalidKey)
    }
}

/// Whether a lookup may go to the store: only under a key that is a
/// well-formed identifier.
pub fn check_lookup_key(key: &str) -> (r: Result<(), ValidationError>)
    ensures
        uuid_accepted(key@) ==> r is Ok,
        !uuid_accepted(key@) ==> r matches Err(ValidationError::InvalidKey),
{
    key_verdict(is_well_formed(key))
}

/// The answer to a lookup under a key that is not well formed.
pub fn invalid_key_response() -> (r: (HttpStatus, NotificationResponse))
    ensures
        r.0 == HttpStatus::BadRequest,
        r.1.message@ == "Invalid notification key"@,
        r.1.bare(),
{
    let r: (HttpStatus, NotificationResponse) = ResponseFabric::bad_request::<
        NotificationResponse,
    >("Invalid notification key");
    r
}

/// The answer to a lookup, given what the store said: the notification, or
/// that there is none, whatever the store's error was.
pub fn lookup_response(found: Result<Notification, StorageError>) -> (r: (
    HttpStatus,
    NotificationResponse,
))
    ensures
        found matches Ok(n) ==> r.0 == HttpStatus::Success && r.1.message@ == "Found"@
            && r.1.notification@ == n@,
        found is Err ==> r.0 == HttpStatus::NotFound && r.1.message@
            == "Notification metadata not found"@ && r.1.bare(),
{
    match found {
        Ok(notification) => {
            let existing: NotificationResponse = NotificationResponse {
                message: String::from_str("Found"),
                notification,
            };
            let r: (HttpStatus, NotificationResponse) = ResponseFabric::ok_with_existing(
                "Found",
                existing,
            );
            r
        },
        Err(_) => {
            let r: (HttpStatus, NotificationResponse) = ResponseFabric::not_found::<
                NotificationResponse,
            >("Notification metadata not found");
            r
        },
    }
}

} // verus!
