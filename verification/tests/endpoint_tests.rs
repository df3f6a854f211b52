use notifier::endpoints::{
    check_lookup_key, daily_response, instant_response, invalid_key_response, key_verdict,
    lookup_response, parse_platform_from_request, parse_recipient, plan_registration,
    platform_of_normalized, recipient_of_parsed, rejection_response, schedule_stored,
    MessageResponse, NotificationResponse, RegisterNotificationMetadata, Registration,
};
use notifier::errors::{AdmissionError, DeliveryError, StorageError, ValidationError};
use notifier::notifications::{
    Notification, NotificationBuilder, NotificationKind, NotificationPlatform,
};
use notifier::scheduler::Scheduler;
use notifier::utils::{HttpStatus, Response, ResponseFabric};

fn request(is_daily: bool, stamps: &[&str], platform: &str, send_to: &str) -> RegisterNotificationMetadata {
    RegisterNotificationMetadata {
        text: "Time to stretch".to_string(),
        daily_send_timestamps: stamps.iter().map(|s| s.to_string()).collect(),
        is_daily,
        platform: platform.to_string(),
        send_to: send_to.to_string(),
    }
}

fn rejected(plan: Registration) -> ValidationError {
    match plan {
        Registration::Reject(e) => e,
        other => panic!("expected a rejection, got {:?}", other),
    }
}

#[test]
fn telegram_is_accepted_in_any_mixture_of_cases() {
    for name in ["telegram", "Telegram", "TELEGRAM", "tElEgRaM"] {
        assert_eq!(
            parse_platform_from_request(name.to_string()).unwrap(),
            NotificationPlatform::Telegram
        );
    }
}

#[test]
fn other_platforms_are_rejected() {
    for name in ["slack", "email", "", " telegram", "telegram ", "tele gram"] {
        let e: ValidationError = parse_platform_from_request(name.to_string()).unwrap_err();
        assert!(matches!(e, ValidationError::IncorrectPlatform));
        assert_eq!(e.message(), "Incorrect platform. Supported is \"telegram\"");
    }
}

#[test]
fn recipient_is_a_decimal_integer() {
    assert_eq!(parse_recipient("42").unwrap(), 42);
    assert_eq!(parse_recipient("-1001234567890").unwrap(), -1001234567890);
    assert_eq!(parse_recipient("+7").unwrap(), 7);
    assert_eq!(parse_recipient("9223372036854775807").unwrap(), i64::MAX);
    for bad in ["", "abc", "4 2", " 42", "9223372036854775808", "1.5"] {
        let e: ValidationError = parse_recipient(bad).unwrap_err();
        assert!(matches!(e, ValidationError::IncorrectRecipient(_)));
        assert_eq!(
            e.message(),
            format!("Incorrect recipient: \"{}\". Expected an integer id", bad)
        );
    }
}

#[test]
fn daily_request_with_two_timestamps_is_stored_and_scheduled() {
    let plan: Registration = plan_registration(request(
        true,
        &["2025-04-18T09:00:00Z", "2025-04-18T18:30:00Z"],
        "Telegram",
        "42",
    ));
    let n: Notification = match plan {
        Registration::PersistAndSchedule(n) => n,
        other => panic!("expected to store and schedule, got {:?}", other),
    };
    assert_eq!(n.kind(), NotificationKind::Daily);
    assert_eq!(n.platform(), NotificationPlatform::Telegram);
    assert_eq!(n.text(), "Time to stretch");
    assert_eq!(n.send_to().user_id, 42);
    assert_eq!(n.uuid().len(), 36);
    assert_eq!(n.daily_send_timestamps().len(), 2);
    let first = n.daily_send_timestamps()[0];
    let second = n.daily_send_timestamps()[1];
    // Nine and a half hours lie between the two, in whatever zone.
    let gap: i64 = (second.day() as i64 - first.day() as i64) * 86_400
        + second.second_of_day() as i64
        - first.second_of_day() as i64;
    assert_eq!(gap, 9 * 3600 + 30 * 60);
    let timers = Scheduler::timers_for(&n);
    assert_eq!(timers.len(), 2);
    assert_eq!(timers[0].notification_id(), n.uuid());
    assert_ne!(
        (timers[0].at().hour(), timers[0].at().minute()),
        (timers[1].at().hour(), timers[1].at().minute())
    );
}

#[test]
fn unknown_platform_is_rejected_before_anything_is_stored() {
    let e: ValidationError = rejected(plan_registration(request(
        true,
        &["2025-04-18T09:00:00Z"],
        "slack",
        "42",
    )));
    assert!(matches!(e, ValidationError::IncorrectPlatform));
    let (status, body) = rejection_response(&e);
    assert_eq!(status, HttpStatus::BadRequest);
    assert_eq!(status.code(), 400);
    assert_eq!(body.message, "Incorrect platform. Supported is \"telegram\"");
    assert_eq!(body.notification_id, "");
    let instant: ValidationError =
        rejected(plan_registration(request(false, &[], "slack", "42")));
    assert!(matches!(instant, ValidationError::IncorrectPlatform));
}

#[test]
fn daily_request_without_timestamps_is_rejected() {
    let e: ValidationError =
        rejected(plan_registration(request(true, &[], "telegram", "42")));
    assert!(matches!(e, ValidationError::EmptyDailyTimestamps));
    assert_eq!(e.message(), "is_daily is set true, but daily_send_timestamps size is 0");
    // The check comes first: nothing else in the request is looked at.
    let all_wrong: ValidationError =
        rejected(plan_registration(request(true, &[], "slack", "nobody")));
    assert!(matches!(all_wrong, ValidationError::EmptyDailyTimestamps));
}

#[test]
fn recipient_that_is_no_integer_is_rejected() {
    let e: ValidationError = rejected(plan_registration(request(
        true,
        &["2025-04-18T09:00:00Z"],
        "telegram",
        "@someone",
    )));
    assert!(matches!(e, ValidationError::IncorrectRecipient(_)));
    assert_eq!(e.message(), "Incorrect recipient: \"@someone\". Expected an integer id");
}

#[test]
fn timestamp_that_is_not_rfc3339_is_rejected() {
    let e: ValidationError = rejected(plan_registration(request(
        true,
        &["2025-04-18T09:00:00Z", "nine o'clock"],
        "telegram",
        "42",
    )));
    assert_eq!(
        e.message(),
        "Incorrect date string: \"nine o'clock\". Expected format is RFC3339: 2025-04-18T12:00:00Z"
    );
}

#[test]
fn third_timestamp_is_rejected() {
    let e: ValidationError = rejected(plan_registration(request(
        true,
        &["2025-04-18T09:00:00Z", "2025-04-18T12:00:00Z", "2025-04-18T18:00:00Z"],
        "telegram",
        "42",
    )));
    assert!(matches!(e, ValidationError::Capacity(_)));
    assert_eq!(
        e.message(),
        "Error adding daily timestamp: You can only send 2 notification a day"
    );
    // A third that is also malformed fails on its form first.
    let malformed: ValidationError = rejected(plan_registration(request(
        true,
        &["2025-04-18T09:00:00Z", "2025-04-18T12:00:00Z", "later"],
        "telegram",
        "42",
    )));
    assert!(matches!(malformed, ValidationError::IncorrectDate(_)));
}

#[test]
fn instant_request_is_sent_at_once_and_its_timestamps_are_not_read() {
    let plan: Registration =
        plan_registration(request(false, &["not a date", "x", "y"], "telegram", "7"));
    let n: Notification = match plan {
        Registration::SendNow(n) => n,
        other => panic!("expected to send now, got {:?}", other),
    };
    assert_eq!(n.kind(), NotificationKind::Instant);
    assert_eq!(n.send_to().user_id, 7);
    assert!(n.daily_send_timestamps().is_empty());
    assert_eq!(n.delivery_request().unwrap().text, "Time to stretch");
}

#[test]
fn answers_to_an_instant_request() {
    let n: Notification = NotificationBuilder::new().build();
    let (status, body) = instant_response(&n, Ok(()));
    assert_eq!(status.code(), 200);
    assert_eq!(body.message, "Sent!");
    assert_eq!(&body.notification_id, n.uuid());
    let (status, body) =
        instant_response(&n, Err(DeliveryError::Transport("chat not found".to_string())));
    assert_eq!(status.code(), 500);
    assert_eq!(body.message, "Failed to send notification: chat not found");
    assert_eq!(body.notification_id, "");
    let (_, body) = instant_response(&n, Err(DeliveryError::Unsupported));
    assert_eq!(
        body.message,
        "Failed to send notification: Email notifications are not implemented yet."
    );
}

#[test]
fn answers_to_a_daily_request() {
    let n: Notification = NotificationBuilder::new().kind(NotificationKind::Daily).build();
    let stored: Result<(), StorageError> = Ok(());
    let lost: Result<(), StorageError> = Err(StorageError::Write("timeout".to_string()));
    let (status, body) = daily_response(&n, &stored, &Ok(()));
    assert_eq!(status, HttpStatus::Success);
    assert_eq!(body.message, "Notification metadata successfully saved");
    assert_eq!(&body.notification_id, n.uuid());
    let (status, body) = daily_response(&n, &stored, &Err(AdmissionError::Backpressure));
    assert_eq!(status, HttpStatus::InternalServerError);
    assert_eq!(body.message, "Failed to add notification to scheduler");
    assert_eq!(body.notification_id, "");
    let (status, body) = daily_response(&n, &lost, &Ok(()));
    assert_eq!(status, HttpStatus::InternalServerError);
    assert_eq!(body.message, "Failed to save notification metadata");
}

#[test]
fn a_notification_that_was_not_stored_is_not_submitted() {
    let (scheduler, mut reader) = Scheduler::new();
    let n: Notification = NotificationBuilder::new().kind(NotificationKind::Daily).build();
    let (status, body) =
        schedule_stored(&scheduler, &n, Err(StorageError::Connection("refused".to_string())));
    assert_eq!(status.code(), 500);
    assert_eq!(body.message, "Failed to save notification metadata");
    assert!(reader.try_recv().is_err());
    let (status, body) = schedule_stored(&scheduler, &n, Ok(()));
    assert_eq!(status.code(), 200);
    assert_eq!(&body.notification_id, n.uuid());
    assert_eq!(reader.try_recv().unwrap().uuid(), n.uuid());
    drop(reader);
    let (status, body) = schedule_stored(&scheduler, &n, Ok(()));
    assert_eq!(status.code(), 500);
    assert_eq!(body.message, "Failed to add notification to scheduler");
}

#[test]
fn lookup_goes_to_the_store_only_under_a_well_formed_key() {
    assert!(check_lookup_key("550e8400-e29b-41d4-a716-446655440000").is_ok());
    assert!(check_lookup_key(Notification::default().uuid()).is_ok());
    let e: ValidationError = check_lookup_key("../etc/passwd").unwrap_err();
    assert!(matches!(e, ValidationError::InvalidKey));
    assert_eq!(e.message(), "Invalid notification key");
    let (status, body) = invalid_key_response();
    assert_eq!(status.code(), 400);
    assert_eq!(body.message, "Invalid notification key");
}

#[test]
fn answers_to_a_lookup() {
    let n: Notification = NotificationBuilder::new().text("found me".to_string()).build();
    let id: String = n.uuid().clone();
    let (status, body) = lookup_response(Ok(n));
    assert_eq!(status.code(), 200);
    assert_eq!(body.message, "Found");
    assert_eq!(body.notification.uuid(), &id);
    assert_eq!(body.notification.text(), "found me");
    let (status, body) = lookup_response(Err(StorageError::NotFound(id)));
    assert_eq!(status, HttpStatus::NotFound);
    assert_eq!(status.code(), 404);
    assert_eq!(body.message, "Notification metadata not found");
    assert_eq!(body.notification.text(), "Default notification");
}

#[test]
fn the_fabric_makes_each_status() {
    let (status, body): (HttpStatus, MessageResponse) = ResponseFabric::bad_request("no");
    assert_eq!((status.code(), body.message.as_str(), body.notification_id.as_str()), (400, "no", ""));
    let (status, body): (HttpStatus, MessageResponse) = ResponseFabric::not_found("gone");
    assert_eq!((status.code(), body.message.as_str()), (404, "gone"));
    let (status, body): (HttpStatus, NotificationResponse) =
        ResponseFabric::internal_server_error("broken");
    assert_eq!((status.code(), body.message.as_str()), (500, "broken"));
    assert_eq!(body.notification.kind(), NotificationKind::Instant);
    let (status, body) = ResponseFabric::ok_with_id("done", "abc".to_string());
    assert_eq!((status.code(), body.message.as_str(), body.notification_id.as_str()), (200, "done", "abc"));
    let existing: MessageResponse =
        MessageResponse { message: "old".to_string(), notification_id: "kept".to_string() };
    let (status, body) = ResponseFabric::ok_with_existing("new", existing);
    assert_eq!((status.code(), body.message.as_str(), body.notification_id.as_str()), (200, "new", "kept"));
}

#[test]
fn a_body_under_another_message_keeps_what_it_carries() {
    let bare: MessageResponse = MessageResponse::with_message("hello".to_string());
    assert_eq!((bare.message.as_str(), bare.notification_id.as_str()), ("hello", ""));
    let n: Notification = Notification::default();
    let id: String = n.uuid().clone();
    let held: NotificationResponse =
        NotificationResponse { message: "first".to_string(), notification: n };
    let again: NotificationResponse = NotificationResponse::with_existing("second".to_string(), held);
    assert_eq!(again.message, "second");
    assert_eq!(again.notification.uuid(), &id);
}

#[test]
fn only_the_lower_case_name_is_the_platform() {
    assert_eq!(platform_of_normalized("telegram").unwrap(), NotificationPlatform::Telegram);
    for name in ["Telegram", "slack", "email", "", "telegram "] {
        assert!(matches!(
            platform_of_normalized(name),
            Err(ValidationError::IncorrectPlatform)
        ));
    }
}

#[test]
fn a_recipient_that_was_not_read_is_an_error_with_its_text() {
    assert_eq!(recipient_of_parsed("42", Some(42)).unwrap(), 42);
    assert_eq!(recipient_of_parsed("anything", Some(-1)).unwrap(), -1);
    let e: ValidationError = recipient_of_parsed("forty-two", None).unwrap_err();
    assert_eq!(e.message(), "Incorrect recipient: \"forty-two\". Expected an integer id");
}

#[test]
fn a_key_that_is_not_well_formed_is_an_invalid_key() {
    assert!(key_verdict(true).is_ok());
    assert!(matches!(key_verdict(false), Err(ValidationError::InvalidKey)));
}

#[test]
fn the_id_of_a_registered_notification_is_a_lookup_key() {
    let plan: Registration = plan_registration(request(false, &[], "telegram", "1"));
    match plan {
        Registration::SendNow(n) => assert!(check_lookup_key(n.uuid()).is_ok()),
        other => panic!("expected to send now, got {:?}", other),
    }
}

#[test]
fn error_answers_to_a_lookup_hold_a_default_notification() {
    let (_, invalid) = invalid_key_response();
    assert_eq!(invalid.notification.text(), "Default notification");
    assert_eq!(invalid.notification.kind(), NotificationKind::Instant);
    assert!(invalid.notification.daily_send_timestamps().is_empty());
}
