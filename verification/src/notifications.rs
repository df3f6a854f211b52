//! The notification, the unit that is scheduled, and its builder.

use crate::clock::{now, LocalTimestamp};
use crate::errors::{CapacityError, DeliveryError};
use crate::ids::{fresh_id, uuid_accepted, UUID_TEXT_LENGTH};
use vstd::prelude::*;
use vstd::string::*;

verus! {

/// The key under which a stored record holds the notification's document.
pub const JSON_NOTIFICATION_KEY: &'static str = "$";

/// The most daily timestamps that one notification may hold.
pub const MAX_DAILY_TIMESTAMPS: usize = 2;

#[derive(Clone, Copy, Debug, PartialEq, Eq, Structural)]
pub enum NotificationKind {
    /// Sent every day at each of the notification's timestamps.
    Daily,
    /// Sent once, at registration.
    Instant,
}

#[derive(Clone, Copy, Debug, PartialEq, Eq, Structural)]
pub enum NotificationPlatform {
    Telegram,
    /// Declared, with no delivery channel behind it.
    Email,
}

/// What a delivery channel needs to find the recipient.
#[derive(Clone, Copy, Debug, PartialEq, Eq, Structural)]
pub struct ContactData {
    pub user_id: i64,
}

/// Mathematical model of a [`Notification`].
pub struct NotificationView {
    pub uuid: Seq<char>,
    pub text: Seq<char>,
    pub daily_send_timestamps: Seq<LocalTimestamp>,
    pub kind: NotificationKind,
    pub platform: NotificationPlatform,
    pub send_to: ContactData,
    pub last_sent: Option<LocalTimestamp>,
    pub created_at: LocalTimestamp,
}

impl NotificationView {
    pub open spec fn valid(self) -> bool {
        self.daily_send_timestamps.len() <= MAX_DAILY_TIMESTAMPS
    }

    /// The notification as a builder or a caller leaves it when only one
    /// field is replaced.
    pub open spec fn with_timestamp(self, timestamp: LocalTimestamp) -> NotificationView {
        NotificationView {
            daily_send_timestamps: self.daily_send_timestamps.push(timestamp),
            ..self
        }
    }
}

/// What a delivery channel is asked to transmit.
#[derive(Clone, Debug)]
pub struct DeliveryRequest {
    pub chat_id: i64,
    pub text: String,
}

/// A message for one recipient on one platform, sent once or every day at up
/// to two times of day.
#[derive(Debug)]
pub struct Notification {
    uuid: String,
    text: String,
    daily_send_timestamps: Vec<LocalTimestamp>,
    kind: NotificationKind,
    platform: NotificationPlatform,
    send_to: ContactData,
    last_sent: Option<LocalTimestamp>,
    created_at: LocalTimestamp,
}

impl View for Notification {
    type V = NotificationView;

    closed spec fn view(&self) -> NotificationView {
        NotificationView {
            uuid: self.uuid@,
            text: self.text@,
            daily_send_timestamps: self.daily_send_timestamps@,
            kind: self.kind,
            platform: self.platform,
            send_to: self.send_to,
            last_sent: self.last_sent,
            created_at: self.created_at,
        }
    }
}

impl Notification {
    #[verifier::type_invariant]
    spec fn within_capacity(self) -> bool {
        self.daily_send_timestamps@.len() <= MAX_DAILY_TIMESTAMPS
    }

    /// A notification with a fresh identifier, created now: instant, for
    /// Telegram, to recipient 0, with a placeholder text and no timestamps.
    pub fn default() -> (r: Notification)
        ensures
            r@.valid(),
            r@.uuid.len() == UUID_TEXT_LENGTH,
            uuid_accepted(r@.uuid),
            r@.text == "Default notification"@,
            r@.daily_send_timestamps == Seq::<LocalTimestamp>::empty(),
            r@.kind == NotificationKind::Instant,
            r@.platform == NotificationPlatform::Telegram,
            r@.send_to == (ContactData { user_id: 0 }),
            r@.last_sent is None,
            r@.created_at@.valid(),
    {
        Notification {
            uuid: fresh_id(),
            kind: NotificationKind::Instant,
            platform: NotificationPlatform::Telegram,
            send_to: ContactData { user_id: 0 },
            created_at: now(),
            text: String::from_str("Default notification"),
            daily_send_timestamps: Vec::new(),
            last_sent: None,
        }
    }

    /// A notification of the given kind and text with a fresh identifier,
    /// created now, and the default recipient and platform.
    pub fn new(kind: NotificationKind, text: String) -> (r: Notification)
        ensures
            r@.valid(),
            r@.uuid.len() == UUID_TEXT_LENGTH,
            uuid_accepted(r@.uuid),
            r@.text == text@,
            r@.daily_send_timestamps == Seq::<LocalTimestamp>::empty(),
            r@.kind == kind,
            r@.platform == NotificationPlatform::Telegram,
            r@.send_to == (ContactData { user_id: 0 }),
            r@.last_sent is None,
            r@.created_at@.valid(),
    {
        Notification {
            uuid: fresh_id(),
            kind,
            platform: NotificationPlatform::Telegram,
            send_to: ContactData { user_id: 0 },
            created_at: now(),
            text,
            daily_send_timestamps: Vec::new(),
            last_sent: None,
        }
    }

    /// The notification made of the given values, as a store hands them back.
    /// More timestamps than a notification may hold are an error.
    pub fn from_parts(
        uuid: String,
        text: String,
        daily_send_timestamps: Vec<LocalTimestamp>,
        kind: NotificationKind,
        platform: NotificationPlatform,
        send_to: ContactData,
        last_sent: Option<LocalTimestamp>,
        created_at: LocalTimestamp,
    ) -> (r: Result<Notification, CapacityError>)
        ensures
            r is Ok <==> daily_send_timestamps@.len() <= MAX_DAILY_TIMESTAMPS,
            r matches Ok(n) ==> n@ == (NotificationView {
                uuid: uuid@,
                text: text@,
                daily_send_timestamps: daily_send_timestamps@,
                kind,
                platform,
                send_to,
                last_sent,
                created_at,
            }),
    {
        if daily_send_timestamps.len() > MAX_DAILY_TIMESTAMPS {
            return Err(CapacityError);
        }
        Ok(
            Notification {
                uuid,
                text,
                daily_send_timestamps,
                kind,
                platform,
                send_to,
                last_sent,
                created_at,
            },
        )
    }

    /// Adds a time of day at which a daily notification is sent. A third
    /// timestamp is refused and leaves the notification as it was.
    pub fn add_daily_timestamp(&mut self, timestamp: LocalTimestamp) -> (r: Result<
        (),
        CapacityError,
    >)
        ensures
            old(self)@.valid(),
            final(self)@.valid(),
            r is Err <==> old(self)@.daily_send_timestamps.len() >= MAX_DAILY_TIMESTAMPS,
            r is Err ==> final(self)@ == old(self)@,
            r is Ok ==> final(self)@ == old(self)@.with_timestamp(timestamp),
    {
        proof {
            use_type_invariant(&*self);
        }
        if self.daily_send_timestamps.len() >= MAX_DAILY_TIMESTAMPS {
            return Err(CapacityError);
        }
        let mut timestamps: Vec<LocalTimestamp> = self.daily_send_timestamps.clone();
        timestamps.push(timestamp);
        self.daily_send_timestamps = timestamps;
        Ok(())
    }

    pub fn uuid(&self) -> (r: &String)
        ensures
            r@ == self@.uuid,
    {
        &self.uuid
    }

    pub fn text(&self) -> (r: &String)
        ensures
            r@ == self@.text,
    {
        &self.text
    }

    pub fn daily_send_timestamps(&self) -> (r: &Vec<LocalTimestamp>)
        ensures
            r@ == self@.daily_send_timestamps,
            self@.valid(),
    {
        proof {
            use_type_invariant(self);
        }
        &self.daily_send_timestamps
    }

    pub fn kind(&self) -> (r: NotificationKind)
        ensures
            r == self@.kind,
    {
        self.kind
    }

    pub fn platform(&self) -> (r: NotificationPlatform)
        ensures
            r == self@.platform,
    {
        self.platform
    }

    pub fn send_to(&self) -> (r: ContactData)
        ensures
            r == self@.send_to,
    {
        self.send_to
    }

    pub fn last_sent(&self) -> (r: Option<LocalTimestamp>)
        ensures
            r == self@.last_sent,
    {
        self.last_sent
    }

    pub fn created_at(&self) -> (r: LocalTimestamp)
        ensures
            r == self@.created_at,
    {
        self.created_at
    }

    /// A copy that later changes to `self` do not reach.
    pub fn snapshot(&self) -> (r: Notification)
        ensures
            r@ == self@,
    {
        proof {
            use_type_invariant(self);
        }
        Notification {
            uuid: self.uuid.clone(),
            text: self.text.clone(),
            daily_send_timestamps: self.daily_send_timestamps.clone(),
            kind: self.kind,
            platform: self.platform,
            send_to: self.send_to,
            last_sent: self.last_sent,
            created_at: self.created_at,
        }
    }
}

impl Notification {
    /// What the delivery channel of the notification's platform is asked to
    /// transmit. A platform without a channel is an error, never a panic.
    pub fn delivery_request(&self) -> (r: Result<DeliveryRequest, DeliveryError>)
        ensures
            self@.platform == NotificationPlatform::Telegram ==> (r matches Ok(request)
                && request.chat_id == self@.send_to.user_id && request.text@ == self@.text),
            self@.platform == NotificationPlatform::Email ==> r matches Err(
                DeliveryError::Unsupported,
            ),
    {
        match self.platform {
            NotificationPlatform::Telegram => Ok(
                DeliveryRequest { chat_id: self.send_to.user_id, text: self.text.clone() },
            ),
            NotificationPlatform::Email => Err(DeliveryError::Unsupported),
        }
    }
}

/// What a delivery attempt amounts to, given what the channel reported: its
/// failure, in its own words, becomes a transport error.
pub fn delivery_outcome(reported: Result<(), String>) -> (r: Result<(), DeliveryError>)
    ensures
        reported is Ok ==> r is Ok,
        reported matches Err(cause) ==> (r matches Err(DeliveryError::Transport(kept))
            && kept@ == cause@),
{
    match reported {
        Ok(()) => Ok(()),
        Err(cause) => Err(DeliveryError::Transport(cause)),
    }
}

/// Builds a notification field by field, starting from the default one.
#[derive(Debug)]
pub struct NotificationBuilder {
    notification: Notification,
}

impl View for NotificationBuilder {
    type V = NotificationView;

    closed spec fn view(&self) -> NotificationView {
        self.notification@
    }
}

impl NotificationBuilder {
    pub fn new() -> (r: NotificationBuilder)
        ensures
            r@.valid(),
            r@.uuid.len() == UUID_TEXT_LENGTH,
            uuid_accepted(r@.uuid),
            r@.text == "Default notification"@,
            r@.daily_send_timestamps == Seq::<LocalTimestamp>::empty(),
            r@.kind == NotificationKind::Instant,
            r@.platform == NotificationPlatform::Telegram,
            r@.send_to == (ContactData { user_id: 0 }),
            r@.last_sent is None,
            r@.created_at@.valid(),
    {
        NotificationBuilder { notification: Notification::default() }
    }

    pub fn kind(self, kind: NotificationKind) -> (r: NotificationBuilder)
        ensures
            r@ == (NotificationView { kind, ..self@ }),
    {
        proof {
            use_type_invariant(&self.notification);
        }
        let mut builder: NotificationBuilder = self;
        builder.notification.kind = kind;
        builder
    }

    pub fn text(self, text: String) -> (r: NotificationBuilder)
        ensures
            r@ == (NotificationView { text: text@, ..self@ }),
    {
        proof {
            use_type_invariant(&self.notification);
        }
        let mut builder: NotificationBuilder = self;
        builder.notification.text = text;
        builder
    }

    pub fn send_to(self, send_to: i64) -> (r: NotificationBuilder)
        ensures
            r@ == (NotificationView { send_to: ContactData { user_id: send_to }, ..self@ }),
    {
        proof {
            use_type_invariant(&self.notification);
        }
        let mut builder: NotificationBuilder = self;
        builder.notification.send_to = ContactData { user_id: send_to };
        builder
    }

    pub fn platform(self, platform: NotificationPlatform) -> (r: NotificationBuilder)
        ensures
            r@ == (NotificationView { platform, ..self@ }),
    {
        proof {
            use_type_invariant(&self.notification);
        }
        let mut builder: NotificationBuilder = self;
        builder.notification.platform = platform;
        builder
    }

    /// Adds a daily timestamp. A third one is refused.
    pub fn add_daily_timestamp(self, timestamp: LocalTimestamp) -> (r: Result<
        NotificationBuilder,
        CapacityError,
    >)
        ensures
            self@.valid(),
            r is Err <==> self@.daily_send_timestamps.len() >= MAX_DAILY_TIMESTAMPS,
            r matches Ok(builder) ==> builder@ == self@.with_timestamp(timestamp) && builder@.valid(),
    {
        let mut builder: NotificationBuilder = self;
        match builder.notification.add_daily_timestamp(timestamp) {
            Ok(()) => Ok(builder),
            Err(e) => Err(e),
        }
    }

    /// The notification as built so far. Whether its kind and its timestamps
    /// fit together is not looked at here.
    pub fn build(self) -> (r: Notification)
        ensures
            r@ == self@,
            r@.valid(),
    {
        proof {
            use_type_invariant(&self.notification);
        }
        self.notification
    }
}

impl Clone for Notification {
    fn clone(&self) -> (r: Notification)
        ensures
            r@ == self@,
    {
        self.snapshot()
    }
}

} // verus!
