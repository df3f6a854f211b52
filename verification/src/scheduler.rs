//! The scheduler: admission through a bounded queue, the timers that a
//! notification gives rise to, and the cycle of one timer.

use crate::clock::{
    fire_day,
    next_fire,
    wait_nanos,
    LocalTimestamp,
    NextFire,
    TimeOfDay,
    TimeOfDayView,
};
use crate::errors::{AdmissionError, DeliveryError};
use crate::notifications::{
    ContactData,
    DeliveryRequest,
    Notification,
    NotificationPlatform,
    NotificationView,
};
use vstd::prelude::*;

verus! {

/// The number of notifications that the ingestion queue holds at most.
pub const INGESTION_CAPACITY: usize = 32;

/// The sending half of a bounded queue of the task runtime.
#[verifier::external_type_specification]
#[verifier::external_body]
#[verifier::reject_recursive_types(T)]
pub struct ExSender<T>(tokio::sync::mpsc::Sender<T>);

/// The receiving half of a bounded queue of the task runtime.
#[verifier::external_type_specification]
#[verifier::external_body]
#[verifier::reject_recursive_types(T)]
pub struct ExReceiver<T>(tokio::sync::mpsc::Receiver<T>);

/// How an attempt to enqueue without waiting ended.
#[derive(Clone, Copy, Debug, PartialEq, Eq, Structural)]
pub enum Enqueued {
    Taken,
    Full,
    Closed,
}

/// The number of notifications that the queue behind `queue` was opened to
/// hold at most.
pub uninterp spec fn queue_limit(queue: tokio::sync::mpsc::Sender<Notification>) -> nat;

/// Opens a queue of the given capacity with `tokio::sync::mpsc::channel`,
/// which panics on a capacity of zero or of more than an eighth of the
/// address space. The capacity of a queue is fixed when it is opened.
#[verifier::external_body]
fn open_queue(capacity: usize) -> (r: (
    tokio::sync::mpsc::Sender<Notification>,
    tokio::sync::mpsc::Receiver<Notification>,
))
    requires
        0 < capacity <= 0x1fff_ffff,
    ensures
        queue_limit(r.0) == capacity,
{
    tokio::sync::mpsc::channel(capacity)
}

/// Offers `notification` to the queue with `tokio::sync::mpsc::Sender::try_send`,
/// which never waits. Whether the queue has room depends on what its reader
/// has taken so far, so nothing is stated of the outcome.
#[verifier::external_body]
fn try_enqueue(
    queue: &tokio::sync::mpsc::Sender<Notification>,
    notification: Notification,
) -> (r: Enqueued) {
    match queue.try_send(notification) {
        Ok(()) => Enqueued::Taken,
        Err(tokio::sync::mpsc::error::TrySendError::Full(_)) => Enqueued::Full,
        Err(tokio::sync::mpsc::error::TrySendError::Closed(_)) => Enqueued::Closed,
    }
}

/// The way into the scheduler: the sending half of the ingestion queue.
pub struct Scheduler {
    queue: tokio::sync::mpsc::Sender<Notification>,
}

impl Scheduler {
    /// The number of notifications that the ingestion queue holds at most.
    pub closed spec fn capacity(&self) -> nat {
        queue_limit(self.queue)
    }

    /// A scheduler with an empty ingestion queue of `INGESTION_CAPACITY`
    /// slots, and the queue's receiving half for the coordinator to read.
    pub fn new() -> (r: (Scheduler, tokio::sync::mpsc::Receiver<Notification>))
        ensures
            r.0.capacity() == INGESTION_CAPACITY,
    {
        let (queue, reader) = open_queue(INGESTION_CAPACITY);
        (Scheduler { queue }, reader)
    }

    /// What the submitter is told for each way an enqueue can end. A full
    /// queue is backpressure, at once and without a retry.
    pub fn admission(outcome: Enqueued) -> (r: Result<(), AdmissionError>)
        ensures
            outcome == Enqueued::Taken ==> r is Ok,
            outcome == Enqueued::Full ==> r == Err::<(), AdmissionError>(
                AdmissionError::Backpressure,
            ),
            outcome == Enqueued::Closed ==> r == Err::<(), AdmissionError>(AdmissionError::Closed),
    {
        match outcome {
            Enqueued::Taken => Ok(()),
            Enqueued::Full => Err(AdmissionError::Backpressure),
            Enqueued::Closed => Err(AdmissionError::Closed),
        }
    }

    /// Offers a snapshot of `notification` to the ingestion queue without
    /// waiting. The answer is `Scheduler::admission` of how the offer ended.
    pub fn add_notification(&self, notification: &Notification) -> (r: Result<(), AdmissionError>) {
        let outcome: Enqueued = try_enqueue(&self.queue, notification.snapshot());
        Scheduler::admission(outcome)
    }

    /// Submits every notification of `notifications`, in order. A refusal
    /// does not stop the replay: the answer holds one result for each
    /// notification.
    pub fn recover(&self, notifications: &Vec<Notification>) -> (r: Vec<Result<(), AdmissionError>>)
        ensures
            r@.len() == notifications@.len(),
    {
        let mut results: Vec<Result<(), AdmissionError>> = Vec::new();
        let mut i: usize = 0;
        while i < notifications.len()
            invariant
                i <= notifications@.len(),
                results@.len() == i,
            decreases notifications@.len() - i,
        {
            results.push(self.add_notification(&notifications[i]));
            i = i + 1;
        }
        results
    }
}

/// The two states of a timer.
#[derive(Clone, Copy, Debug, PartialEq, Eq, Structural)]
pub enum TimerState {
    /// Between occurrences: working out the next one, or asleep until it.
    Waiting,
    /// Awake, with a dispatch under way.
    Firing,
}

/// Mathematical model of a [`Timer`].
pub struct TimerView {
    pub notification_id: Seq<char>,
    pub at: TimeOfDayView,
    pub recipient: ContactData,
    pub platform: NotificationPlatform,
    pub text: Seq<char>,
    pub state: TimerState,
}

/// One time of day of one notification: a loop that sleeps until the next
/// occurrence and then has the notification's text sent. It holds a snapshot
/// of what it needs from the notification, taken when it was made.
#[derive(Debug)]
pub struct Timer {
    notification_id: String,
    at: TimeOfDay,
    recipient: ContactData,
    platform: NotificationPlatform,
    text: String,
    state: TimerState,
}

impl View for Timer {
    type V = TimerView;

    closed spec fn view(&self) -> TimerView {
        TimerView {
            notification_id: self.notification_id@,
            at: self.at@,
            recipient: self.recipient,
            platform: self.platform,
            text: self.text@,
            state: self.state,
        }
    }
}

/// What happened to a timer.
#[derive(Debug)]
pub enum TimerEvent {
    /// A cycle begins; the clock reads as given.
    CycleStarted(LocalTimestamp),
    /// The sleep of the cycle is over.
    SleepEnded,
    /// The delivery channel has answered; a failure comes in its own words.
    DispatchEnded(Result<(), String>),
}

/// What the runner of a timer does next.
#[derive(Debug)]
pub enum TimerAction {
    /// Sleep for the wait, then report `SleepEnded`.
    Sleep(NextFire),
    /// Hand the request to the delivery channel, then report `DispatchEnded`.
    Dispatch(DeliveryRequest),
    /// Log the error and begin the next cycle.
    Report(DeliveryError),
    /// Begin the next cycle.
    Proceed,
    /// Nothing: the event does not belong to the timer's state.
    Ignore,
}

/// The timer that `notification` gives rise to for the time of day of
/// `timestamp`, before its first cycle.
pub open spec fn timer_of(notification: NotificationView, timestamp: LocalTimestamp) -> TimerView {
    TimerView {
        notification_id: notification.uuid,
        at: timestamp@.time_of_day(),
        recipient: notification.send_to,
        platform: notification.platform,
        text: notification.text,
        state: TimerState::Waiting,
    }
}

/// The timers that `notification` gives rise to for its first `count`
/// timestamps, in their order.
pub open spec fn timers_of(notification: NotificationView, count: int) -> Seq<TimerView> {
    Seq::new(count as nat, |i: int| timer_of(notification, notification.daily_send_timestamps[i]))
}

/// The state of `timer` after `event`.
pub open spec fn state_after(timer: TimerView, event: TimerEvent) -> TimerState {
    match (timer.state, event) {
        (TimerState::Waiting, TimerEvent::SleepEnded) => if timer.platform
            == NotificationPlatform::Telegram {
            TimerState::Firing
        } else {
            TimerState::Waiting
        },
        (TimerState::Firing, TimerEvent::DispatchEnded(_)) => TimerState::Waiting,
        (state, _) => state,
    }
}

impl Timer {
    pub fn notification_id(&self) -> (r: &String)
        ensures
            r@ == self@.notification_id,
    {
        &self.notification_id
    }

    pub fn at(&self) -> (r: TimeOfDay)
        ensures
            r@ == self@.at,
    {
        self.at
    }

    pub fn recipient(&self) -> (r: ContactData)
        ensures
            r == self@.recipient,
    {
        self.recipient
    }

    pub fn platform(&self) -> (r: NotificationPlatform)
        ensures
            r == self@.platform,
    {
        self.platform
    }

    pub fn text(&self) -> (r: &String)
        ensures
            r@ == self@.text,
    {
        &self.text
    }

    pub fn state(&self) -> (r: TimerState)
        ensures
            r == self@.state,
    {
        self.state
    }

    /// One step of the timer's cycle.
    ///
    /// Waiting, at the start of a cycle: sleep until the next occurrence of
    /// the timer's time of day, seen from the clock reading. Waiting, when the
    /// sleep ends: fire, and have the snapshot dispatched; a platform without
    /// a channel is reported instead, and the timer goes on waiting. Firing,
    /// when the dispatch ends: back to waiting, whether it failed or not; a
    /// failure is reported and not retried. An event that does not belong to
    /// the state changes nothing, so a dispatch is never begun while one is
    /// under way.
    pub fn step(&mut self, event: TimerEvent) -> (action: TimerAction)
        ensures
            final(self)@ == (TimerView { state: state_after(old(self)@, event), ..old(self)@ }),
            match (old(self)@.state, event) {
                (TimerState::Waiting, TimerEvent::CycleStarted(now)) => action matches TimerAction::Sleep(fire)
                    && fire.day == fire_day(now@, old(self)@.at) && fire.wait@.valid()
                    && fire.wait@.total_nanos() == wait_nanos(now@, old(self)@.at),
                (TimerState::Waiting, TimerEvent::SleepEnded) => if old(self)@.platform
                    == NotificationPlatform::Telegram {
                    action matches TimerAction::Dispatch(request) && request.chat_id == old(
                        self,
                    )@.recipient.user_id && request.text@ == old(self)@.text
                } else {
                    action matches TimerAction::Report(DeliveryError::Unsupported)
                },
                (TimerState::Firing, TimerEvent::DispatchEnded(Ok(_))) => action is Proceed,
                (TimerState::Firing, TimerEvent::DispatchEnded(Err(cause))) => action matches TimerAction::Report(
                    DeliveryError::Transport(kept),
                ) && kept@ == cause@,
                _ => action is Ignore,
            },
    {
        match self.state {
            TimerState::Waiting => match event {
                TimerEvent::CycleStarted(now) => TimerAction::Sleep(next_fire(&now, self.at)),
                TimerEvent::SleepEnded => match self.platform {
                    NotificationPlatform::Telegram => {
                        self.state = TimerState::Firing;
                        TimerAction::Dispatch(
                            DeliveryRequest {
                                chat_id: self.recipient.user_id,
                                text: self.text.clone(),
                            },
                        )
                    },
                    NotificationPlatform::Email => TimerAction::Report(DeliveryError::Unsupported),
                },
                TimerEvent::DispatchEnded(_) => TimerAction::Ignore,
            },
            TimerState::Firing => match event {
                TimerEvent::DispatchEnded(reported) => {
                    self.state = TimerState::Waiting;
                    match reported {
                        Ok(()) => TimerAction::Proceed,
                        Err(cause) => TimerAction::Report(DeliveryError::Transport(cause)),
                    }
                },
                _ => TimerAction::Ignore,
            },
        }
    }
}

impl Scheduler {
    /// The timers that the coordinator starts for a notification taken from
    /// the queue: one for each daily timestamp, none where there is none,
    /// each with its own snapshot.
    pub fn timers_for(notification: &Notification) -> (timers: Vec<Timer>)
        ensures
            timers@.len() == notification@.daily_send_timestamps.len(),
            timers@.map_values(|t: Timer| t@) == timers_of(
                notification@,
                notification@.daily_send_timestamps.len() as int,
            ),
    {
        let timestamps: &Vec<LocalTimestamp> = notification.daily_send_timestamps();
        let mut timers: Vec<Timer> = Vec::new();
        let mut i: usize = 0;
        while i < timestamps.len()
            invariant
                i <= timestamps@.len(),
                timestamps@ == notification@.daily_send_timestamps,
                timers@.len() == i,
                timers@.map_values(|t: Timer| t@) == timers_of(notification@, i as int),
            decreases timestamps@.len() - i,
        {
            let timer: Timer = Timer {
                notification_id: notification.uuid().clone(),
                at: timestamps[i].time_of_day(),
                recipient: notification.send_to(),
                platform: notification.platform(),
                text: notification.text().clone(),
                state: TimerState::Waiting,
            };
            proof {
                let before = timers@;
                assert(before.push(timer).map_values(|t: Timer| t@) =~= before.map_values(
                    |t: Timer| t@,
                ).push(timer@));
                assert(timers_of(notification@, i as int).push(timer@) =~= timers_of(
                    notification@,
                    i as int + 1,
                ));
            }
            timers.push(timer);
            i = i + 1;
        }
        timers
    }
}

/// The number of timers that come of `records` when each is taken from the
/// queue once.
pub open spec fn timers_started(records: Seq<NotificationView>) -> nat
    decreases records.len(),
{
    if records.len() == 0 {
        0
    } else {
        timers_started(records.drop_last()) + records.last().daily_send_timestamps.len()
    }
}

/// Taking `first` and then `second` from the queue starts the timers of both.
pub proof fn lemma_timers_started_add(first: Seq<NotificationView>, second: Seq<NotificationView>)
    ensures
        timers_started(first + second) == timers_started(first) + timers_started(second),
    decreases second.len(),
{
    if second.len() == 0 {
        assert(first + second =~= first);
    } else {
        lemma_timers_started_add(first, second.drop_last());
        assert((first + second).drop_last() =~= first + second.drop_last());
        assert((first + second).last() == second.last());
    }
}

/// A replay does not look for timers that already run: replaying the same
/// stored records a second time starts every timer a second time, so twice
/// as many run afterwards.
pub proof fn lemma_second_replay_doubles_timers(records: Seq<NotificationView>)
    ensures
        timers_started(records + records) == 2 * timers_started(records),
{
    lemma_timers_started_add(records, records);
}

} // verus!
