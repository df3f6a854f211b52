//! Wall-clock readings, times of day, and the wait until the next occurrence
//! of a time of day.

use chrono::{Datelike, Timelike};
use vstd::prelude::*;

verus! {

pub const SECONDS_PER_DAY: u32 = 86_400;

pub const NANOS_PER_SECOND: u32 = 1_000_000_000;

/// Day numbers are counted from January 1 of year 1 as day 1. Every date that
/// the calendar in use can hold lies strictly within this many days of day 0.
pub const DAY_LIMIT: i32 = 100_000_000;

/// Mathematical model of a [`TimeOfDay`].
pub struct TimeOfDayView {
    pub hour: int,
    pub minute: int,
}

impl TimeOfDayView {
    pub open spec fn valid(self) -> bool {
        0 <= self.hour < 24 && 0 <= self.minute < 60
    }

    /// Seconds from midnight to this time of day, at second zero of its minute.
    pub open spec fn second_of_day(self) -> int {
        self.hour * 3600 + self.minute * 60
    }
}

/// An hour and a minute of the day.
#[derive(Clone, Copy, Debug)]
pub struct TimeOfDay {
    hour: u32,
    minute: u32,
}

impl View for TimeOfDay {
    type V = TimeOfDayView;

    closed spec fn view(&self) -> TimeOfDayView {
        TimeOfDayView { hour: self.hour as int, minute: self.minute as int }
    }
}

impl TimeOfDay {
    #[verifier::type_invariant]
    spec fn in_range(self) -> bool {
        self.hour < 24 && self.minute < 60
    }

    /// The time of day `hour:minute`, or `None` when either is out of range.
    pub fn new(hour: u32, minute: u32) -> (r: Option<TimeOfDay>)
        ensures
            r is Some <==> hour < 24 && minute < 60,
            r matches Some(t) ==> t@ == (TimeOfDayView { hour: hour as int, minute: minute as int }),
    {
        if hour < 24 && minute < 60 {
            Some(TimeOfDay { hour, minute })
        } else {
            None
        }
    }

    pub fn hour(&self) -> (h: u32)
        ensures
            h == self@.hour,
            self@.valid(),
    {
        proof {
            use_type_invariant(self);
        }
        self.hour
    }

    pub fn minute(&self) -> (m: u32)
        ensures
            m == self@.minute,
            self@.valid(),
    {
        proof {
            use_type_invariant(self);
        }
        self.minute
    }
}

/// Mathematical model of a [`LocalTimestamp`].
pub struct LocalTimestampView {
    pub day: int,
    pub second_of_day: int,
    pub nanosecond: int,
    pub offset_seconds: int,
}

impl LocalTimestampView {
    /// A nanosecond count of a full second or more marks a leap second: the
    /// reading lies in the second that follows `second_of_day`.
    pub open spec fn valid(self) -> bool {
        &&& -DAY_LIMIT < self.day < DAY_LIMIT
        &&& 0 <= self.second_of_day < SECONDS_PER_DAY
        &&& 0 <= self.nanosecond < 2 * NANOS_PER_SECOND
        &&& -SECONDS_PER_DAY < self.offset_seconds < SECONDS_PER_DAY
    }

    pub open spec fn time_of_day(self) -> TimeOfDayView {
        TimeOfDayView { hour: self.second_of_day / 3600, minute: (self.second_of_day / 60) % 60 }
    }

    /// Nanoseconds from midnight of the reading's day to the reading.
    pub open spec fn nanos_into_day(self) -> int {
        self.second_of_day * NANOS_PER_SECOND + self.nanosecond
    }

    /// The second of the reading on the clock of UTC, counted from the
    /// midnight that begins day 0. Readings of one instant in two zones agree
    /// on it.
    pub open spec fn utc_second(self) -> int {
        self.day * SECONDS_PER_DAY + self.second_of_day - self.offset_seconds
    }
}

/// A reading of the local wall clock: the local date as a day number, the
/// local time as seconds and nanoseconds past midnight, and the zone's
/// offset from UTC at that moment.
#[derive(Clone, Copy, Debug)]
pub struct LocalTimestamp {
    day: i32,
    second_of_day: u32,
    nanosecond: u32,
    offset_seconds: i32,
}

impl View for LocalTimestamp {
    type V = LocalTimestampView;

    closed spec fn view(&self) -> LocalTimestampView {
        LocalTimestampView {
            day: self.day as int,
            second_of_day: self.second_of_day as int,
            nanosecond: self.nanosecond as int,
            offset_seconds: self.offset_seconds as int,
        }
    }
}

impl LocalTimestamp {
    #[verifier::type_invariant]
    spec fn in_range(self) -> bool {
        self@.valid()
    }

    /// The reading made of the four values, or `None` when one is out of range.
    pub fn new(day: i32, second_of_day: u32, nanosecond: u32, offset_seconds: i32) -> (r: Option<
        LocalTimestamp,
    >)
        ensures
            r is Some <==> (LocalTimestampView {
                day: day as int,
                second_of_day: second_of_day as int,
                nanosecond: nanosecond as int,
                offset_seconds: offset_seconds as int,
            }).valid(),
            r matches Some(t) ==> t@ == (LocalTimestampView {
                day: day as int,
                second_of_day: second_of_day as int,
                nanosecond: nanosecond as int,
                offset_seconds: offset_seconds as int,
            }),
    {
        if -DAY_LIMIT < day && day < DAY_LIMIT && second_of_day < SECONDS_PER_DAY && nanosecond
            < 2 * NANOS_PER_SECOND && -(SECONDS_PER_DAY as i32) < offset_seconds && offset_seconds < (
        SECONDS_PER_DAY as i32) {
            Some(LocalTimestamp { day, second_of_day, nanosecond, offset_seconds })
        } else {
            None
        }
    }

    pub fn day(&self) -> (d: i32)
        ensures
            d == self@.day,
            self@.valid(),
    {
        proof {
            use_type_invariant(self);
        }
        self.day
    }

    pub fn second_of_day(&self) -> (s: u32)
        ensures
            s == self@.second_of_day,
            self@.valid(),
    {
        proof {
            use_type_invariant(self);
        }
        self.second_of_day
    }

    pub fn nanosecond(&self) -> (n: u32)
        ensures
            n == self@.nanosecond,
            self@.valid(),
    {
        proof {
            use_type_invariant(self);
        }
        self.nanosecond
    }

    pub fn offset_seconds(&self) -> (o: i32)
        ensures
            o == self@.offset_seconds,
            self@.valid(),
    {
        proof {
            use_type_invariant(self);
        }
        self.offset_seconds
    }

    /// The hour and minute that the reading shows.
    pub fn time_of_day(&self) -> (t: TimeOfDay)
        ensures
            t@ == self@.time_of_day(),
            t@.valid(),
    {
        proof {
            use_type_invariant(self);
        }
        let hour: u32 = self.second_of_day / 3600;
        let minute: u32 = (self.second_of_day / 60) % 60;
        TimeOfDay { hour, minute }
    }
}

/// Mathematical model of a [`Wait`].
pub struct WaitView {
    pub seconds: int,
    pub nanoseconds: int,
}

impl WaitView {
    pub open spec fn valid(self) -> bool {
        0 <= self.seconds && 0 <= self.nanoseconds < NANOS_PER_SECOND
    }

    pub open spec fn total_nanos(self) -> int {
        self.seconds * NANOS_PER_SECOND + self.nanoseconds
    }
}

/// A span of time to sleep: whole seconds and the nanoseconds beyond them.
#[derive(Clone, Copy, Debug)]
pub struct Wait {
    seconds: u64,
    nanoseconds: u32,
}

impl View for Wait {
    type V = WaitView;

    closed spec fn view(&self) -> WaitView {
        WaitView { seconds: self.seconds as int, nanoseconds: self.nanoseconds as int }
    }
}

impl Wait {
    #[verifier::type_invariant]
    spec fn in_range(self) -> bool {
        self.nanoseconds < NANOS_PER_SECOND
    }

    pub fn seconds(&self) -> (s: u64)
        ensures
            s == self@.seconds,
            self@.valid(),
    {
        proof {
            use_type_invariant(self);
        }
        self.seconds
    }

    pub fn nanoseconds(&self) -> (n: u32)
        ensures
            n == self@.nanoseconds,
            self@.valid(),
    {
        proof {
            use_type_invariant(self);
        }
        self.nanoseconds
    }

    pub fn is_zero(&self) -> (z: bool)
        ensures
            z <==> self@.total_nanos() == 0,
    {
        proof {
            use_type_invariant(self);
        }
        self.seconds == 0 && self.nanoseconds == 0
    }
}

/// The length of a day without a leap second, in nanoseconds.
pub open spec fn day_nanos() -> int {
    SECONDS_PER_DAY * NANOS_PER_SECOND
}

/// Today's occurrence of `at` still lies ahead of `now`, or is `now` itself.
/// Only a reading strictly later than the occurrence has missed it.
pub open spec fn fires_today(now: LocalTimestampView, at: TimeOfDayView) -> bool {
    now.second_of_day < at.second_of_day() || (now.second_of_day == at.second_of_day()
        && now.nanosecond == 0)
}

/// The day on which `at` occurs next, seen from `now`.
pub open spec fn fire_day(now: LocalTimestampView, at: TimeOfDayView) -> int {
    if fires_today(now, at) {
        now.day
    } else {
        now.day + 1
    }
}

/// Nanoseconds from `now` to the next occurrence of `at`.
///
/// A reading inside a leap second counts the leap second as time still to
/// pass before an occurrence later the same day. The occurrence of the next
/// day is measured over a day of `day_nanos()`; where a leap-second reading
/// in the day's last second would make that negative, the wait is zero.
pub open spec fn wait_nanos(now: LocalTimestampView, at: TimeOfDayView) -> int {
    let target = at.second_of_day() * NANOS_PER_SECOND;
    if fires_today(now, at) {
        if now.nanosecond >= NANOS_PER_SECOND {
            target + NANOS_PER_SECOND - now.nanos_into_day()
        } else {
            target - now.nanos_into_day()
        }
    } else if day_nanos() + target >= now.nanos_into_day() {
        day_nanos() + target - now.nanos_into_day()
    } else {
        0
    }
}

/// When a timer fires next: the day of the occurrence and the time to sleep
/// until it.
#[derive(Clone, Copy, Debug)]
pub struct NextFire {
    pub day: i32,
    pub wait: Wait,
}

/// The next occurrence of `at` seen from the reading `now`: today's if `now`
/// is not past it, else tomorrow's, with the time between `now` and it.
pub fn next_fire(now: &LocalTimestamp, at: TimeOfDay) -> (r: NextFire)
    ensures
        r.day == fire_day(now@, at@),
        r.wait@.valid(),
        r.wait@.total_nanos() == wait_nanos(now@, at@),
{
    proof {
        use_type_invariant(now);
        use_type_invariant(at);
    }
    let second: u64 = 1_000_000_000;
    let target: u64 = (at.hour as u64) * 3600 + (at.minute as u64) * 60;
    let elapsed: u64 = (now.second_of_day as u64) * second + (now.nanosecond as u64);
    let today: bool = (now.second_of_day as u64) < target || ((now.second_of_day as u64) == target
        && now.nanosecond == 0);
    let total: u64 = if today {
        if now.nanosecond >= NANOS_PER_SECOND {
            target * second + second - elapsed
        } else {
            target * second - elapsed
        }
    } else if 86_400 * second + target * second >= elapsed {
        86_400 * second + target * second - elapsed
    } else {
        0
    };
    let day: i32 = if today {
        now.day
    } else {
        now.day + 1
    };
    let seconds: u64 = total / second;
    let nanoseconds: u32 = (total % second) as u32;
    NextFire { day, wait: Wait { seconds, nanoseconds } }
}

/// A timer asked at the very instant of its time of day fires at once, the
/// same day.
pub proof fn lemma_exact_instant_fires_at_once(now: LocalTimestampView, at: TimeOfDayView)
    requires
        now.valid(),
        at.valid(),
        now.second_of_day == at.second_of_day(),
        now.nanosecond == 0,
    ensures
        fire_day(now, at) == now.day,
        wait_nanos(now, at) == 0,
{
}

/// A timer asked after its time of day, by any amount short of a leap second,
/// fires the next day, and the wait and the time since today's occurrence add
/// up to one day.
pub proof fn lemma_late_reading_waits_for_tomorrow(now: LocalTimestampView, at: TimeOfDayView)
    requires
        now.valid(),
        at.valid(),
        now.nanosecond < NANOS_PER_SECOND,
        now.nanos_into_day() > at.second_of_day() * NANOS_PER_SECOND,
    ensures
        fire_day(now, at) == now.day + 1,
        wait_nanos(now, at) + (now.nanos_into_day() - at.second_of_day() * NANOS_PER_SECOND)
            == day_nanos(),
        0 < wait_nanos(now, at) < day_nanos(),
{
}

/// The wait is never negative and, for a reading outside a leap second, never
/// more than a day.
pub proof fn lemma_wait_bounds(now: LocalTimestampView, at: TimeOfDayView)
    requires
        now.valid(),
        at.valid(),
    ensures
        0 <= wait_nanos(now, at),
        now.nanosecond < NANOS_PER_SECOND ==> wait_nanos(now, at) < day_nanos(),
        wait_nanos(now, at) <= day_nanos(),
{
}

/// The error that the calendar library reports for a string that it cannot
/// read as a date and time.
#[verifier::external_type_specification]
#[verifier::external_body]
pub struct ExParseError(chrono::ParseError);

/// The instant that `text` names in RFC 3339 form, as
/// `chrono::DateTime::parse_from_rfc3339` reads it: its second on the clock
/// of UTC, counted as `LocalTimestampView::utc_second` counts, and its
/// nanosecond. `None` for a text that is not in that form.
pub uninterp spec fn rfc3339_instant(text: Seq<char>) -> Option<(int, int)>;

/// Whether `text` is a date and time in RFC 3339 form.
pub open spec fn rfc3339_accepted(text: Seq<char>) -> bool {
    rfc3339_instant(text) is Some
}

/// Reads the machine's clock in the machine's time zone, with
/// `chrono::Local::now`, which takes the system clock to be set no earlier
/// than 1970. The reading differs from call to call; the contract states
/// only that the four values are in the ranges that the calendar library
/// keeps them in.
#[verifier::external_body]
pub(crate) fn local_now() -> (r: LocalTimestamp)
    ensures
        r@.valid(),
{
    let now = chrono::Local::now();
    let local = now.naive_local();
    LocalTimestamp {
        day: local.date().num_days_from_ce(),
        second_of_day: local.time().num_seconds_from_midnight(),
        nanosecond: local.time().nanosecond(),
        offset_seconds: now.offset().local_minus_utc(),
    }
}

/// Parses `text` with `chrono::DateTime::parse_from_rfc3339` and moves the
/// instant into the machine's time zone. Whether the text is accepted, and
/// which instant it names, depends on the text alone. The offset of the
/// local reading depends on the machine's zone, so of the reading the
/// contract states the ranges and that it is a reading of that instant.
#[verifier::external_body]
pub(crate) fn parse_rfc3339_local(text: &str) -> (r: Result<LocalTimestamp, chrono::ParseError>)
    ensures
        r is Ok <==> rfc3339_instant(text@) is Some,
        r matches Ok(t) ==> t@.valid() && rfc3339_instant(text@) == Some(
            (t@.utc_second(), t@.nanosecond),
        ),
{
    let parsed = chrono::DateTime::parse_from_rfc3339(text)?;
    let moved = parsed.with_timezone(&chrono::Local);
    let local = moved.naive_local();
    Ok(
        LocalTimestamp {
            day: local.date().num_days_from_ce(),
            second_of_day: local.time().num_seconds_from_midnight(),
            nanosecond: local.time().nanosecond(),
            offset_seconds: moved.offset().local_minus_utc(),
        },
    )
}

/// The text that `chrono::DateTime`'s `Display` writes for the reading made
/// of the four values: the local date and time, a blank and the offset.
/// `None` where the calendar library holds no such reading.
pub uninterp spec fn written_reading(
    day: int,
    second_of_day: int,
    nanosecond: int,
    offset_seconds: int,
) -> Option<Seq<char>>;

/// The instant that `text` names in the relaxed RFC 3339 form that
/// `chrono::DateTime`'s `FromStr` reads, counted as `rfc3339_instant` counts.
/// `None` for a text that is not in that form.
pub uninterp spec fn read_instant(text: Seq<char>) -> Option<(int, int)>;

/// Makes the reading a `chrono::DateTime` at its fixed offset, where the
/// calendar library holds such a one, and writes it with `Display`. What is
/// written depends on the four values alone.
#[verifier::external_body]
pub(crate) fn write_reading(reading: &LocalTimestamp) -> (r: Option<String>)
    ensures
        match r {
            Some(text) => written_reading(
                reading@.day,
                reading@.second_of_day,
                reading@.nanosecond,
                reading@.offset_seconds,
            ) == Some(text@),
            None => written_reading(
                reading@.day,
                reading@.second_of_day,
                reading@.nanosecond,
                reading@.offset_seconds,
            ) is None,
        },
{
    let date = chrono::NaiveDate::from_num_days_from_ce_opt(reading.day)?;
    let time = chrono::NaiveTime::from_num_seconds_from_midnight_opt(
        reading.second_of_day,
        reading.nanosecond,
    )?;
    let offset = chrono::FixedOffset::east_opt(reading.offset_seconds)?;
    let moment = chrono::TimeZone::from_local_datetime(&offset, &date.and_time(time)).single()?;
    Some(moment.to_string())
}

/// Reads `text` with `chrono::DateTime`'s `FromStr` and moves the instant
/// into the machine's time zone. Which instant the text names depends on the
/// text alone. A reading comes back only of such an instant, and not where
/// the local date would lie outside the calendar.
#[verifier::external_body]
pub(crate) fn read_reading(text: &str) -> (r: Option<LocalTimestamp>)
    ensures
        r matches Some(t) ==> t@.valid() && read_instant(text@) == Some(
            (t@.utc_second(), t@.nanosecond),
        ),
        read_instant(text@) is None ==> r is None,
{
    let moved = text.parse::<chrono::DateTime<chrono::Local>>().ok()?;
    let local = moved.naive_utc().checked_add_offset(*moved.offset())?;
    Some(
        LocalTimestamp {
            day: local.date().num_days_from_ce(),
            second_of_day: local.time().num_seconds_from_midnight(),
            nanosecond: local.time().nanosecond(),
            offset_seconds: moved.offset().local_minus_utc(),
        },
    )
}

impl LocalTimestampView {
    /// The reading as text: date, time and offset.
    pub open spec fn text(self) -> Option<Seq<char>> {
        written_reading(self.day, self.second_of_day, self.nanosecond, self.offset_seconds)
    }
}

impl LocalTimestamp {
    /// The reading as text, as a stored record holds it. `None` for a reading
    /// that no date of the calendar has.
    pub fn to_text(&self) -> (r: Option<String>)
        ensures
            match r {
                Some(text) => self@.text() == Some(text@),
                None => self@.text() is None,
            },
    {
        write_reading(self)
    }

    /// The reading, in the local zone, of the instant that a stored text
    /// names. A text that names none gives no reading.
    pub fn from_text(text: &str) -> (r: Option<LocalTimestamp>)
        ensures
            r matches Some(t) ==> t@.valid() && read_instant(text@) == Some(
                (t@.utc_second(), t@.nanosecond),
            ),
            read_instant(text@) is None ==> r is None,
    {
        read_reading(text)
    }
}

/// The current reading of the local wall clock.
pub fn now() -> (r: LocalTimestamp)
    ensures
        r@.valid(),
{
    local_now()
}

} // verus!
