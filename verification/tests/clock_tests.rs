use notifier::clock::{next_fire, now, LocalTimestamp, NextFire, TimeOfDay};
use notifier::utils::rfc3339_to_local;

const DAY: i32 = 739_360;

fn reading(second_of_day: u32, nanosecond: u32) -> LocalTimestamp {
    LocalTimestamp::new(DAY, second_of_day, nanosecond, 0).unwrap()
}

fn at(hour: u32, minute: u32) -> TimeOfDay {
    TimeOfDay::new(hour, minute).unwrap()
}

#[test]
fn time_of_day_accepts_only_hours_and_minutes_in_range() {
    assert!(TimeOfDay::new(0, 0).is_some());
    assert!(TimeOfDay::new(23, 59).is_some());
    assert!(TimeOfDay::new(24, 0).is_none());
    assert!(TimeOfDay::new(0, 60).is_none());
    let t: TimeOfDay = at(9, 30);
    assert_eq!(t.hour(), 9);
    assert_eq!(t.minute(), 30);
}

#[test]
fn local_timestamp_accepts_only_values_in_range() {
    assert!(LocalTimestamp::new(DAY, 86_399, 1_999_999_999, 86_399).is_some());
    assert!(LocalTimestamp::new(DAY, 86_400, 0, 0).is_none());
    assert!(LocalTimestamp::new(DAY, 0, 2_000_000_000, 0).is_none());
    assert!(LocalTimestamp::new(DAY, 0, 0, 86_400).is_none());
    assert!(LocalTimestamp::new(DAY, 0, 0, -86_400).is_none());
    assert!(LocalTimestamp::new(100_000_000, 0, 0, 0).is_none());
    assert!(LocalTimestamp::new(-100_000_000, 0, 0, 0).is_none());
    let t: LocalTimestamp = LocalTimestamp::new(DAY, 34_200, 7, -3_600).unwrap();
    assert_eq!(t.day(), DAY);
    assert_eq!(t.second_of_day(), 34_200);
    assert_eq!(t.nanosecond(), 7);
    assert_eq!(t.offset_seconds(), -3_600);
}

#[test]
fn time_of_day_of_a_reading_drops_the_seconds() {
    let t: TimeOfDay = reading(9 * 3600 + 30 * 60 + 59, 5).time_of_day();
    assert_eq!((t.hour(), t.minute()), (9, 30));
    let last: TimeOfDay = reading(86_399, 0).time_of_day();
    assert_eq!((last.hour(), last.minute()), (23, 59));
}

#[test]
fn timer_at_the_exact_second_fires_at_once() {
    let fire: NextFire = next_fire(&reading(9 * 3600, 0), at(9, 0));
    assert_eq!(fire.day, DAY);
    assert_eq!(fire.wait.seconds(), 0);
    assert_eq!(fire.wait.nanoseconds(), 0);
    assert!(fire.wait.is_zero());
}

#[test]
fn timer_one_second_late_waits_until_tomorrow() {
    let fire: NextFire = next_fire(&reading(9 * 3600 + 1, 0), at(9, 0));
    assert_eq!(fire.day, DAY + 1);
    assert_eq!(fire.wait.seconds(), 86_399);
    assert_eq!(fire.wait.nanoseconds(), 0);
}

#[test]
fn timer_one_nanosecond_late_waits_until_tomorrow() {
    let fire: NextFire = next_fire(&reading(9 * 3600, 1), at(9, 0));
    assert_eq!(fire.day, DAY + 1);
    assert_eq!(fire.wait.seconds(), 86_399);
    assert_eq!(fire.wait.nanoseconds(), 999_999_999);
}

#[test]
fn timer_before_its_time_waits_the_difference() {
    let fire: NextFire = next_fire(&reading(8 * 3600 + 59 * 60 + 30, 250_000_000), at(9, 0));
    assert_eq!(fire.day, DAY);
    assert_eq!(fire.wait.seconds(), 29);
    assert_eq!(fire.wait.nanoseconds(), 750_000_000);
    assert!(!fire.wait.is_zero());
}

#[test]
fn timer_for_midnight_asked_at_noon_waits_half_a_day() {
    let fire: NextFire = next_fire(&reading(12 * 3600, 0), at(0, 0));
    assert_eq!(fire.day, DAY + 1);
    assert_eq!(fire.wait.seconds(), 43_200);
    assert_eq!(fire.wait.nanoseconds(), 0);
}

#[test]
fn leap_second_reading_before_the_time_counts_the_leap_second() {
    // 08:59:59 with a nanosecond count of 1.5 s is half a second into the
    // leap second 08:59:60.
    let fire: NextFire = next_fire(&reading(9 * 3600 - 1, 1_500_000_000), at(9, 0));
    assert_eq!(fire.day, DAY);
    assert_eq!(fire.wait.seconds(), 0);
    assert_eq!(fire.wait.nanoseconds(), 500_000_000);
}

#[test]
fn leap_second_reading_at_the_end_of_the_day_never_waits_a_negative_time() {
    let fire: NextFire = next_fire(&reading(86_399, 1_500_000_000), at(0, 0));
    assert_eq!(fire.day, DAY + 1);
    assert_eq!(fire.wait.seconds(), 0);
    assert_eq!(fire.wait.nanoseconds(), 0);
    let before: NextFire = next_fire(&reading(86_399, 400_000_000), at(0, 0));
    assert_eq!(before.day, DAY + 1);
    assert_eq!(before.wait.seconds(), 0);
    assert_eq!(before.wait.nanoseconds(), 600_000_000);
}

#[test]
fn the_clock_reads_values_in_range() {
    let t: LocalTimestamp = now();
    assert!(t.second_of_day() < 86_400);
    assert!(t.nanosecond() < 2_000_000_000);
    assert!(t.offset_seconds() > -86_400 && t.offset_seconds() < 86_400);
    // A clock set anywhere after the year 2000.
    assert!(t.day() > 730_000);
    assert!(LocalTimestamp::new(t.day(), t.second_of_day(), t.nanosecond(), t.offset_seconds())
        .is_some());
}

#[test]
fn rfc3339_timestamp_is_read_in_the_local_zone() {
    let t: LocalTimestamp = rfc3339_to_local("2025-04-18T12:34:56Z").unwrap();
    let local: i64 = 12 * 3600 + 34 * 60 + 56 + t.offset_seconds() as i64;
    assert_eq!(t.second_of_day() as i64, local.rem_euclid(86_400));
    // 2025-04-18 is day 739_359 from January 1 of year 1 as day 1.
    assert_eq!(t.day() as i64, 739_359 + local.div_euclid(86_400));
    assert_eq!(t.nanosecond(), 0);
}

#[test]
fn rfc3339_timestamp_with_an_offset_names_the_same_instant() {
    let utc: LocalTimestamp = rfc3339_to_local("2025-04-18T12:00:00Z").unwrap();
    let east: LocalTimestamp = rfc3339_to_local("2025-04-18T15:00:00+03:00").unwrap();
    assert_eq!(utc.day(), east.day());
    assert_eq!(utc.second_of_day(), east.second_of_day());
    let fraction: LocalTimestamp = rfc3339_to_local("2025-04-18T12:00:00.25Z").unwrap();
    assert_eq!(fraction.nanosecond(), 250_000_000);
}

#[test]
fn text_that_is_not_rfc3339_is_an_incorrect_date() {
    for bad in ["", "yesterday", "2025-04-18", "2025-04-18 12:00", "2025-13-40T12:00:00Z"] {
        let e = rfc3339_to_local(bad).unwrap_err();
        assert_eq!(
            e.message(),
            format!(
                "Incorrect date string: \"{}\". Expected format is RFC3339: 2025-04-18T12:00:00Z",
                bad
            )
        );
    }
}

#[test]
fn a_reading_is_written_as_date_time_and_offset() {
    let utc: LocalTimestamp = LocalTimestamp::new(739_359, 12 * 3600 + 34 * 60 + 56, 0, 0).unwrap();
    assert_eq!(utc.to_text().unwrap(), "2025-04-18 12:34:56 +00:00");
    let east: LocalTimestamp =
        LocalTimestamp::new(739_359, 15 * 3600, 250_000_000, 3 * 3600).unwrap();
    assert_eq!(east.to_text().unwrap(), "2025-04-18 15:00:00.250 +03:00");
    let west: LocalTimestamp = LocalTimestamp::new(1, 0, 0, -(5 * 3600 + 30 * 60)).unwrap();
    assert_eq!(west.to_text().unwrap(), "0001-01-01 00:00:00 -05:30");
}

#[test]
fn a_reading_outside_the_calendar_has_no_text() {
    let beyond: LocalTimestamp = LocalTimestamp::new(99_999_999, 0, 0, 0).unwrap();
    assert!(beyond.to_text().is_none());
    // A nanosecond count of a second or more stands only in the last second
    // of a minute.
    let odd: LocalTimestamp = LocalTimestamp::new(739_359, 30, 1_500_000_000, 0).unwrap();
    assert!(odd.to_text().is_none());
    let leap: LocalTimestamp = LocalTimestamp::new(739_359, 59, 1_500_000_000, 0).unwrap();
    assert_eq!(leap.to_text().unwrap(), "2025-04-18 00:00:60.500 +00:00");
}

#[test]
fn a_written_reading_is_read_back_as_the_same_instant() {
    let written: LocalTimestamp =
        LocalTimestamp::new(739_359, 15 * 3600 + 7, 250_000_000, 3 * 3600).unwrap();
    let text: String = written.to_text().unwrap();
    let read: LocalTimestamp = LocalTimestamp::from_text(&text).unwrap();
    let instant = |t: &LocalTimestamp| -> i64 {
        t.day() as i64 * 86_400 + t.second_of_day() as i64 - t.offset_seconds() as i64
    };
    assert_eq!(instant(&read), instant(&written));
    assert_eq!(read.nanosecond(), 250_000_000);
    let rfc: LocalTimestamp = LocalTimestamp::from_text("2025-04-18T12:00:07.25Z").unwrap();
    assert_eq!(instant(&rfc), instant(&written));
}

#[test]
fn text_that_names_no_instant_gives_no_reading() {
    for bad in ["", "soon", "2025-04-18", "2025-04-18 12:00:00", "12:00:00 +00:00"] {
        assert!(LocalTimestamp::from_text(bad).is_none());
    }
}
