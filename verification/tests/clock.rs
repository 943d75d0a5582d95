use watch_core::clock::{
    get_days_in_year_month, ClockFace, DateTime, MAX_TIMESTAMP_MICROS, MIN_TIMESTAMP_MICROS,
};

const HOUR: i32 = 3600;

/// 2024-02-29 13:14:15.000016 UTC, a Thursday.
const LEAP_DAY: i64 = 1_709_212_455_000_016;

fn at(timestamp_micros: i64, offset_seconds: i32) -> DateTime {
    DateTime::new(timestamp_micros, offset_seconds).unwrap()
}

#[test]
fn epoch_is_a_thursday_midnight() {
    assert_eq!(
        DateTime::default().face(),
        ClockFace { hour: 0, minute: 0, second: 0, day: 1, month: 1, year: 1970, weekday: 3 }
    );
}

#[test]
fn reads_a_leap_day() {
    assert_eq!(
        at(LEAP_DAY, 0).face(),
        ClockFace { hour: 13, minute: 14, second: 15, day: 29, month: 2, year: 2024, weekday: 3 }
    );
    assert_eq!(at(LEAP_DAY, 0).get_date(), vec![29, 2, 2024]);
    assert_eq!(at(LEAP_DAY, 0).get_time(), vec![13, 14, 15]);
}

#[test]
fn offset_moves_the_face_over_midnight() {
    let east = at(LEAP_DAY, 11 * HOUR);
    assert_eq!(east.get_date(), vec![1, 3, 2024]);
    assert_eq!(east.get_time(), vec![0, 14, 15]);
    assert_eq!(east.face().weekday, 4);
    let west = at(LEAP_DAY, -14 * HOUR);
    assert_eq!(west.get_date(), vec![28, 2, 2024]);
    assert_eq!(west.get_time(), vec![23, 14, 15]);
    assert_eq!(west.face().weekday, 2);
}

#[test]
fn reads_before_the_epoch() {
    // Mon, 1 Jan 1900 14:38:45 UTC
    let old = at(-2_208_936_075_000_000, 0);
    assert_eq!(
        old.face(),
        ClockFace { hour: 14, minute: 38, second: 45, day: 1, month: 1, year: 1900, weekday: 0 }
    );
    // One microsecond before the epoch.
    assert_eq!(at(-1, 0).get_date(), vec![31, 12, 1969]);
    assert_eq!(at(-1, 0).get_time(), vec![23, 59, 59]);
}

#[test]
fn range_of_instants() {
    assert_eq!(at(MIN_TIMESTAMP_MICROS, 0).get_date(), vec![1, 1, -262_143]);
    assert_eq!(at(MAX_TIMESTAMP_MICROS, 0).get_date(), vec![31, 12, 262_142]);
    assert_eq!(at(MAX_TIMESTAMP_MICROS, 0).get_time(), vec![23, 59, 59]);
    assert!(DateTime::new(MIN_TIMESTAMP_MICROS - 1, 0).is_none());
    assert!(DateTime::new(MAX_TIMESTAMP_MICROS + 1, 0).is_none());
    assert!(DateTime::new(i64::MIN, 0).is_none());
    assert!(DateTime::new(i64::MAX, 0).is_none());
}

#[test]
fn offset_carries_the_face_past_the_range() {
    let last = at(MAX_TIMESTAMP_MICROS, HOUR);
    assert_eq!(last.get_date(), vec![1, 1, 262_143]);
    // The year stays the same, so it may be out of range.
    assert_eq!(last.set_date(1, 1, 262_143), last);
    let first = at(MIN_TIMESTAMP_MICROS, -HOUR);
    assert_eq!(first.get_date(), vec![31, 12, -262_144]);
    assert_eq!(first.set_time(23, 0, 0), first);
    // 22:00 on that clock is an hour before the range.
    assert_eq!(first.set_time(22, 5, 6).timestamp_micros, 5 * 60_000_000 + 6_000_000);
}

#[test]
fn range_of_offsets() {
    assert!(DateTime::new(0, 86_399).is_some());
    assert!(DateTime::new(0, -86_399).is_some());
    assert!(DateTime::new(0, 86_400).is_none());
    assert!(DateTime::new(0, -86_400).is_none());
    assert!(DateTime::new(0, i32::MAX).is_none());
}

#[test]
fn set_date_keeps_the_time() {
    let changed = at(LEAP_DAY, 2 * HOUR).set_date(3, 17, 2025);
    assert_eq!(changed.get_date(), vec![17, 3, 2025]);
    assert_eq!(changed.get_time(), vec![15, 14, 15]);
    assert_eq!(changed.offset_seconds, 2 * HOUR);
    // 2025-03-17 13:14:15.000016 UTC
    assert_eq!(changed.timestamp_micros, 1_742_217_255_000_016);
}

#[test]
fn set_date_from_a_day_that_the_new_month_does_not_have() {
    // January 31, 2024, 10:00 at two hours east.
    let january = at(1_706_688_000_000_000, 2 * HOUR);
    assert_eq!(january.get_date(), vec![31, 1, 2024]);
    assert_eq!(january.get_time(), vec![10, 0, 0]);
    let february = january.set_date(2, 1, 2024);
    assert_eq!(february.get_date(), vec![1, 2, 2024]);
    assert_eq!(february.get_time(), vec![10, 0, 0]);
    assert_eq!(february.offset_seconds, 2 * HOUR);
    assert_eq!(february.timestamp_micros, 1_706_774_400_000_000);
}

#[test]
fn set_date_to_and_from_a_leap_day() {
    let common = at(LEAP_DAY, 0).set_date(2, 28, 2023);
    assert_eq!(common.get_date(), vec![28, 2, 2023]);
    assert_eq!(common.get_time(), vec![13, 14, 15]);
    assert_eq!(common.set_date(2, 29, 2024), at(LEAP_DAY, 0));
    assert_eq!(at(LEAP_DAY, 0).set_date(3, 31, 1900).get_date(), vec![31, 3, 1900]);
}

#[test]
fn set_date_at_the_limits_of_the_range() {
    const DAY: i64 = 86_400_000_000;
    // January 5 of the first year, half past midnight at one hour east.
    let early = at(MIN_TIMESTAMP_MICROS + 4 * DAY - DAY / 48, HOUR);
    assert_eq!(early.get_date(), vec![5, 1, -262_143]);
    assert_eq!(early.set_date(1, 6, -262_143).timestamp_micros, early.timestamp_micros + DAY);
    // January 1 lies before the range at that hour, so the year is set on the epoch.
    assert_eq!(early.set_date(1, 1, -262_143), at(MIN_TIMESTAMP_MICROS, 0));
    // The day after the last one, which only an offset reaches.
    let last = at(MAX_TIMESTAMP_MICROS, HOUR);
    assert_eq!(last.set_date(1, 2, 262_143), DateTime::default());
    assert_eq!(last.set_date(2, 1, 262_143), DateTime::default());
    assert_eq!(last.set_date(12, 31, 262_142).timestamp_micros, MAX_TIMESTAMP_MICROS - DAY);
    assert_eq!(last.set_date(12, 31, 262_142).set_date(1, 1, 262_143), DateTime::default());
    let first = at(MIN_TIMESTAMP_MICROS, -HOUR);
    assert_eq!(first.set_date(12, 31, -262_144), first);
    assert_eq!(first.set_date(12, 30, -262_144), DateTime::default());
}

#[test]
fn set_date_to_a_date_that_does_not_exist() {
    // The day fails: the year is set on the epoch.
    assert_eq!(at(LEAP_DAY, HOUR).set_date(4, 31, 2030), at(1_893_456_000_000_000, 0));
    // 2023-11-14 22:13:20 UTC
    let autumn = at(1_700_000_000_000_000, 0);
    assert_eq!(autumn.set_date(2, 30, 2025), at(1_735_689_600_000_000, 0));
    // The year fails: the epoch itself.
    assert_eq!(at(LEAP_DAY, HOUR).set_date(2, 29, 2023), DateTime::default());
    assert_eq!(at(LEAP_DAY, HOUR).set_date(2, 28, 300_000), DateTime::default());
}

#[test]
fn set_date_with_numbers_that_are_no_dates() {
    let noon = at(LEAP_DAY, HOUR);
    // The month fails: the day and the year are set on the epoch.
    let fifth_of_january = at(1_704_412_800_000_000, 0);
    assert_eq!(fifth_of_january.get_date(), vec![5, 1, 2024]);
    assert_eq!(noon.set_date(-1, 5, 2024), fifth_of_january);
    assert_eq!(noon.set_date(13, 5, 2024), fifth_of_january);
    assert_eq!(noon.set_date(0, 5, 2024), fifth_of_january);
    // The day fails: the year is set on the epoch.
    let first_of_january = at(1_704_067_200_000_000, 0);
    assert_eq!(first_of_january.get_date(), vec![1, 1, 2024]);
    assert_eq!(noon.set_date(2, 0, 2024), first_of_january);
    assert_eq!(noon.set_date(2, -7, 2024), first_of_january);
    assert_eq!(noon.set_date(2, i32::MIN, 2024), first_of_january);
    // All of them fail.
    assert_eq!(noon.set_date(13, 32, i32::MAX), DateTime::default());
}

#[test]
fn set_time_keeps_the_date() {
    let changed = at(LEAP_DAY, -5 * HOUR).set_time(23, 59, 58);
    assert_eq!(changed.get_date(), vec![29, 2, 2024]);
    assert_eq!(changed.get_time(), vec![23, 59, 58]);
    assert_eq!(changed.offset_seconds, -5 * HOUR);
    // 2024-03-01 04:59:58.000016 UTC
    assert_eq!(changed.timestamp_micros, 1_709_269_198_000_016);
}

#[test]
fn set_time_with_numbers_that_are_no_times() {
    let noon = at(LEAP_DAY, 0);
    assert_eq!(noon.set_time(24, 1, 2).timestamp_micros, 62_000_000);
    assert_eq!(noon.set_time(1, 60, 2).timestamp_micros, 2_000_000);
    assert_eq!(noon.set_time(1, 2, 60), DateTime::default());
    assert_eq!(noon.set_time(-1, 1, 2).timestamp_micros, 62_000_000);
    assert_eq!(noon.set_time(1, -1, 2).timestamp_micros, 2_000_000);
    assert_eq!(noon.set_time(1, 2, -1), DateTime::default());
}

#[test]
fn days_of_months() {
    assert_eq!(get_days_in_year_month(2024, 2), 29);
    assert_eq!(get_days_in_year_month(2023, 2), 28);
    assert_eq!(get_days_in_year_month(1900, 2), 28);
    assert_eq!(get_days_in_year_month(2000, 2), 29);
    assert_eq!(get_days_in_year_month(2024, 4), 30);
    assert_eq!(get_days_in_year_month(2024, 12), 31);
    assert_eq!(get_days_in_year_month(-262_143, 6), 30);
    assert_eq!(get_days_in_year_month(262_142, 11), 30);
}

#[test]
fn days_of_months_that_do_not_exist() {
    assert_eq!(get_days_in_year_month(2024, 0), 31);
    assert_eq!(get_days_in_year_month(2024, 13), 31);
    assert_eq!(get_days_in_year_month(2024, -2), 31);
    assert_eq!(get_days_in_year_month(262_143, 2), 31);
    assert_eq!(get_days_in_year_month(-262_144, 2), 31);
}
