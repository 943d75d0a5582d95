use watch_core::settings::Settings;
use watch_core::timekeeping::{
    boot_timestamp, get_date_time, has_date_time, localized, rtc_micros, set_clock, set_date,
    set_time,
};

/// 2024-02-29 13:14:15 UTC.
const LEAP_DAY: i64 = 1_709_212_455_000_000;

fn settings(timestamp: i64, timestamp_offset: u64, timezone_offset: i32) -> Settings<()> {
    let mut settings = Settings::new(&());
    settings.set_timestamp(timestamp, true);
    settings.set_timestamp_offset(timestamp_offset, true);
    settings.set_timezone_offset(timezone_offset, true);
    settings
}

#[test]
fn clock_adds_the_time_since_it_was_set() {
    let s = settings(LEAP_DAY, 1_000, 0);
    assert!(has_date_time(&s, 1_000));
    assert_eq!(get_date_time(&s, 1_000).timestamp_micros, LEAP_DAY);
    assert_eq!(get_date_time(&s, 1_017).timestamp_micros, LEAP_DAY + 17);
    // A time before the clock was set counts as none.
    assert_eq!(get_date_time(&s, 5).timestamp_micros, LEAP_DAY);
}

#[test]
fn clock_is_localized() {
    let s = settings(LEAP_DAY, 0, -14);
    assert_eq!(get_date_time(&s, 0).offset_seconds, -50_400);
    assert_eq!(get_date_time(&s, 0).get_date(), vec![28, 2, 2024]);
    assert_eq!(get_date_time(&s, 0).get_time(), vec![23, 14, 15]);
}

#[test]
fn clock_that_cannot_be_read() {
    assert!(has_date_time(&settings(0, 0, 23), 0));
    assert!(!has_date_time(&settings(0, 0, 24), 0));
    assert!(has_date_time(&settings(0, 0, -23), 0));
    assert!(!has_date_time(&settings(0, 0, -24), 0));
    assert!(!has_date_time(&settings(0, 0, i32::MAX), 0));
    assert!(!has_date_time(&settings(0, 0, 1_193_047), 0));
    assert!(!has_date_time(&settings(i64::MAX, 0, 0), 1));
    assert!(!has_date_time(&settings(i64::MIN, 0, 0), 0));
}

#[test]
fn very_long_times_count_backwards() {
    // More than 63 bits of microseconds since start-up.
    assert_eq!(localized(100, u64::MAX, 0).unwrap().timestamp_micros, 99);
    assert_eq!(localized(0, 1 << 63, 0), None);
}

#[test]
fn clock_that_was_set_shows_what_it_was_set_to() {
    let mut s = settings(5, 6, 3);
    assert_eq!(set_clock(&mut s, LEAP_DAY, true, 2_000, true), LEAP_DAY as u64);
    assert_eq!((s.get_timestamp(), s.get_timestamp_offset()), (LEAP_DAY, 2_000));
    assert_eq!(get_date_time(&s, 2_000).timestamp_micros, LEAP_DAY);
    assert_eq!(get_date_time(&s, 2_500).timestamp_micros, LEAP_DAY + 500);
    assert_eq!(s.get_timezone_offset(), 3);
}

#[test]
fn clock_takes_over_what_was_stored() {
    let mut s = settings(5, 6, 0);
    set_clock(&mut s, 50, false, 60, true);
    assert_eq!((s.get_timestamp(), s.get_timestamp_offset()), (5, 60));
    set_clock(&mut s, 51, true, 61, false);
    assert_eq!((s.get_timestamp(), s.get_timestamp_offset()), (51, 60));
    set_clock(&mut s, 52, false, 62, false);
    assert_eq!((s.get_timestamp(), s.get_timestamp_offset()), (51, 60));
}

#[test]
fn date_and_time_that_are_set() {
    let s = settings(LEAP_DAY, 100, 2);
    // 2025-03-17 15:14:15 at two hours east.
    let timestamp = set_date(&s, 100, 3, 17, 2025);
    assert_eq!(timestamp, 1_742_217_255_000_000);
    let mut changed = settings(LEAP_DAY, 100, 2);
    set_clock(&mut changed, timestamp, true, 150, true);
    assert_eq!(get_date_time(&changed, 150).get_date(), vec![17, 3, 2025]);
    assert_eq!(get_date_time(&changed, 150).get_time(), vec![15, 14, 15]);
    // 2024-02-29 01:02:03 at two hours east.
    let timestamp = set_time(&s, 100, 1, 2, 3);
    assert_eq!(timestamp, 1_709_161_323_000_000);
    set_clock(&mut changed, timestamp, true, 150, true);
    assert_eq!(get_date_time(&changed, 150).get_date(), vec![29, 2, 2024]);
    assert_eq!(get_date_time(&changed, 150).get_time(), vec![1, 2, 3]);
}

#[test]
fn real_time_clock_sets_a_clock_that_was_not_set() {
    assert_eq!(boot_timestamp(&settings(9, 0, 0), 77), Some(77));
    assert_eq!(boot_timestamp(&settings(9, 1, 0), 77), None);
    assert_eq!(boot_timestamp(&settings(9, 0, 0), u64::MAX), Some(-1));
}

#[test]
fn real_time_clock_keeps_the_timestamp() {
    assert_eq!(rtc_micros(LEAP_DAY), LEAP_DAY as u64);
    assert_eq!(rtc_micros(-1), u64::MAX);
    for timestamp in [0, 1, -1, i64::MAX, i64::MIN, LEAP_DAY] {
        assert_eq!(boot_timestamp(&settings(0, 0, 0), rtc_micros(timestamp)), Some(timestamp));
    }
}

#[test]
fn time_zone_moves_the_face_and_not_the_instant() {
    let utc = get_date_time(&settings(LEAP_DAY, 0, 0), 0);
    let east = get_date_time(&settings(LEAP_DAY, 0, 5), 0);
    assert_eq!(utc.timestamp_micros, east.timestamp_micros);
    assert_eq!(utc.get_time(), vec![13, 14, 15]);
    assert_eq!(east.get_time(), vec![18, 14, 15]);
}
