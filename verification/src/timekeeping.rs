//! The time of day, kept as the instant at which the clock was last set and the time since then.
use vstd::prelude::*;

use crate::calendar;
use crate::clock;
use crate::clock::DateTime;
use crate::settings::{Settings, SettingsState};

verus! {

/// The signed number with the same 64 bits.
pub open spec fn as_signed(bits: u64) -> int {
    if bits <= i64::MAX {
        bits as int
    } else {
        bits - 0x1_0000_0000_0000_0000
    }
}

/// The unsigned number with the same 64 bits.
pub open spec fn as_unsigned(value: i64) -> int {
    if value >= 0 {
        value as int
    } else {
        value + 0x1_0000_0000_0000_0000
    }
}

/// Microseconds from `since` to `now`, and none where `now` is the earlier one.
pub open spec fn elapsed_micros(now: u64, since: u64) -> u64 {
    if now >= since {
        (now - since) as u64
    } else {
        0
    }
}

/// The instant that the clock shows `now` microseconds after start-up.
pub open spec fn clock_reading(state: SettingsState, now: u64) -> int {
    state.timestamp + as_signed(elapsed_micros(now, state.timestamp_offset))
}

/// Whether the clock can be shown: the instant is in range, and the time zone is less than a day
/// away from UTC.
pub open spec fn clock_readable(state: SettingsState, now: u64) -> bool {
    clock::timestamp_in_range(clock_reading(state, now)) && -24 < state.timezone_offset < 24
}

/// The date and time that the clock shows.
pub open spec fn date_time_at(state: SettingsState, now: u64) -> DateTime {
    DateTime {
        timestamp_micros: clock_reading(state, now) as i64,
        offset_seconds: (3600 * state.timezone_offset) as i32,
    }
}

fn to_signed(bits: u64) -> (value: i64)
    ensures
        value == as_signed(bits),
{
    proof {
        assert(bits <= 0x7fff_ffff_ffff_ffffu64 ==> (bits as i64) == bits) by (bit_vector);
        assert(bits > 0x7fff_ffff_ffff_ffffu64 ==> (bits as i64) == bits
            - 0x1_0000_0000_0000_0000) by (bit_vector);
    }
    #[verifier::truncate]
    (bits as i64)
}

fn to_unsigned(value: i64) -> (bits: u64)
    ensures
        bits == as_unsigned(value),
{
    proof {
        assert(value >= 0 ==> (value as u64) == value) by (bit_vector);
        assert(value < 0 ==> (value as u64) == value + 0x1_0000_0000_0000_0000) by (bit_vector);
    }
    #[verifier::truncate]
    (value as u64)
}

/// The localized date and time `elapsed` microseconds after `timestamp`, where there is one.
pub fn localized(timestamp: i64, elapsed: u64, timezone_offset: i32) -> (at: Option<DateTime>)
    ensures
        at == (if clock::timestamp_in_range(timestamp + as_signed(elapsed)) && -24
            < timezone_offset < 24 {
            Some(
                DateTime {
                    timestamp_micros: (timestamp + as_signed(elapsed)) as i64,
                    offset_seconds: (3600 * timezone_offset) as i32,
                },
            )
        } else {
            None
        }),
        elapsed <= i64::MAX ==> (at is Some <==> (clock::MIN_TIMESTAMP_MICROS <= timestamp + elapsed
            <= clock::MAX_TIMESTAMP_MICROS && -24 < timezone_offset < 24)),
        at is Some && elapsed <= i64::MAX ==> at->0.timestamp_micros == timestamp + elapsed,
        at is Some && elapsed > i64::MAX ==> at->0.timestamp_micros == timestamp + elapsed
            - 0x1_0000_0000_0000_0000,
        at is Some ==> at->0.offset_seconds == 3600 * timezone_offset,
{
    match (timestamp.checked_add(to_signed(elapsed)), timezone_offset.checked_mul(3600)) {
        (Some(micros), Some(seconds)) => DateTime::new(micros, seconds),
        _ => None,
    }
}

/// Get localized date and time.
pub fn get_date_time<S>(settings: &Settings<S>, now: u64) -> (at: DateTime)
    requires
        clock_readable(settings@, now),
    ensures
        at.wf(),
        at == date_time_at(settings@, now),
        at.offset_seconds == 3600 * settings@.timezone_offset,
        now <= settings@.timestamp_offset ==> at.timestamp_micros == settings@.timestamp,
        0 <= now - settings@.timestamp_offset <= i64::MAX ==> at.timestamp_micros
            == settings@.timestamp + (now - settings@.timestamp_offset),
        now - settings@.timestamp_offset > i64::MAX ==> at.timestamp_micros == settings@.timestamp
            + (now - settings@.timestamp_offset) - 0x1_0000_0000_0000_0000,
{
    let elapsed: u64 = now.saturating_sub(settings.get_timestamp_offset());
    localized(settings.get_timestamp(), elapsed, settings.get_timezone_offset()).unwrap()
}

/// Whether there is a localized date and time to get.
pub fn has_date_time<S>(settings: &Settings<S>, now: u64) -> (readable: bool)
    ensures
        readable == clock_readable(settings@, now),
        0 <= now - settings@.timestamp_offset <= i64::MAX ==> (readable <==> (
        clock::MIN_TIMESTAMP_MICROS <= settings@.timestamp + (now - settings@.timestamp_offset)
            <= clock::MAX_TIMESTAMP_MICROS && -24 < settings@.timezone_offset < 24)),
        now < settings@.timestamp_offset ==> (readable <==> (clock::MIN_TIMESTAMP_MICROS
            <= settings@.timestamp <= clock::MAX_TIMESTAMP_MICROS && -24
            < settings@.timezone_offset < 24)),
{
    let elapsed: u64 = now.saturating_sub(settings.get_timestamp_offset());
    localized(
        settings.get_timestamp(),
        elapsed,
        settings.get_timezone_offset(),
    ).is_some()
}

/// The instant to set the clock to when the user changes the localized date and keeps the time.
pub fn set_date<S>(settings: &Settings<S>, now: u64, month: i32, day: i32, year: i32) -> (timestamp:
    i64)
    requires
        clock_readable(settings@, now),
    ensures
        timestamp == date_time_at(settings@, now).with_date(
            month as int,
            day as int,
            year as int,
        ).timestamp_micros,
        clock::timestamp_in_range(timestamp as int),
{
    get_date_time(settings, now).set_date(month, day, year).timestamp_micros
}

/// The instant to set the clock to when the user changes the localized time and keeps the date.
pub fn set_time<S>(settings: &Settings<S>, now: u64, hour: i32, minute: i32, second: i32) -> (
    timestamp: i64)
    requires
        clock_readable(settings@, now),
    ensures
        timestamp == date_time_at(settings@, now).with_time(
            hour as int,
            minute as int,
            second as int,
        ).timestamp_micros,
        clock::timestamp_in_range(timestamp as int),
{
    get_date_time(settings, now).set_time(hour, minute, second).timestamp_micros
}

/// The settings after the clock was set at the time `now`: each of the two values is taken over
/// if it was stored.
pub open spec fn clock_set(
    state: SettingsState,
    timestamp: i64,
    timestamp_stored: bool,
    now: u64,
    now_stored: bool,
) -> SettingsState {
    SettingsState {
        timestamp: if timestamp_stored {
            timestamp
        } else {
            state.timestamp
        },
        timestamp_offset: if now_stored {
            now
        } else {
            state.timestamp_offset
        },
        ..state
    }
}

/// Sets the clock to `timestamp` at the time `now`. Gives the time to set the real-time clock to.
pub fn set_clock<S>(
    settings: &mut Settings<S>,
    timestamp: i64,
    timestamp_stored: bool,
    now: u64,
    now_stored: bool,
) -> (rtc_micros: u64)
    ensures
        final(settings)@ == clock_set(
            old(settings)@,
            timestamp,
            timestamp_stored,
            now,
            now_stored,
        ),
        final(settings).storage_handle() == old(settings).storage_handle(),
        rtc_micros == as_unsigned(timestamp),
        final(settings)@.timestamp == (if timestamp_stored {
            timestamp
        } else {
            old(settings)@.timestamp
        }),
        final(settings)@.timestamp_offset == (if now_stored {
            now
        } else {
            old(settings)@.timestamp_offset
        }),
        timestamp >= 0 ==> rtc_micros == timestamp,
        timestamp < 0 ==> rtc_micros == timestamp + 0x1_0000_0000_0000_0000,
{
    settings.set_timestamp(timestamp, timestamp_stored);
    settings.set_timestamp_offset(now, now_stored);
    rtc_micros(timestamp)
}

/// The time to set the real-time clock to when it is `timestamp`.
pub fn rtc_micros(timestamp: i64) -> (micros: u64)
    ensures
        micros == as_unsigned(timestamp),
        timestamp >= 0 ==> micros == timestamp,
        timestamp < 0 ==> micros == timestamp + 0x1_0000_0000_0000_0000,
{
    to_unsigned(timestamp)
}

/// The instant to set the clock to at start-up, from what the real-time clock shows. A clock that
/// was set since start-up is left alone.
pub fn boot_timestamp<S>(settings: &Settings<S>, rtc_micros: u64) -> (timestamp: Option<i64>)
    ensures
        timestamp == (if settings@.timestamp_offset == 0 {
            Some(as_signed(rtc_micros) as i64)
        } else {
            None
        }),
        settings@.timestamp_offset == 0 && rtc_micros <= i64::MAX ==> timestamp == Some(
            rtc_micros as i64,
        ),
        settings@.timestamp_offset == 0 && rtc_micros > i64::MAX ==> timestamp == Some(
            (rtc_micros - 0x1_0000_0000_0000_0000) as i64,
        ),
{
    if settings.get_timestamp_offset() == 0 {
        Some(to_signed(rtc_micros))
    } else {
        None
    }
}

/// A clock that was set shows what it was set to, plus the time since then.
pub proof fn set_clock_runs_on(state: SettingsState, timestamp: i64, now: u64, later: u64)
    requires
        now <= later,
        later - now <= i64::MAX,
    ensures
        clock_reading(clock_set(state, timestamp, true, now, true), later) == timestamp + (later
            - now),
{
}

/// Between two readings the clock goes on by the time between them.
pub proof fn clock_runs_evenly(state: SettingsState, now: u64, later: u64)
    requires
        state.timestamp_offset <= now <= later,
        later - state.timestamp_offset <= i64::MAX,
    ensures
        clock_reading(state, later) - clock_reading(state, now) == later - now,
{
}

/// The time that was handed to the real-time clock at shutdown is the one that the clock is set to
/// at the next start-up.
pub proof fn rtc_keeps_timestamp(timestamp: i64)
    ensures
        0 <= as_unsigned(timestamp) <= u64::MAX,
        as_signed(as_unsigned(timestamp) as u64) == timestamp,
{
}

/// Another time zone changes what the clock shows by whole hours, and not the instant.
pub proof fn timezone_shifts_clock(state: SettingsState, other: SettingsState, now: u64)
    requires
        clock_readable(state, now),
        clock_readable(other, now),
        other == (SettingsState { timezone_offset: other.timezone_offset, ..state }),
    ensures
        date_time_at(other, now).timestamp_micros == date_time_at(state, now).timestamp_micros,
        date_time_at(other, now).local_micros() - date_time_at(state, now).local_micros() == (
        other.timezone_offset - state.timezone_offset) * 3_600_000_000,
{
}

/// A date that the user sets, and that the clock can be moved to, is the date that is shown once
/// the clock is set to it, and the time of day is the one that was shown before.
pub proof fn date_set_is_shown(
    state: SettingsState,
    now: u64,
    month: int,
    day: int,
    year: int,
    set_at: u64,
)
    requires
        clock_readable(state, now),
        date_time_at(state, now).moved_to_date(month, day, year) is Some,
    ensures
        ({
            let before = date_time_at(state, now);
            let changed = before.with_date(month, day, year);
            let after = clock_set(state, changed.timestamp_micros, true, set_at, true);
            &&& clock_readable(after, set_at)
            &&& date_time_at(after, set_at).civil() == (calendar::Civil {
                year,
                month,
                day,
                ..before.civil()
            })
        }),
{
    clock::set_date_keeps_time(date_time_at(state, now), month, day, year);
}

/// A time that the user sets, through steps that all give a time, is the time that is shown once
/// the clock is set to it, and the date is the one that was shown before.
pub proof fn time_set_is_shown(
    state: SettingsState,
    now: u64,
    hour: int,
    minute: int,
    second: int,
    set_at: u64,
)
    requires
        clock_readable(state, now),
        date_time_at(state, now).with_hour(hour) is Some,
        date_time_at(state, now).with_hour(hour)->0.with_minute(minute) is Some,
        date_time_at(state, now).with_hour(hour)->0.with_minute(minute)->0.with_second(
            second,
        ) is Some,
    ensures
        ({
            let before = date_time_at(state, now);
            let changed = before.with_time(hour, minute, second);
            let after = clock_set(state, changed.timestamp_micros, true, set_at, true);
            &&& clock_readable(after, set_at)
            &&& date_time_at(after, set_at).civil() == (calendar::Civil {
                hour,
                minute,
                second,
                ..before.civil()
            })
        }),
{
    clock::set_time_keeps_date(date_time_at(state, now), hour, minute, second);
}

/// The date and time that a clock shows after it was set is what it was set to plus the time since
/// then, for as long as that is in range, on a clock that is ahead of UTC by the hours of the time
/// zone.
pub proof fn shown_clock_runs_on(state: SettingsState, timestamp: i64, now: u64, later: u64)
    requires
        now <= later,
        later - now <= i64::MAX,
        clock::MIN_TIMESTAMP_MICROS <= timestamp + (later - now) <= clock::MAX_TIMESTAMP_MICROS,
        -24 < state.timezone_offset < 24,
    ensures
        ({
            let after = clock_set(state, timestamp, true, now, true);
            &&& clock_readable(after, later)
            &&& date_time_at(after, later).timestamp_micros == timestamp + (later - now)
            &&& date_time_at(after, later).offset_seconds == 3600 * state.timezone_offset
        }),
{
}

/// Between two looks at the clock the date and time that it shows goes on by the time between them.
pub proof fn shown_clock_runs_evenly(state: SettingsState, now: u64, later: u64)
    requires
        state.timestamp_offset <= now <= later,
        later - state.timestamp_offset <= i64::MAX,
        clock::MIN_TIMESTAMP_MICROS <= state.timestamp + (now - state.timestamp_offset),
        state.timestamp + (later - state.timestamp_offset) <= clock::MAX_TIMESTAMP_MICROS,
        -24 < state.timezone_offset < 24,
    ensures
        clock_readable(state, now),
        clock_readable(state, later),
        date_time_at(state, later).timestamp_micros - date_time_at(state, now).timestamp_micros
            == later - now,
        date_time_at(state, later).local_micros() - date_time_at(state, now).local_micros()
            == later - now,
{
}

/// Until the time at which it was set, the clock shows what it was set to.
pub proof fn clock_waits_until_set(state: SettingsState, now: u64)
    requires
        now <= state.timestamp_offset,
        clock::MIN_TIMESTAMP_MICROS <= state.timestamp <= clock::MAX_TIMESTAMP_MICROS,
        -24 < state.timezone_offset < 24,
    ensures
        clock_readable(state, now),
        date_time_at(state, now).timestamp_micros == state.timestamp,
{
}

/// What the watch shows is a reading of the calendar: the instant plus the hours of the time zone.
pub proof fn shown_reading(state: SettingsState, now: u64)
    requires
        state.timestamp_offset <= now,
        now - state.timestamp_offset <= i64::MAX,
        clock_readable(state, now),
    ensures
        date_time_at(state, now).civil().valid(),
        date_time_at(state, now).civil().epoch_micros() == state.timestamp + (now
            - state.timestamp_offset) + state.timezone_offset * 3_600_000_000,
{
    clock::clock_shows_instant(date_time_at(state, now));
}

/// A date that the calendar has is shown once the clock is set to it: the clock moves by the whole
/// days between the date that was shown and the new one, and by nothing else.
pub proof fn date_set_moves_whole_days(
    state: SettingsState,
    now: u64,
    month: int,
    day: int,
    year: int,
)
    requires
        clock_readable(state, now),
        calendar::valid_date(year, month, day),
        clock::MIN_YEAR < year < clock::MAX_YEAR,
    ensures
        ({
            let before = date_time_at(state, now);
            let shown = before.civil();
            before.with_date(month, day, year).timestamp_micros == before.timestamp_micros + (
            calendar::epoch_day(year, month, day) - calendar::epoch_day(
                shown.year,
                shown.month,
                shown.day,
            )) * 86_400_000_000
        }),
{
    let before = date_time_at(state, now);
    clock::every_date_can_be_set(before, month, day, year);
    calendar::lemma_civil_at(before.local_micros());
}

} // verus!
