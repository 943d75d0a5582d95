//! Instants with a fixed offset from UTC, and the wall clock and calendar that they show.
//!
//! The calendar arithmetic is chrono's. Each call into it stands in a function of its own, from
//! plain values to plain values, whose contract says over the model of [`crate::calendar`] what
//! chrono gives.
use chrono::{Datelike, Timelike};
use vstd::prelude::*;

use crate::calendar;
use crate::calendar::Civil;

verus! {

/// The first microsecond of the range of dates: midnight UTC on January 1 of [`MIN_YEAR`].
pub const MIN_TIMESTAMP_MICROS: i64 = -8_334_601_228_800_000_000;

/// The last microsecond of the range of dates: the end of December 31 of [`MAX_YEAR`], UTC.
pub const MAX_TIMESTAMP_MICROS: i64 = 8_210_266_876_799_999_999;

/// The first year that a date can be moved to.
pub const MIN_YEAR: i32 = -262_143;

/// The last year that a date can be moved to.
pub const MAX_YEAR: i32 = 262_142;

/// A year in which every day of every other year exists: a leap year, far from the limits.
const COMMON_GROUND_YEAR: i32 = 2000;

/// Whether an instant, in microseconds since January 1, 1970, UTC, can be represented.
pub open spec fn timestamp_in_range(micros: int) -> bool {
    MIN_TIMESTAMP_MICROS <= micros <= MAX_TIMESTAMP_MICROS
}

/// Whether a number of seconds is an offset from UTC: less than a day either way.
pub open spec fn offset_in_range(seconds: int) -> bool {
    -86_400 < seconds < 86_400
}

/// An instant, together with the offset from UTC of the clock that shows it.
#[derive(Clone, Copy, PartialEq, Eq, Structural, Debug)]
pub struct DateTime {
    /// Microseconds since January 1, 1970, midnight UTC.
    pub timestamp_micros: i64,
    /// Seconds that the local clock is ahead of UTC.
    pub offset_seconds: i32,
}

impl DateTime {
    /// Both parts are in range.
    pub open spec fn wf(self) -> bool {
        timestamp_in_range(self.timestamp_micros as int) && offset_in_range(
            self.offset_seconds as int,
        )
    }

    /// Microseconds since January 1, 1970, midnight, on the local clock.
    pub open spec fn local_micros(self) -> int {
        self.timestamp_micros + self.offset_seconds * calendar::MICROS_PER_SECOND
    }

    /// What the local clock and calendar show.
    pub open spec fn civil(self) -> Civil {
        calendar::civil_at(self.local_micros())
    }

    /// The instant at which the same local clock shows `civil`, if there is one in range.
    pub open spec fn moved_to(self, civil: Civil) -> Option<DateTime> {
        let micros = civil.epoch_micros() - self.offset_seconds * calendar::MICROS_PER_SECOND;
        if civil.valid() && timestamp_in_range(micros) {
            Some(DateTime { timestamp_micros: micros as i64, offset_seconds: self.offset_seconds })
        } else {
            None
        }
    }

    /// This instant with the local year changed.
    pub open spec fn with_year(self, year: int) -> Option<DateTime> {
        if year == self.civil().year || MIN_YEAR <= year <= MAX_YEAR {
            self.moved_to(Civil { year, ..self.civil() })
        } else {
            None
        }
    }

    /// This instant with the local month changed.
    pub open spec fn with_month(self, month: int) -> Option<DateTime> {
        self.moved_to(Civil { month, ..self.civil() })
    }

    /// This instant with the local day of the month changed.
    pub open spec fn with_day(self, day: int) -> Option<DateTime> {
        self.moved_to(Civil { day, ..self.civil() })
    }

    /// This instant with the local hour changed.
    pub open spec fn with_hour(self, hour: int) -> Option<DateTime> {
        self.moved_to(Civil { hour, ..self.civil() })
    }

    /// This instant with the local minute changed.
    pub open spec fn with_minute(self, minute: int) -> Option<DateTime> {
        self.moved_to(Civil { minute, ..self.civil() })
    }

    /// This instant with the local second changed.
    pub open spec fn with_second(self, second: int) -> Option<DateTime> {
        self.moved_to(Civil { second, ..self.civil() })
    }
}

/// The instant 0 on a clock without offset.
pub open spec fn epoch() -> DateTime {
    DateTime { timestamp_micros: 0, offset_seconds: 0 }
}

/// The value of an option, or the epoch where there is none.
pub open spec fn or_epoch(at: Option<DateTime>) -> DateTime {
    match at {
        Some(at) => at,
        None => epoch(),
    }
}

/// `chrono::DateTime::from_timestamp_micros`: there is such an instant exactly when it is in
/// range, and chrono's `timestamp_micros` gives back the number that it was made from.
#[verifier::external_body]
fn from_timestamp_micros(micros: i64) -> (utc: Option<i64>)
    ensures
        utc == (if timestamp_in_range(micros as int) {
            Some(micros)
        } else {
            None
        }),
{
    chrono::DateTime::from_timestamp_micros(micros).map(|utc| utc.timestamp_micros())
}

/// `chrono::FixedOffset::east_opt`: there is such an offset exactly when it is less than a day
/// either way, and chrono's `local_minus_utc` gives back the number that it was made from.
#[verifier::external_body]
fn east_opt(seconds: i32) -> (offset: Option<i32>)
    ensures
        offset == (if offset_in_range(seconds as int) {
            Some(seconds)
        } else {
            None
        }),
{
    chrono::FixedOffset::east_opt(seconds).map(|offset| offset.local_minus_utc())
}

/// `chrono::Datelike::year` of the local date.
#[verifier::external_body]
fn local_year(at: DateTime) -> (year: i32)
    requires
        at.wf(),
    ensures
        year == at.civil().year,
{
    let utc = chrono::DateTime::from_timestamp_micros(at.timestamp_micros).unwrap();
    utc.with_timezone(&chrono::FixedOffset::east_opt(at.offset_seconds).unwrap()).year()
}

/// `chrono::Datelike::month` of the local date, counted from 1.
#[verifier::external_body]
fn local_month(at: DateTime) -> (month: u32)
    requires
        at.wf(),
    ensures
        month == at.civil().month,
{
    let utc = chrono::DateTime::from_timestamp_micros(at.timestamp_micros).unwrap();
    utc.with_timezone(&chrono::FixedOffset::east_opt(at.offset_seconds).unwrap()).month()
}

/// `chrono::Datelike::day` of the local date, counted from 1.
#[verifier::external_body]
fn local_day(at: DateTime) -> (day: u32)
    requires
        at.wf(),
    ensures
        day == at.civil().day,
{
    let utc = chrono::DateTime::from_timestamp_micros(at.timestamp_micros).unwrap();
    utc.with_timezone(&chrono::FixedOffset::east_opt(at.offset_seconds).unwrap()).day()
}

/// `chrono::Datelike::weekday` of the local date, as its distance from Monday.
#[verifier::external_body]
fn local_weekday(at: DateTime) -> (weekday: u32)
    requires
        at.wf(),
    ensures
        weekday == calendar::weekday_of(
            calendar::epoch_day(at.civil().year, at.civil().month, at.civil().day),
        ),
{
    let utc = chrono::DateTime::from_timestamp_micros(at.timestamp_micros).unwrap();
    let local = utc.with_timezone(&chrono::FixedOffset::east_opt(at.offset_seconds).unwrap());
    local.weekday().num_days_from_monday()
}

/// `chrono::Timelike::hour` of the local time.
#[verifier::external_body]
fn local_hour(at: DateTime) -> (hour: u32)
    requires
        at.wf(),
    ensures
        hour == at.civil().hour,
{
    let utc = chrono::DateTime::from_timestamp_micros(at.timestamp_micros).unwrap();
    utc.with_timezone(&chrono::FixedOffset::east_opt(at.offset_seconds).unwrap()).hour()
}

/// `chrono::Timelike::minute` of the local time.
#[verifier::external_body]
fn local_minute(at: DateTime) -> (minute: u32)
    requires
        at.wf(),
    ensures
        minute == at.civil().minute,
{
    let utc = chrono::DateTime::from_timestamp_micros(at.timestamp_micros).unwrap();
    utc.with_timezone(&chrono::FixedOffset::east_opt(at.offset_seconds).unwrap()).minute()
}

/// `chrono::Timelike::second` of the local time.
#[verifier::external_body]
fn local_second(at: DateTime) -> (second: u32)
    requires
        at.wf(),
    ensures
        second == at.civil().second,
{
    let utc = chrono::DateTime::from_timestamp_micros(at.timestamp_micros).unwrap();
    utc.with_timezone(&chrono::FixedOffset::east_opt(at.offset_seconds).unwrap()).second()
}

/// `chrono::Datelike::with_year`: the year must be in chrono's range unless it stays the same, the
/// date must exist, and the instant must be in range.
#[verifier::external_body]
fn with_year(at: DateTime, year: i32) -> (moved: Option<DateTime>)
    requires
        at.wf(),
    ensures
        moved == at.with_year(year as int),
{
    let utc = chrono::DateTime::from_timestamp_micros(at.timestamp_micros).unwrap();
    let local = utc.with_timezone(&chrono::FixedOffset::east_opt(at.offset_seconds).unwrap());
    local.with_year(year).map(
        |moved| DateTime { timestamp_micros: moved.timestamp_micros(), ..at },
    )
}

/// `chrono::Datelike::with_month`: the date must exist and the instant must be in range.
#[verifier::external_body]
fn with_month(at: DateTime, month: u32) -> (moved: Option<DateTime>)
    requires
        at.wf(),
    ensures
        moved == at.with_month(month as int),
{
    let utc = chrono::DateTime::from_timestamp_micros(at.timestamp_micros).unwrap();
    let local = utc.with_timezone(&chrono::FixedOffset::east_opt(at.offset_seconds).unwrap());
    local.with_month(month).map(
        |moved| DateTime { timestamp_micros: moved.timestamp_micros(), ..at },
    )
}

/// `chrono::Datelike::with_day`: the date must exist and the instant must be in range.
#[verifier::external_body]
fn with_day(at: DateTime, day: u32) -> (moved: Option<DateTime>)
    requires
        at.wf(),
    ensures
        moved == at.with_day(day as int),
{
    let utc = chrono::DateTime::from_timestamp_micros(at.timestamp_micros).unwrap();
    let local = utc.with_timezone(&chrono::FixedOffset::east_opt(at.offset_seconds).unwrap());
    local.with_day(day).map(
        |moved| DateTime { timestamp_micros: moved.timestamp_micros(), ..at },
    )
}

/// `chrono::Timelike::with_hour`: the hour must be below 24 and the instant must be in range.
#[verifier::external_body]
fn with_hour(at: DateTime, hour: u32) -> (moved: Option<DateTime>)
    requires
        at.wf(),
    ensures
        moved == at.with_hour(hour as int),
{
    let utc = chrono::DateTime::from_timestamp_micros(at.timestamp_micros).unwrap();
    let local = utc.with_timezone(&chrono::FixedOffset::east_opt(at.offset_seconds).unwrap());
    local.with_hour(hour).map(
        |moved| DateTime { timestamp_micros: moved.timestamp_micros(), ..at },
    )
}

/// `chrono::Timelike::with_minute`: the minute must be below 60 and the instant must be in range.
#[verifier::external_body]
fn with_minute(at: DateTime, minute: u32) -> (moved: Option<DateTime>)
    requires
        at.wf(),
    ensures
        moved == at.with_minute(minute as int),
{
    let utc = chrono::DateTime::from_timestamp_micros(at.timestamp_micros).unwrap();
    let local = utc.with_timezone(&chrono::FixedOffset::east_opt(at.offset_seconds).unwrap());
    local.with_minute(minute).map(
        |moved| DateTime { timestamp_micros: moved.timestamp_micros(), ..at },
    )
}

/// `chrono::Timelike::with_second`: the second must be below 60 and the instant must be in range.
#[verifier::external_body]
fn with_second(at: DateTime, second: u32) -> (moved: Option<DateTime>)
    requires
        at.wf(),
    ensures
        moved == at.with_second(second as int),
{
    let utc = chrono::DateTime::from_timestamp_micros(at.timestamp_micros).unwrap();
    let local = utc.with_timezone(&chrono::FixedOffset::east_opt(at.offset_seconds).unwrap());
    local.with_second(second).map(
        |moved| DateTime { timestamp_micros: moved.timestamp_micros(), ..at },
    )
}

/// `chrono::NaiveDate::from_ymd_opt`: there is such a date exactly when its year is in range and
/// the calendar has it, and chrono reads the same year, month and day from it.
#[verifier::external_body]
fn from_ymd_opt(year: i32, month: u32, day: u32) -> (date: Option<(i32, u32, u32)>)
    ensures
        date == (if MIN_YEAR <= year <= MAX_YEAR && calendar::valid_date(
            year as int,
            month as int,
            day as int,
        ) {
            Some((year, month, day))
        } else {
            None
        }),
{
    chrono::NaiveDate::from_ymd_opt(year, month, day).map(
        |date| (date.year(), date.month(), date.day()),
    )
}

/// `chrono::Datelike::num_days_in_month` of a date of the given month.
#[verifier::external_body]
fn num_days_in_month(year: i32, month: u32) -> (days: u8)
    requires
        MIN_YEAR <= year <= MAX_YEAR,
        1 <= month <= 12,
    ensures
        days == calendar::days_in_month(year as int, month as int),
{
    chrono::NaiveDate::from_ymd_opt(year, month, 1).unwrap().num_days_in_month()
}

/// What the face of the watch shows.
#[derive(Clone, Copy, PartialEq, Eq, Structural, Debug)]
pub struct ClockFace {
    pub hour: i32,
    pub minute: i32,
    pub second: i32,
    pub day: i32,
    pub month: i32,
    pub year: i32,
    /// Days since Monday.
    pub weekday: i32,
}

impl Default for DateTime {
    fn default() -> (at: Self)
        ensures
            at == epoch(),
    {
        DateTime { timestamp_micros: 0, offset_seconds: 0 }
    }
}

/// The date and time, or the epoch where there is none.
fn unwrap_or_epoch(at: Option<DateTime>) -> (date_time: DateTime)
    ensures
        date_time == or_epoch(at),
{
    match at {
        Some(at) => at,
        None => DateTime::default(),
    }
}

/// The local date changed, for a year that a date can be moved to.
///
/// There must be a date after each step. So the parts change in a year that has all of them, and on
/// a day that all months have, before the day and then the year take their places.
fn move_to_date(at: DateTime, month: u32, day: u32, year: i32) -> (moved: Option<DateTime>)
    requires
        at.wf(),
        MIN_YEAR <= year <= MAX_YEAR,
    ensures
        moved == at.moved_to_date(month as int, day as int, year as int),
{
    let ghost shown = at.civil();
    let ghost ground = Civil { year: COMMON_GROUND_YEAR as int, ..shown };
    proof {
        calendar::lemma_civil_at(at.local_micros());
        readings_in_range(at, ground);
        moved_clock_shows_reading(at, ground);
    }
    let moved = with_year(at, COMMON_GROUND_YEAR)?;
    proof {
        readings_in_range(moved, Civil { day: 1, ..ground });
        moved_clock_shows_reading(moved, Civil { day: 1, ..ground });
    }
    let moved = with_day(moved, 1)?;
    proof {
        let reading = Civil { month: month as int, day: 1, ..ground };
        if reading.valid() {
            readings_in_range(moved, reading);
            moved_clock_shows_reading(moved, reading);
        }
    }
    let moved = with_month(moved, month)?;
    proof {
        let reading = Civil { month: month as int, day: day as int, ..ground };
        if reading.valid() {
            readings_in_range(moved, reading);
            moved_clock_shows_reading(moved, reading);
        }
    }
    let moved = with_day(moved, day)?;
    with_year(moved, year)
}

impl DateTime {
    /// This instant with the local date changed and the local time kept, if the calendar has the
    /// date and the instant is in range. As for a year alone, the year must be one that a date can
    /// be moved to, unless it stays the same.
    pub open spec fn moved_to_date(self, month: int, day: int, year: int) -> Option<DateTime> {
        if year == self.civil().year || MIN_YEAR <= year <= MAX_YEAR {
            self.moved_to(Civil { year, month, day, ..self.civil() })
        } else {
            None
        }
    }

    /// The local date changed, one part after the other: first the month, then the day, then the
    /// year. Where a step gives no date, the next one starts from the epoch.
    pub open spec fn with_date_in_steps(self, month: int, day: int, year: int) -> DateTime {
        or_epoch(or_epoch(or_epoch(self.with_month(month)).with_day(day)).with_year(year))
    }

    /// The local date changed and the local time kept. Where that is not possible, the parts of the
    /// date change one after the other, as far as there are such dates.
    pub open spec fn with_date(self, month: int, day: int, year: int) -> DateTime {
        match self.moved_to_date(month, day, year) {
            Some(at) => at,
            None => self.with_date_in_steps(month, day, year),
        }
    }

    /// The local time changed, one part after the other: first the hour, then the minute, then the
    /// second. Where a step gives no time, the next one starts from the epoch.
    pub open spec fn with_time(self, hour: int, minute: int, second: int) -> DateTime {
        or_epoch(or_epoch(or_epoch(self.with_hour(hour)).with_minute(minute)).with_second(second))
    }

    /// The given instant on a clock with the given offset, if both are in range.
    pub fn new(timestamp_micros: i64, offset_seconds: i32) -> (at: Option<DateTime>)
        ensures
            at == (if timestamp_in_range(timestamp_micros as int) && offset_in_range(
                offset_seconds as int,
            ) {
                Some(DateTime { timestamp_micros, offset_seconds })
            } else {
                None
            }),
            at is Some <==> MIN_TIMESTAMP_MICROS <= timestamp_micros <= MAX_TIMESTAMP_MICROS
                && -86_400 < offset_seconds < 86_400,
    {
        match (from_timestamp_micros(timestamp_micros), east_opt(offset_seconds)) {
            (Some(timestamp_micros), Some(offset_seconds)) => Some(
                DateTime { timestamp_micros, offset_seconds },
            ),
            _ => None,
        }
    }

    /// The local day, month and year.
    pub fn get_date(self) -> (date: Vec<i32>)
        requires
            self.wf(),
        ensures
            date@.len() == 3,
            date@[0] == self.civil().day,
            date@[1] == self.civil().month,
            date@[2] == self.civil().year,
    {
        proof {
            calendar::lemma_civil_at(self.local_micros());
        }
        vec![local_day(self) as i32, local_month(self) as i32, local_year(self)]
    }

    /// The local hour, minute and second.
    pub fn get_time(self) -> (time: Vec<i32>)
        requires
            self.wf(),
        ensures
            time@.len() == 3,
            time@[0] == self.civil().hour,
            time@[1] == self.civil().minute,
            time@[2] == self.civil().second,
    {
        proof {
            calendar::lemma_civil_at(self.local_micros());
        }
        vec![local_hour(self) as i32, local_minute(self) as i32, local_second(self) as i32]
    }

    /// Everything that the face of the watch shows.
    pub fn face(self) -> (face: ClockFace)
        requires
            self.wf(),
        ensures
            face.hour == self.civil().hour,
            face.minute == self.civil().minute,
            face.second == self.civil().second,
            face.day == self.civil().day,
            face.month == self.civil().month,
            face.year == self.civil().year,
            face.weekday == calendar::weekday_of(
                calendar::epoch_day(self.civil().year, self.civil().month, self.civil().day),
            ),
    {
        proof {
            calendar::lemma_civil_at(self.local_micros());
        }
        ClockFace {
            hour: local_hour(self) as i32,
            minute: local_minute(self) as i32,
            second: local_second(self) as i32,
            day: local_day(self) as i32,
            month: local_month(self) as i32,
            year: local_year(self),
            weekday: local_weekday(self) as i32,
        }
    }

    /// The local date changed, the local time kept.
    ///
    /// A date that does not exist leaves what its parts give one after the other: first the month,
    /// then the day, then the year, each of which starts from the epoch if the one before it gave
    /// no date. February 30, 2025 becomes January 1, 2025, midnight UTC.
    pub fn set_date(self, month: i32, day: i32, year: i32) -> (changed: DateTime)
        requires
            self.wf(),
        ensures
            changed.wf(),
            changed == self.with_date(month as int, day as int, year as int),
    {
        let month_u32: u32 = as_unsigned(month);
        let day_u32: u32 = as_unsigned(day);
        if MIN_YEAR <= year && year <= MAX_YEAR {
            if let Some(moved) = move_to_date(self, month_u32, day_u32, year) {
                return moved;
            }
        }
        proof {
            if self.moved_to_date(month as int, day as int, year as int) is Some {
                lemma_edge_year_steps(self, month as int, day as int);
            }
        }
        let changed = unwrap_or_epoch(with_month(self, month_u32));
        let changed = unwrap_or_epoch(with_day(changed, day_u32));
        unwrap_or_epoch(with_year(changed, year))
    }

    /// The local time changed, the local date kept.
    pub fn set_time(self, hour: i32, minute: i32, second: i32) -> (changed: DateTime)
        requires
            self.wf(),
        ensures
            changed.wf(),
            changed == self.with_time(hour as int, minute as int, second as int),
    {
        let hour_u32: u32 = as_unsigned(hour);
        let minute_u32: u32 = as_unsigned(minute);
        let second_u32: u32 = as_unsigned(second);
        let changed = unwrap_or_epoch(with_hour(self, hour_u32));
        let changed = unwrap_or_epoch(with_minute(changed, minute_u32));
        unwrap_or_epoch(with_second(changed, second_u32))
    }
}

/// The number with the same bits. What is negative becomes larger than any part of a date or of a
/// time.
fn as_unsigned(value: i32) -> (bits: u32)
    ensures
        value >= 0 ==> bits == value,
        value < 0 ==> bits >= 0x8000_0000,
{
    proof {
        assert(value < 0 ==> (value as u32) >= 0x8000_0000u32) by (bit_vector);
    }
    #[verifier::truncate]
    (value as u32)
}

/// The number of days of a month. A month that the calendar does not have counts as January 1970.
pub fn get_days_in_year_month(year: i32, month: i32) -> (days: i32)
    ensures
        days == (if MIN_YEAR <= year <= MAX_YEAR && 1 <= month <= 12 {
            calendar::days_in_month(year as int, month as int)
        } else {
            calendar::days_in_month(1970, 1)
        }),
{
    let month_u32: u32 = as_unsigned(month);
    let days: u8 = match from_ymd_opt(year, month_u32, 1) {
        Some((year, month, _)) => num_days_in_month(year, month),
        None => num_days_in_month(1970, 1),
    };
    days as i32
}

/// The limits of the range of dates are midnight on the first day of the first year and the end of
/// the last day of the last year.
pub proof fn range_covers_years()
    ensures
        calendar::epoch_day(MIN_YEAR as int, 1, 1) * calendar::MICROS_PER_DAY
            == MIN_TIMESTAMP_MICROS,
        calendar::epoch_day(MAX_YEAR + 1, 1, 1) * calendar::MICROS_PER_DAY
            == MAX_TIMESTAMP_MICROS + 1,
{
}

/// Moving an instant to another reading of its own clock makes the clock show that reading.
pub proof fn moved_clock_shows_reading(at: DateTime, civil: Civil)
    requires
        at.wf(),
        at.moved_to(civil) is Some,
    ensures
        at.moved_to(civil)->0.wf(),
        at.moved_to(civil)->0.civil() == civil,
        at.moved_to(civil)->0.offset_seconds == at.offset_seconds,
{
    calendar::lemma_civil_unique(civil);
}

/// An instant can be moved to every reading that the calendar has, in every year but the first and
/// the last of the range, where the offset can carry it over the limit.
pub proof fn readings_in_range(at: DateTime, civil: Civil)
    requires
        at.wf(),
        civil.valid(),
        MIN_YEAR < civil.year < MAX_YEAR,
    ensures
        at.moved_to(civil) is Some,
{
    range_covers_years();
    calendar::lemma_date_within_year(civil.year, civil.month, civil.day);
    calendar::lemma_years_ordered(MIN_YEAR + 1, civil.year);
    calendar::lemma_years_ordered(civil.year + 1, MAX_YEAR as int);
    calendar::lemma_year_length(MIN_YEAR as int);
    calendar::lemma_year_length(MAX_YEAR as int);
}

/// Beyond the years that a date can be moved to, an offset reaches only the nearest day.
proof fn lemma_edge_year_has_one_date(at: DateTime, civil: Civil)
    requires
        at.wf(),
        at.moved_to(civil) is Some,
        !(MIN_YEAR <= civil.year <= MAX_YEAR),
    ensures
        civil.year < MIN_YEAR ==> civil.month == 12 && civil.day == 31,
        civil.year > MAX_YEAR ==> civil.month == 1 && civil.day == 1,
{
    range_covers_years();
    calendar::lemma_day_micros_bounded(civil);
    calendar::lemma_date_within_year(civil.year, civil.month, civil.day);
    let day = calendar::epoch_day(civil.year, civil.month, civil.day);
    if civil.year > MAX_YEAR {
        let first = calendar::epoch_day(MAX_YEAR + 1, 1, 1);
        calendar::lemma_years_ordered(MAX_YEAR + 1, civil.year);
        assert(day == first);
        calendar::lemma_epoch_day_injective(
            civil.year,
            civil.month,
            civil.day,
            MAX_YEAR + 1,
            1,
            1,
        );
    } else {
        let last = calendar::epoch_day(MIN_YEAR - 1, 12, 31);
        calendar::lemma_years_ordered(civil.year + 1, MIN_YEAR as int);
        calendar::lemma_months_fill_year(MIN_YEAR - 1);
        assert(last == calendar::epoch_day(MIN_YEAR as int, 1, 1) - 1);
        assert(day == last);
        calendar::lemma_epoch_day_injective(
            civil.year,
            civil.month,
            civil.day,
            MIN_YEAR - 1,
            12,
            31,
        );
    }
}

/// Beyond the years that a date can be moved to, a date that is kept is kept by each step.
proof fn lemma_edge_year_steps(at: DateTime, month: int, day: int)
    requires
        at.wf(),
        !(MIN_YEAR <= at.civil().year <= MAX_YEAR),
        at.moved_to_date(month, day, at.civil().year) is Some,
    ensures
        at.moved_to_date(month, day, at.civil().year) == Some(at),
        at.with_date_in_steps(month, day, at.civil().year) == at,
{
    let shown = at.civil();
    calendar::lemma_civil_at(at.local_micros());
    assert(at.moved_to(shown) == Some(at));
    lemma_edge_year_has_one_date(at, shown);
    lemma_edge_year_has_one_date(at, Civil { month, day, ..shown });
}

/// The local date can be changed to every date that the calendar has, in every year but the first
/// and the last of the range, whatever the date is now.
pub proof fn every_date_can_be_set(at: DateTime, month: int, day: int, year: int)
    requires
        at.wf(),
        MIN_YEAR < year < MAX_YEAR,
        calendar::valid_date(year, month, day),
    ensures
        at.moved_to_date(month, day, year) is Some,
{
    calendar::lemma_civil_at(at.local_micros());
    readings_in_range(at, Civil { year, month, day, ..at.civil() });
}

/// Every step of setting a time gives a time where the day has such a time.
pub proof fn time_steps_succeed(at: DateTime, hour: int, minute: int, second: int)
    requires
        at.wf(),
        MIN_YEAR < at.civil().year < MAX_YEAR,
        0 <= hour < 24,
        0 <= minute < 60,
        0 <= second < 60,
    ensures
        at.with_hour(hour) is Some,
        at.with_hour(hour)->0.with_minute(minute) is Some,
        at.with_hour(hour)->0.with_minute(minute)->0.with_second(second) is Some,
{
    calendar::lemma_civil_at(at.local_micros());
    let first = Civil { hour, ..at.civil() };
    readings_in_range(at, first);
    moved_clock_shows_reading(at, first);
    let moved = Civil { minute, ..first };
    readings_in_range(at.with_hour(hour)->0, moved);
    moved_clock_shows_reading(at.with_hour(hour)->0, moved);
    readings_in_range(at.with_hour(hour)->0.with_minute(minute)->0, Civil { second, ..moved });
}

/// Where the date can be changed, setting it changes the local date and nothing else.
pub proof fn set_date_keeps_time(at: DateTime, month: int, day: int, year: int)
    requires
        at.wf(),
        at.moved_to_date(month, day, year) is Some,
    ensures
        at.with_date(month, day, year).civil() == (Civil { year, month, day, ..at.civil() }),
        at.with_date(month, day, year).offset_seconds == at.offset_seconds,
{
    moved_clock_shows_reading(at, Civil { year, month, day, ..at.civil() });
}

/// Where every step gives a date, setting the date gives what the steps give.
pub proof fn set_date_agrees_with_steps(at: DateTime, month: int, day: int, year: int)
    requires
        at.wf(),
        at.with_month(month) is Some,
        at.with_month(month)->0.with_day(day) is Some,
        at.with_month(month)->0.with_day(day)->0.with_year(year) is Some,
    ensures
        at.moved_to_date(month, day, year) is Some,
        at.with_date(month, day, year) == at.with_date_in_steps(month, day, year),
{
    let first = at.with_month(month)->0;
    moved_clock_shows_reading(at, Civil { month, ..at.civil() });
    moved_clock_shows_reading(first, Civil { day, ..first.civil() });
}

/// Where every step gives a time, setting the time changes the local time and nothing else.
pub proof fn set_time_keeps_date(at: DateTime, hour: int, minute: int, second: int)
    requires
        at.wf(),
        at.with_hour(hour) is Some,
        at.with_hour(hour)->0.with_minute(minute) is Some,
        at.with_hour(hour)->0.with_minute(minute)->0.with_second(second) is Some,
    ensures
        at.with_time(hour, minute, second).civil() == (Civil { hour, minute, second, ..at.civil() }),
        at.with_time(hour, minute, second).offset_seconds == at.offset_seconds,
{
    let first = at.with_hour(hour)->0;
    moved_clock_shows_reading(at, Civil { hour, ..at.civil() });
    let moved = first.with_minute(minute)->0;
    moved_clock_shows_reading(first, Civil { minute, ..first.civil() });
    moved_clock_shows_reading(moved, Civil { second, ..moved.civil() });
}

/// A clock shows the reading of the calendar that lies as far from January 1, 1970, midnight, as
/// the instant plus the offset, and there is only one such reading.
pub proof fn clock_shows_instant(at: DateTime)
    ensures
        at.civil().valid(),
        at.civil().epoch_micros() == at.timestamp_micros + at.offset_seconds * 1_000_000,
        forall|other: Civil|
            other.valid() && #[trigger] other.epoch_micros() == at.timestamp_micros
                + at.offset_seconds * 1_000_000 ==> other == at.civil(),
{
    calendar::lemma_civil_at(at.local_micros());
    assert forall|other: Civil|
        other.valid() && #[trigger] other.epoch_micros() == at.timestamp_micros
            + at.offset_seconds * 1_000_000 implies other == at.civil() by {
        calendar::lemma_civil_unique(other);
    }
}

/// Setting a date that the calendar has moves the instant by the whole days between the date that
/// is shown and the new one, as long as that stays in range.
pub proof fn set_date_moves_whole_days(at: DateTime, month: int, day: int, year: int)
    requires
        at.wf(),
        calendar::valid_date(year, month, day),
        MIN_YEAR <= year <= MAX_YEAR,
        MIN_TIMESTAMP_MICROS <= at.timestamp_micros + (calendar::epoch_day(year, month, day)
            - calendar::epoch_day(at.civil().year, at.civil().month, at.civil().day))
            * 86_400_000_000 <= MAX_TIMESTAMP_MICROS,
    ensures
        at.with_date(month, day, year).timestamp_micros == at.timestamp_micros + (
        calendar::epoch_day(year, month, day) - calendar::epoch_day(
            at.civil().year,
            at.civil().month,
            at.civil().day,
        )) * 86_400_000_000,
        at.with_date(month, day, year).offset_seconds == at.offset_seconds,
{
    calendar::lemma_civil_at(at.local_micros());
}

/// Setting a time of day moves the instant by the time between the one that is shown and the new
/// one, down to the second.
pub proof fn set_time_moves_within_day(at: DateTime, hour: int, minute: int, second: int)
    requires
        at.wf(),
        MIN_YEAR < at.civil().year < MAX_YEAR,
        0 <= hour < 24,
        0 <= minute < 60,
        0 <= second < 60,
    ensures
        at.with_time(hour, minute, second).timestamp_micros == at.timestamp_micros + ((hour
            - at.civil().hour) * 3600 + (minute - at.civil().minute) * 60 + (second
            - at.civil().second)) * 1_000_000,
        at.with_time(hour, minute, second).offset_seconds == at.offset_seconds,
{
    time_steps_succeed(at, hour, minute, second);
    set_time_keeps_date(at, hour, minute, second);
    calendar::lemma_civil_at(at.local_micros());
    calendar::lemma_civil_at(at.with_time(hour, minute, second).local_micros());
}

proof fn lemma_epoch_reading()
    ensures
        epoch().wf(),
        epoch().civil() == (Civil {
            year: 1970,
            month: 1,
            day: 1,
            hour: 0,
            minute: 0,
            second: 0,
            micro: 0,
        }),
{
    let start = Civil { year: 1970, month: 1, day: 1, hour: 0, minute: 0, second: 0, micro: 0 };
    assert(start.epoch_micros() == 0);
    calendar::lemma_civil_unique(start);
}

/// A day of January can be reached in every year of the range, on a clock without offset.
proof fn lemma_january_in_range(year: int, day: int)
    requires
        MIN_YEAR <= year <= MAX_YEAR,
        1 <= day <= 31,
    ensures
        timestamp_in_range(calendar::epoch_day(year, 1, day) * calendar::MICROS_PER_DAY),
{
    range_covers_years();
    calendar::lemma_date_within_year(year, 1, day);
    calendar::lemma_years_ordered(MIN_YEAR as int, year);
    calendar::lemma_years_ordered(year + 1, MAX_YEAR + 1);
}

proof fn lemma_january_of(year: int, day: int)
    requires
        MIN_YEAR <= year <= MAX_YEAR,
    ensures
        1 <= day <= 31 ==> or_epoch(or_epoch(epoch().with_day(day)).with_year(year)) == (DateTime {
            timestamp_micros: (calendar::epoch_day(year, 1, day) * calendar::MICROS_PER_DAY) as i64,
            offset_seconds: 0,
        }),
        !(1 <= day <= 31) ==> or_epoch(epoch().with_day(day)) == epoch(),
        or_epoch(epoch().with_year(year)) == (DateTime {
            timestamp_micros: (calendar::epoch_day(year, 1, 1) * calendar::MICROS_PER_DAY) as i64,
            offset_seconds: 0,
        }),
{
    lemma_epoch_reading();
    lemma_january_in_range(year, 1);
    if 1 <= day <= 31 {
        lemma_january_in_range(1970, day);
        lemma_january_in_range(year, day);
        moved_clock_shows_reading(epoch(), Civil { day, ..epoch().civil() });
    }
}

/// A date that the calendar does not have leaves midnight UTC on a day of January, or the epoch: a
/// month that fails keeps the day, if January has it, and the year; a day that fails keeps the
/// year; a year that fails keeps nothing.
pub proof fn missing_date_restarts(at: DateTime, month: int, day: int, year: int)
    requires
        at.wf(),
        MIN_YEAR < at.civil().year < MAX_YEAR,
        MIN_YEAR <= year <= MAX_YEAR,
        !calendar::valid_date(year, month, day),
    ensures
        at.with_date(month, day, year).offset_seconds == 0,
        at.with_date(month, day, year).timestamp_micros == (if !calendar::valid_date(
            at.civil().year,
            month,
            at.civil().day,
        ) {
            if 1 <= day <= 31 {
                calendar::epoch_day(year, 1, day) * 86_400_000_000
            } else {
                calendar::epoch_day(year, 1, 1) * 86_400_000_000
            }
        } else if !calendar::valid_date(at.civil().year, month, day) {
            calendar::epoch_day(year, 1, 1) * 86_400_000_000
        } else {
            0int
        }),
{
    calendar::lemma_civil_at(at.local_micros());
    lemma_january_of(year, day);
    lemma_january_in_range(year, 1);
    if 1 <= day <= 31 {
        lemma_january_in_range(year, day);
    }
    let first = Civil { month, ..at.civil() };
    if calendar::valid_date(at.civil().year, month, at.civil().day) {
        readings_in_range(at, first);
        moved_clock_shows_reading(at, first);
        if calendar::valid_date(at.civil().year, month, day) {
            readings_in_range(at.with_month(month)->0, Civil { day, ..first });
            moved_clock_shows_reading(at.with_month(month)->0, Civil { day, ..first });
        }
    }
}

/// A year that no date can be moved to leaves the epoch.
pub proof fn far_year_restarts(at: DateTime, month: int, day: int, year: int)
    requires
        at.wf(),
        MIN_YEAR < at.civil().year < MAX_YEAR,
        !(MIN_YEAR <= year <= MAX_YEAR),
    ensures
        at.with_date(month, day, year).timestamp_micros == 0,
        at.with_date(month, day, year).offset_seconds == 0,
{
    calendar::lemma_civil_at(at.local_micros());
    lemma_epoch_reading();
    let first = or_epoch(at.with_month(month));
    if at.with_month(month) is Some {
        moved_clock_shows_reading(at, Civil { month, ..at.civil() });
    }
    if first.with_day(day) is Some {
        moved_clock_shows_reading(first, Civil { day, ..first.civil() });
    }
}

/// A time that the day does not have leaves a time of the first day of the epoch, UTC: an hour that
/// fails keeps the minute and the second, a minute that fails keeps the second, and a second that
/// fails keeps nothing.
pub proof fn missing_time_restarts(at: DateTime, hour: int, minute: int, second: int)
    requires
        at.wf(),
        MIN_YEAR < at.civil().year < MAX_YEAR,
        !(0 <= hour < 24 && 0 <= minute < 60 && 0 <= second < 60),
    ensures
        at.with_time(hour, minute, second).offset_seconds == 0,
        at.with_time(hour, minute, second).timestamp_micros == (if !(0 <= second < 60) {
            0int
        } else if !(0 <= minute < 60) {
            second * 1_000_000
        } else {
            (minute * 60 + second) * 1_000_000
        }),
{
    calendar::lemma_civil_at(at.local_micros());
    lemma_epoch_reading();
    let start = epoch().civil();
    if 0 <= minute < 60 {
        readings_in_range(epoch(), Civil { minute, ..start });
        moved_clock_shows_reading(epoch(), Civil { minute, ..start });
    }
    let first = Civil { hour, ..at.civil() };
    if 0 <= hour < 24 {
        readings_in_range(at, first);
        moved_clock_shows_reading(at, first);
        if 0 <= minute < 60 {
            readings_in_range(at.with_hour(hour)->0, Civil { minute, ..first });
            moved_clock_shows_reading(at.with_hour(hour)->0, Civil { minute, ..first });
        }
    }
    assert(calendar::epoch_day(1970, 1, 1) == 0);
}

} // verus!
