//! The proleptic Gregorian calendar, as a model: what a date is, and which instant it names.
use vstd::prelude::*;

verus! {

/// Microseconds in a second.
pub const MICROS_PER_SECOND: i64 = 1_000_000;

/// Microseconds in a day.
pub const MICROS_PER_DAY: i64 = 86_400_000_000;

/// Whether February of `year` has 29 days.
pub open spec fn is_leap_year(year: int) -> bool {
    year % 4 == 0 && (year % 100 != 0 || year % 400 == 0)
}

/// The number of days of a month, months being counted from 1.
pub open spec fn days_in_month(year: int, month: int) -> int {
    if month == 2 {
        if is_leap_year(year) {
            29
        } else {
            28
        }
    } else if month == 4 || month == 6 || month == 9 || month == 11 {
        30
    } else {
        31
    }
}

/// The number of days of `year` that lie before the first of `month`.
pub open spec fn days_before_month(year: int, month: int) -> int
    decreases month,
{
    if month <= 1 {
        0
    } else {
        days_before_month(year, month - 1) + days_in_month(year, month - 1)
    }
}

/// The number of days between January 1 of year 1 and January 1 of `year`.
pub open spec fn days_before_year(year: int) -> int {
    365 * (year - 1) + (year - 1) / 4 - (year - 1) / 100 + (year - 1) / 400
}

/// Whether the calendar has such a date.
pub open spec fn valid_date(year: int, month: int, day: int) -> bool {
    1 <= month <= 12 && 1 <= day <= days_in_month(year, month)
}

/// The number of days between January 1, 1970 and the given date.
pub open spec fn epoch_day(year: int, month: int, day: int) -> int {
    days_before_year(year) - days_before_year(1970) + days_before_month(year, month) + day - 1
}

/// The day of the week of the day that lies `day` days after January 1, 1970, which was a
/// Thursday. Monday is 0.
pub open spec fn weekday_of(day: int) -> int {
    (day + 3) % 7
}

/// What a wall clock and a calendar show.
pub struct Civil {
    pub year: int,
    pub month: int,
    pub day: int,
    pub hour: int,
    pub minute: int,
    pub second: int,
    pub micro: int,
}

impl Civil {
    /// Whether the date exists and the time lies within the day.
    pub open spec fn valid(self) -> bool {
        &&& valid_date(self.year, self.month, self.day)
        &&& 0 <= self.hour < 24
        &&& 0 <= self.minute < 60
        &&& 0 <= self.second < 60
        &&& 0 <= self.micro < MICROS_PER_SECOND
    }

    /// Microseconds since midnight.
    pub open spec fn day_micros(self) -> int {
        ((self.hour * 60 + self.minute) * 60 + self.second) * MICROS_PER_SECOND + self.micro
    }

    /// Microseconds since January 1, 1970, midnight, on the same wall clock.
    pub open spec fn epoch_micros(self) -> int {
        epoch_day(self.year, self.month, self.day) * MICROS_PER_DAY + self.day_micros()
    }
}

/// What a wall clock shows `micros` microseconds after it showed January 1, 1970, midnight.
pub open spec fn civil_at(micros: int) -> Civil {
    choose|c: Civil| c.valid() && #[trigger] c.epoch_micros() == micros
}

/// Division by `divisor` goes up by one at its multiples and nowhere else.
proof fn lemma_quotient_step(n: int, divisor: int)
    requires
        divisor > 1,
    ensures
        (n + 1) / divisor - n / divisor == if (n + 1) % divisor == 0 {
            1int
        } else {
            0int
        },
{
    let q = n / divisor;
    let r = n % divisor;
    vstd::arithmetic::div_mod::lemma_fundamental_div_mod(n, divisor);
    vstd::arithmetic::div_mod::lemma_mod_bound(n, divisor);
    if r + 1 == divisor {
        assert(n + 1 == divisor * (q + 1) + 0) by (nonlinear_arith)
            requires
                n == divisor * q + r,
                r + 1 == divisor,
        ;
        vstd::arithmetic::div_mod::lemma_fundamental_div_mod_converse(n + 1, divisor, q + 1, 0);
    } else {
        vstd::arithmetic::div_mod::lemma_fundamental_div_mod_converse(n + 1, divisor, q, r + 1);
    }
}

/// A year has 365 days, a leap year 366.
pub proof fn lemma_year_length(year: int)
    ensures
        days_before_year(year + 1) - days_before_year(year) == if is_leap_year(year) {
            366int
        } else {
            365int
        },
{
    lemma_quotient_step(year - 1, 4);
    lemma_quotient_step(year - 1, 100);
    lemma_quotient_step(year - 1, 400);
    lemma_multiples(year);
}

proof fn lemma_multiples(n: int)
    ensures
        n % 100 == 0 ==> n % 4 == 0,
        n % 400 == 0 ==> n % 100 == 0,
{
}

/// The months of a year fill it.
pub proof fn lemma_months_fill_year(year: int)
    ensures
        days_before_month(year, 13) == days_before_year(year + 1) - days_before_year(year),
{
    lemma_year_length(year);
    reveal_with_fuel(days_before_month, 13);
}

/// A later year begins no earlier.
pub proof fn lemma_years_ordered(a: int, b: int)
    requires
        a <= b,
    ensures
        days_before_year(a) <= days_before_year(b),
    decreases b - a,
{
    if a < b {
        lemma_years_ordered(a, b - 1);
        lemma_year_length(b - 1);
    }
}

proof fn lemma_months_ordered(year: int, a: int, b: int)
    requires
        1 <= a <= b,
    ensures
        days_before_month(year, a) <= days_before_month(year, b),
    decreases b - a,
{
    if a < b {
        lemma_months_ordered(year, a, b - 1);
    }
}

/// A date lies within its year.
pub proof fn lemma_date_within_year(year: int, month: int, day: int)
    requires
        valid_date(year, month, day),
    ensures
        0 <= days_before_month(year, month) + day - 1 < days_before_year(year + 1)
            - days_before_year(year),
{
    lemma_months_fill_year(year);
    lemma_months_ordered(year, 1, month);
    lemma_months_ordered(year, month + 1, 13);
}

/// Two dates on the same day are the same date.
pub proof fn lemma_epoch_day_injective(
    year1: int,
    month1: int,
    day1: int,
    year2: int,
    month2: int,
    day2: int,
)
    requires
        valid_date(year1, month1, day1),
        valid_date(year2, month2, day2),
        epoch_day(year1, month1, day1) == epoch_day(year2, month2, day2),
    ensures
        year1 == year2 && month1 == month2 && day1 == day2,
{
    lemma_date_within_year(year1, month1, day1);
    lemma_date_within_year(year2, month2, day2);
    if year1 < year2 {
        lemma_years_ordered(year1 + 1, year2);
    }
    if year2 < year1 {
        lemma_years_ordered(year2 + 1, year1);
    }
    if month1 < month2 {
        lemma_months_ordered(year1, month1 + 1, month2);
    }
    if month2 < month1 {
        lemma_months_ordered(year1, month2 + 1, month1);
    }
}

/// Finds the year that holds the given day, counted from January 1 of year 1, by going up from
/// `from`.
proof fn lemma_year_of_day(day: int, from: int) -> (year: int)
    requires
        days_before_year(from) <= day,
    ensures
        days_before_year(year) <= day < days_before_year(year + 1),
    decreases day - days_before_year(from),
{
    lemma_year_length(from);
    if day < days_before_year(from + 1) {
        from
    } else {
        lemma_year_of_day(day, from + 1)
    }
}

/// Finds the month that holds the given day of the year.
proof fn lemma_month_of_day(year: int, day: int, from: int) -> (month: int)
    requires
        1 <= from <= 12,
        days_before_month(year, from) <= day < days_before_month(year, 13),
    ensures
        1 <= month <= 12,
        days_before_month(year, month) <= day < days_before_month(year, month + 1),
    decreases 13 - from,
{
    if day < days_before_month(year, from + 1) {
        from
    } else {
        lemma_month_of_day(year, day, from + 1)
    }
}

/// Every day has a date.
pub proof fn lemma_date_of_day(day: int) -> (date: (int, int, int))
    ensures
        valid_date(date.0, date.1, date.2),
        epoch_day(date.0, date.1, date.2) == day,
{
    let absolute = day + days_before_year(1970);
    // A year so early that it begins no later than the day.
    let start = if absolute >= 0 { 1int } else { 400 * (absolute / 146_097) + 1 };
    assert(days_before_year(start) <= absolute) by {
        if absolute < 0 {
            let cycles = absolute / 146_097;
            assert((400 * cycles) / 4 == 100 * cycles);
            assert((400 * cycles) / 100 == 4 * cycles);
            assert((400 * cycles) / 400 == cycles);
        }
    }
    let year = lemma_year_of_day(absolute, start);
    lemma_months_fill_year(year);
    let month = lemma_month_of_day(year, absolute - days_before_year(year), 1);
    (year, month, absolute - days_before_year(year) - days_before_month(year, month) + 1)
}

/// A time lies within the day.
pub proof fn lemma_day_micros_bounded(c: Civil)
    requires
        c.valid(),
    ensures
        0 <= c.day_micros() < MICROS_PER_DAY,
{
}

/// Every instant has exactly one reading on a wall clock: `civil_at` gives a valid one, and it is
/// the one that names the instant.
pub proof fn lemma_civil_at(micros: int)
    ensures
        civil_at(micros).valid(),
        civil_at(micros).epoch_micros() == micros,
{
    let day = micros / MICROS_PER_DAY as int;
    let rest = micros % MICROS_PER_DAY as int;
    let (year, month, date) = lemma_date_of_day(day);
    let seconds = rest / MICROS_PER_SECOND as int;
    let c = Civil {
        year,
        month,
        day: date,
        hour: seconds / 3600,
        minute: seconds / 60 % 60,
        second: seconds % 60,
        micro: rest % MICROS_PER_SECOND as int,
    };
    assert(seconds / 3600 == seconds / 60 / 60);
    assert(c.valid() && c.epoch_micros() == micros);
}

/// A valid reading is the one that `civil_at` gives for the instant that it names.
pub proof fn lemma_civil_unique(c: Civil)
    requires
        c.valid(),
    ensures
        civil_at(c.epoch_micros()) == c,
{
    let d = civil_at(c.epoch_micros());
    lemma_civil_at(c.epoch_micros());
    lemma_day_micros_bounded(c);
    lemma_day_micros_bounded(d);
    lemma_epoch_day_injective(c.year, c.month, c.day, d.year, d.month, d.day);
}

/// Thirty days have April, June, September and November, February has 28 and in leap years 29, and
/// all the rest have 31. A year is a leap year if 4 divides it, unless 100 does and 400 does not.
pub proof fn month_lengths(year: int, month: int)
    requires
        1 <= month <= 12,
    ensures
        month == 4 || month == 6 || month == 9 || month == 11 ==> days_in_month(year, month) == 30,
        month != 2 && month != 4 && month != 6 && month != 9 && month != 11 ==> days_in_month(
            year,
            month,
        ) == 31,
        month == 2 && year % 4 != 0 ==> days_in_month(year, month) == 28,
        month == 2 && year % 100 == 0 && year % 400 != 0 ==> days_in_month(year, month) == 28,
        month == 2 && year % 4 == 0 && year % 100 != 0 ==> days_in_month(year, month) == 29,
        month == 2 && year % 400 == 0 ==> days_in_month(year, month) == 29,
{
    lemma_multiples(year);
}

/// Days are counted from January 1, 1970, and each day follows the one before it: within a month,
/// from the end of a month to the next, and from the end of a year to the next.
pub proof fn days_follow_each_other(year: int, month: int, day: int)
    requires
        valid_date(year, month, day),
    ensures
        epoch_day(1970, 1, 1) == 0,
        day < days_in_month(year, month) ==> epoch_day(year, month, day + 1) == epoch_day(
            year,
            month,
            day,
        ) + 1,
        day == days_in_month(year, month) && month < 12 ==> epoch_day(year, month + 1, 1)
            == epoch_day(year, month, day) + 1,
        day == days_in_month(year, month) && month == 12 ==> epoch_day(year + 1, 1, 1)
            == epoch_day(year, month, day) + 1,
{
    lemma_months_fill_year(year);
}

/// January 1, 1970 was a Thursday, and the days of the week follow each other, Monday after Sunday.
pub proof fn weekdays_follow_each_other(day: int)
    ensures
        weekday_of(epoch_day(1970, 1, 1)) == 3,
        0 <= weekday_of(day) <= 6,
        weekday_of(day) < 6 ==> weekday_of(day + 1) == weekday_of(day) + 1,
        weekday_of(day) == 6 ==> weekday_of(day + 1) == 0,
{
}

} // verus!
