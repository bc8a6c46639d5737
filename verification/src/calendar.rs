//! Calendar arithmetic: the proleptic Gregorian calendar from the Unix epoch,
//! wall-clock decomposition of a second count, the `YYYY-MM-DD hh:mm:ss`
//! timestamp text, and the UTC day of a millisecond timestamp.

use chrono::DateTime;

use vstd::prelude::*;

use crate::text::{decimal, push_char, append_decimal, decimal_string};

verus! {

// ── Gregorian calendar ───────────────────────────────────────────────────────

/// Gregorian leap-year rule.
pub open spec fn leap(y: int) -> bool {
    (y % 4 == 0 && y % 100 != 0) || y % 400 == 0
}

pub open spec fn year_len(y: int) -> nat {
    if leap(y) {
        366
    } else {
        365
    }
}

/// Number of days in month `m` (1 = January) of year `y`.
pub open spec fn month_len(y: int, m: int) -> nat {
    if m == 2 {
        if leap(y) {
            29
        } else {
            28
        }
    } else if m == 4 || m == 6 || m == 9 || m == 11 {
        30
    } else {
        31
    }
}

/// Days from 1970-01-01 to January 1st of year `y` (`y >= 1970`).
pub open spec fn days_before_year(y: int) -> nat
    decreases y - 1970,
{
    if y <= 1970 {
        0
    } else {
        days_before_year(y - 1) + year_len(y - 1)
    }
}

/// Days from January 1st of year `y` to the first day of month `m`.
pub open spec fn days_before_month(y: int, m: int) -> nat
    decreases m,
{
    if m <= 1 {
        0
    } else {
        days_before_month(y, m - 1) + month_len(y, m - 1)
    }
}

/// A date of the calendar, on or after the epoch year.
pub open spec fn valid_date(y: int, m: int, d: int) -> bool {
    y >= 1970 && 1 <= m <= 12 && 1 <= d <= month_len(y, m)
}

/// Days from 1970-01-01 to the date `y-m-d`.
pub open spec fn epoch_day(y: int, m: int, d: int) -> int {
    days_before_year(y) + days_before_month(y, m) + d - 1
}

/// Gregorian leap-year test.
pub fn is_leap(y: u64) -> (r: bool)
    ensures
        r == leap(y as int),
{
    (y % 4 == 0 && y % 100 != 0) || y % 400 == 0
}

proof fn lemma_days_before_year_lower(y: int)
    requires
        y >= 1970,
    ensures
        days_before_year(y) >= 365 * (y - 1970),
    decreases y - 1970,
{
    if y > 1970 {
        lemma_days_before_year_lower(y - 1);
    }
}

proof fn lemma_year_is_twelve_months(y: int)
    ensures
        days_before_month(y, 13) == year_len(y),
{
    reveal_with_fuel(days_before_month, 13);
}

/// The length of month `m` of a year whose leap status is `leap_year`.
fn month_length(leap_year: bool, m: u64) -> (r: u64)
    requires
        1 <= m <= 12,
    ensures
        forall|y: int| leap(y) == leap_year ==> r == month_len(y, m as int),
{
    if m == 2 {
        if leap_year {
            29
        } else {
            28
        }
    } else if m == 4 || m == 6 || m == 9 || m == 11 {
        30
    } else {
        31
    }
}

/// Converts a count of days since 1970-01-01 to the calendar date
/// `(year, month, day)` it falls on.
pub fn days_to_ymd(days: u64) -> (r: (u64, u64, u64))
    ensures
        valid_date(r.0 as int, r.1 as int, r.2 as int),
        epoch_day(r.0 as int, r.1 as int, r.2 as int) == days,
{
    let mut rest: u64 = days;
    let mut year: u64 = 1970;
    loop
        invariant
            year >= 1970,
            rest <= days,
            days == days_before_year(year as int) + rest,
            year - 1970 <= days / 365,
        ensures
            year >= 1970,
            days == days_before_year(year as int) + rest,
            rest < year_len(year as int),
        decreases rest,
    {
        let days_in_year: u64 = if is_leap(year) { 366 } else { 365 };
        if rest < days_in_year {
            break;
        }
        rest -= days_in_year;
        proof {
            lemma_days_before_year_lower(year + 1);
            assert(days_before_year(year + 1) == days_before_year(year as int) + year_len(year as int));
            assert(365 * (year + 1 - 1970) <= days);
        }
        year += 1;
    }
    let leap_year = is_leap(year);
    let mut month: u64 = 1;
    proof {
        lemma_year_is_twelve_months(year as int);
    }
    loop
        invariant
            1 <= month <= 12,
            leap_year == leap(year as int),
            rest + days_before_month(year as int, month as int) < year_len(year as int),
            days == days_before_year(year as int) + days_before_month(year as int, month as int)
                + rest,
            days_before_month(year as int, 13) == year_len(year as int),
        ensures
            1 <= month <= 12,
            rest < month_len(year as int, month as int),
            days == days_before_year(year as int) + days_before_month(year as int, month as int)
                + rest,
        decreases 12 - month,
    {
        let md = month_length(leap_year, month);
        if rest < md {
            break;
        }
        proof {
            if month == 12 {
                assert(days_before_month(year as int, 13) == days_before_month(year as int, 12)
                    + month_len(year as int, 12));
            }
        }
        rest -= md;
        month += 1;
    }
    (year, month, rest + 1)
}

proof fn lemma_month_bounds(y: int, m1: int, m2: int)
    requires
        1 <= m1 < m2,
    ensures
        days_before_month(y, m1) + month_len(y, m1) <= days_before_month(y, m2),
    decreases m2 - m1,
{
    if m2 > m1 + 1 {
        lemma_month_bounds(y, m1, m2 - 1);
    }
}

proof fn lemma_year_bounds(y1: int, y2: int)
    requires
        1970 <= y1 < y2,
    ensures
        days_before_year(y1) + year_len(y1) <= days_before_year(y2),
    decreases y2 - y1,
{
    if y2 > y1 + 1 {
        lemma_year_bounds(y1, y2 - 1);
    }
}

proof fn lemma_date_within_year(y: int, m: int, d: int)
    requires
        valid_date(y, m, d),
    ensures
        days_before_year(y) <= epoch_day(y, m, d) < days_before_year(y) + year_len(y),
{
    lemma_year_is_twelve_months(y);
    if m < 12 {
        lemma_month_bounds(y, m, 13);
    }
}

/// The Gregorian month lengths, as the day of the year on which each month
/// starts: February 1st is day 31, March 1st day 59 (60 in a leap year),
/// and so on to December 1st on day 334 (335); the year has 365 (366) days.
pub proof fn lemma_month_starts(y: int)
    ensures
        ({
            let l: int = if leap(y) {
                1
            } else {
                0
            };
            &&& days_before_month(y, 1) == 0
            &&& days_before_month(y, 2) == 31
            &&& days_before_month(y, 3) == 59 + l
            &&& days_before_month(y, 4) == 90 + l
            &&& days_before_month(y, 5) == 120 + l
            &&& days_before_month(y, 6) == 151 + l
            &&& days_before_month(y, 7) == 181 + l
            &&& days_before_month(y, 8) == 212 + l
            &&& days_before_month(y, 9) == 243 + l
            &&& days_before_month(y, 10) == 273 + l
            &&& days_before_month(y, 11) == 304 + l
            &&& days_before_month(y, 12) == 334 + l
            &&& days_before_month(y, 13) == 365 + l
        }),
{
    reveal_with_fuel(days_before_month, 13);
}

/// Distinct calendar dates fall on distinct epoch days; together with the
/// contract of [`days_to_ymd`], converting a valid date to its epoch day and
/// back gives the same date.
pub proof fn lemma_epoch_day_injective(y1: int, m1: int, d1: int, y2: int, m2: int, d2: int)
    requires
        valid_date(y1, m1, d1),
        valid_date(y2, m2, d2),
        epoch_day(y1, m1, d1) == epoch_day(y2, m2, d2),
    ensures
        y1 == y2 && m1 == m2 && d1 == d2,
{
    lemma_date_within_year(y1, m1, d1);
    lemma_date_within_year(y2, m2, d2);
    if y1 < y2 {
        lemma_year_bounds(y1, y2);
    } else if y2 < y1 {
        lemma_year_bounds(y2, y1);
    }
    assert(y1 == y2);
    if m1 < m2 {
        lemma_month_bounds(y1, m1, m2);
    } else if m2 < m1 {
        lemma_month_bounds(y1, m2, m1);
    }
}

// ── Wall clock ───────────────────────────────────────────────────────────────

/// The wall-clock reading `(days, hours, minutes, seconds)` of a count of
/// seconds since the epoch.
pub open spec fn clock_parts(secs: nat) -> (nat, nat, nat, nat) {
    (secs / 86400, (secs / 3600) % 24, (secs / 60) % 60, secs % 60)
}

/// Splits a count of seconds into whole days and the time of day.
pub fn split_clock(secs: u64) -> (r: (u64, u64, u64, u64))
    ensures
        r.0 as nat == clock_parts(secs as nat).0,
        r.1 as nat == clock_parts(secs as nat).1,
        r.2 as nat == clock_parts(secs as nat).2,
        r.3 as nat == clock_parts(secs as nat).3,
        r.1 < 24 && r.2 < 60 && r.3 < 60,
        secs == r.0 * 86400 + r.1 * 3600 + r.2 * 60 + r.3,
{
    let s = secs % 60;
    let min = (secs / 60) % 60;
    let h = (secs / 3600) % 24;
    let days = secs / 86400;
    proof {
        let x = secs as int;
        assert(x == days * 86400 + h * 3600 + min * 60 + s) by (nonlinear_arith)
            requires
                s == x % 60,
                min == (x / 60) % 60,
                h == (x / 3600) % 24,
                days == x / 86400,
                x >= 0,
        {
            assert(x == (x / 60) * 60 + x % 60);
            let q1 = x / 60;
            assert(q1 == (q1 / 60) * 60 + q1 % 60);
            assert(q1 / 60 == x / 3600);
            let q2 = x / 3600;
            assert(q2 == (q2 / 24) * 24 + q2 % 24);
            assert(q2 / 24 == x / 86400);
        }
    }
    (days, h, min, s)
}

/// `n` in decimal, left-padded with zeros to at least `width` characters.
pub open spec fn zero_padded(n: nat, width: nat) -> Seq<char> {
    let digits = decimal(n);
    if digits.len() < width {
        Seq::new((width - digits.len()) as nat, |i: int| '0') + digits
    } else {
        digits
    }
}

/// Appends `n` zero-padded to `width` characters (`{:0width$}`).
pub fn append_padded(s: &mut String, n: u64, width: usize)
    ensures
        final(s)@ == old(s)@ + zero_padded(n as nat, width as nat),
{
    let digits = decimal_string(n);
    let ghost start = s@;
    let len = digits.as_str().unicode_len();
    let mut k: usize = len;
    while k < width
        invariant
            len == decimal(n as nat).len(),
            len <= k,
            k <= width || k == len,
            s@ == start + Seq::new((k - len) as nat, |i: int| '0'),
        decreases width - k,
    {
        push_char(s, '0');
        k += 1;
        assert(s@ =~= start + Seq::new((k - len) as nat, |i: int| '0'));
    }
    s.append(digits.as_str());
    proof {
        if len < width {
            assert(k == width);
        } else {
            assert(k == len);
            assert(Seq::new(0nat, |i: int| '0') =~= Seq::<char>::empty());
        }
        assert(s@ =~= start + zero_padded(n as nat, width as nat));
    }
}

/// The report timestamp text `YYYY-MM-DD hh:mm:ss` for a count of seconds
/// since the Unix epoch.
pub open spec fn timestamp_text(y: nat, mo: nat, d: nat, h: nat, mi: nat, s: nat) -> Seq<char> {
    zero_padded(y, 4) + seq!['-'] + zero_padded(mo, 2) + seq!['-'] + zero_padded(d, 2) + seq![' ']
        + zero_padded(h, 2) + seq![':'] + zero_padded(mi, 2) + seq![':'] + zero_padded(s, 2)
}

/// Formats a Unix time in seconds as `YYYY-MM-DD hh:mm:ss` (UTC).
pub fn format_timestamp(secs: u64) -> (r: String)
    ensures
        exists|y: u64, mo: u64, d: u64|
            valid_date(y as int, mo as int, d as int) && epoch_day(y as int, mo as int, d as int)
                == clock_parts(secs as nat).0 && r@ == timestamp_text(
                y as nat,
                mo as nat,
                d as nat,
                clock_parts(secs as nat).1,
                clock_parts(secs as nat).2,
                clock_parts(secs as nat).3,
            ),
{
    let (days, h, min, s) = split_clock(secs);
    let (y, mo, d) = days_to_ymd(days);
    let mut r = String::new();
    append_padded(&mut r, y, 4);
    push_char(&mut r, '-');
    append_padded(&mut r, mo, 2);
    push_char(&mut r, '-');
    append_padded(&mut r, d, 2);
    push_char(&mut r, ' ');
    append_padded(&mut r, h, 2);
    push_char(&mut r, ':');
    append_padded(&mut r, min, 2);
    push_char(&mut r, ':');
    append_padded(&mut r, s, 2);
    assert(r@ =~= timestamp_text(
        y as nat,
        mo as nat,
        d as nat,
        h as nat,
        min as nat,
        s as nat,
    ));
    r
}

// ── UTC days of millisecond timestamps ───────────────────────────────────────

/// Millisecond timestamps whose UTC date lies between January 1 of year
/// -262143 and December 31 of year 262142, the dates a calendar date can
/// hold.
pub open spec fn utc_representable(ms: int) -> bool {
    -8_334_601_228_800_000 <= ms <= 8_210_266_876_799_999
}

/// `DateTime::<Utc>::from_timestamp_millis(ms)` followed by `date_naive()` and
/// `to_epoch_days()`: the UTC calendar day, counted from 1970-01-01, of a
/// millisecond timestamp. The contract states that a present result is the
/// floor of `ms / 86_400_000`, and that the result is present exactly for the
/// timestamps inside chrono's date range, January 1 of year -262143 (epoch
/// day -96_465_292) to December 31 of year 262142 (epoch day 95_026_236).
#[verifier::external_body]
fn utc_epoch_day(ms: i64) -> (r: Option<i64>)
    ensures
        r matches Some(d) ==> d as int == (ms as int) / 86_400_000,
        r is Some <==> utc_representable(ms as int),
{
    match DateTime::from_timestamp_millis(ms) {
        Some(dt) => Some(dt.date_naive().to_epoch_days() as i64),
        None => None,
    }
}

/// The UTC day (days since 1970-01-01) a bar's open time in milliseconds
/// falls on; `None` when the timestamp lies outside the representable dates.
pub fn session_day(time_ms: i64) -> (r: Option<i64>)
    ensures
        r matches Some(d) ==> d as int == (time_ms as int) / 86_400_000,
        r is Some <==> utc_representable(time_ms as int),
{
    utc_epoch_day(time_ms)
}

/// Tracks the current trading day so that day-anchored accumulators (VWAP,
/// cumulative volume delta) restart when a bar of a new day arrives.
#[derive(Debug)]
pub struct SessionDay {
    day: Option<i64>,
}

impl SessionDay {
    /// The day of the last bar seen, if any.
    pub closed spec fn current(&self) -> Option<i64> {
        self.day
    }

    /// A tracker that has seen no bar.
    pub fn new() -> (r: Self)
        ensures
            r.current() is None,
    {
        SessionDay { day: None }
    }

    /// Records the day of a new bar. Returns `true` exactly when it differs
    /// from the day of the previous bar (or there was none), i.e. when the
    /// accumulators must restart.
    pub fn roll(&mut self, day: i64) -> (r: bool)
        ensures
            r == (old(self).current() != Some(day)),
            final(self).current() == Some(day),
    {
        let changed = match self.day {
            Some(d) => d != day,
            None => true,
        };
        self.day = Some(day);
        changed
    }

    /// The day of the last bar seen.
    pub fn day(&self) -> (r: Option<i64>)
        ensures
            r == self.current(),
    {
        self.day
    }
}

} // verus!
