//! Local calendar datetimes and day/second index arithmetic.
//!
//! A `Date` is a proleptic Gregorian calendar day; a `Moment` is a date with a
//! wall-clock time of day, at one-second resolution. Every date has a day
//! index (days since the calendar origin) and every moment a second index;
//! all comparisons and translations are specified over those indexes.

use vstd::prelude::*;
use crate::grain::Weekday;

verus! {

/// Years representable by the kernel. Evaluation that would leave this
/// window reports no result rather than wrapping.
pub const MIN_YEAR: i64 = 0;

pub const MAX_YEAR: i64 = 9998;

pub const SECS_PER_DAY: i64 = 86400;

pub open spec fn is_leap_spec(y: int) -> bool {
    y % 4 == 0 && (y % 100 != 0 || y % 400 == 0)
}

pub open spec fn days_in_year_spec(y: int) -> int {
    if is_leap_spec(y) {
        366
    } else {
        365
    }
}

pub open spec fn days_in_month_spec(y: int, m: int) -> int {
    if m == 1 {
        31
    } else if m == 2 {
        if is_leap_spec(y) {
            29
        } else {
            28
        }
    } else if m == 3 {
        31
    } else if m == 4 {
        30
    } else if m == 5 {
        31
    } else if m == 6 {
        30
    } else if m == 7 {
        31
    } else if m == 8 {
        31
    } else if m == 9 {
        30
    } else if m == 10 {
        31
    } else if m == 11 {
        30
    } else {
        31
    }
}

/// Days in all years before year `y` (year 0 is the origin).
pub open spec fn year_days_before(y: int) -> int
    decreases y,
{
    if y <= 0 {
        0
    } else {
        year_days_before(y - 1) + days_in_year_spec(y - 1)
    }
}

/// Days in all months of year `y` before month `m`.
pub open spec fn month_days_before(y: int, m: int) -> int
    decreases m,
{
    if m <= 1 {
        0
    } else {
        month_days_before(y, m - 1) + days_in_month_spec(y, m - 1)
    }
}

/// The day index just past the last representable date.
pub open spec fn max_day_index() -> int {
    year_days_before(MAX_YEAR + 1 as int)
}

/// The second index just past the last representable moment.
pub open spec fn max_second_index() -> int {
    max_day_index() * SECS_PER_DAY
}

/// The months of a year sum to its length.
pub proof fn lemma_year_total(y: int)
    ensures
        month_days_before(y, 12) + days_in_month_spec(y, 12) == days_in_year_spec(y),
{
    reveal_with_fuel(month_days_before, 13);
}

/// Month prefixes are non-negative and stay within the year's length.
pub proof fn lemma_month_prefix_bounds(y: int, m: int)
    requires
        1 <= m <= 12,
    ensures
        0 <= month_days_before(y, m),
        month_days_before(y, m) + days_in_month_spec(y, m) <= days_in_year_spec(y),
    decreases m,
{
    if m == 1 {
        lemma_month_high(y, 1);
    } else {
        lemma_month_prefix_bounds(y, m - 1);
        lemma_month_high(y, m);
    }
}

proof fn lemma_month_high(y: int, m: int)
    requires
        1 <= m <= 12,
    ensures
        month_days_before(y, m) + days_in_month_spec(y, m) <= days_in_year_spec(y),
    decreases 12 - m,
{
    if m == 12 {
        lemma_year_total(y);
    } else {
        lemma_month_high(y, m + 1);
    }
}

/// `year_days_before` grows by at least 365 and at most 366 days a year.
pub proof fn lemma_year_days_range(a: int, b: int)
    requires
        0 <= a <= b,
    ensures
        year_days_before(a) <= year_days_before(b),
        year_days_before(b) - year_days_before(a) >= 365 * (b - a),
        year_days_before(b) - year_days_before(a) <= 366 * (b - a),
    decreases b - a,
{
    if a < b {
        lemma_year_days_range(a, b - 1);
    }
}

pub fn is_leap(y: i64) -> (r: bool)
    requires
        y >= 0,
    ensures
        r == is_leap_spec(y as int),
{
    y % 4 == 0 && (y % 100 != 0 || y % 400 == 0)
}

pub fn days_in_year(y: i64) -> (r: i64)
    requires
        y >= 0,
    ensures
        r == days_in_year_spec(y as int),
        365 <= r <= 366,
{
    if is_leap(y) {
        366
    } else {
        365
    }
}

pub fn days_in_month(y: i64, m: u32) -> (r: u32)
    requires
        y >= 0,
        1 <= m <= 12,
    ensures
        r == days_in_month_spec(y as int, m as int),
        28 <= r <= 31,
{
    if m == 1 {
        31
    } else if m == 2 {
        if is_leap(y) {
            29
        } else {
            28
        }
    } else if m == 3 {
        31
    } else if m == 4 {
        30
    } else if m == 5 {
        31
    } else if m == 6 {
        30
    } else if m == 7 {
        31
    } else if m == 8 {
        31
    } else if m == 9 {
        30
    } else if m == 10 {
        31
    } else if m == 11 {
        30
    } else {
        31
    }
}

/// Days in all years before year `y`, computed by walking the years.
pub fn year_prefix(y: i64) -> (r: i64)
    requires
        0 <= y <= MAX_YEAR + 2,
    ensures
        r == year_days_before(y as int),
        0 <= r <= 366 * y,
{
    let mut acc: i64 = 0;
    let mut i: i64 = 0;
    while i < y
        invariant
            0 <= i <= y <= MAX_YEAR + 2,
            acc == year_days_before(i as int),
            0 <= acc <= 366 * i,
        decreases y - i,
    {
        acc = acc + days_in_year(i);
        i = i + 1;
    }
    acc
}

/// Days in all months of year `y` before month `m`.
pub fn month_prefix(y: i64, m: u32) -> (r: i64)
    requires
        y >= 0,
        1 <= m <= 12,
    ensures
        r == month_days_before(y as int, m as int),
        0 <= r <= 366,
{
    let mut acc: i64 = 0;
    let mut i: u32 = 1;
    while i < m
        invariant
            y >= 0,
            1 <= i <= m <= 12,
            acc == month_days_before(y as int, i as int),
            0 <= acc <= 31 * (i - 1),
        decreases m - i,
    {
        acc = acc + days_in_month(y, i) as i64;
        i = i + 1;
    }
    acc
}

/// A calendar day.
#[derive(Clone, Copy, Debug, PartialEq, Eq, Structural)]
pub struct Date {
    pub year: i64,
    pub month: u32,
    pub day: u32,
}

impl Date {
    pub open spec fn wf(self) -> bool {
        &&& MIN_YEAR <= self.year <= MAX_YEAR
        &&& 1 <= self.month <= 12
        &&& 1 <= self.day <= days_in_month_spec(self.year as int, self.month as int)
    }

    /// Day index: days between the calendar origin and this date.
    pub open spec fn index_spec(self) -> int {
        year_days_before(self.year as int) + month_days_before(
            self.year as int,
            self.month as int,
        ) + self.day - 1
    }

    pub fn index(&self) -> (r: i64)
        requires
            self.wf(),
        ensures
            r == self.index_spec(),
            0 <= r < max_day_index(),
            max_day_index() <= 366 * (MAX_YEAR + 1),
    {
        proof {
            lemma_year_days_range(0, self.year as int);
            lemma_year_days_range(self.year as int, self.year as int + 1);
            lemma_year_days_range(self.year as int + 1, MAX_YEAR + 1 as int);
            lemma_year_days_range(0, MAX_YEAR + 1 as int);
            lemma_month_prefix_bounds(self.year as int, self.month as int);
        }
        year_prefix(self.year) + month_prefix(self.year, self.month) + (self.day as i64 - 1)
    }

    /// The weekday, from the day index (the origin year starts on a Saturday).
    pub open spec fn weekday_rank_spec(self) -> int {
        (self.index_spec() + 5) % 7
    }

    pub fn weekday(&self) -> (r: Weekday)
        requires
            self.wf(),
        ensures
            r.rank_spec() == self.weekday_rank_spec(),
    {
        let idx = self.index();
        let rank = (idx + 5) % 7;
        if rank == 0 {
            Weekday::Mon
        } else if rank == 1 {
            Weekday::Tue
        } else if rank == 2 {
            Weekday::Wed
        } else if rank == 3 {
            Weekday::Thu
        } else if rank == 4 {
            Weekday::Fri
        } else if rank == 5 {
            Weekday::Sat
        } else {
            Weekday::Sun
        }
    }
}

/// The date with the given day index, walking years then months.
pub fn date_from_index(idx: i64) -> (r: Option<Date>)
    ensures
        r matches Some(d) ==> d.wf() && d.index_spec() == idx,
        0 <= idx < max_day_index() ==> r is Some,
{
    if idx < 0 {
        return None;
    }
    let mut y: i64 = 0;
    let mut rem: i64 = idx;
    while rem >= days_in_year(y)
        invariant
            0 <= y <= MAX_YEAR,
            rem >= 0,
            year_days_before(y as int) + rem == idx,
        decreases rem,
    {
        rem = rem - days_in_year(y);
        y = y + 1;
        if y > MAX_YEAR {
            proof {
                lemma_year_days_range(0, MAX_YEAR + 1 as int);
            }
            return None;
        }
    }
    let mut m: u32 = 1;
    while rem >= days_in_month(y, m) as i64
        invariant
            0 <= y <= MAX_YEAR,
            1 <= m <= 12,
            0 <= rem,
            year_days_before(y as int) + month_days_before(y as int, m as int) + rem == idx,
            rem < days_in_year_spec(y as int) - month_days_before(y as int, m as int),
        decreases 12 - m,
    {
        proof {
            if m == 12 {
                lemma_year_total(y as int);
                assert(false);
            }
        }
        rem = rem - days_in_month(y, m) as i64;
        m = m + 1;
    }
    Some(Date { year: y, month: m, day: (rem + 1) as u32 })
}

/// A date with a time of day.
#[derive(Clone, Copy, Debug, PartialEq, Eq, Structural)]
pub struct Moment {
    pub date: Date,
    pub hour: u32,
    pub minute: u32,
    pub second: u32,
}

impl Moment {
    pub open spec fn wf(self) -> bool {
        &&& self.date.wf()
        &&& self.hour < 24
        &&& self.minute < 60
        &&& self.second < 60
    }

    /// Second index: seconds between the calendar origin and this moment.
    pub open spec fn index_spec(self) -> int {
        self.date.index_spec() * SECS_PER_DAY + self.hour * 3600 + self.minute * 60 + self.second
    }

    pub fn index(&self) -> (r: i64)
        requires
            self.wf(),
        ensures
            r == self.index_spec(),
            0 <= r < max_second_index(),
            max_second_index() <= 366 * (MAX_YEAR + 1) * SECS_PER_DAY,
    {
        let d = self.date.index();
        proof {
            let hi = max_day_index();
            assert(d + 1 <= hi);
            assert(d * (SECS_PER_DAY as int) + SECS_PER_DAY <= hi * SECS_PER_DAY && 0 <= d * (
            SECS_PER_DAY as int) && hi * SECS_PER_DAY <= 366 * (MAX_YEAR + 1) * SECS_PER_DAY) by (
            nonlinear_arith)
                requires
                    0 <= d,
                    d + 1 <= hi,
                    hi <= 366 * (MAX_YEAR + 1),
            ;
        }
        d * SECS_PER_DAY + (self.hour as i64) * 3600 + (self.minute as i64) * 60
            + self.second as i64
    }

    /// Midnight of a date.
    pub fn midnight(date: Date) -> (r: Moment)
        ensures
            r.date == date,
            r.hour == 0 && r.minute == 0 && r.second == 0,
            date.wf() ==> r.wf() && r.index_spec() == date.index_spec() * SECS_PER_DAY,
    {
        Moment { date, hour: 0, minute: 0, second: 0 }
    }
}

/// Easter month and day by Gauss's algorithm.
pub open spec fn easter_calc(year: int) -> (int, int) {
    let a = year / 100;
    let b = year % 100;
    let c = (3 * (a + 25)) / 4;
    let d = (3 * (a + 25)) % 4;
    let e = (8 * (a + 11)) / 25;
    let f = (5 * a + b) % 19;
    let g = (19 * f + c - e) % 30;
    let h = (f + 11 * g) / 319;
    let j = (60 * (5 - d) + b) / 4;
    let k = (60 * (5 - d) + b) % 4;
    let m = (2 * j - k - g + h) % 7;
    let n = (g - h + m + 114) / 31;
    let p = (g - h + m + 114) % 31;
    (n, p + 1)
}

/// Gauss's Easter algorithm lands on a valid March or April day.
pub proof fn lemma_easter_valid(year: int)
    requires
        0 <= year <= MAX_YEAR,
    ensures
        ({
            let (mo, dy) = easter_calc(year);
            3 <= mo <= 4 && 1 <= dy <= days_in_month_spec(year, mo)
        }),
{
    let a = year / 100;
    let b = year % 100;
    assert(0 <= a <= 99 && 0 <= b <= 99) by (nonlinear_arith)
        requires
            0 <= year <= 9998,
            a == year / 100,
            b == year % 100,
    ;
    let c = (3 * (a + 25)) / 4;
    let d = (3 * (a + 25)) % 4;
    let e = (8 * (a + 11)) / 25;
    assert(4 * c <= 3 * (a + 25) < 4 * c + 4 && 0 <= d <= 3) by (nonlinear_arith)
        requires
            0 <= a <= 99,
            c == (3 * (a + 25)) / 4,
            d == (3 * (a + 25)) % 4,
    ;
    assert(25 * e <= 8 * (a + 11) < 25 * e + 25) by (nonlinear_arith)
        requires
            0 <= a <= 99,
            e == (8 * (a + 11)) / 25,
    ;
    assert(100 * (c - e) >= 25 * (3 * a + 72) - 4 * (8 * a + 88));
    assert(c - e >= 14);
    assert(c <= 93 && e >= 3);
    let f = (5 * a + b) % 19;
    assert(0 <= f <= 18);
    let g = (19 * f + c - e) % 30;
    assert(0 <= g <= 29);
    let h = (f + 11 * g) / 319;
    assert(0 <= f + 11 * g <= 337);
    assert(0 <= h <= 1) by (nonlinear_arith)
        requires
            0 <= f + 11 * g <= 337,
            h == (f + 11 * g) / 319,
    ;
    let j = (60 * (5 - d) + b) / 4;
    let k = (60 * (5 - d) + b) % 4;
    assert(120 <= 60 * (5 - d) + b <= 399);
    assert(30 <= j <= 99 && 0 <= k <= 3) by (nonlinear_arith)
        requires
            120 <= 60 * (5 - d) + b <= 399,
            j == (60 * (5 - d) + b) / 4,
            k == (60 * (5 - d) + b) % 4,
    ;
    let m = (2 * j - k - g + h) % 7;
    assert(0 <= m <= 6);
    let nn = g - h + m + 114;
    assert(113 <= nn <= 149);
    let n = nn / 31;
    let p = nn % 31;
    assert(31 * n + p == nn && 0 <= p <= 30) by (nonlinear_arith)
        requires
            113 <= nn <= 149,
            n == nn / 31,
            p == nn % 31,
    ;
    assert(3 <= n <= 4) by (nonlinear_arith)
        requires
            113 <= nn <= 149,
            31 * n + p == nn,
            0 <= p <= 30,
    ;
    if n == 4 {
        assert(p <= 25);
    } else {
        assert(p >= 20);
    }
}

/// Easter month and day of a year, computed by Gauss's algorithm.
pub fn easter_month_day(year: i64) -> (r: (u32, u32))
    requires
        0 <= year <= MAX_YEAR,
    ensures
        ({
            let (mo, dy) = easter_calc(year as int);
            r.0 == mo && r.1 == dy && 3 <= r.0 <= 4 && 1 <= r.1 <= days_in_month_spec(
                year as int,
                r.0 as int,
            )
        }),
{
    proof {
        lemma_easter_valid(year as int);
    }
    let a = year / 100;
    let b = year % 100;
    let c = (3 * (a + 25)) / 4;
    let d = (3 * (a + 25)) % 4;
    let e = (8 * (a + 11)) / 25;
    let f = (5 * a + b) % 19;
    let g = (19 * f + c - e) % 30;
    let h = (f + 11 * g) / 319;
    let j = (60 * (5 - d) + b) / 4;
    let k = (60 * (5 - d) + b) % 4;
    let m = (2 * j - k - g + h) % 7;
    let n = (g - h + m + 114) / 31;
    let p = (g - h + m + 114) % 31;
    ((n) as u32, (p + 1) as u32)
}

/// A well-formed date has a day index inside the representable window, and
/// a well-formed moment a second index inside it too.
pub proof fn lemma_index_range(d: Date)
    requires
        d.wf(),
    ensures
        0 <= d.index_spec() < max_day_index(),
{
    lemma_year_days_range(0, d.year as int);
    lemma_year_days_range(d.year as int, d.year + 1 as int);
    lemma_year_days_range(d.year + 1 as int, MAX_YEAR + 1 as int);
    lemma_month_prefix_bounds(d.year as int, d.month as int);
}

pub proof fn lemma_moment_index_range(m: Moment)
    requires
        m.wf(),
    ensures
        0 <= m.index_spec() < max_second_index(),
        0 <= m.date.index_spec() < max_day_index(),
{
    lemma_index_range(m.date);
    let d = m.date.index_spec();
    let hi = max_day_index();
    assert(d * (SECS_PER_DAY as int) + SECS_PER_DAY <= hi * SECS_PER_DAY && 0 <= d * (
    SECS_PER_DAY as int)) by (nonlinear_arith)
        requires
            0 <= d,
            d + 1 <= hi,
    ;
}

/// The moment with the given second index.
pub fn moment_from_index(t: i64) -> (r: Option<Moment>)
    ensures
        r matches Some(m) ==> m.wf() && m.index_spec() == t,
        0 <= t < max_second_index() ==> r is Some,
{
    if t < 0 {
        return None;
    }
    let days = t / SECS_PER_DAY;
    let secs = t % SECS_PER_DAY;
    proof {
        assert(t as int == days * SECS_PER_DAY + secs && 0 <= secs < SECS_PER_DAY && days >= 0);
        if t < max_second_index() {
            assert(days < max_day_index()) by (nonlinear_arith)
                requires
                    t as int == days * (SECS_PER_DAY as int) + secs,
                    t < max_day_index() * (SECS_PER_DAY as int),
                    0 <= secs < SECS_PER_DAY as int,
                    days >= 0,
            ;
        }
        if days >= max_day_index() {
            assert(t >= max_day_index() * (SECS_PER_DAY as int)) by (nonlinear_arith)
                requires
                    t as int == days * (SECS_PER_DAY as int) + secs,
                    0 <= secs < SECS_PER_DAY as int,
                    days >= max_day_index(),
            ;
        }
    }
    let date = match date_from_index(days) {
        Some(d) => d,
        None => {
            return None;
        },
    };
    let hour = (secs / 3600) as u32;
    let minute = ((secs % 3600) / 60) as u32;
    let second = (secs % 60) as u32;
    proof {
        assert(hour < 24 && minute < 60 && second < 60 && (hour as int) * 3600 + (minute as int)
            * 60 + second == secs) by (nonlinear_arith)
            requires
                0 <= secs < 86400,
                hour == secs as int / 3600,
                minute == (secs as int % 3600) / 60,
                second == secs as int % 60,
        ;
    }
    Some(Moment { date, hour, minute, second })
}

/// Translate a moment by a signed number of seconds.
pub fn add_seconds(m: &Moment, delta: i64) -> (r: Option<Moment>)
    requires
        m.wf(),
        -400000000000 <= delta <= 400000000000,
    ensures
        r matches Some(m2) ==> m2.wf() && m2.index_spec() == m.index_spec() + delta,
        0 <= m.index_spec() + delta < max_second_index() ==> r is Some,
{
    let t = m.index();
    let t2 = t + delta;
    if t2 < 0 {
        None
    } else {
        moment_from_index(t2)
    }
}

/// Translate a date by a signed number of days.
pub fn add_days(d: &Date, delta: i64) -> (r: Option<Date>)
    requires
        d.wf(),
        -5000000 <= delta <= 5000000,
    ensures
        r matches Some(d2) ==> d2.wf() && d2.index_spec() == d.index_spec() + delta,
        0 <= d.index_spec() + delta < max_day_index() ==> r is Some,
{
    let idx = d.index();
    let idx2 = idx + delta;
    if idx2 < 0 {
        None
    } else {
        date_from_index(idx2)
    }
}

/// Translate a date by months, clamping the day to the target month's length.
pub fn add_months_clamped(d: &Date, delta: i64) -> (r: Option<Date>)
    requires
        d.wf(),
        -1000000 <= delta <= 1000000,
    ensures
        r matches Some(d2) ==> d2.wf() && d2.year * 12 + d2.month - 1 == d.year * 12 + d.month - 1
            + delta && (d2.day == d.day || (d.day
            > days_in_month_spec(d2.year as int, d2.month as int) && d2.day == days_in_month_spec(
            d2.year as int,
            d2.month as int,
        ))),
        r is Some <==> MIN_YEAR * 12 <= d.year * 12 + d.month - 1 + delta < (MAX_YEAR + 1) * 12,
        delta == 0 ==> r == Some(*d),
{
    if delta == 0 {
        return Some(*d);
    }
    let total = d.year * 12 + (d.month as i64 - 1) + delta;
    if total < MIN_YEAR * 12 || total >= (MAX_YEAR + 1) * 12 {
        return None;
    }
    let y = total / 12;
    let m = (total % 12) as u32 + 1;
    proof {
        assert(MIN_YEAR <= y <= MAX_YEAR && 1 <= m <= 12 && y * 12 + m - 1 == total) by (
        nonlinear_arith)
            requires
                MIN_YEAR * 12 <= total < (MAX_YEAR + 1) * 12,
                y == total as int / 12,
                m == total as int % 12 + 1,
        ;
    }
    let dim = days_in_month(y, m);
    let day = if d.day > dim {
        dim
    } else {
        d.day
    };
    Some(Date { year: y, month: m, day })
}

} // verus!
