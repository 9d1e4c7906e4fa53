//! The lazy constraint language: declarative descriptions of families of
//! calendar intervals, closed under intersection, selection, translation,
//! spans and more. Evaluation lives in `eval`.

use vstd::prelude::*;
use crate::grain::{Grain, Weekday};
use crate::period::Period;

verus! {

/// A constraint denotes a (possibly unbounded) family of calendar intervals.
#[derive(Debug, PartialEq, Eq)]
pub enum Constraint {
    /// The single year `y`.
    Year(i64),
    /// Month `m` (1..=12) of every year.
    Month(u32),
    /// Day `d` (1..=31) of every month that has it.
    DayOfMonth(u32),
    /// Every day with this weekday.
    DayOfWeek(Weekday),
    /// An hour of every day; on a 12-hour clock both the am and pm hour.
    Hour { hour: u32, is_12_clock: bool },
    /// Minute `m` (0..=59) of every hour.
    Minute(u32),
    /// Second `s` (0..=59) of every minute.
    Second(u32),
    /// A month/day pair of every year that has it.
    MonthDay { month: u32, day: u32 },
    /// A full calendar day.
    YearMonthDay { year: i64, month: u32, day: u32 },
    /// The repeating unit of one granularity, anchored on grain boundaries.
    Cycle(Grain),
    /// Intervals lying in a member of both operands; the grain is the finer.
    Intersect(Box<Constraint>, Box<Constraint>),
    /// The n-th occurrence counted from the reference; negative n counts
    /// backward. With `not_immediate`, an occurrence containing the
    /// reference is skipped first.
    TakeTheNth { n: i64, not_immediate: bool, inner: Box<Constraint> },
    /// The convex hull of the first n occurrences from the reference.
    TakeN { n: i64, not_immediate: bool, inner: Box<Constraint> },
    /// The n-th occurrence of `inner` counted from the first occurrence of
    /// `base`.
    TheNthAfter { n: i64, not_immediate: bool, inner: Box<Constraint>, base: Box<Constraint> },
    /// Every occurrence translated by a period.
    ShiftBy { period: Period, inner: Box<Constraint> },
    /// The span from the start of `from`'s occurrence up to `to`'s
    /// occurrence: exclusive of it, or through it when `inclusive`.
    SpanTo { inclusive: bool, from: Box<Constraint>, to: Box<Constraint> },
    /// The last occurrence of `inner` contained in `base`'s occurrence.
    LastOf { inner: Box<Constraint>, base: Box<Constraint> },
    /// Easter day of the year of each occurrence of `inner`.
    EasterOf { inner: Box<Constraint> },
}

impl Clone for Constraint {
    fn clone(&self) -> (r: Self)
        ensures
            r == *self,
        decreases *self,
    {
        match self {
            Constraint::Year(y) => Constraint::Year(*y),
            Constraint::Month(m) => Constraint::Month(*m),
            Constraint::DayOfMonth(d) => Constraint::DayOfMonth(*d),
            Constraint::DayOfWeek(w) => Constraint::DayOfWeek(*w),
            Constraint::Hour { hour, is_12_clock } => Constraint::Hour {
                hour: *hour,
                is_12_clock: *is_12_clock,
            },
            Constraint::Minute(m) => Constraint::Minute(*m),
            Constraint::Second(s) => Constraint::Second(*s),
            Constraint::MonthDay { month, day } => Constraint::MonthDay {
                month: *month,
                day: *day,
            },
            Constraint::YearMonthDay { year, month, day } => Constraint::YearMonthDay {
                year: *year,
                month: *month,
                day: *day,
            },
            Constraint::Cycle(g) => Constraint::Cycle(*g),
            Constraint::Intersect(a, b) => Constraint::Intersect(
                Box::new((**a).clone()),
                Box::new((**b).clone()),
            ),
            Constraint::TakeTheNth { n, not_immediate, inner } => Constraint::TakeTheNth {
                n: *n,
                not_immediate: *not_immediate,
                inner: Box::new((**inner).clone()),
            },
            Constraint::TakeN { n, not_immediate, inner } => Constraint::TakeN {
                n: *n,
                not_immediate: *not_immediate,
                inner: Box::new((**inner).clone()),
            },
            Constraint::TheNthAfter { n, not_immediate, inner, base } => Constraint::TheNthAfter {
                n: *n,
                not_immediate: *not_immediate,
                inner: Box::new((**inner).clone()),
                base: Box::new((**base).clone()),
            },
            Constraint::ShiftBy { period, inner } => Constraint::ShiftBy {
                period: *period,
                inner: Box::new((**inner).clone()),
            },
            Constraint::SpanTo { inclusive, from, to } => Constraint::SpanTo {
                inclusive: *inclusive,
                from: Box::new((**from).clone()),
                to: Box::new((**to).clone()),
            },
            Constraint::LastOf { inner, base } => Constraint::LastOf {
                inner: Box::new((**inner).clone()),
                base: Box::new((**base).clone()),
            },
            Constraint::EasterOf { inner } => Constraint::EasterOf {
                inner: Box::new((**inner).clone()),
            },
        }
    }
}

impl Constraint {
    /// The granularity of the intervals this constraint describes.
    pub open spec fn grain_spec(self) -> Grain
        decreases self,
    {
        match self {
            Constraint::Year(..) => Grain::Year,
            Constraint::Month(..) => Grain::Month,
            Constraint::DayOfMonth(..) => Grain::Day,
            Constraint::DayOfWeek(..) => Grain::Day,
            Constraint::Hour { .. } => Grain::Hour,
            Constraint::Minute(..) => Grain::Minute,
            Constraint::Second(..) => Grain::Second,
            Constraint::MonthDay { .. } => Grain::Day,
            Constraint::YearMonthDay { .. } => Grain::Day,
            Constraint::Cycle(g) => g,
            Constraint::Intersect(a, b) => a.grain_spec().finer_spec(b.grain_spec()),
            Constraint::TakeTheNth { inner, .. } => inner.grain_spec(),
            Constraint::TakeN { inner, .. } => inner.grain_spec(),
            Constraint::TheNthAfter { inner, .. } => inner.grain_spec(),
            Constraint::ShiftBy { period, inner } => match period.finest_grain_spec() {
                Some(g) => g,
                None => inner.grain_spec(),
            },
            Constraint::SpanTo { from, .. } => from.grain_spec(),
            Constraint::LastOf { inner, .. } => inner.grain_spec(),
            Constraint::EasterOf { .. } => Grain::Day,
        }
    }

    pub fn grain(&self) -> (g: Grain)
        ensures
            g == self.grain_spec(),
        decreases *self,
    {
        match self {
            Constraint::Year(..) => Grain::Year,
            Constraint::Month(..) => Grain::Month,
            Constraint::DayOfMonth(..) => Grain::Day,
            Constraint::DayOfWeek(..) => Grain::Day,
            Constraint::Hour { .. } => Grain::Hour,
            Constraint::Minute(..) => Grain::Minute,
            Constraint::Second(..) => Grain::Second,
            Constraint::MonthDay { .. } => Grain::Day,
            Constraint::YearMonthDay { .. } => Grain::Day,
            Constraint::Cycle(g) => *g,
            Constraint::Intersect(a, b) => a.grain().finer(b.grain()),
            Constraint::TakeTheNth { inner, .. } => inner.grain(),
            Constraint::TakeN { inner, .. } => inner.grain(),
            Constraint::TheNthAfter { inner, .. } => inner.grain(),
            Constraint::ShiftBy { period, inner } => match period.finest_grain() {
                Some(g) => g,
                None => inner.grain(),
            },
            Constraint::SpanTo { from, .. } => from.grain(),
            Constraint::LastOf { inner, .. } => inner.grain(),
            Constraint::EasterOf { .. } => Grain::Day,
        }
    }
}

/// The shape of the constraint behind "now": the current second.
pub open spec fn now_shape(c: Constraint) -> bool {
    match c {
        Constraint::TakeTheNth { n, not_immediate, inner } => n == 0 && !not_immediate && (
        *inner matches Constraint::Cycle(Grain::Second)),
        _ => false,
    }
}

/// The shape of "last W" for a weekday W: the most recent past occurrence.
pub open spec fn last_dow_shape(c: Constraint) -> bool {
    match c {
        Constraint::TakeTheNth { n, not_immediate, inner } => n == -1 && !not_immediate && (
        *inner matches Constraint::DayOfWeek(_)),
        _ => false,
    }
}

/// The shape of "next W" for a weekday W: the next occurrence, skipping one
/// that contains the reference.
pub open spec fn next_dow_shape(c: Constraint) -> bool {
    match c {
        Constraint::TakeTheNth { n, not_immediate, inner } => n == 0 && not_immediate && (
        *inner matches Constraint::DayOfWeek(_)),
        _ => false,
    }
}

/// The weekday under a `last_dow_shape` or `next_dow_shape` constraint.
pub open spec fn dow_of(c: Constraint) -> Weekday {
    match c {
        Constraint::TakeTheNth { inner, .. } => match *inner {
            Constraint::DayOfWeek(w) => w,
            _ => Weekday::Mon,
        },
        _ => Weekday::Mon,
    }
}

/// Days stepped back from a day of weekday rank `rank` to the most recent
/// earlier day of weekday rank `wr`; a full week when the ranks agree.
pub open spec fn dow_back_delta(rank: int, wr: int) -> int {
    ((rank + 6 - wr) % 7) + 1
}

/// Days stepped forward from a day of weekday rank `rank` to the next
/// strictly later day of weekday rank `wr`; a full week when the ranks
/// agree.
pub open spec fn dow_forward_delta(rank: int, wr: int) -> int {
    if (wr + 7 - rank) % 7 == 0 {
        7
    } else {
        (wr + 7 - rank) % 7
    }
}

/// The backward delta is minimal: no day strictly between the chosen one
/// and the reference day carries the sought weekday, so "last W" is the
/// most recent past occurrence.
pub proof fn lemma_dow_back_delta_minimal(ridx: int, wr: int, k: int)
    requires
        0 <= wr < 7,
        0 <= ridx,
        1 <= k < dow_back_delta((ridx + 5) % 7, wr),
    ensures
        (ridx - k + 5) % 7 != wr,
{
    let rank = (ridx + 5) % 7;
    let delta = dow_back_delta(rank, wr);
    lemma_delta_hits(ridx, wr, -delta);
    if (ridx - k + 5) % 7 == wr {
        lemma_same_weekday_divides(ridx - delta, ridx - k);
        vstd::arithmetic::div_mod::lemma_fundamental_div_mod(delta - k, 7);
        vstd::arithmetic::div_mod::lemma_small_mod((delta - k) as nat, 7);
    }
}

/// The forward delta is minimal: no day strictly between the reference day
/// and the chosen one carries the sought weekday, so "next W" is the next
/// future occurrence.
pub proof fn lemma_dow_forward_delta_minimal(ridx: int, wr: int, k: int)
    requires
        0 <= wr < 7,
        0 <= ridx,
        1 <= k < dow_forward_delta((ridx + 5) % 7, wr),
    ensures
        (ridx + k + 5) % 7 != wr,
{
    let rank = (ridx + 5) % 7;
    let delta = dow_forward_delta(rank, wr);
    lemma_delta_hits(ridx, wr, delta);
    if (ridx + k + 5) % 7 == wr {
        lemma_same_weekday_divides(ridx + delta, ridx + k);
        vstd::arithmetic::div_mod::lemma_fundamental_div_mod(delta - k, 7);
        vstd::arithmetic::div_mod::lemma_small_mod((delta - k) as nat, 7);
    }
}

/// Stepping by the computed delta lands on the sought weekday.
proof fn lemma_delta_hits(ridx: int, wr: int, step: int)
    requires
        0 <= wr < 7,
        0 <= ridx,
        step == dow_forward_delta((ridx + 5) % 7, wr) || step == -dow_back_delta(
            (ridx + 5) % 7,
            wr,
        ),
    ensures
        (ridx + step + 5) % 7 == wr,
{
    let rank = (ridx + 5) % 7;
    vstd::arithmetic::div_mod::lemma_fundamental_div_mod(ridx + 5, 7);
    let q = (ridx + 5) / 7;
    if step == dow_forward_delta(rank, wr) {
        let x = wr + 7 - rank;
        vstd::arithmetic::div_mod::lemma_fundamental_div_mod(x, 7);
        if x % 7 == 0 {
            assert(ridx + step + 5 == 7 * (q + 1) + wr) by {
                assert(x == 7 * (x / 7));
                assert(0 < x <= 13);
            }
            vstd::arithmetic::div_mod::lemma_mod_multiples_vanish(q + 1, wr, 7);
        } else {
            assert(step == x - 7 * (x / 7));
            assert(ridx + step + 5 == 7 * q + rank + x - 7 * (x / 7));
            assert(rank + x == wr + 7);
            assert(ridx + step + 5 == 7 * q + wr + 7 - 7 * (x / 7));
            assert(ridx + step + 5 == 7 * (q + 1 - (x / 7)) + wr) by (nonlinear_arith)
                requires
                    ridx + step + 5 == 7 * q + wr + 7 - 7 * (x / 7),
            ;
            vstd::arithmetic::div_mod::lemma_mod_multiples_vanish(q + 1 - (x / 7), wr, 7);
        }
    } else {
        let y = rank + 6 - wr;
        vstd::arithmetic::div_mod::lemma_fundamental_div_mod(y, 7);
        assert(step == -(y - 7 * (y / 7) + 1));
        assert(ridx + step + 5 == 7 * q + rank - y + 7 * (y / 7) - 1);
        assert(rank - y == wr - 6);
        assert(ridx + step + 5 == 7 * (q + (y / 7) - 1) + wr) by (nonlinear_arith)
            requires
                ridx + step + 5 == 7 * q + wr - 7 + 7 * (y / 7),
        ;
        vstd::arithmetic::div_mod::lemma_mod_multiples_vanish(q + (y / 7) - 1, wr, 7);
    }
    vstd::arithmetic::div_mod::lemma_small_mod(wr as nat, 7);
}

/// Two days with the same weekday lie a multiple of a week apart.
proof fn lemma_same_weekday_divides(a: int, b: int)
    requires
        (a + 5) % 7 == (b + 5) % 7,
    ensures
        (b - a) % 7 == 0,
{
    vstd::arithmetic::div_mod::lemma_fundamental_div_mod(a + 5, 7);
    vstd::arithmetic::div_mod::lemma_fundamental_div_mod(b + 5, 7);
    let qa = (a + 5) / 7;
    let qb = (b + 5) / 7;
    assert(b - a == 7 * (qb - qa));
    vstd::arithmetic::div_mod::lemma_mod_multiples_vanish(qb - qa, 0, 7);
}

} // verus!
