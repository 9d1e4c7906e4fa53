//! Half-open calendar intervals and grain alignment.

use vstd::prelude::*;
use crate::grain::Grain;
use crate::moment::{
    add_days,
    add_months_clamped,
    add_seconds,
    lemma_month_prefix_bounds,
    lemma_year_days_range,
    month_days_before,
    Date,
    Moment,
    MAX_YEAR,
    SECS_PER_DAY,
};

verus! {

/// A half-open interval `[start, end)` of local datetimes, together with the
/// granularity it originated from.
#[derive(Clone, Copy, Debug, PartialEq, Eq, Structural)]
pub struct Interval {
    pub start: Moment,
    pub end: Moment,
    pub grain: Grain,
}

impl Interval {
    pub open spec fn wf(self) -> bool {
        &&& self.start.wf()
        &&& self.end.wf()
    }

    /// Non-empty: the end lies strictly after the start.
    pub open spec fn proper(self) -> bool {
        self.start.index_spec() < self.end.index_spec()
    }

    pub open spec fn contains_spec(self, m: Moment) -> bool {
        self.start.index_spec() <= m.index_spec() < self.end.index_spec()
    }

    /// Strictly straddles `m`: starts before and ends after it.
    pub open spec fn straddles_spec(self, m: Moment) -> bool {
        self.start.index_spec() < m.index_spec() < self.end.index_spec()
    }

    pub fn contains(&self, m: &Moment) -> (r: bool)
        requires
            self.wf(),
            m.wf(),
        ensures
            r == self.contains_spec(*m),
    {
        let s = self.start.index();
        let e = self.end.index();
        let t = m.index();
        s <= t && t < e
    }

    pub fn straddles(&self, m: &Moment) -> (r: bool)
        requires
            self.wf(),
            m.wf(),
        ensures
            r == self.straddles_spec(*m),
    {
        let s = self.start.index();
        let e = self.end.index();
        let t = m.index();
        s < t && t < e
    }

    /// Whether this interval lies entirely within `outer`.
    pub open spec fn within_spec(self, outer: Interval) -> bool {
        outer.start.index_spec() <= self.start.index_spec() && self.end.index_spec()
            <= outer.end.index_spec()
    }

    pub fn within(&self, outer: &Interval) -> (r: bool)
        requires
            self.wf(),
            outer.wf(),
        ensures
            r == self.within_spec(*outer),
    {
        let r1 = outer.start.index() <= self.start.index();
        let r2 = self.end.index() <= outer.end.index();
        r1 && r2
    }
}

/// The largest moment not after `m` that is aligned to grain `g`; None only
/// for a week that would begin before the calendar origin.
pub fn round_down(m: &Moment, g: Grain) -> (r: Option<Moment>)
    requires
        m.wf(),
    ensures
        r matches Some(r2) ==> r2.wf() && r2.index_spec() <= m.index_spec(),
        r is None ==> g == Grain::Week,
        g == Grain::Second ==> r == Some(*m),
        g == Grain::Minute ==> (r matches Some(r2) ==> r2.date == m.date && r2.hour == m.hour
            && r2.minute == m.minute && r2.second == 0),
        g == Grain::Hour ==> (r matches Some(r2) ==> r2.date == m.date && r2.hour == m.hour
            && r2.minute == 0 && r2.second == 0),
        g == Grain::Day ==> (r matches Some(r2) ==> r2.date == m.date && r2.index_spec()
            == m.date.index_spec() * SECS_PER_DAY),
        g == Grain::Week ==> (r matches Some(r2) ==> r2.hour == 0 && r2.minute == 0 && r2.second
            == 0 && r2.date.weekday_rank_spec() == 0 && m.date.index_spec() - r2.date.index_spec()
            == m.date.weekday_rank_spec()),
        g == Grain::Month ==> (r matches Some(r2) ==> r2.date.year == m.date.year && r2.date.month
            == m.date.month && r2.date.day == 1 && r2.hour == 0 && r2.minute == 0 && r2.second
            == 0),
        g == Grain::Year ==> (r matches Some(r2) ==> r2.date.year == m.date.year && r2.date.month
            == 1 && r2.date.day == 1 && r2.hour == 0 && r2.minute == 0 && r2.second == 0),
{
    match g {
        Grain::Second => Some(*m),
        Grain::Minute => Some(Moment { second: 0, ..*m }),
        Grain::Hour => Some(Moment { minute: 0, second: 0, ..*m }),
        Grain::Day => Some(Moment::midnight(m.date)),
        Grain::Week => {
            let rank = m.date.weekday().rank();
            match add_days(&m.date, -(rank as i64)) {
                Some(d) => {
                    proof {
                        assert((d.index_spec() + 5) % 7 == 0) by {
                            assert(d.index_spec() == m.date.index_spec() - (m.date.index_spec()
                                + 5) % 7);
                        }
                        assert((Moment { date: d, hour: 0, minute: 0, second: 0 }).index_spec()
                            <= m.index_spec());
                    }
                    Some(Moment::midnight(d))
                },
                None => None,
            }
        },
        Grain::Month => Some(Moment::midnight(Date { day: 1, ..m.date })),
        Grain::Quarter => {
            let qm = 1 + 3 * ((m.date.month - 1) / 3);
            proof {
                lemma_month_prefix_bounds(m.date.year as int, m.date.month as int);
                lemma_month_monotonic(m.date.year as int, qm as int, m.date.month as int);
            }
            Some(Moment::midnight(Date { month: qm, day: 1, ..m.date }))
        },
        Grain::Year => {
            proof {
                lemma_month_prefix_bounds(m.date.year as int, m.date.month as int);
                lemma_month_monotonic(m.date.year as int, 1, m.date.month as int);
            }
            Some(Moment::midnight(Date { month: 1, day: 1, ..m.date }))
        },
    }
}

/// The start of the grain-`g` interval that follows the aligned moment `m`.
pub fn grain_next(m: &Moment, g: Grain) -> (r: Option<Moment>)
    requires
        m.wf(),
    ensures
        r matches Some(m2) ==> m2.wf() && m2.index_spec() > m.index_spec(),
        g == Grain::Second ==> (r matches Some(m2) ==> m2.index_spec() == m.index_spec() + 1),
        g == Grain::Day ==> (r matches Some(m2) ==> m2.date.index_spec() == m.date.index_spec() + 1
            && m2.hour == m.hour && m2.minute == m.minute && m2.second == m.second),
        g == Grain::Week ==> (r matches Some(m2) ==> m2.date.index_spec() == m.date.index_spec()
            + 7 && m2.hour == m.hour && m2.minute == m.minute && m2.second == m.second),
        (g is Second || g is Minute || g is Hour || g is Day || g is Week) && m.index_spec() + 8
            * SECS_PER_DAY < crate::moment::max_second_index() ==> r is Some,
{
    proof {
        crate::moment::lemma_moment_index_range(*m);
    }
    match g {
        Grain::Second => add_seconds(m, 1),
        Grain::Minute => add_seconds(m, 60),
        Grain::Hour => add_seconds(m, 3600),
        Grain::Day => match add_days(&m.date, 1) {
            Some(d) => {
                proof {
                    lemma_day_dominates(m.date, d, *m);
                }
                Some(Moment { date: d, ..*m })
            },
            None => None,
        },
        Grain::Week => match add_days(&m.date, 7) {
            Some(d) => {
                proof {
                    lemma_day_dominates(m.date, d, *m);
                }
                Some(Moment { date: d, ..*m })
            },
            None => None,
        },
        Grain::Month => match add_months_clamped(&Date { day: 1, ..m.date }, 1) {
            Some(d) => {
                proof {
                    lemma_lex_from_month_total(m.date, d, 1);
                    lemma_ym_index_increases(m.date, d);
                    lemma_day_dominates(m.date, d, *m);
                }
                Some(Moment { date: d, ..*m })
            },
            None => None,
        },
        Grain::Quarter => match add_months_clamped(&Date { day: 1, ..m.date }, 3) {
            Some(d) => {
                proof {
                    lemma_lex_from_month_total(m.date, d, 3);
                    lemma_ym_index_increases(m.date, d);
                    lemma_day_dominates(m.date, d, *m);
                }
                Some(Moment { date: d, ..*m })
            },
            None => None,
        },
        Grain::Year => {
            if m.date.year + 1 > MAX_YEAR {
                None
            } else {
                let d = Date { year: m.date.year + 1, month: 1, day: 1 };
                proof {
                    lemma_ym_index_increases(m.date, d);
                    lemma_day_dominates(m.date, d, *m);
                }
                Some(Moment { date: d, ..*m })
            }
        },
    }
}

/// Adding months moves the (year, month) pair strictly up in
/// lexicographic order.
proof fn lemma_lex_from_month_total(a: Date, b: Date, delta: int)
    requires
        1 <= a.month <= 12,
        1 <= b.month <= 12,
        b.year * 12 + b.month - 1 == a.year * 12 + a.month - 1 + delta,
        delta >= 1,
    ensures
        b.year > a.year || (b.year == a.year && b.month > a.month),
{
    assert(b.year > a.year || (b.year == a.year && b.month > a.month)) by (nonlinear_arith)
        requires
            1 <= a.month <= 12,
            1 <= b.month <= 12,
            b.year * 12 + b.month - 1 == a.year * 12 + a.month - 1 + delta,
            delta >= 1,
    ;
}

/// A later day makes a later moment, whatever the times of day.
proof fn lemma_day_dominates(a: Date, b: Date, m: Moment)
    requires
        a.wf(),
        b.wf(),
        m.wf(),
        b.index_spec() > a.index_spec(),
        a.index_spec() >= m.date.index_spec(),
    ensures
        (Moment { date: b, ..m }).index_spec() > m.index_spec(),
        (Moment { date: b, ..m }).wf(),
{
}

/// Stepping a date forward by whole months strictly increases its index,
/// whatever the day clamping did.
pub proof fn lemma_add_months_increases(a: Date, b: Date, delta: int)
    requires
        a.wf(),
        b.wf(),
        delta >= 1,
        b.year * 12 + b.month - 1 == a.year * 12 + a.month - 1 + delta,
    ensures
        b.index_spec() > a.index_spec(),
{
    lemma_lex_from_month_total(a, b, delta);
    lemma_ym_index_increases(a, b);
}

/// A date with a strictly larger (year, month) pair in lexicographic order
/// has a strictly larger day index.
pub proof fn lemma_ym_index_increases(a: Date, b: Date)
    requires
        a.wf(),
        b.wf(),
        b.year > a.year || (b.year == a.year && b.month > a.month),
    ensures
        b.index_spec() > a.index_spec(),
{
    lemma_month_prefix_bounds(a.year as int, a.month as int);
    lemma_month_prefix_bounds(b.year as int, b.month as int);
    if b.year > a.year {
        lemma_year_days_range(a.year as int, a.year + 1 as int);
        lemma_year_days_range(a.year + 1 as int, b.year as int);
        lemma_month_monotonic(b.year as int, 1, b.month as int);
    } else {
        lemma_month_monotonic(a.year as int, a.month as int, b.month as int);
    }
}

/// Month prefixes are monotonic in the month.
pub proof fn lemma_month_monotonic(y: int, m1: int, m2: int)
    requires
        1 <= m1 <= m2 <= 12,
    ensures
        month_days_before(y, m1) + (m2 - m1) * 28 <= month_days_before(y, m2),
    decreases m2 - m1,
{
    if m1 < m2 {
        lemma_month_monotonic(y, m1, m2 - 1);
    }
}

} // verus!
