//! Bounded walks over the interval families of atomic constraints.
//!
//! Each generator returns the first `count` intervals of a family in one
//! direction from an anchor: forward means every returned interval ends
//! strictly after the anchor (so the occurrence containing the anchor is the
//! first), backward means every returned interval ends at or before it.

use vstd::prelude::*;
use crate::grain::{Grain, Weekday};
use crate::interval::Interval;
use crate::moment::{
    add_days,
    add_months_clamped,
    add_seconds,
    max_day_index,
    max_second_index,
    Date,
    Moment,
    MAX_YEAR,
    SECS_PER_DAY,
};
use crate::interval::{lemma_month_monotonic, lemma_ym_index_increases};
use crate::moment::days_in_month;
use crate::moment::{lemma_index_range, lemma_moment_index_range, lemma_month_prefix_bounds};
use crate::constraint::dow_back_delta;
use vstd::arithmetic::div_mod::{lemma_fundamental_div_mod, lemma_mod_multiples_vanish};

verus! {

/// What every generator guarantees of its result.
pub open spec fn stream_ok(r: Seq<Interval>, anchor: Moment, fwd: bool, count: int) -> bool {
    &&& r.len() <= count
    &&& forall|i: int| 0 <= i < r.len() ==> (#[trigger] r[i]).wf() && r[i].proper()
    &&& fwd ==> forall|i: int|
        0 <= i < r.len() ==> (#[trigger] r[i]).end.index_spec() > anchor.index_spec()
    &&& !fwd ==> forall|i: int|
        0 <= i < r.len() ==> (#[trigger] r[i]).end.index_spec() <= anchor.index_spec()
}

/// All intervals of a stream share one grain.
pub open spec fn stream_grain(r: Seq<Interval>, g: Grain) -> bool {
    forall|i: int| 0 <= i < r.len() ==> (#[trigger] r[i]).grain == g
}

/// The grain-`g` interval containing `m`; None only at the calendar edge.
pub fn containing_interval(m: &Moment, g: Grain) -> (r: Option<Interval>)
    requires
        m.wf(),
    ensures
        r matches Some(iv) ==> iv.wf() && iv.grain == g && iv.contains_spec(*m) && iv.proper(),
        r matches Some(iv) ==> crate::eval::cycle_unit(g, iv),
        g == Grain::Second ==> (r matches Some(iv) ==> iv.start == *m && iv.end.index_spec()
            == m.index_spec() + 1),
        g == Grain::Day ==> (r matches Some(iv) ==> iv.start.date == m.date),
        g == Grain::Month ==> (r matches Some(iv) ==> iv.start.date.year == m.date.year
            && iv.start.date.month == m.date.month),
        g == Grain::Year ==> (r matches Some(iv) ==> iv.start.date.year == m.date.year),
        g == Grain::Second && m.index_spec() + 1 < max_second_index() ==> r is Some,
        (g is Second || g is Minute || g is Hour || g is Day) && m.index_spec() + 2 * SECS_PER_DAY
            < max_second_index() ==> r is Some,
{
    proof {
        lemma_moment_index_range(*m);
    }
    match g {
        Grain::Second => {
            match add_seconds(m, 1) {
                Some(e) => Some(Interval { start: *m, end: e, grain: g }),
                None => None,
            }
        },
        Grain::Minute => {
            let s = Moment { second: 0, ..*m };
            match add_seconds(&s, 60) {
                Some(e) => Some(Interval { start: s, end: e, grain: g }),
                None => None,
            }
        },
        Grain::Hour => {
            let s = Moment { minute: 0, second: 0, ..*m };
            match add_seconds(&s, 3600) {
                Some(e) => Some(Interval { start: s, end: e, grain: g }),
                None => None,
            }
        },
        Grain::Day => {
            let s = Moment::midnight(m.date);
            match add_days(&m.date, 1) {
                Some(d2) => Some(Interval { start: s, end: Moment::midnight(d2), grain: g }),
                None => None,
            }
        },
        Grain::Week => {
            let rank = m.date.weekday().rank();
            let ws = match add_days(&m.date, -(rank as i64)) {
                Some(d) => d,
                None => {
                    return None;
                },
            };
            let we = match add_days(&m.date, 7 - rank as i64) {
                Some(d) => d,
                None => {
                    return None;
                },
            };
            proof {
                assert((ws.index_spec() + 5) % 7 == 0) by {
                    assert(ws.index_spec() == m.date.index_spec() - (m.date.index_spec() + 5) % 7);
                }
            }
            Some(Interval { start: Moment::midnight(ws), end: Moment::midnight(we), grain: g })
        },
        Grain::Month => {
            let s_date = Date { day: 1, ..m.date };
            let s = Moment::midnight(s_date);
            match add_months_clamped(&s_date, 1) {
                Some(d2) => {
                    proof {
                        lemma_month_lex(s_date, d2, 1);
                        lemma_ym_index_increases(m.date, d2);
                    }
                    Some(Interval { start: s, end: Moment::midnight(d2), grain: g })
                },
                None => None,
            }
        },
        Grain::Quarter => {
            let qm = 1 + 3 * ((m.date.month - 1) / 3);
            proof {
                assert(qm == 1 || qm == 4 || qm == 7 || qm == 10) by (nonlinear_arith)
                    requires
                        1 <= m.date.month <= 12,
                        qm == 1 + 3 * ((m.date.month - 1) as int / 3),
                ;
            }
            let s_date = Date { month: qm, day: 1, ..m.date };
            proof {
                lemma_month_prefix_bounds(m.date.year as int, m.date.month as int);
                lemma_month_monotonic(m.date.year as int, qm as int, m.date.month as int);
            }
            let s = Moment::midnight(s_date);
            match add_months_clamped(&s_date, 3) {
                Some(d2) => {
                    proof {
                        lemma_month_lex(s_date, d2, 3);
                        lemma_ym_index_increases(m.date, d2);
                    }
                    Some(Interval { start: s, end: Moment::midnight(d2), grain: g })
                },
                None => None,
            }
        },
        Grain::Year => {
            if m.date.year + 1 > MAX_YEAR {
                None
            } else {
                let s = Moment::midnight(Date { month: 1, day: 1, ..m.date });
                let e = Moment::midnight(Date { year: m.date.year + 1, month: 1, day: 1 });
                proof {
                    lemma_month_prefix_bounds(m.date.year as int, m.date.month as int);
                    lemma_month_monotonic(m.date.year as int, 1, m.date.month as int);
                    lemma_ym_index_increases(
                        m.date,
                        Date { year: (m.date.year + 1) as i64, month: 1, day: 1 },
                    );
                }
                Some(Interval { start: s, end: e, grain: g })
            }
        },
    }
}

/// Adding whole months moves the (year, month) pair strictly up in
/// lexicographic order.
proof fn lemma_month_lex(a: Date, b: Date, delta: int)
    requires
        1 <= a.month <= 12,
        1 <= b.month <= 12,
        b.year * 12 + b.month - 1 == a.year * 12 + a.month - 1 + delta,
        delta >= 1,
    ensures
        b.year > a.year || (b.year == a.year && b.month > a.month),
{
    assert(b.year > a.year || (b.year == a.year && b.month > a.month)) by (nonlinear_arith)
        requires
            1 <= a.month <= 12,
            1 <= b.month <= 12,
            b.year * 12 + b.month - 1 == a.year * 12 + a.month - 1 + delta,
            delta >= 1,
    ;
}

/// The repeating cycle of one grain.
pub fn gen_cycle(anchor: &Moment, fwd: bool, count: usize, g: Grain) -> (r: Vec<Interval>)
    requires
        anchor.wf(),
        count <= 70,
    ensures
        stream_ok(r@, *anchor, fwd, count as int),
        stream_grain(r@, g),
        forall|i: int| 0 <= i < r@.len() ==> crate::eval::cycle_unit(g, #[trigger] r@[i]),
        fwd && r@.len() > 0 ==> r@[0].contains_spec(*anchor),
        g == Grain::Second && fwd && count > 0 && anchor.index_spec() + 1 < max_second_index()
            ==> r@.len() > 0 && r@[0].start == *anchor && r@[0].end.index_spec()
            == anchor.index_spec() + 1,
{
    let mut out: Vec<Interval> = Vec::new();
    if count == 0 {
        return out;
    }
    let base = match containing_interval(anchor, g) {
        Some(iv) => iv,
        None => {
            return out;
        },
    };
    if fwd {
        out.push(base);
        let mut cur = base;
        let mut i: usize = 1;
        while i < count
            invariant
                fwd,
                anchor.wf(),
                cur.wf(),
                base.wf(),
                base.grain == g,
                base.contains_spec(*anchor),
                base.proper(),
                g == Grain::Second ==> base.start == *anchor && base.end.index_spec()
                    == anchor.index_spec() + 1,
                stream_ok(out@, *anchor, true, count as int),
                stream_grain(out@, g),
                forall|i: int| 0 <= i < out@.len() ==> crate::eval::cycle_unit(g, #[trigger] out@[i]),
                out@.len() >= 1,
                out@[0] == base,
                1 <= i <= count,
                out@.len() <= i,
            decreases count - i,
        {
            match containing_interval(&cur.end, g) {
                Some(iv) => {
                    if iv.end.index() > anchor.index() {
                        out.push(iv);
                    }
                    cur = iv;
                },
                None => {
                    return out;
                },
            }
            i = i + 1;
        }
    } else {
        let mut boundary = base.start;
        let mut i: usize = 0;
        while i < count
            invariant
                !fwd,
                anchor.wf(),
                boundary.wf(),
                stream_ok(out@, *anchor, false, count as int),
                stream_grain(out@, g),
                forall|i: int| 0 <= i < out@.len() ==> crate::eval::cycle_unit(g, #[trigger] out@[i]),
                out@.len() <= i <= count,
            decreases count - i,
        {
            let pm = match add_seconds(&boundary, -1) {
                Some(x) => x,
                None => {
                    return out;
                },
            };
            let iv = match containing_interval(&pm, g) {
                Some(iv2) => iv2,
                None => {
                    return out;
                },
            };
            if iv.end.index() <= anchor.index() {
                out.push(iv);
            } else {
                return out;
            }
            boundary = iv.start;
            i = i + 1;
        }
    }
    out
}

/// If `delta` is congruent to `wr - rank` mod 7, stepping `delta` days from
/// a day of weekday rank `rank` lands on weekday rank `wr`.
proof fn lemma_weekday_shift(aidx: int, rank: int, wr: int, delta: int)
    requires
        rank == (aidx + 5) % 7,
        0 <= wr < 7,
        (delta - (wr - rank)) % 7 == 0,
    ensures
        (aidx + delta + 5) % 7 == wr,
{
    lemma_fundamental_div_mod(aidx + 5, 7);
    let q = (aidx + 5) / 7;
    lemma_fundamental_div_mod(delta - (wr - rank), 7);
    let t = (delta - (wr - rank)) / 7;
    assert(aidx + delta + 5 == 7 * (q + t) + wr);
    lemma_mod_multiples_vanish(q + t, wr, 7);
    assert(wr % 7 == wr);
}

/// Every day of one weekday, as day-grain intervals.
pub fn gen_dow(anchor: &Moment, fwd: bool, count: usize, w: Weekday) -> (r: Vec<Interval>)
    requires
        anchor.wf(),
        count <= 70,
    ensures
        stream_ok(r@, *anchor, fwd, count as int),
        stream_grain(r@, Grain::Day),
        forall|i: int|
            0 <= i < r@.len() ==> (#[trigger] r@[i]).start.date.weekday_rank_spec() == w.rank_spec()
                && r@[i].start.hour == 0 && r@[i].start.minute == 0 && r@[i].start.second == 0
                && r@[i].end.index_spec() == (r@[i].start.date.index_spec() + 1) * SECS_PER_DAY,
        forall|i: int| 0 <= i < r@.len() ==> crate::eval::cycle_unit(Grain::Day, #[trigger] r@[i]),
        fwd && r@.len() > 0 ==> r@[0].start.date.index_spec() == anchor.date.index_spec() + (
        (w.rank_spec() + 7 - anchor.date.weekday_rank_spec()) % 7),
        fwd && count > 0 && anchor.date.index_spec() + 8 < max_day_index() ==> r@.len() > 0,
        fwd && r@.len() > 1 ==> r@[1].start.date.index_spec() == r@[0].start.date.index_spec() + 7,
        fwd && count > 1 && anchor.date.index_spec() + 15 < max_day_index() ==> r@.len() > 1,
        !fwd && r@.len() > 0 ==> anchor.date.index_spec() - r@[0].start.date.index_spec()
            == dow_back_delta(anchor.date.weekday_rank_spec(), w.rank_spec()),
        !fwd && count > 0 && anchor.date.index_spec() >= 7 ==> r@.len() > 0,
{
    let mut out: Vec<Interval> = Vec::new();
    if count == 0 {
        return out;
    }
    let rank = anchor.date.weekday().rank();
    let wr = w.rank();
    let ghost a = anchor.date.index_spec();
    let step_first: i64 = if fwd {
        ((wr + 7 - rank) % 7) as i64
    } else {
        -((((rank + 6 - wr) % 7) + 1) as i64)
    };
    proof {
        if fwd {
            let x = wr as int + 7 - rank as int;
            lemma_fundamental_div_mod(x, 7);
            lemma_mod_multiples_vanish(1 - (x / 7), 0, 7);
            assert((step_first as int - (w.rank_spec() - anchor.date.weekday_rank_spec())) % 7
                == 0);
        } else {
            let y = rank as int + 6 - wr as int;
            lemma_fundamental_div_mod(y, 7);
            lemma_mod_multiples_vanish((y / 7) - 1, 0, 7);
            assert((step_first as int - (w.rank_spec() - anchor.date.weekday_rank_spec())) % 7
                == 0);
        }
    }
    let d0 = match add_days(&anchor.date, step_first) {
        Some(d) => d,
        None => {
            proof {
                lemma_moment_index_range(*anchor);
                if fwd {
                    assert(0 <= a + step_first);
                    if a + 8 < max_day_index() {
                        assert(false);
                    }
                } else {
                    if a >= 7 {
                        assert(0 <= a + step_first < max_day_index());
                        assert(false);
                    }
                }
            }
            return out;
        },
    };
    let mut cur = d0;
    let mut i: usize = 0;
    while i < count
        invariant
            anchor.wf(),
            cur.wf(),
            count <= 70,
            0 <= i <= count,
            a == anchor.date.index_spec(),
            rank as int == anchor.date.weekday_rank_spec(),
            wr as int == w.rank_spec(),
            step_first as int == (if fwd {
                (w.rank_spec() + 7 - anchor.date.weekday_rank_spec()) % 7
            } else {
                -dow_back_delta(anchor.date.weekday_rank_spec(), w.rank_spec())
            }),
            d0.index_spec() == a + step_first,
            fwd ==> 0 <= step_first < 7,
            !fwd ==> -7 <= step_first <= -1,
            (cur.index_spec() - a - (w.rank_spec() - anchor.date.weekday_rank_spec())) % 7 == 0,
            fwd ==> cur.index_spec() == d0.index_spec() + 7 * i,
            !fwd ==> cur.index_spec() == d0.index_spec() - 7 * i,
            out@.len() == i,
            stream_ok(out@, *anchor, fwd, count as int),
            stream_grain(out@, Grain::Day),
            forall|j: int|
                0 <= j < out@.len() ==> (#[trigger] out@[j]).start.date.weekday_rank_spec()
                    == w.rank_spec() && out@[j].start.hour == 0 && out@[j].start.minute == 0
                    && out@[j].start.second == 0 && out@[j].end.index_spec() == (
                out@[j].start.date.index_spec() + 1) * SECS_PER_DAY,
            forall|j: int|
                0 <= j < out@.len() ==> crate::eval::cycle_unit(Grain::Day, #[trigger] out@[j]),
            forall|j: int|
                0 <= j < out@.len() ==> (#[trigger] out@[j]).start.date.index_spec()
                    == d0.index_spec() + (if fwd {
                    7 * j
                } else {
                    -7 * j
                }),
        decreases count - i,
    {
        let e_date = match add_days(&cur, 1) {
            Some(d) => d,
            None => {
                proof {
                    lemma_index_range(cur);
                    lemma_moment_index_range(*anchor);
                    assert(cur.index_spec() + 1 >= max_day_index());
                    if fwd {
                        if i == 0 && a + 8 < max_day_index() {
                            assert(false);
                        }
                        if i <= 1 && a + 15 < max_day_index() {
                            assert(false);
                        }
                    } else {
                        assert(cur.index_spec() < a);
                        assert(a < max_day_index());
                        assert(false);
                    }
                }
                return out;
            },
        };
        proof {
            lemma_moment_index_range(*anchor);
            lemma_weekday_shift(
                a,
                anchor.date.weekday_rank_spec(),
                w.rank_spec(),
                cur.index_spec() - a,
            );
            if fwd {
                assert(anchor.index_spec() < (a + 1) * SECS_PER_DAY);
                assert((a + 1) * SECS_PER_DAY <= (cur.index_spec() + 1) * SECS_PER_DAY);
            } else {
                assert(cur.index_spec() + 1 <= a);
                assert((cur.index_spec() + 1) * SECS_PER_DAY <= a * SECS_PER_DAY);
                assert(a * SECS_PER_DAY <= anchor.index_spec());
            }
        }
        out.push(
            Interval {
                start: Moment::midnight(cur),
                end: Moment::midnight(e_date),
                grain: Grain::Day,
            },
        );
        let step: i64 = if fwd {
            7
        } else {
            -7
        };
        let next = match add_days(&cur, step) {
            Some(d) => d,
            None => {
                proof {
                    lemma_index_range(cur);
                    lemma_moment_index_range(*anchor);
                    if fwd {
                        if i == 0 && a + 15 < max_day_index() {
                            assert(false);
                        }
                    }
                }
                return out;
            },
        };
        proof {
            let old_diff = cur.index_spec() - a - (w.rank_spec()
                - anchor.date.weekday_rank_spec());
            lemma_fundamental_div_mod(old_diff, 7);
            if fwd {
                lemma_mod_multiples_vanish((old_diff / 7) + 1, 0, 7);
            } else {
                lemma_mod_multiples_vanish((old_diff / 7) - 1, 0, 7);
            }
        }
        cur = next;
        i = i + 1;
    }
    out
}

/// The single year `y` as a year-grain interval.
pub fn gen_year(anchor: &Moment, fwd: bool, count: usize, y: i64) -> (r: Vec<Interval>)
    requires
        anchor.wf(),
        count <= 70,
    ensures
        stream_ok(r@, *anchor, fwd, count as int),
        stream_grain(r@, Grain::Year),
        forall|i: int|
            0 <= i < r@.len() ==> crate::eval::cycle_unit(Grain::Year, #[trigger] r@[i])
                && r@[i].start.date.year == y,
{
    let mut out: Vec<Interval> = Vec::new();
    if count == 0 || y < 0 || y > MAX_YEAR {
        return out;
    }
    let d = Date { year: y, month: 1, day: 1 };
    let iv = match containing_interval(&Moment::midnight(d), Grain::Year) {
        Some(iv) => iv,
        None => {
            return out;
        },
    };
    let keep = if fwd {
        iv.end.index() > anchor.index()
    } else {
        iv.end.index() <= anchor.index()
    };
    if keep {
        out.push(iv);
    }
    out
}

/// Month `mon` of successive years, as month-grain intervals.
pub fn gen_month(anchor: &Moment, fwd: bool, count: usize, mon: u32) -> (r: Vec<Interval>)
    requires
        anchor.wf(),
        count <= 70,
    ensures
        stream_ok(r@, *anchor, fwd, count as int),
        stream_grain(r@, Grain::Month),
        forall|i: int|
            0 <= i < r@.len() ==> crate::eval::cycle_unit(Grain::Month, #[trigger] r@[i])
                && r@[i].start.date.month == mon,
{
    let mut out: Vec<Interval> = Vec::new();
    if count == 0 || mon < 1 || mon > 12 {
        return out;
    }
    let mut k: i64 = 0;
    let bound: i64 = count as i64 + 2;
    while k < bound
        invariant
            anchor.wf(),
            1 <= mon <= 12,
            count <= 70,
            0 <= k <= bound,
            bound == count + 2,
            stream_ok(out@, *anchor, fwd, count as int),
            stream_grain(out@, Grain::Month),
            forall|i: int|
                0 <= i < out@.len() ==> crate::eval::cycle_unit(Grain::Month, #[trigger] out@[i])
                    && out@[i].start.date.month == mon,
        decreases bound - k,
    {
        let y = if fwd {
            anchor.date.year + k
        } else {
            anchor.date.year - k
        };
        if y < 0 || y > MAX_YEAR {
            return out;
        }
        let dim = days_in_month(y, mon);
        let d = Date { year: y, month: mon, day: 1 };
        let iv = match containing_interval(&Moment::midnight(d), Grain::Month) {
            Some(iv) => iv,
            None => {
                return out;
            },
        };
        let keep = if fwd {
            iv.end.index() > anchor.index()
        } else {
            iv.end.index() <= anchor.index()
        };
        if keep {
            if out.len() < count {
                out.push(iv);
            } else {
                return out;
            }
        }
        k = k + 1;
    }
    out
}

/// Day `dom` of successive months, skipping months that lack it.
pub fn gen_dom(anchor: &Moment, fwd: bool, count: usize, dom: u32) -> (r: Vec<Interval>)
    requires
        anchor.wf(),
        count <= 70,
    ensures
        stream_ok(r@, *anchor, fwd, count as int),
        stream_grain(r@, Grain::Day),
        forall|i: int|
            0 <= i < r@.len() ==> crate::eval::cycle_unit(Grain::Day, #[trigger] r@[i])
                && r@[i].start.date.day == dom,
{
    let mut out: Vec<Interval> = Vec::new();
    if count == 0 || dom < 1 || dom > 31 {
        return out;
    }
    let mut first = Date { day: 1, ..anchor.date };
    let mut fuel: usize = 2 * count + 30;
    while fuel > 0
        invariant
            anchor.wf(),
            first.wf(),
            first.day == 1,
            1 <= dom <= 31,
            count <= 70,
            stream_ok(out@, *anchor, fwd, count as int),
            stream_grain(out@, Grain::Day),
            forall|i: int|
                0 <= i < out@.len() ==> crate::eval::cycle_unit(Grain::Day, #[trigger] out@[i])
                    && out@[i].start.date.day == dom,
        decreases fuel,
    {
        let dim = days_in_month(first.year, first.month);
        if dom <= dim {
            let d = Date { day: dom, ..first };
            let iv = match containing_interval(&Moment::midnight(d), Grain::Day) {
                Some(iv) => iv,
                None => {
                    return out;
                },
            };
            let keep = if fwd {
                iv.end.index() > anchor.index()
            } else {
                iv.end.index() <= anchor.index()
            };
            if keep {
                if out.len() < count {
                    out.push(iv);
                } else {
                    return out;
                }
            }
        }
        first = match add_months_clamped(&first, if fwd {
            1
        } else {
            -1
        }) {
            Some(d) => d,
            None => {
                return out;
            },
        };
        fuel = fuel - 1;
    }
    out
}

/// One or two wall-clock hours of successive days: on a 12-hour clock both
/// the morning and evening hour match.
pub fn gen_hour(anchor: &Moment, fwd: bool, count: usize, hour: u32, is_12_clock: bool) -> (r:
    Vec<Interval>)
    requires
        anchor.wf(),
        count <= 70,
    ensures
        stream_ok(r@, *anchor, fwd, count as int),
        stream_grain(r@, Grain::Hour),
        forall|i: int|
            0 <= i < r@.len() ==> (#[trigger] r@[i]).start.minute == 0 && r@[i].start.second == 0
                && r@[i].end.index_spec() == r@[i].start.index_spec() + 3600 && (if is_12_clock {
                r@[i].start.hour == hour % 12 || r@[i].start.hour == hour % 12 + 12
            } else {
                r@[i].start.hour == hour
            }),
{
    let mut out: Vec<Interval> = Vec::new();
    if count == 0 || hour > 23 {
        return out;
    }
    let h1 = if is_12_clock {
        hour % 12
    } else {
        hour
    };
    let h2 = if is_12_clock {
        hour % 12 + 12
    } else {
        hour
    };
    let mut day = anchor.date;
    let mut k: usize = 0;
    let bound: usize = count + 2;
    while k < bound
        invariant
            anchor.wf(),
            day.wf(),
            h1 <= 23,
            h2 <= 23,
            count <= 70,
            bound == count + 2,
            0 <= k <= bound,
            h1 as int == (if is_12_clock {
                hour as int % 12
            } else {
                hour as int
            }),
            h2 as int == (if is_12_clock {
                hour as int % 12 + 12
            } else {
                hour as int
            }),
            stream_ok(out@, *anchor, fwd, count as int),
            stream_grain(out@, Grain::Hour),
            forall|i: int|
                0 <= i < out@.len() ==> (#[trigger] out@[i]).start.minute == 0
                    && out@[i].start.second == 0 && out@[i].end.index_spec()
                    == out@[i].start.index_spec() + 3600 && (if is_12_clock {
                    out@[i].start.hour == hour % 12 || out@[i].start.hour == hour % 12 + 12
                } else {
                    out@[i].start.hour == hour
                }),
        decreases bound - k,
    {
        let ha = if fwd {
            h1
        } else {
            h2
        };
        let hb = if fwd {
            h2
        } else {
            h1
        };
        let s1 = Moment { date: day, hour: ha, minute: 0, second: 0 };
        if let Some(e1) = add_seconds(&s1, 3600) {
            let iv = Interval { start: s1, end: e1, grain: Grain::Hour };
            let keep = if fwd {
                iv.end.index() > anchor.index()
            } else {
                iv.end.index() <= anchor.index()
            };
            if keep {
                if out.len() < count {
                    out.push(iv);
                } else {
                    return out;
                }
            }
        } else {
            return out;
        }
        if hb != ha {
            let s2 = Moment { date: day, hour: hb, minute: 0, second: 0 };
            if let Some(e2) = add_seconds(&s2, 3600) {
                let iv = Interval { start: s2, end: e2, grain: Grain::Hour };
                let keep = if fwd {
                    iv.end.index() > anchor.index()
                } else {
                    iv.end.index() <= anchor.index()
                };
                if keep {
                    if out.len() < count {
                        out.push(iv);
                    } else {
                        return out;
                    }
                }
            } else {
                return out;
            }
        }
        day = match add_days(&day, if fwd {
            1
        } else {
            -1
        }) {
            Some(d) => d,
            None => {
                return out;
            },
        };
        k = k + 1;
    }
    out
}

/// Minute `mm` of successive hours.
pub fn gen_minute(anchor: &Moment, fwd: bool, count: usize, mm: u32) -> (r: Vec<Interval>)
    requires
        anchor.wf(),
        count <= 64,
    ensures
        stream_ok(r@, *anchor, fwd, count as int),
        stream_grain(r@, Grain::Minute),
        forall|i: int|
            0 <= i < r@.len() ==> (#[trigger] r@[i]).start.minute == mm && r@[i].start.second == 0
                && r@[i].end.index_spec() == r@[i].start.index_spec() + 60,
{
    let mut out: Vec<Interval> = Vec::new();
    if count == 0 || mm > 59 {
        return out;
    }
    let hours = gen_cycle(anchor, fwd, count + 2, Grain::Hour);
    let mut k: usize = 0;
    while k < hours.len()
        invariant
            anchor.wf(),
            count <= 64,
            mm <= 59,
            k <= hours@.len(),
            forall|i: int|
                0 <= i < hours@.len() ==> (#[trigger] hours@[i]).wf() && crate::eval::cycle_unit(
                    Grain::Hour,
                    hours@[i],
                ),
            stream_ok(out@, *anchor, fwd, count as int),
            stream_grain(out@, Grain::Minute),
            forall|i: int|
                0 <= i < out@.len() ==> (#[trigger] out@[i]).start.minute == mm
                    && out@[i].start.second == 0 && out@[i].end.index_spec()
                    == out@[i].start.index_spec() + 60,
        decreases hours@.len() - k,
    {
        let hv = &hours[k];
        let smin = Moment { minute: mm, ..hv.start };
        if let Some(e) = add_seconds(&smin, 60) {
            let iv = Interval { start: smin, end: e, grain: Grain::Minute };
            let keep = if fwd {
                iv.end.index() > anchor.index()
            } else {
                iv.end.index() <= anchor.index()
            };
            if keep && out.len() < count {
                out.push(iv);
            }
        } else {
            return out;
        }
        k = k + 1;
    }
    out
}

/// Second `ss` of successive minutes.
pub fn gen_second(anchor: &Moment, fwd: bool, count: usize, ss: u32) -> (r: Vec<Interval>)
    requires
        anchor.wf(),
        count <= 64,
    ensures
        stream_ok(r@, *anchor, fwd, count as int),
        stream_grain(r@, Grain::Second),
        forall|i: int|
            0 <= i < r@.len() ==> (#[trigger] r@[i]).start.second == ss && r@[i].end.index_spec()
                == r@[i].start.index_spec() + 1,
{
    let mut out: Vec<Interval> = Vec::new();
    if count == 0 || ss > 59 {
        return out;
    }
    let minutes = gen_cycle(anchor, fwd, count + 2, Grain::Minute);
    let mut k: usize = 0;
    while k < minutes.len()
        invariant
            anchor.wf(),
            count <= 64,
            ss <= 59,
            k <= minutes@.len(),
            forall|i: int|
                0 <= i < minutes@.len() ==> (#[trigger] minutes@[i]).wf()
                    && crate::eval::cycle_unit(Grain::Minute, minutes@[i]),
            stream_ok(out@, *anchor, fwd, count as int),
            stream_grain(out@, Grain::Second),
            forall|i: int|
                0 <= i < out@.len() ==> (#[trigger] out@[i]).start.second == ss
                    && out@[i].end.index_spec() == out@[i].start.index_spec() + 1,
        decreases minutes@.len() - k,
    {
        let mv = &minutes[k];
        let ssec = Moment { second: ss, ..mv.start };
        if let Some(e) = add_seconds(&ssec, 1) {
            let iv = Interval { start: ssec, end: e, grain: Grain::Second };
            let keep = if fwd {
                iv.end.index() > anchor.index()
            } else {
                iv.end.index() <= anchor.index()
            };
            if keep && out.len() < count {
                out.push(iv);
            }
        } else {
            return out;
        }
        k = k + 1;
    }
    out
}

/// A month/day pair of successive years, skipping years that lack it.
pub fn gen_monthday(anchor: &Moment, fwd: bool, count: usize, mon: u32, dom: u32) -> (r: Vec<
    Interval>)
    requires
        anchor.wf(),
        count <= 70,
    ensures
        stream_ok(r@, *anchor, fwd, count as int),
        stream_grain(r@, Grain::Day),
        forall|i: int|
            0 <= i < r@.len() ==> crate::eval::cycle_unit(Grain::Day, #[trigger] r@[i])
                && r@[i].start.date.month == mon && r@[i].start.date.day == dom,
{
    let mut out: Vec<Interval> = Vec::new();
    if count == 0 || mon < 1 || mon > 12 || dom < 1 || dom > 31 {
        return out;
    }
    let mut k: i64 = 0;
    let bound: i64 = count as i64 + 6;
    while k < bound
        invariant
            anchor.wf(),
            1 <= mon <= 12,
            1 <= dom <= 31,
            count <= 70,
            0 <= k <= bound,
            bound == count + 6,
            stream_ok(out@, *anchor, fwd, count as int),
            stream_grain(out@, Grain::Day),
            forall|i: int|
                0 <= i < out@.len() ==> crate::eval::cycle_unit(Grain::Day, #[trigger] out@[i])
                    && out@[i].start.date.month == mon && out@[i].start.date.day == dom,
        decreases bound - k,
    {
        let y = if fwd {
            anchor.date.year + k
        } else {
            anchor.date.year - k
        };
        if y < 0 || y > MAX_YEAR {
            return out;
        }
        let dim = days_in_month(y, mon);
        if dom <= dim {
            let d = Date { year: y, month: mon, day: dom };
            let iv = match containing_interval(&Moment::midnight(d), Grain::Day) {
                Some(iv) => iv,
                None => {
                    return out;
                },
            };
            let keep = if fwd {
                iv.end.index() > anchor.index()
            } else {
                iv.end.index() <= anchor.index()
            };
            if keep {
                if out.len() < count {
                    out.push(iv);
                } else {
                    return out;
                }
            }
        }
        k = k + 1;
    }
    out
}

/// A single calendar day, as a day-grain interval.
pub fn gen_ymd(anchor: &Moment, fwd: bool, count: usize, y: i64, mon: u32, dom: u32) -> (r: Vec<
    Interval>)
    requires
        anchor.wf(),
        count <= 70,
    ensures
        stream_ok(r@, *anchor, fwd, count as int),
        stream_grain(r@, Grain::Day),
        forall|i: int|
            0 <= i < r@.len() ==> crate::eval::cycle_unit(Grain::Day, #[trigger] r@[i])
                && r@[i].start.date == (Date { year: y, month: mon, day: dom }),
{
    let mut out: Vec<Interval> = Vec::new();
    if count == 0 || y < 0 || y > MAX_YEAR || mon < 1 || mon > 12 || dom < 1 {
        return out;
    }
    let dim = days_in_month(y, mon);
    if dom > dim {
        return out;
    }
    let d = Date { year: y, month: mon, day: dom };
    let iv = match containing_interval(&Moment::midnight(d), Grain::Day) {
        Some(iv) => iv,
        None => {
            return out;
        },
    };
    let keep = if fwd {
        iv.end.index() > anchor.index()
    } else {
        iv.end.index() <= anchor.index()
    };
    if keep {
        out.push(iv);
    }
    out
}

} // verus!
