//! Evaluation of constraints against an anchor instant: bounded,
//! restartable walks in either direction, and resolution to one concrete
//! interval.

use vstd::prelude::*;
use crate::constraint::{
    dow_back_delta,
    dow_forward_delta,
    dow_of,
    last_dow_shape,
    next_dow_shape,
    now_shape,
    Constraint,
};
use crate::grain::{Grain, Weekday};
use crate::interval::Interval;
use crate::moment::{
    add_days,
    add_months_clamped,
    add_seconds,
    easter_month_day,
    max_day_index,
    max_second_index,
    Date,
    Moment,
    SECS_PER_DAY,
};
use crate::period::Period;
use crate::streams::{
    containing_interval,
    gen_cycle,
    gen_dom,
    gen_dow,
    gen_hour,
    gen_minute,
    gen_month,
    gen_monthday,
    gen_second,
    gen_year,
    gen_ymd,
    stream_grain,
    stream_ok,
};

verus! {

/// Structural height of a constraint tree, for termination measures.
pub open spec fn height(c: Constraint) -> nat
    decreases c,
{
    match c {
        Constraint::Intersect(a, b) => 1 + height(*a) + height(*b),
        Constraint::TakeTheNth { inner, .. } => 1 + height(*inner),
        Constraint::TakeN { inner, .. } => 1 + height(*inner),
        Constraint::TheNthAfter { inner, base, .. } => 1 + height(*inner) + height(*base),
        Constraint::ShiftBy { inner, .. } => 1 + height(*inner),
        Constraint::SpanTo { from, to, .. } => 1 + height(*from) + height(*to),
        Constraint::LastOf { inner, base } => 1 + height(*inner) + height(*base),
        Constraint::EasterOf { inner } => 1 + height(*inner),
        _ => 1,
    }
}

proof fn lemma_height_pos(c: Constraint)
    ensures
        height(c) >= 1,
{
    match c {
        Constraint::Intersect(..) => {},
        Constraint::TakeTheNth { .. } => {},
        Constraint::TakeN { .. } => {},
        Constraint::TheNthAfter { .. } => {},
        Constraint::ShiftBy { .. } => {},
        Constraint::SpanTo { .. } => {},
        Constraint::LastOf { .. } => {},
        Constraint::EasterOf { .. } => {},
        _ => {},
    }
}

/// Translate a moment by a period: months parts first (clamping the day),
/// then day parts, then second parts.
pub fn shift_moment(m: &Moment, p: &Period) -> (r: Option<Moment>)
    requires
        m.wf(),
    ensures
        r matches Some(m2) ==> m2.wf(),
        p.months == 0 && p.quarters == 0 && p.years == 0 ==> (r matches Some(m2)
            ==> m2.index_spec() == m.index_spec() + p.seconds + 60 * p.minutes + 3600 * p.hours
            + SECS_PER_DAY * (p.days + 7 * p.weeks)),
        (forall|g: Grain| -500000 <= #[trigger] p.comp_spec(g) <= 500000) && p.months == 0
            && p.quarters == 0 && p.years == 0 && 0 <= m.date.index_spec() + p.days + 7 * p.weeks
            < crate::moment::max_day_index() && 0 <= m.index_spec() + p.seconds + 60 * p.minutes
            + 3600 * p.hours + SECS_PER_DAY * (p.days + 7 * p.weeks) < max_second_index()
            ==> r is Some,
{
    proof {
        if forall|g: Grain| -500000 <= #[trigger] p.comp_spec(g) <= 500000 {
            assert(-500000 <= p.comp_spec(Grain::Second) <= 500000);
            assert(-500000 <= p.comp_spec(Grain::Minute) <= 500000);
            assert(-500000 <= p.comp_spec(Grain::Hour) <= 500000);
            assert(-500000 <= p.comp_spec(Grain::Day) <= 500000);
            assert(-500000 <= p.comp_spec(Grain::Week) <= 500000);
        }
    }
    let q3 = p.quarters.checked_mul(3)?;
    let y12 = p.years.checked_mul(12)?;
    let mt = p.months.checked_add(q3)?.checked_add(y12)?;
    if mt < -200000 || mt > 200000 {
        return None;
    }
    let date2 = match add_months_clamped(&m.date, mt) {
        Some(d) => d,
        None => {
            return None;
        },
    };
    let w7 = p.weeks.checked_mul(7)?;
    let dt = p.days.checked_add(w7)?;
    if dt < -4000000 || dt > 4000000 {
        return None;
    }
    let date3 = match add_days(&date2, dt) {
        Some(d) => d,
        None => {
            return None;
        },
    };
    let m60 = p.minutes.checked_mul(60)?;
    let h3600 = p.hours.checked_mul(3600)?;
    let st = p.seconds.checked_add(m60)?.checked_add(h3600)?;
    if st < -300000000000 || st > 300000000000 {
        return None;
    }
    add_seconds(&Moment { date: date3, ..*m }, st)
}

/// Add one unit of a grain to a (possibly unaligned) moment.
pub fn grain_add_one(m: &Moment, g: Grain) -> (r: Option<Moment>)
    requires
        m.wf(),
    ensures
        r matches Some(m2) ==> m2.wf() && m2.index_spec() > m.index_spec(),
        g == Grain::Second ==> (r matches Some(m2) ==> m2.index_spec() == m.index_spec() + 1),
        g == Grain::Minute ==> (r matches Some(m2) ==> m2.index_spec() == m.index_spec() + 60),
        g == Grain::Hour ==> (r matches Some(m2) ==> m2.index_spec() == m.index_spec() + 3600),
        g == Grain::Day ==> (r matches Some(m2) ==> m2.index_spec() == m.index_spec() + 86400),
        g == Grain::Week ==> (r matches Some(m2) ==> m2.index_spec() == m.index_spec() + 604800),
        !(g is Month || g is Quarter || g is Year) && m.index_spec() + 604800
            < max_second_index() ==> r is Some,
        (g is Month || g is Quarter || g is Year) && m.date.year + 1 <= crate::moment::MAX_YEAR
            ==> r is Some,
{
    proof {
        crate::moment::lemma_moment_index_range(*m);
    }
    match g {
        Grain::Second => add_seconds(m, 1),
        Grain::Minute => add_seconds(m, 60),
        Grain::Hour => add_seconds(m, 3600),
        Grain::Day => add_seconds(m, 86400),
        Grain::Week => add_seconds(m, 604800),
        Grain::Month | Grain::Quarter | Grain::Year => {
            let delta: i64 = match g {
                Grain::Month => 1,
                Grain::Quarter => 3,
                _ => 12,
            };
            match add_months_clamped(&m.date, delta) {
                Some(d2) => {
                    proof {
                        crate::interval::lemma_add_months_increases(m.date, d2, delta as int);
                    }
                    Some(Moment { date: d2, ..*m })
                },
                None => None,
            }
        },
    }
}

/// An interval that is one whole calendar day of weekday `w`.
pub open spec fn day_occurrence(iv: Interval, w: Weekday) -> bool {
    &&& iv.grain == Grain::Day
    &&& iv.start.hour == 0
    &&& iv.start.minute == 0
    &&& iv.start.second == 0
    &&& iv.start.date.weekday_rank_spec() == w.rank_spec()
    &&& iv.end.index_spec() == (iv.start.date.index_spec() + 1) * SECS_PER_DAY
}

/// What `eval` promises of a plain day-of-week stream.
pub open spec fn dow_stream_exact(
    r: Seq<Interval>,
    anchor: Moment,
    fwd: bool,
    count: int,
    w: Weekday,
) -> bool {
    &&& forall|i: int| 0 <= i < r.len() ==> day_occurrence(#[trigger] r[i], w)
    &&& fwd && r.len() > 0 ==> r[0].start.date.index_spec() == anchor.date.index_spec() + (
    (w.rank_spec() + 7 - anchor.date.weekday_rank_spec()) % 7)
    &&& fwd && count > 0 && anchor.date.index_spec() + 8 < max_day_index() ==> r.len() > 0
    &&& fwd && r.len() > 1 ==> r[1].start.date.index_spec() == r[0].start.date.index_spec() + 7
    &&& fwd && count > 1 && anchor.date.index_spec() + 15 < max_day_index() ==> r.len() > 1
    &&& !fwd && r.len() > 0 ==> anchor.date.index_spec() - r[0].start.date.index_spec()
        == dow_back_delta(anchor.date.weekday_rank_spec(), w.rank_spec())
    &&& !fwd && count > 0 && anchor.date.index_spec() >= 7 ==> r.len() > 0
}

/// A moment at the very start of its day.
pub open spec fn is_midnight(m: Moment) -> bool {
    m.hour == 0 && m.minute == 0 && m.second == 0
}

/// A moment at the very start of its month.
pub open spec fn is_month_start(m: Moment) -> bool {
    is_midnight(m) && m.date.day == 1
}

/// A date's month counted from the calendar origin.
pub open spec fn ym(d: Date) -> int {
    d.year * 12 + d.month - 1
}

/// One whole unit of a grain: an interval of that granularity aligned on
/// its boundaries.
pub open spec fn cycle_unit(g: Grain, iv: Interval) -> bool {
    iv.grain == g && (match g {
        Grain::Second => iv.end.index_spec() == iv.start.index_spec() + 1,
        Grain::Minute => iv.start.second == 0 && iv.end.index_spec() == iv.start.index_spec() + 60,
        Grain::Hour => iv.start.minute == 0 && iv.start.second == 0 && iv.end.index_spec()
            == iv.start.index_spec() + 3600,
        Grain::Day => is_midnight(iv.start) && is_midnight(iv.end) && iv.end.date.index_spec()
            == iv.start.date.index_spec() + 1,
        Grain::Week => is_midnight(iv.start) && is_midnight(iv.end)
            && iv.start.date.weekday_rank_spec() == 0 && iv.end.date.index_spec()
            == iv.start.date.index_spec() + 7,
        Grain::Month => is_month_start(iv.start) && is_month_start(iv.end) && ym(iv.end.date) == ym(
            iv.start.date,
        ) + 1,
        Grain::Quarter => is_month_start(iv.start) && is_month_start(iv.end) && (iv.start.date.month
            == 1 || iv.start.date.month == 4 || iv.start.date.month == 7 || iv.start.date.month
            == 10) && ym(iv.end.date) == ym(iv.start.date) + 3,
        Grain::Year => is_month_start(iv.start) && iv.start.date.month == 1 && is_month_start(
            iv.end,
        ) && iv.end.date.month == 1 && iv.end.date.year == iv.start.date.year + 1,
    })
}

/// How a translated occurrence's start relates to its source: moved by the
/// period's second-level total when no month parts are present.
pub open spec fn shift_start_rel(p: Period, src: Interval, iv: Interval) -> bool {
    p.months == 0 && p.quarters == 0 && p.years == 0 ==> iv.start.index_spec()
        == src.start.index_spec() + p.seconds + 60 * p.minutes + 3600 * p.hours + SECS_PER_DAY * (
    p.days + 7 * p.weeks)
}

/// A translated occurrence's length, set by its own grain: one unit for
/// the second-level grains, positive otherwise.
pub open spec fn shift_len_ok(iv: Interval) -> bool {
    match iv.grain {
        Grain::Second => iv.end.index_spec() == iv.start.index_spec() + 1,
        Grain::Minute => iv.end.index_spec() == iv.start.index_spec() + 60,
        Grain::Hour => iv.end.index_spec() == iv.start.index_spec() + 3600,
        Grain::Day => iv.end.index_spec() == iv.start.index_spec() + 86400,
        Grain::Week => iv.end.index_spec() == iv.start.index_spec() + 604800,
        _ => iv.end.index_spec() > iv.start.index_spec(),
    }
}

/// How a translated occurrence relates to its source.
pub open spec fn shifted_from(p: Period, src: Interval, iv: Interval, inner_grain: Grain) -> bool {
    let g2 = match p.finest_grain_spec() {
        Some(g) => g,
        None => inner_grain,
    };
    &&& iv.grain == g2
    &&& shift_start_rel(p, src, iv)
    &&& shift_len_ok(iv)
}


/// Membership: the intrinsic shape of the intervals a constraint can
/// denote, combinator by combinator; every evaluated interval is a member.
/// The relations that need a witness occurrence — a shift's source, an
/// intersection's containing occurrence, a span's two ends — are stated
/// and proved on the evaluation functions themselves, where the witnesses
/// are at hand.
pub open spec fn admits(c: Constraint, iv: Interval) -> bool
    decreases c,
{
    match c {
        Constraint::Year(y) => cycle_unit(Grain::Year, iv) && iv.start.date.year == y,
        Constraint::Month(m) => cycle_unit(Grain::Month, iv) && iv.start.date.month == m,
        Constraint::DayOfMonth(d) => cycle_unit(Grain::Day, iv) && iv.start.date.day == d,
        Constraint::DayOfWeek(w) => cycle_unit(Grain::Day, iv) && iv.start.date.weekday_rank_spec()
            == w.rank_spec(),
        Constraint::Hour { hour, is_12_clock } => iv.grain == Grain::Hour && iv.start.minute == 0
            && iv.start.second == 0 && iv.end.index_spec() == iv.start.index_spec() + 3600 && (
        if is_12_clock {
            iv.start.hour == hour % 12 || iv.start.hour == hour % 12 + 12
        } else {
            iv.start.hour == hour
        }),
        Constraint::Minute(m) => iv.grain == Grain::Minute && iv.start.minute == m
            && iv.start.second == 0 && iv.end.index_spec() == iv.start.index_spec() + 60,
        Constraint::Second(sec) => iv.grain == Grain::Second && iv.start.second == sec
            && iv.end.index_spec() == iv.start.index_spec() + 1,
        Constraint::MonthDay { month, day } => cycle_unit(Grain::Day, iv) && iv.start.date.month
            == month && iv.start.date.day == day,
        Constraint::YearMonthDay { year, month, day } => cycle_unit(Grain::Day, iv)
            && iv.start.date == (Date { year, month, day }),
        Constraint::Cycle(g) => cycle_unit(g, iv),
        Constraint::Intersect(a, b) => {
            if a.grain_spec().rank_spec() >= b.grain_spec().rank_spec() {
                admits(*b, iv)
            } else {
                admits(*a, iv)
            }
        },
        Constraint::TakeTheNth { inner, .. } => admits(*inner, iv),
        Constraint::TakeN { inner, .. } => iv.grain == inner.grain_spec(),
        Constraint::TheNthAfter { inner, .. } => admits(*inner, iv),
        Constraint::ShiftBy { period, inner } => {
            &&& (match period.finest_grain_spec() {
                Some(g) => iv.grain == g,
                None => iv.grain == inner.grain_spec(),
            })
            &&& shift_len_ok(iv)
        },
        Constraint::SpanTo { from, .. } => iv.grain == from.grain_spec(),
        Constraint::LastOf { inner, .. } => admits(*inner, iv),
        Constraint::EasterOf { .. } => cycle_unit(Grain::Day, iv) && ({
            let (mo, dy) = crate::moment::easter_calc(iv.start.date.year as int);
            iv.start.date.month == mo && iv.start.date.day == dy
        }),
    }
}

/// Every interval of a stream is a member of the constraint's family.
pub open spec fn stream_admitted(c: Constraint, r: Seq<Interval>) -> bool {
    forall|i: int| 0 <= i < r.len() ==> admits(c, #[trigger] r[i])
}


/// The first `count` intervals of the family `c` describes, walking from
/// `anchor`: forward intervals end strictly after it, backward intervals end
/// at or before it, nearest first.
#[verifier::rlimit(100)]
#[verifier::spinoff_prover]
pub fn eval(c: &Constraint, anchor: &Moment, fwd: bool, count: usize) -> (r: Vec<Interval>)
    requires
        anchor.wf(),
        count <= 64,
    ensures
        stream_ok(r@, *anchor, fwd, count as int),
        stream_grain(r@, c.grain_spec()),
        stream_admitted(*c, r@),
        (*c) matches Constraint::Cycle(g) ==> (g == Grain::Second && fwd && count > 0
            && anchor.index_spec() + 1 < max_second_index() ==> r@.len() > 0 && r@[0].start
            == *anchor && r@[0].end.index_spec() == anchor.index_spec() + 1),
        (*c) matches Constraint::DayOfWeek(w) ==> dow_stream_exact(
            r@,
            *anchor,
            fwd,
            count as int,
            w,
        ),
        now_shape(*c) && fwd && count > 0 && anchor.index_spec() + 1 < max_second_index()
            ==> r@.len() > 0 && r@[0].grain == Grain::Second && r@[0].start == *anchor
            && r@[0].end.index_spec() == anchor.index_spec() + 1,
        last_dow_shape(*c) && fwd ==> r@.len() == 0,
        last_dow_shape(*c) && !fwd && count > 0 && anchor.date.index_spec() >= 7 ==> r@.len() > 0
            && day_occurrence(r@[0], dow_of(*c)) && anchor.date.index_spec()
            - r@[0].start.date.index_spec() == dow_back_delta(
            anchor.date.weekday_rank_spec(),
            dow_of(*c).rank_spec(),
        ),
        next_dow_shape(*c) && fwd && count > 0 && anchor.date.index_spec() + 15 < max_day_index()
            ==> r@.len() > 0 && day_occurrence(r@[0], dow_of(*c)) && r@[0].start.date.index_spec()
            - anchor.date.index_spec() == dow_forward_delta(
            anchor.date.weekday_rank_spec(),
            dow_of(*c).rank_spec(),
        ),
    decreases height(*c), 1int,
{
    match c {
        Constraint::Year(y) => {
            let res = gen_year(anchor, fwd, count, *y);
            proof {
                assert forall|i: int| 0 <= i < res@.len() implies admits(*c, #[trigger] res@[i]) by {
                    assert(crate::eval::cycle_unit(Grain::Year, res@[i])
                        && res@[i].start.date.year == *y);
                }
            }
            res
        },
        Constraint::Month(m) => {
            let res = gen_month(anchor, fwd, count, *m);
            proof {
                assert forall|i: int| 0 <= i < res@.len() implies admits(*c, #[trigger] res@[i]) by {
                    assert(crate::eval::cycle_unit(Grain::Month, res@[i]) && res@[i].start.date.month == *m);
                }
            }
            res
        },
        Constraint::DayOfMonth(d) => {
            let res = gen_dom(anchor, fwd, count, *d);
            proof {
                assert forall|i: int| 0 <= i < res@.len() implies admits(*c, #[trigger] res@[i]) by {
                    assert(crate::eval::cycle_unit(Grain::Day, res@[i]) && res@[i].start.date.day == *d);
                }
            }
            res
        },
        Constraint::DayOfWeek(w) => {
            let res = gen_dow(anchor, fwd, count, *w);
            proof {
                assert forall|i: int| 0 <= i < res@.len() implies admits(*c, #[trigger] res@[i]) by {
                    assert(crate::eval::cycle_unit(Grain::Day, res@[i]) && res@[i].start.date.weekday_rank_spec() == w.rank_spec());
                }
            }
            res
        },
        Constraint::Hour { hour, is_12_clock } => {
            let res = gen_hour(anchor, fwd, count, *hour, *is_12_clock);
            proof {
                assert forall|i: int| 0 <= i < res@.len() implies admits(*c, #[trigger] res@[i]) by {
                    assert(res@[i].start.minute == 0 && res@[i].start.second == 0
                        && res@[i].end.index_spec() == res@[i].start.index_spec() + 3600);
                }
            }
            res
        },
        Constraint::Minute(m) => {
            let res = gen_minute(anchor, fwd, count, *m);
            proof {
                assert forall|i: int| 0 <= i < res@.len() implies admits(*c, #[trigger] res@[i]) by {
                    assert(res@[i].start.minute == *m && res@[i].start.second == 0 && res@[i].end.index_spec() == res@[i].start.index_spec() + 60);
                }
            }
            res
        },
        Constraint::Second(s) => {
            let res = gen_second(anchor, fwd, count, *s);
            proof {
                assert forall|i: int| 0 <= i < res@.len() implies admits(*c, #[trigger] res@[i]) by {
                    assert(res@[i].start.second == *s && res@[i].end.index_spec() == res@[i].start.index_spec() + 1);
                }
            }
            res
        },
        Constraint::MonthDay { month, day } => {
            let res = gen_monthday(anchor, fwd, count, *month, *day);
            proof {
                assert forall|i: int| 0 <= i < res@.len() implies admits(*c, #[trigger] res@[i]) by {
                    assert(crate::eval::cycle_unit(Grain::Day, res@[i]) && res@[i].start.date.month == *month && res@[i].start.date.day == *day);
                }
            }
            res
        },
        Constraint::YearMonthDay { year, month, day } => {
            let res = gen_ymd(anchor, fwd, count, *year, *month, *day);
            proof {
                assert forall|i: int| 0 <= i < res@.len() implies admits(*c, #[trigger] res@[i]) by {
                    assert(crate::eval::cycle_unit(Grain::Day, res@[i]) && res@[i].start.date == (
                    Date { year: *year, month: *month, day: *day }));
                }
            }
            res
        },
        Constraint::Cycle(g) => {
            let res = gen_cycle(anchor, fwd, count, *g);
            proof {
                assert forall|i: int| 0 <= i < res@.len() implies admits(*c, #[trigger] res@[i]) by {
                    assert(crate::eval::cycle_unit(*g, res@[i]));
                }
            }
            res
        },
        Constraint::Intersect(a, b) => {
            proof {
                lemma_height_pos(**a);
                lemma_height_pos(**b);
            }
            let res = eval_intersect(&**a, &**b, anchor, fwd, count);
            proof {
                assert forall|i: int| 0 <= i < res@.len() implies admits(*c, #[trigger] res@[i]) by {
                    if (**a).grain_spec().rank_spec() >= (**b).grain_spec().rank_spec() {
                        assert(admits(**b, res@[i]));
                    } else {
                        assert(admits(**a, res@[i]));
                    }
                }
            }
            res
        },
        Constraint::TakeTheNth { n, not_immediate, inner } => {
            let res = eval_take_the_nth(*n, *not_immediate, &**inner, anchor, fwd, count);
            proof {
                assert forall|i: int| 0 <= i < res@.len() implies admits(*c, #[trigger] res@[i]) by {
                    assert(admits(**inner, res@[i]));
                }
            }
            res
        },
        Constraint::TakeN { n, not_immediate, inner } => {
            let res = eval_take_n(*n, *not_immediate, &**inner, anchor, fwd, count);
            proof {
                assert forall|i: int| 0 <= i < res@.len() implies admits(*c, #[trigger] res@[i]) by {
                    assert(res@[i].grain == (**inner).grain_spec());
                }
            }
            res
        },
        Constraint::TheNthAfter { n, not_immediate, inner, base } => {
            proof {
                lemma_height_pos(**inner);
                lemma_height_pos(**base);
            }
            let res = eval_nth_after(*n, *not_immediate, &**inner, &**base, anchor, fwd, count);
            proof {
                assert forall|i: int| 0 <= i < res@.len() implies admits(*c, #[trigger] res@[i]) by {
                    assert(admits(**inner, res@[i]));
                }
            }
            res
        },
        Constraint::ShiftBy { .. } => eval_shift(c, anchor, fwd, count),
        Constraint::SpanTo { inclusive, from, to } => {
            proof {
                lemma_height_pos(**from);
                lemma_height_pos(**to);
            }
            let res = eval_span(*inclusive, &**from, &**to, anchor, fwd, count);
            proof {
                assert forall|i: int| 0 <= i < res@.len() implies admits(*c, #[trigger] res@[i]) by {
                    assert(res@[i].grain == (**from).grain_spec());
                }
            }
            res
        },
        Constraint::LastOf { inner, base } => {
            proof {
                lemma_height_pos(**inner);
                lemma_height_pos(**base);
            }
            let res = eval_last_of(&**inner, &**base, anchor, fwd, count);
            proof {
                assert forall|i: int| 0 <= i < res@.len() implies admits(*c, #[trigger] res@[i]) by {
                    assert(admits(**inner, res@[i]));
                }
            }
            res
        },
        Constraint::EasterOf { inner } => {
            let res = eval_easter(&**inner, anchor, fwd, count);
            proof {
                assert forall|i: int| 0 <= i < res@.len() implies admits(*c, #[trigger] res@[i]) by {
                    assert(cycle_unit(Grain::Day, res@[i]));
                }
            }
            res
        },
    }
}

/// Intersection: members of `fine` lying within a member of `coarse`.
#[verifier::loop_isolation(false)]
fn eval_intersect(a: &Constraint, b: &Constraint, anchor: &Moment, fwd: bool, count: usize) -> (r:
    Vec<Interval>)
    requires
        anchor.wf(),
        count <= 64,
        height(*a) >= 1,
        height(*b) >= 1,
    ensures
        stream_ok(r@, *anchor, fwd, count as int),
        stream_grain(r@, a.grain_spec().finer_spec(b.grain_spec())),
        forall|i: int|
            0 <= i < r@.len() ==> (if a.grain_spec().rank_spec() >= b.grain_spec().rank_spec() {
                admits(*b, #[trigger] r@[i]) && (exists|o: Interval|
                    admits(*a, o) && r@[i].within_spec(o))
            } else {
                admits(*a, #[trigger] r@[i]) && (exists|o: Interval|
                    admits(*b, o) && r@[i].within_spec(o))
            }),
    decreases height(*a) + height(*b), 0int,
{
    let mut out: Vec<Interval> = Vec::new();
    if count == 0 {
        return out;
    }
    let a_coarse = a.grain().rank() >= b.grain().rank();
    let coarse = if a_coarse {
        a
    } else {
        b
    };
    let fine = if a_coarse {
        b
    } else {
        a
    };
    let outer = eval(coarse, anchor, fwd, count);
    let mut oi: usize = 0;
    while oi < outer.len()
        invariant
            oi <= outer@.len(),
            stream_ok(outer@, *anchor, fwd, count as int),
            stream_admitted(*coarse, outer@),
            stream_ok(out@, *anchor, fwd, count as int),
            stream_grain(out@, fine.grain_spec()),
            forall|i: int|
                0 <= i < out@.len() ==> admits(*fine, #[trigger] out@[i]) && (exists|o: Interval|
                    admits(*coarse, o) && out@[i].within_spec(o)),
        decreases outer@.len() - oi,
    {
        let o = outer[oi];
        let inner_anchor = if fwd {
            o.start
        } else {
            o.end
        };
        let cands = eval(fine, &inner_anchor, fwd, count);
        let mut ci: usize = 0;
        while ci < cands.len()
            invariant
                ci <= cands@.len(),
                o.wf(),
                admits(*coarse, o),
                forall|i: int|
                    0 <= i < cands@.len() ==> (#[trigger] cands@[i]).wf() && cands@[i].proper(),
                stream_grain(cands@, fine.grain_spec()),
                stream_admitted(*fine, cands@),
                stream_ok(out@, *anchor, fwd, count as int),
                stream_grain(out@, fine.grain_spec()),
                forall|i: int|
                    0 <= i < out@.len() ==> admits(*fine, #[trigger] out@[i]) && (exists|
                        o2: Interval,
                    |
                        admits(*coarse, o2) && out@[i].within_spec(o2)),
            decreases cands@.len() - ci,
        {
            let cv = cands[ci];
            let dir_ok = if fwd {
                cv.end.index() > anchor.index()
            } else {
                cv.end.index() <= anchor.index()
            };
            if cv.within(&o) && dir_ok && out.len() < count {
                proof {
                    assert(admits(*fine, cv));
                    assert(admits(*coarse, o) && cv.within_spec(o));
                }
                out.push(cv);
            }
            ci = ci + 1;
        }
        oi = oi + 1;
    }
    proof {
        assert forall|i: int| 0 <= i < out@.len() implies (if a.grain_spec().rank_spec()
            >= b.grain_spec().rank_spec() {
            admits(*b, #[trigger] out@[i]) && (exists|o: Interval|
                admits(*a, o) && out@[i].within_spec(o))
        } else {
            admits(*a, #[trigger] out@[i]) && (exists|o: Interval|
                admits(*b, o) && out@[i].within_spec(o))
        }) by {
            assert(admits(*fine, out@[i]) && (exists|o2: Interval|
                admits(*coarse, o2) && out@[i].within_spec(o2)));
            let ow = choose|o2: Interval| admits(*coarse, o2) && out@[i].within_spec(o2);
            if a.grain_spec().rank_spec() >= b.grain_spec().rank_spec() {
                assert(fine == b && coarse == a);
                assert(admits(*a, ow) && out@[i].within_spec(ow));
            } else {
                assert(fine == a && coarse == b);
                assert(admits(*b, ow) && out@[i].within_spec(ow));
            }
        }
    }
    out
}

/// The n-th occurrence from the anchor; negative n counts backward.
fn eval_take_the_nth(
    n: i64,
    not_immediate: bool,
    inner: &Constraint,
    anchor: &Moment,
    fwd: bool,
    count: usize,
) -> (r: Vec<Interval>)
    requires
        anchor.wf(),
        count <= 64,
    ensures
        stream_ok(r@, *anchor, fwd, count as int),
        stream_grain(r@, inner.grain_spec()),
        forall|i: int| 0 <= i < r@.len() ==> admits(*inner, #[trigger] r@[i]),
        n == 0 && !not_immediate && ((*inner) matches Constraint::Cycle(Grain::Second)) && fwd
            && count > 0 && anchor.index_spec() + 1 < max_second_index() ==> r@.len() > 0
            && r@[0].grain == Grain::Second && r@[0].start == *anchor && r@[0].end.index_spec()
            == anchor.index_spec() + 1,
        n == -1 && !not_immediate && ((*inner) matches Constraint::DayOfWeek(_)) && fwd ==> r@.len()
            == 0,
        (*inner) matches Constraint::DayOfWeek(w) ==> (n == -1 && !not_immediate && !fwd && count
            > 0 && anchor.date.index_spec() >= 7 ==> r@.len() > 0 && day_occurrence(r@[0], w)
            && anchor.date.index_spec() - r@[0].start.date.index_spec() == dow_back_delta(
            anchor.date.weekday_rank_spec(),
            w.rank_spec(),
        )),
        (*inner) matches Constraint::DayOfWeek(w) ==> (n == 0 && not_immediate && fwd && count > 0
            && anchor.date.index_spec() + 15 < max_day_index() ==> r@.len() > 0 && day_occurrence(
            r@[0],
            w,
        ) && r@[0].start.date.index_spec() - anchor.date.index_spec() == dow_forward_delta(
            anchor.date.weekday_rank_spec(),
            w.rank_spec(),
        )),
    decreases height(*inner), 2int,
{
    let mut out: Vec<Interval> = Vec::new();
    if count == 0 {
        return out;
    }
    if n >= 0 {
        if n > 60 {
            return out;
        }
        let cap = (n as usize) + 2;
        let list = eval(inner, anchor, true, cap);
        let mut idx = n as usize;
        let mut skipped = false;
        if not_immediate && list.len() > 0 {
            let first = list[0];
            if first.contains(anchor) {
                idx = idx + 1;
                skipped = true;
            }
        }
        if idx < list.len() {
            let chosen = list[idx];
            let dir_ok = if fwd {
                chosen.end.index() > anchor.index()
            } else {
                chosen.end.index() <= anchor.index()
            };
            if dir_ok {
                out.push(chosen);
            }
        }
        proof {
            if let Constraint::DayOfWeek(w) = *inner {
                if n == 0 && not_immediate && fwd && count > 0 && anchor.date.index_spec() + 15
                    < max_day_index() {
                    let delta0 = (w.rank_spec() + 7 - anchor.date.weekday_rank_spec()) % 7;
                    assert(list@.len() > 1);
                    assert(list@[0].start.date.index_spec() == anchor.date.index_spec() + delta0);
                    if skipped {
                        assert(list@[0].contains_spec(*anchor));
                        assert(list@[0].start.date.index_spec() * SECS_PER_DAY
                            <= anchor.index_spec());
                        assert(delta0 == 0);
                    } else {
                        assert(!list@[0].contains_spec(*anchor));
                        if delta0 == 0 {
                            assert(list@[0].start.index_spec() <= anchor.index_spec());
                            assert(anchor.index_spec() < list@[0].end.index_spec());
                            assert(false);
                        }
                    }
                }
            }
        }
        out
    } else {
        if n < -60 {
            return out;
        }
        let back = (-n) as usize;
        let list = eval(inner, anchor, false, back);
        if back <= list.len() {
            let chosen = list[back - 1];
            let dir_ok = if fwd {
                chosen.end.index() > anchor.index()
            } else {
                chosen.end.index() <= anchor.index()
            };
            if dir_ok {
                out.push(chosen);
            }
        }
        out
    }
}

/// The convex hull of the first n occurrences.
fn eval_take_n(
    n: i64,
    not_immediate: bool,
    inner: &Constraint,
    anchor: &Moment,
    fwd: bool,
    count: usize,
) -> (r: Vec<Interval>)
    requires
        anchor.wf(),
        count <= 64,
    ensures
        stream_ok(r@, *anchor, fwd, count as int),
        stream_grain(r@, inner.grain_spec()),
        forall|i: int|
            0 <= i < r@.len() ==> (#[trigger] r@[i]).grain == inner.grain_spec() && (exists|
                lo: Interval,
                hi: Interval,
            |
                admits(*inner, lo) && admits(*inner, hi) && r@[i].start == lo.start && r@[i].end
                    == hi.end),
    decreases height(*inner), 2int,
{
    let mut out: Vec<Interval> = Vec::new();
    if count == 0 || n <= 0 || n > 60 {
        return out;
    }
    let want = n as usize;
    let list = eval(inner, anchor, true, want + 1);
    let mut idx0: usize = 0;
    if not_immediate && list.len() > 0 {
        let first = list[0];
        if first.contains(anchor) {
            idx0 = 1;
        }
    }
    if idx0 + want <= list.len() {
        let lo = list[idx0];
        let hi = list[idx0 + want - 1];
        let iv = Interval { start: lo.start, end: hi.end, grain: lo.grain };
        let dir_ok = if fwd {
            iv.end.index() > anchor.index()
        } else {
            iv.end.index() <= anchor.index()
        };
        if dir_ok && lo.start.index() < hi.end.index() {
            proof {
                assert(admits(*inner, list@[idx0 as int]) && admits(
                    *inner,
                    list@[idx0 + want - 1],
                ));
            }
            out.push(iv);
        }
    }
    out
}

/// The n-th occurrence of `inner`, anchored at `base`'s first occurrence.
fn eval_nth_after(
    n: i64,
    not_immediate: bool,
    inner: &Constraint,
    base: &Constraint,
    anchor: &Moment,
    fwd: bool,
    count: usize,
) -> (r: Vec<Interval>)
    requires
        anchor.wf(),
        count <= 64,
        height(*inner) >= 1,
        height(*base) >= 1,
    ensures
        stream_ok(r@, *anchor, fwd, count as int),
        stream_grain(r@, inner.grain_spec()),
        forall|i: int| 0 <= i < r@.len() ==> admits(*inner, #[trigger] r@[i]),
    decreases height(*inner) + height(*base), 0int,
{
    let mut out: Vec<Interval> = Vec::new();
    if count == 0 || n > 60 || n < -60 {
        return out;
    }
    let blist = eval(base, anchor, true, 1);
    if blist.len() == 0 {
        return out;
    }
    let b0 = blist[0];
    let anchor2 = b0.start;
    let chosen_opt: Option<Interval> = if n >= 0 {
        let cap = (n as usize) + 2;
        let list = eval(inner, &anchor2, true, cap);
        let mut idx = n as usize;
        if not_immediate && list.len() > 0 {
            let first = list[0];
            if first.straddles(&anchor2) {
                idx = idx + 1;
            }
        }
        if idx < list.len() {
            Some(list[idx])
        } else {
            None
        }
    } else {
        let back = (-n) as usize;
        let list = eval(inner, &anchor2, false, back);
        if back <= list.len() {
            Some(list[back - 1])
        } else {
            None
        }
    };
    if let Some(chosen) = chosen_opt {
        let dir_ok = if fwd {
            chosen.end.index() > anchor.index()
        } else {
            chosen.end.index() <= anchor.index()
        };
        if dir_ok {
            out.push(chosen);
        }
    }
    out
}

/// Every occurrence translated by a period.
#[verifier::loop_isolation(false)]
fn eval_shift(c: &Constraint, anchor: &Moment, fwd: bool, count: usize) -> (r: Vec<Interval>)
    requires
        anchor.wf(),
        count <= 64,
        (*c) matches Constraint::ShiftBy { .. },
    ensures
        stream_ok(r@, *anchor, fwd, count as int),
        stream_grain(r@, c.grain_spec()),
        stream_admitted(*c, r@),
    decreases height(*c), 0int,
{
    let mut out: Vec<Interval> = Vec::new();
    if count == 0 {
        return out;
    }
    let (period, inner) = match c {
        Constraint::ShiftBy { period, inner } => (period, &**inner),
        _ => {
            proof {
                assert(false);
            }
            return out;
        },
    };
    proof {
        lemma_height_pos(*inner);
    }
    // a shift can move an occurrence across the anchor in either direction,
    // so walk the inner family both ways and keep what lands on the
    // requested side
    let mut list = eval(inner, anchor, true, count);
    let back = eval(inner, anchor, false, count);
    let mut bi: usize = 0;
    while bi < back.len()
        invariant
            bi <= back@.len(),
            forall|k: int| 0 <= k < back@.len() ==> (#[trigger] back@[k]).wf() && back@[k].proper(),
            forall|k: int| 0 <= k < list@.len() ==> (#[trigger] list@[k]).wf() && list@[k].proper(),
            stream_admitted(*inner, back@),
            stream_admitted(*inner, list@),
        decreases back@.len() - bi,
    {
        proof {
            assert(admits(*inner, back@[bi as int]));
        }
        list.push(back[bi]);
        bi = bi + 1;
    }
    let g2 = match period.finest_grain() {
        Some(g) => g,
        None => inner.grain(),
    };
    let mut i: usize = 0;
    while i < list.len()
        invariant
            i <= list@.len(),
            forall|k: int| 0 <= k < list@.len() ==> (#[trigger] list@[k]).wf() && list@[k].proper(),
            stream_admitted(*inner, list@),
            g2 == c.grain_spec(),
            stream_ok(out@, *anchor, fwd, count as int),
            stream_grain(out@, g2),
            stream_admitted(*c, out@),
        decreases list@.len() - i,
    {
        let iv = list[i];
        if let Some(s2) = shift_moment(&iv.start, period) {
            if let Some(e2) = grain_add_one(&s2, g2) {
                let iv2 = Interval { start: s2, end: e2, grain: g2 };
                let dir_ok = if fwd {
                    iv2.end.index() > anchor.index()
                } else {
                    iv2.end.index() <= anchor.index()
                };
                if dir_ok && out.len() < count {
                    proof {
                        assert(admits(*inner, list@[i as int]));
                        assert(shifted_from(*period, list@[i as int], iv2, inner.grain_spec()));
                        assert(admits(*c, iv2));
                    }
                    out.push(iv2);
                }
            }
        }
        i = i + 1;
    }
    out
}

/// The span from `from`'s occurrence to `to`'s.
#[verifier::loop_isolation(false)]
fn eval_span(
    inclusive: bool,
    from: &Constraint,
    to: &Constraint,
    anchor: &Moment,
    fwd: bool,
    count: usize,
) -> (r: Vec<Interval>)
    requires
        anchor.wf(),
        count <= 64,
        height(*from) >= 1,
        height(*to) >= 1,
    ensures
        stream_ok(r@, *anchor, fwd, count as int),
        stream_grain(r@, from.grain_spec()),
        forall|i: int|
            0 <= i < r@.len() ==> (#[trigger] r@[i]).grain == from.grain_spec() && (exists|
                f: Interval,
                t: Interval,
            |
                admits(*from, f) && admits(*to, t) && r@[i].start == f.start && t.start.index_spec()
                    >= f.start.index_spec() && r@[i].end == (if inclusive {
                    t.end
                } else {
                    t.start
                })),
    decreases height(*from) + height(*to), 0int,
{
    let mut out: Vec<Interval> = Vec::new();
    if count == 0 {
        return out;
    }
    let flist = eval(from, anchor, true, 1);
    if flist.len() == 0 {
        return out;
    }
    let f0 = flist[0];
    let tlist = eval(to, &f0.start, true, 4);
    let mut ti: usize = 0;
    while ti < tlist.len()
        invariant
            ti <= tlist@.len(),
            f0.wf(),
            f0.grain == from.grain_spec(),
            admits(*from, f0),
            forall|k: int| 0 <= k < tlist@.len() ==> (#[trigger] tlist@[k]).wf()
                && tlist@[k].proper(),
            stream_admitted(*to, tlist@),
            stream_ok(out@, *anchor, fwd, count as int),
            stream_grain(out@, from.grain_spec()),
            out@.len() <= 1,
            forall|j: int|
                0 <= j < out@.len() ==> (#[trigger] out@[j]).grain == from.grain_spec() && (exists|
                    f: Interval,
                    t: Interval,
                |
                    admits(*from, f) && admits(*to, t) && out@[j].start == f.start
                        && t.start.index_spec() >= f.start.index_spec() && out@[j].end == (
                    if inclusive {
                        t.end
                    } else {
                        t.start
                    })),
        decreases tlist@.len() - ti,
    {
        let t = tlist[ti];
        if t.start.index() >= f0.start.index() {
            let e = if inclusive {
                t.end
            } else {
                t.start
            };
            let iv = Interval { start: f0.start, end: e, grain: f0.grain };
            let dir_ok = if fwd {
                iv.end.index() > anchor.index()
            } else {
                iv.end.index() <= anchor.index()
            };
            if dir_ok && iv.start.index() < iv.end.index() && out.len() == 0 {
                proof {
                    assert(admits(*to, tlist@[ti as int]));
                }
                out.push(iv);
            }
            ti = tlist.len();
        } else {
            ti = ti + 1;
        }
    }
    out
}

/// The last occurrence of `inner` contained in `base`'s occurrence.
#[verifier::loop_isolation(false)]
fn eval_last_of(inner: &Constraint, base: &Constraint, anchor: &Moment, fwd: bool, count: usize) -> (
    r: Vec<Interval>)
    requires
        anchor.wf(),
        count <= 64,
        height(*inner) >= 1,
        height(*base) >= 1,
    ensures
        stream_ok(r@, *anchor, fwd, count as int),
        stream_grain(r@, inner.grain_spec()),
        forall|i: int| 0 <= i < r@.len() ==> admits(*inner, #[trigger] r@[i]),
    decreases height(*inner) + height(*base), 0int,
{
    let mut out: Vec<Interval> = Vec::new();
    if count == 0 {
        return out;
    }
    let blist = eval(base, anchor, true, 1);
    if blist.len() == 0 {
        return out;
    }
    let b0 = blist[0];
    let cands = eval(inner, &b0.end, false, 40);
    let mut ci: usize = 0;
    while ci < cands.len()
        invariant
            ci <= cands@.len(),
            b0.wf(),
            forall|k: int| 0 <= k < cands@.len() ==> (#[trigger] cands@[k]).wf()
                && cands@[k].proper(),
            stream_grain(cands@, inner.grain_spec()),
            stream_admitted(*inner, cands@),
            stream_ok(out@, *anchor, fwd, count as int),
            stream_grain(out@, inner.grain_spec()),
            forall|k: int| 0 <= k < out@.len() ==> admits(*inner, #[trigger] out@[k]),
            out@.len() <= 1,
        decreases cands@.len() - ci,
    {
        let cv = cands[ci];
        if cv.start.index() >= b0.start.index() && cv.end.index() <= b0.end.index() {
            let dir_ok = if fwd {
                cv.end.index() > anchor.index()
            } else {
                cv.end.index() <= anchor.index()
            };
            if dir_ok && out.len() == 0 {
                out.push(cv);
            }
            ci = cands.len();
        } else {
            ci = ci + 1;
        }
    }
    out
}

/// Easter day of the year of each occurrence of `inner`.
#[verifier::loop_isolation(false)]
fn eval_easter(inner: &Constraint, anchor: &Moment, fwd: bool, count: usize) -> (r: Vec<Interval>)
    requires
        anchor.wf(),
        count <= 64,
    ensures
        stream_ok(r@, *anchor, fwd, count as int),
        stream_grain(r@, Grain::Day),
        forall|i: int|
            0 <= i < r@.len() ==> cycle_unit(Grain::Day, #[trigger] r@[i]) && ({
                let (mo, dy) = crate::moment::easter_calc(r@[i].start.date.year as int);
                r@[i].start.date.month == mo && r@[i].start.date.day == dy
            }),
    decreases height(*inner), 2int,
{
    let mut out: Vec<Interval> = Vec::new();
    if count == 0 {
        return out;
    }
    let list = eval(inner, anchor, fwd, count);
    let mut i: usize = 0;
    while i < list.len()
        invariant
            i <= list@.len(),
            forall|k: int| 0 <= k < list@.len() ==> (#[trigger] list@[k]).wf() && list@[k].proper(),
            stream_ok(out@, *anchor, fwd, count as int),
            stream_grain(out@, Grain::Day),
            forall|k: int|
                0 <= k < out@.len() ==> cycle_unit(Grain::Day, #[trigger] out@[k]) && ({
                    let (mo, dy) = crate::moment::easter_calc(out@[k].start.date.year as int);
                    out@[k].start.date.month == mo && out@[k].start.date.day == dy
                }),
        decreases list@.len() - i,
    {
        let iv = list[i];
        let y = iv.start.date.year;
        let (mo, dy) = easter_month_day(y);
        let d = Date { year: y, month: mo, day: dy };
        if let Some(eiv) = containing_interval(&Moment::midnight(d), Grain::Day) {
            let dir_ok = if fwd {
                eiv.end.index() > anchor.index()
            } else {
                eiv.end.index() <= anchor.index()
            };
            if dir_ok && out.len() < count {
                proof {
                    assert(eiv.start.date == d);
                }
                out.push(eiv);
            }
        }
        i = i + 1;
    }
    out
}

/// Resolve a constraint against a reference instant: the nearest occurrence,
/// preferring the present or future one, else the most recent past one.
pub fn resolve_constraint(c: &Constraint, reference: &Moment) -> (r: Option<Interval>)
    requires
        reference.wf(),
    ensures
        r matches Some(iv) ==> iv.wf(),
        r matches Some(iv) ==> iv.grain == c.grain_spec(),
        now_shape(*c) && reference.index_spec() + 1 < max_second_index() ==> (r matches Some(iv)
            && iv.grain == Grain::Second && iv.contains_spec(*reference)),
        last_dow_shape(*c) && reference.date.index_spec() >= 7 ==> (r matches Some(iv)
            && day_occurrence(iv, dow_of(*c)) && reference.date.index_spec()
            - iv.start.date.index_spec() == dow_back_delta(
            reference.date.weekday_rank_spec(),
            dow_of(*c).rank_spec(),
        )),
        next_dow_shape(*c) && reference.date.index_spec() + 15 < max_day_index() ==> (r matches
            Some(iv) && day_occurrence(iv, dow_of(*c)) && iv.start.date.index_spec()
            - reference.date.index_spec() == dow_forward_delta(
            reference.date.weekday_rank_spec(),
            dow_of(*c).rank_spec(),
        )),
{
    let f = eval(c, reference, true, 1);
    if f.len() > 0 {
        let iv = f[0];
        return Some(iv);
    }
    let b = eval(c, reference, false, 1);
    if b.len() > 0 {
        let iv = b[0];
        return Some(iv);
    }
    None
}

} // verus!
