//! Periods: bags of (granularity -> signed count) components, closed under
//! addition and negation.

use vstd::prelude::*;
use crate::grain::Grain;

verus! {

/// A period holds one signed component per granularity. Adding periods adds
/// componentwise; the order of addition never matters.
#[derive(Clone, Copy, Debug, PartialEq, Eq, Structural)]
pub struct Period {
    pub seconds: i64,
    pub minutes: i64,
    pub hours: i64,
    pub days: i64,
    pub weeks: i64,
    pub months: i64,
    pub quarters: i64,
    pub years: i64,
}

/// What componentwise addition of periods yields: the per-grain sums, or
/// nothing when some sum leaves the i64 range.
pub open spec fn period_plus_spec(a: Period, b: Period) -> Option<Period> {
    if Period::plus_sums_ok(a, b) {
        Some(
            Period {
                seconds: (a.seconds + b.seconds) as i64,
                minutes: (a.minutes + b.minutes) as i64,
                hours: (a.hours + b.hours) as i64,
                days: (a.days + b.days) as i64,
                weeks: (a.weeks + b.weeks) as i64,
                months: (a.months + b.months) as i64,
                quarters: (a.quarters + b.quarters) as i64,
                years: (a.years + b.years) as i64,
            },
        )
    } else {
        None
    }
}

/// What componentwise negation yields, or nothing when a component is
/// i64::MIN.
pub open spec fn period_neg_spec(a: Period) -> Option<Period> {
    if Period::neg_ok(a) {
        Some(
            Period {
                seconds: (-a.seconds) as i64,
                minutes: (-a.minutes) as i64,
                hours: (-a.hours) as i64,
                days: (-a.days) as i64,
                weeks: (-a.weeks) as i64,
                months: (-a.months) as i64,
                quarters: (-a.quarters) as i64,
                years: (-a.years) as i64,
            },
        )
    } else {
        None
    }
}

impl Period {
    /// The component for one grain.
    pub open spec fn comp_spec(self, g: Grain) -> int {
        match g {
            Grain::Second => self.seconds as int,
            Grain::Minute => self.minutes as int,
            Grain::Hour => self.hours as int,
            Grain::Day => self.days as int,
            Grain::Week => self.weeks as int,
            Grain::Month => self.months as int,
            Grain::Quarter => self.quarters as int,
            Grain::Year => self.years as int,
        }
    }

    pub open spec fn is_empty_spec(self) -> bool {
        forall|g: Grain| self.comp_spec(g) == 0
    }

    /// The empty period.
    pub fn empty() -> (r: Period)
        ensures
            r == (Period {
                seconds: 0,
                minutes: 0,
                hours: 0,
                days: 0,
                weeks: 0,
                months: 0,
                quarters: 0,
                years: 0,
            }),
            forall|g: Grain| r.comp_spec(g) == 0,
    {
        Period {
            seconds: 0,
            minutes: 0,
            hours: 0,
            days: 0,
            weeks: 0,
            months: 0,
            quarters: 0,
            years: 0,
        }
    }

    /// A period with a single component, as a value.
    pub open spec fn single_spec(g: Grain, n: i64) -> Period {
        let zero = Period {
            seconds: 0,
            minutes: 0,
            hours: 0,
            days: 0,
            weeks: 0,
            months: 0,
            quarters: 0,
            years: 0,
        };
        match g {
            Grain::Second => Period { seconds: n, ..zero },
            Grain::Minute => Period { minutes: n, ..zero },
            Grain::Hour => Period { hours: n, ..zero },
            Grain::Day => Period { days: n, ..zero },
            Grain::Week => Period { weeks: n, ..zero },
            Grain::Month => Period { months: n, ..zero },
            Grain::Quarter => Period { quarters: n, ..zero },
            Grain::Year => Period { years: n, ..zero },
        }
    }

    /// A period with a single component.
    pub fn single(g: Grain, n: i64) -> (r: Period)
        ensures
            r == Period::single_spec(g, n),
            r.comp_spec(g) == n as int,
            forall|h: Grain| h != g ==> r.comp_spec(h) == 0,
    {
        let zero = Period::empty();
        let p = match g {
            Grain::Second => Period { seconds: n, ..zero },
            Grain::Minute => Period { minutes: n, ..zero },
            Grain::Hour => Period { hours: n, ..zero },
            Grain::Day => Period { days: n, ..zero },
            Grain::Week => Period { weeks: n, ..zero },
            Grain::Month => Period { months: n, ..zero },
            Grain::Quarter => Period { quarters: n, ..zero },
            Grain::Year => Period { years: n, ..zero },
        };
        assert forall|h: Grain| h != g implies p.comp_spec(h) == 0 by {
            assert(zero.comp_spec(h) == 0);
            match h {
                Grain::Second => {},
                Grain::Minute => {},
                Grain::Hour => {},
                Grain::Day => {},
                Grain::Week => {},
                Grain::Month => {},
                Grain::Quarter => {},
                Grain::Year => {},
            }
        }
        p
    }

    /// What componentwise addition yields: the per-grain sums, or nothing
    /// when some sum leaves the i64 range.
    pub open spec fn plus_sums_ok(a: Period, b: Period) -> bool {
        forall|g: Grain|
            i64::MIN <= #[trigger] a.comp_spec(g) + b.comp_spec(g) <= i64::MAX
    }

    /// What componentwise negation yields: every component negated, or
    /// nothing when a component is i64::MIN.
    pub open spec fn neg_ok(a: Period) -> bool {
        forall|g: Grain| (#[trigger] a.comp_spec(g)) != i64::MIN
    }

    /// Componentwise sum; None when a component overflows.
    pub fn plus(&self, other: &Period) -> (r: Option<Period>)
        ensures
            r == period_plus_spec(*self, *other),
            r matches Some(p) ==> forall|g: Grain| p.comp_spec(g) == self.comp_spec(g)
                + other.comp_spec(g),
            r is Some <==> Period::plus_sums_ok(*self, *other),
    {
        let s = self.seconds.checked_add(other.seconds);
        let mi = self.minutes.checked_add(other.minutes);
        let h = self.hours.checked_add(other.hours);
        let d = self.days.checked_add(other.days);
        let w = self.weeks.checked_add(other.weeks);
        let mo = self.months.checked_add(other.months);
        let q = self.quarters.checked_add(other.quarters);
        let y = self.years.checked_add(other.years);
        match (s, mi, h, d, w, mo, q, y) {
            (
                Some(s),
                Some(mi),
                Some(h),
                Some(d),
                Some(w),
                Some(mo),
                Some(q),
                Some(y),
            ) => {
                let p = Period {
                    seconds: s,
                    minutes: mi,
                    hours: h,
                    days: d,
                    weeks: w,
                    months: mo,
                    quarters: q,
                    years: y,
                };
                assert forall|g: Grain| p.comp_spec(g) == self.comp_spec(g)
                    + other.comp_spec(g) by {
                    match g {
                        Grain::Second => {},
                        Grain::Minute => {},
                        Grain::Hour => {},
                        Grain::Day => {},
                        Grain::Week => {},
                        Grain::Month => {},
                        Grain::Quarter => {},
                        Grain::Year => {},
                    }
                }
                assert forall|g: Grain|
                    i64::MIN <= #[trigger] self.comp_spec(g) + other.comp_spec(g)
                        <= i64::MAX by {
                    assert(p.comp_spec(g) == self.comp_spec(g) + other.comp_spec(g));
                }
                Some(p)
            },
            _ => {
                proof {
                    if s is None {
                        assert(self.comp_spec(Grain::Second) + other.comp_spec(Grain::Second)
                            > i64::MAX || self.comp_spec(Grain::Second) + other.comp_spec(
                            Grain::Second,
                        ) < i64::MIN);
                    } else if mi is None {
                        assert(self.comp_spec(Grain::Minute) + other.comp_spec(Grain::Minute)
                            > i64::MAX || self.comp_spec(Grain::Minute) + other.comp_spec(
                            Grain::Minute,
                        ) < i64::MIN);
                    } else if h is None {
                        assert(self.comp_spec(Grain::Hour) + other.comp_spec(Grain::Hour)
                            > i64::MAX || self.comp_spec(Grain::Hour) + other.comp_spec(Grain::Hour)
                            < i64::MIN);
                    } else if d is None {
                        assert(self.comp_spec(Grain::Day) + other.comp_spec(Grain::Day) > i64::MAX
                            || self.comp_spec(Grain::Day) + other.comp_spec(Grain::Day)
                            < i64::MIN);
                    } else if w is None {
                        assert(self.comp_spec(Grain::Week) + other.comp_spec(Grain::Week)
                            > i64::MAX || self.comp_spec(Grain::Week) + other.comp_spec(Grain::Week)
                            < i64::MIN);
                    } else if mo is None {
                        assert(self.comp_spec(Grain::Month) + other.comp_spec(Grain::Month)
                            > i64::MAX || self.comp_spec(Grain::Month) + other.comp_spec(
                            Grain::Month,
                        ) < i64::MIN);
                    } else if q is None {
                        assert(self.comp_spec(Grain::Quarter) + other.comp_spec(Grain::Quarter)
                            > i64::MAX || self.comp_spec(Grain::Quarter) + other.comp_spec(
                            Grain::Quarter,
                        ) < i64::MIN);
                    } else {
                        assert(self.comp_spec(Grain::Year) + other.comp_spec(Grain::Year)
                            > i64::MAX || self.comp_spec(Grain::Year) + other.comp_spec(Grain::Year)
                            < i64::MIN);
                    }
                }
                None
            },
        }
    }

    /// Componentwise negation; None exactly when a component is i64::MIN.
    pub fn negated(&self) -> (r: Option<Period>)
        ensures
            r == period_neg_spec(*self),
            r matches Some(p) ==> forall|g: Grain| p.comp_spec(g) == -self.comp_spec(g),
            r is Some <==> Period::neg_ok(*self),
    {
        let s = (0i64).checked_sub(self.seconds);
        let mi = (0i64).checked_sub(self.minutes);
        let h = (0i64).checked_sub(self.hours);
        let d = (0i64).checked_sub(self.days);
        let w = (0i64).checked_sub(self.weeks);
        let mo = (0i64).checked_sub(self.months);
        let q = (0i64).checked_sub(self.quarters);
        let y = (0i64).checked_sub(self.years);
        match (s, mi, h, d, w, mo, q, y) {
            (
                Some(s),
                Some(mi),
                Some(h),
                Some(d),
                Some(w),
                Some(mo),
                Some(q),
                Some(y),
            ) => {
                let p = Period {
                    seconds: s,
                    minutes: mi,
                    hours: h,
                    days: d,
                    weeks: w,
                    months: mo,
                    quarters: q,
                    years: y,
                };
                assert forall|g: Grain| p.comp_spec(g) == -self.comp_spec(g) by {
                    match g {
                        Grain::Second => {},
                        Grain::Minute => {},
                        Grain::Hour => {},
                        Grain::Day => {},
                        Grain::Week => {},
                        Grain::Month => {},
                        Grain::Quarter => {},
                        Grain::Year => {},
                    }
                }
                assert forall|g: Grain| (#[trigger] self.comp_spec(g)) != i64::MIN by {
                    assert(p.comp_spec(g) == -self.comp_spec(g));
                }
                Some(p)
            },
            _ => {
                proof {
                    if s is None {
                        assert(self.comp_spec(Grain::Second) == i64::MIN);
                    } else if mi is None {
                        assert(self.comp_spec(Grain::Minute) == i64::MIN);
                    } else if h is None {
                        assert(self.comp_spec(Grain::Hour) == i64::MIN);
                    } else if d is None {
                        assert(self.comp_spec(Grain::Day) == i64::MIN);
                    } else if w is None {
                        assert(self.comp_spec(Grain::Week) == i64::MIN);
                    } else if mo is None {
                        assert(self.comp_spec(Grain::Month) == i64::MIN);
                    } else if q is None {
                        assert(self.comp_spec(Grain::Quarter) == i64::MIN);
                    } else {
                        assert(self.comp_spec(Grain::Year) == i64::MIN);
                    }
                }
                None
            },
        }
    }

    /// The finest grain with a non-zero component, if any.
    pub open spec fn finest_grain_spec(self) -> Option<Grain> {
        if self.seconds != 0 {
            Some(Grain::Second)
        } else if self.minutes != 0 {
            Some(Grain::Minute)
        } else if self.hours != 0 {
            Some(Grain::Hour)
        } else if self.days != 0 {
            Some(Grain::Day)
        } else if self.weeks != 0 {
            Some(Grain::Week)
        } else if self.months != 0 {
            Some(Grain::Month)
        } else if self.quarters != 0 {
            Some(Grain::Quarter)
        } else if self.years != 0 {
            Some(Grain::Year)
        } else {
            None
        }
    }

    pub fn finest_grain(&self) -> (r: Option<Grain>)
        ensures
            r == self.finest_grain_spec(),
    {
        if self.seconds != 0 {
            Some(Grain::Second)
        } else if self.minutes != 0 {
            Some(Grain::Minute)
        } else if self.hours != 0 {
            Some(Grain::Hour)
        } else if self.days != 0 {
            Some(Grain::Day)
        } else if self.weeks != 0 {
            Some(Grain::Week)
        } else if self.months != 0 {
            Some(Grain::Month)
        } else if self.quarters != 0 {
            Some(Grain::Quarter)
        } else if self.years != 0 {
            Some(Grain::Year)
        } else {
            None
        }
    }
}

/// Adding periods whose non-zero grains are disjoint preserves every
/// component of both operands: the sum holds each side's components
/// unchanged wherever the other side is zero.
pub proof fn lemma_period_disjoint_add(a: Period, b: Period, sum: Period)
    requires
        forall|g: Grain| sum.comp_spec(g) == a.comp_spec(g) + b.comp_spec(g),
        forall|g: Grain| a.comp_spec(g) == 0 || b.comp_spec(g) == 0,
    ensures
        forall|g: Grain| a.comp_spec(g) != 0 ==> sum.comp_spec(g) == a.comp_spec(g),
        forall|g: Grain| b.comp_spec(g) != 0 ==> sum.comp_spec(g) == b.comp_spec(g),
{
}

} // verus!
