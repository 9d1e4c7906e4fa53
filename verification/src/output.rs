//! Resolved output values, the output-kind filter, and the resolver that
//! turns parsed values into concrete outputs against a reference instant.

use vstd::prelude::*;
use crate::constraint::{dow_back_delta, dow_forward_delta, dow_of, last_dow_shape, next_dow_shape, now_shape};
use crate::eval::resolve_constraint;
use crate::grain::{Grain, Precision};
use crate::moment::{max_day_index, max_second_index, Moment};
use crate::period::Period;
use crate::values::{
    BoundedDirection,
    Dec,
    Dimension,
    MoneyUnit,
    TemperatureUnit,
    TimeValue,
};

verus! {

/// The caller's requested result categories, in preference order.
#[derive(Clone, Copy, Debug, PartialEq, Eq, Structural)]
pub enum OutputKind {
    Number,
    Ordinal,
    Percentage,
    Temperature,
    Duration,
    AmountOfMoney,
    Time,
    Date,
    DatePeriod,
    TimePeriod,
    DateTime,
    DateTimePeriod,
}

/// A concrete window in time: closed on both sides, or one-sided when a
/// directional marker applied.
#[derive(Clone, Copy, Debug, PartialEq, Eq, Structural)]
pub struct TimeOutput {
    pub start: Option<Moment>,
    pub end: Option<Moment>,
    pub grain: Grain,
    pub latent: bool,
}

/// A resolved value handed back to the caller.
#[derive(Clone, Copy, Debug, PartialEq, Eq, Structural)]
pub enum Output {
    Integer(i64),
    Float(Dec),
    Ordinal(i64),
    Duration(Period, Precision),
    Time(TimeOutput),
    AmountOfMoney(Dec, Option<MoneyUnit>, Precision),
    Temperature(Dec, Option<TemperatureUnit>),
    Percentage(Dec),
}

/// Whether a time value denotes a span of calendar time rather than a
/// single occurrence.
pub open spec fn is_period_like_spec(t: TimeValue) -> bool {
    match t.constraint {
        crate::constraint::Constraint::SpanTo { .. } => true,
        crate::constraint::Constraint::TakeN { .. } => true,
        _ => false,
    }
}

/// The refined output kind of a time value: date or time of day, single or
/// period.
pub open spec fn datetime_subkind_spec(t: TimeValue) -> OutputKind {
    let fine = t.constraint.grain_spec().rank_spec() < Grain::Day.rank_spec();
    if is_period_like_spec(t) {
        if fine {
            OutputKind::TimePeriod
        } else {
            OutputKind::DatePeriod
        }
    } else {
        if fine {
            OutputKind::Time
        } else {
            OutputKind::Date
        }
    }
}

pub fn datetime_subkind(t: &TimeValue) -> (r: OutputKind)
    ensures
        r == datetime_subkind_spec(*t),
{
    let period_like = match &t.constraint {
        crate::constraint::Constraint::SpanTo { .. } => true,
        crate::constraint::Constraint::TakeN { .. } => true,
        _ => false,
    };
    let fine = t.constraint.grain().rank() < Grain::Day.rank();
    if period_like {
        if fine {
            OutputKind::TimePeriod
        } else {
            OutputKind::DatePeriod
        }
    } else {
        if fine {
            OutputKind::Time
        } else {
            OutputKind::Date
        }
    }
}

/// Whether a parsed value falls under an output kind.
pub open spec fn match_dim_spec(k: OutputKind, d: Dimension) -> bool {
    match d {
        Dimension::Number(..) => k == OutputKind::Number,
        Dimension::Ordinal(..) => k == OutputKind::Ordinal,
        Dimension::Percentage(..) => k == OutputKind::Percentage,
        Dimension::Temperature(..) => k == OutputKind::Temperature,
        Dimension::Duration(..) => k == OutputKind::Duration,
        Dimension::AmountOfMoney(..) => k == OutputKind::AmountOfMoney,
        Dimension::Time(t) => k == datetime_subkind_spec(t) || (k == OutputKind::DateTime
            && !is_period_like_spec(t)) || (k == OutputKind::DateTimePeriod && is_period_like_spec(
            t,
        )),
        _ => false,
    }
}

pub fn match_dim(k: OutputKind, d: &Dimension) -> (r: bool)
    ensures
        r == match_dim_spec(k, *d),
{
    match d {
        Dimension::Number(..) => k == OutputKind::Number,
        Dimension::Ordinal(..) => k == OutputKind::Ordinal,
        Dimension::Percentage(..) => k == OutputKind::Percentage,
        Dimension::Temperature(..) => k == OutputKind::Temperature,
        Dimension::Duration(..) => k == OutputKind::Duration,
        Dimension::AmountOfMoney(..) => k == OutputKind::AmountOfMoney,
        Dimension::Time(t) => {
            let sub = datetime_subkind(t);
            let period_like = match &t.constraint {
                crate::constraint::Constraint::SpanTo { .. } => true,
                crate::constraint::Constraint::TakeN { .. } => true,
                _ => false,
            };
            k == sub || (k == OutputKind::DateTime && !period_like) || (k
                == OutputKind::DateTimePeriod && period_like)
        },
        _ => false,
    }
}

/// The parsing context: the reference instant all relative times resolve
/// against.
pub struct ResolverContext {
    pub reference: Moment,
}

impl ResolverContext {
    pub fn new(reference: Moment) -> (r: ResolverContext)
        ensures
            r.reference == reference,
    {
        ResolverContext { reference }
    }

    /// Resolve a parsed value to a concrete output; None when the value is
    /// not reportable or its constraint has no occurrence in reach.
    pub fn resolve(&self, d: &Dimension) -> (r: Option<Output>)
        requires
            self.reference.wf(),
        ensures
            d matches Dimension::Time(t) ==> ((now_shape(t.constraint) && t.direction is None
                && self.reference.index_spec() + 1 < max_second_index()) ==> (r matches Some(o)
                && o matches Output::Time(to) && to.grain == Grain::Second && (to.start matches
                Some(s) && s.index_spec() <= self.reference.index_spec()) && (to.end matches Some(e)
                && e.index_spec() > self.reference.index_spec()))),
            d matches Dimension::Time(t) ==> ((last_dow_shape(t.constraint) && t.direction is None
                && self.reference.date.index_spec() >= 7) ==> (r matches Some(o) && o matches
                Output::Time(to) && to.grain == Grain::Day && (to.start matches Some(s)
                && s.date.weekday_rank_spec() == dow_of(t.constraint).rank_spec()
                && self.reference.date.index_spec() - s.date.index_spec() == dow_back_delta(
                self.reference.date.weekday_rank_spec(),
                dow_of(t.constraint).rank_spec(),
            )))),
            d matches Dimension::Time(t) ==> ((next_dow_shape(t.constraint) && t.direction is None
                && self.reference.date.index_spec() + 15 < max_day_index()) ==> (r matches Some(o)
                && o matches Output::Time(to) && to.grain == Grain::Day && (to.start matches Some(s)
                && s.date.weekday_rank_spec() == dow_of(t.constraint).rank_spec()
                && s.date.index_spec() - self.reference.date.index_spec() == dow_forward_delta(
                self.reference.date.weekday_rank_spec(),
                dow_of(t.constraint).rank_spec(),
            )))),
    {
        match d {
            Dimension::Number(n) => match n {
                crate::values::NumberValue::Integer(iv) => Some(Output::Integer(iv.value)),
                crate::values::NumberValue::Float(fv) => Some(Output::Float(fv.value)),
            },
            Dimension::Ordinal(o) => Some(Output::Ordinal(o.value)),
            Dimension::Duration(dv) => Some(Output::Duration(dv.period, dv.precision)),
            Dimension::Time(t) => {
                let iv = match resolve_constraint(&t.constraint, &self.reference) {
                    Some(iv) => iv,
                    None => {
                        return None;
                    },
                };
                let to = match t.direction {
                    None => TimeOutput {
                        start: Some(iv.start),
                        end: Some(iv.end),
                        grain: iv.grain,
                        latent: t.latent,
                    },
                    Some(BoundedDirection::AfterStart) => TimeOutput {
                        start: Some(iv.start),
                        end: None,
                        grain: iv.grain,
                        latent: t.latent,
                    },
                    Some(BoundedDirection::AfterEnd) => TimeOutput {
                        start: Some(iv.end),
                        end: None,
                        grain: iv.grain,
                        latent: t.latent,
                    },
                    Some(BoundedDirection::BeforeStart) => TimeOutput {
                        start: None,
                        end: Some(iv.start),
                        grain: iv.grain,
                        latent: t.latent,
                    },
                    Some(BoundedDirection::BeforeEnd) => TimeOutput {
                        start: None,
                        end: Some(iv.end),
                        grain: iv.grain,
                        latent: t.latent,
                    },
                };
                Some(Output::Time(to))
            },
            Dimension::AmountOfMoney(a) => Some(
                Output::AmountOfMoney(a.value, a.unit, a.precision),
            ),
            Dimension::Temperature(t) => Some(Output::Temperature(t.value, t.unit)),
            Dimension::Percentage(p) => Some(Output::Percentage(p.value)),
            _ => None,
        }
    }
}

} // verus!
