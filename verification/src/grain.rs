//! Calendar granularities, weekdays, and value precision.

use vstd::prelude::*;

verus! {

/// Calendar granularity, ordered from finest to coarsest:
/// Second < Minute < Hour < Day < Week < Month < Quarter < Year.
#[derive(Clone, Copy, Debug, PartialEq, Eq, Structural)]
pub enum Grain {
    Second,
    Minute,
    Hour,
    Day,
    Week,
    Month,
    Quarter,
    Year,
}

impl Grain {
    /// Rank in the fine-to-coarse order: Second is 0, Year is 7.
    pub open spec fn rank_spec(self) -> int {
        match self {
            Grain::Second => 0,
            Grain::Minute => 1,
            Grain::Hour => 2,
            Grain::Day => 3,
            Grain::Week => 4,
            Grain::Month => 5,
            Grain::Quarter => 6,
            Grain::Year => 7,
        }
    }

    pub fn rank(self) -> (r: u32)
        ensures
            r == self.rank_spec(),
    {
        match self {
            Grain::Second => 0,
            Grain::Minute => 1,
            Grain::Hour => 2,
            Grain::Day => 3,
            Grain::Week => 4,
            Grain::Month => 5,
            Grain::Quarter => 6,
            Grain::Year => 7,
        }
    }

    /// The finer of two grains.
    pub open spec fn finer_spec(self, other: Grain) -> Grain {
        if self.rank_spec() <= other.rank_spec() {
            self
        } else {
            other
        }
    }

    pub fn finer(self, other: Grain) -> (r: Grain)
        ensures
            r == self.finer_spec(other),
    {
        if self.rank() <= other.rank() {
            self
        } else {
            other
        }
    }

    /// Half of one period of this grain, expressed at a finer grain;
    /// undefined for the finest grain (a half second is not representable).
    pub open spec fn half_period_spec(self) -> Option<(Grain, i64)> {
        match self {
            Grain::Second => None,
            Grain::Minute => Some((Grain::Second, 30i64)),
            Grain::Hour => Some((Grain::Minute, 30i64)),
            Grain::Day => Some((Grain::Hour, 12i64)),
            Grain::Week => Some((Grain::Day, 3i64)),
            Grain::Month => Some((Grain::Day, 15i64)),
            Grain::Quarter => Some((Grain::Day, 45i64)),
            Grain::Year => Some((Grain::Month, 6i64)),
        }
    }

    pub fn half_period(self) -> (r: Option<(Grain, i64)>)
        ensures
            r == self.half_period_spec(),
    {
        match self {
            Grain::Second => None,
            Grain::Minute => Some((Grain::Second, 30i64)),
            Grain::Hour => Some((Grain::Minute, 30i64)),
            Grain::Day => Some((Grain::Hour, 12i64)),
            Grain::Week => Some((Grain::Day, 3i64)),
            Grain::Month => Some((Grain::Day, 15i64)),
            Grain::Quarter => Some((Grain::Day, 45i64)),
            Grain::Year => Some((Grain::Month, 6i64)),
        }
    }
}

/// Day of the week, Monday first.
#[derive(Clone, Copy, Debug, PartialEq, Eq, Structural)]
pub enum Weekday {
    Mon,
    Tue,
    Wed,
    Thu,
    Fri,
    Sat,
    Sun,
}

impl Weekday {
    /// Rank with Monday as 0 and Sunday as 6.
    pub open spec fn rank_spec(self) -> int {
        match self {
            Weekday::Mon => 0,
            Weekday::Tue => 1,
            Weekday::Wed => 2,
            Weekday::Thu => 3,
            Weekday::Fri => 4,
            Weekday::Sat => 5,
            Weekday::Sun => 6,
        }
    }

    pub fn rank(self) -> (r: u32)
        ensures
            r == self.rank_spec(),
    {
        match self {
            Weekday::Mon => 0,
            Weekday::Tue => 1,
            Weekday::Wed => 2,
            Weekday::Thu => 3,
            Weekday::Fri => 4,
            Weekday::Sat => 5,
            Weekday::Sun => 6,
        }
    }
}

/// Whether a value was given exactly or only approximately.
#[derive(Clone, Copy, Debug, PartialEq, Eq, Structural)]
pub enum Precision {
    Approximate,
    Exact,
}

/// How two precision annotations combine: Approximate absorbs everything,
/// otherwise the combination is Exact.
pub open spec fn precision_resolution_spec(lhs: Precision, rhs: Precision) -> Precision {
    if lhs == Precision::Approximate || rhs == Precision::Approximate {
        Precision::Approximate
    } else {
        Precision::Exact
    }
}

pub fn precision_resolution(lhs: Precision, rhs: Precision) -> (r: Precision)
    ensures
        r == precision_resolution_spec(lhs, rhs),
{
    if lhs == Precision::Approximate || rhs == Precision::Approximate {
        Precision::Approximate
    } else {
        Precision::Exact
    }
}

/// Combining precisions is commutative, and Approximate absorbs any operand.
pub proof fn lemma_precision_resolution_laws(a: Precision, b: Precision)
    ensures
        precision_resolution_spec(a, b) == precision_resolution_spec(b, a),
        precision_resolution_spec(Precision::Approximate, b) == Precision::Approximate,
        precision_resolution_spec(a, Precision::Approximate) == Precision::Approximate,
        a == Precision::Exact && b == Precision::Exact ==> precision_resolution_spec(a, b)
            == Precision::Exact,
{
}

} // verus!
