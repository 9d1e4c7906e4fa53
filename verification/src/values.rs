//! The value model: the discriminated union of domain values the grammar
//! produces, with their attributes and forms.
//!
//! Fractional quantities are exact decimals: an integer mantissa with a
//! decimal scale, so `20.5` is mantissa 205 at scale 1.

use vstd::prelude::*;
use crate::constraint::Constraint;
use crate::grain::{Grain, Precision};
use crate::period::Period;

verus! {

/// A rule-local failure: the candidate is dropped, the parse goes on.
#[derive(Clone, Copy, Debug, PartialEq, Eq, Structural)]
pub enum RuleError {
    Invalid,
}

/// An exact decimal: `mantissa / 10^scale`.
#[derive(Clone, Copy, Debug, PartialEq, Eq, Structural)]
pub struct Dec {
    pub mantissa: i64,
    pub scale: u32,
}

/// Ten to the `e`-th.
pub open spec fn pow10_spec(e: nat) -> int
    decreases e,
{
    if e == 0 {
        1
    } else {
        10 * pow10_spec((e - 1) as nat)
    }
}

/// The rational a decimal denotes, scaled to a common denominator with `s`:
/// `d` and `e` denote the same quantity iff `cross(d, e.scale) == cross(e, d.scale)`.
pub open spec fn dec_cross(d: Dec, s: nat) -> int {
    d.mantissa * pow10_spec(s)
}

impl Dec {
    pub open spec fn wf(self) -> bool {
        self.scale <= 12
    }
}

/// Ten to the `e`-th, executable; None above the i64 range used here.
pub fn pow10(e: u32) -> (r: Option<i64>)
    ensures
        r matches Some(v) ==> v == pow10_spec(e as nat) && v >= 1,
        r is Some <==> e <= 18,
{
    let mut acc: i64 = 1;
    let mut i: u32 = 0;
    if e > 18 {
        return None;
    }
    while i < e
        invariant
            i <= e <= 18,
            acc == pow10_spec(i as nat),
            1 <= acc <= 1000000000000000000,
        decreases e - i,
    {
        proof {
            lemma_pow10_bound((i + 1) as nat);
            reveal_with_fuel(pow10_spec, 2);
        }
        acc = acc * 10;
        i = i + 1;
    }
    Some(acc)
}

proof fn lemma_pow10_bound(e: nat)
    requires
        e <= 18,
    ensures
        pow10_spec(e) <= 1000000000000000000,
    decreases e,
{
    if e > 0 {
        lemma_pow10_bound((e - 1) as nat);
        reveal_with_fuel(pow10_spec, 19);
    }
}

/// The mantissa a pair of decimals sums to at the coarser scale.
pub open spec fn dec_sum_mantissa(a: Dec, b: Dec) -> int {
    if a.scale >= b.scale {
        a.mantissa + b.mantissa * pow10_spec((a.scale - b.scale) as nat)
    } else {
        b.mantissa + a.mantissa * pow10_spec((b.scale - a.scale) as nat)
    }
}

/// The coarser of two scales.
pub open spec fn dec_max_scale(a: Dec, b: Dec) -> u32 {
    if a.scale >= b.scale {
        a.scale
    } else {
        b.scale
    }
}

/// What adding two decimals yields: the summed mantissa at the coarser
/// scale, or nothing when that mantissa leaves the i64 range.
pub open spec fn dec_add_spec(a: Dec, b: Dec) -> Option<Dec> {
    let s = dec_sum_mantissa(a, b);
    if s > i64::MAX || s < i64::MIN {
        None
    } else {
        Some(Dec { mantissa: s as i64, scale: dec_max_scale(a, b) })
    }
}

/// Sum of two decimals at the coarser of their scales' precision; None
/// exactly when the summed mantissa leaves the i64 range.
pub fn dec_add(a: Dec, b: Dec) -> (r: Option<Dec>)
    requires
        a.wf(),
        b.wf(),
    ensures
        r == dec_add_spec(a, b),
        r matches Some(c) ==> c.wf() && c.scale >= a.scale && c.scale >= b.scale && c.mantissa
            * pow10_spec((a.scale + b.scale - c.scale) as nat) == dec_cross(a, b.scale as nat)
            + dec_cross(b, a.scale as nat),
        r is None <==> dec_sum_mantissa(a, b) > i64::MAX || dec_sum_mantissa(a, b) < i64::MIN,
{
    let (hi, lo) = if a.scale >= b.scale {
        (a, b)
    } else {
        (b, a)
    };
    let f = match pow10(hi.scale - lo.scale) {
        Some(f) => f,
        None => {
            proof {
                assert(false);
            }
            return None;
        },
    };
    proof {
        lemma_pow10_within((hi.scale - lo.scale) as nat);
        assert((lo.mantissa as int) * (f as int) <= 10000000000000 * 10000000000000000000int && (
        lo.mantissa as int) * (f as int) >= -10000000000000 * 10000000000000000000int) by (
        nonlinear_arith)
            requires
                1 <= f <= 1000000000000,
                -10000000000000000000int <= lo.mantissa <= 10000000000000000000int,
        ;
    }
    let wide: i128 = (lo.mantissa as i128) * (f as i128);
    let sum: i128 = (hi.mantissa as i128) + wide;
    if sum > i64::MAX as i128 || sum < i64::MIN as i128 {
        return None;
    }
    let c = Dec { mantissa: sum as i64, scale: hi.scale };
    proof {
        let sa = a.scale as nat;
        let sb = b.scale as nat;
        let sc = c.scale as nat;
        let sl = if sa <= sb {
            sa
        } else {
            sb
        };
        assert(sa + sb - sc == sl);
        assert(c.mantissa == hi.mantissa + lo.mantissa * pow10_spec((sc - sl) as nat));
        assert((hi.mantissa + lo.mantissa * pow10_spec((sc - sl) as nat)) * pow10_spec(sl)
            == hi.mantissa * pow10_spec(sl) + lo.mantissa * pow10_spec((sc - sl) as nat)
            * pow10_spec(sl)) by (nonlinear_arith);
        lemma_pow10_add((sc - sl) as nat, sl);
        assert(lo.mantissa * pow10_spec((sc - sl) as nat) * pow10_spec(sl) == lo.mantissa
            * pow10_spec(sc)) by (nonlinear_arith)
            requires
                pow10_spec((sc - sl) as nat) * pow10_spec(sl) == pow10_spec(sc),
        ;
        assert(c.mantissa * pow10_spec(sl) == hi.mantissa * pow10_spec(sl) + lo.mantissa
            * pow10_spec(sc));
        if a.scale >= b.scale {
            assert(c.mantissa * pow10_spec(sl) == a.mantissa * pow10_spec(sb) + b.mantissa
                * pow10_spec(sa));
        } else {
            assert(c.mantissa * pow10_spec(sl) == b.mantissa * pow10_spec(sa) + a.mantissa
                * pow10_spec(sb));
        }
    }
    Some(c)
}

/// Powers of ten up to the twelfth stay within the i64 range used here.
proof fn lemma_pow10_within(e: nat)
    requires
        e <= 12,
    ensures
        1 <= pow10_spec(e) <= 1000000000000,
    decreases e,
{
    if e > 0 {
        lemma_pow10_within((e - 1) as nat);
        reveal_with_fuel(pow10_spec, 13);
    }
}

/// Powers of ten multiply by adding exponents.
pub proof fn lemma_pow10_add(x: nat, y: nat)
    ensures
        pow10_spec(x) * pow10_spec(y) == pow10_spec(x + y),
    decreases x,
{
    if x == 0 {
    } else {
        lemma_pow10_add((x - 1) as nat, y);
        assert(pow10_spec(x) * pow10_spec(y) == 10 * pow10_spec((x - 1) as nat) * pow10_spec(y))
            by (nonlinear_arith)
            requires
                pow10_spec(x) == 10 * pow10_spec((x - 1) as nat),
        ;
        assert(10 * pow10_spec((x - 1) as nat) * pow10_spec(y) == 10 * (pow10_spec((x - 1) as nat)
            * pow10_spec(y))) by (nonlinear_arith);
    }
}

/// An integer produced by the numbers grammar.
#[derive(Clone, Copy, Debug, PartialEq, Eq, Structural)]
pub struct IntegerValue {
    pub value: i64,
    /// Number of trailing decimal zeros the lexeme vouches for ("twenty" has
    /// grain 1, "hundred" grain 2), gating composition.
    pub grain: Option<u32>,
    /// Whether the lexeme was a group form like "a dozen".
    pub group: bool,
    pub prefixed: bool,
    pub suffixed: bool,
    pub precision: Precision,
}

impl IntegerValue {
    pub fn new(value: i64) -> (r: IntegerValue)
        ensures
            r == (IntegerValue {
                value,
                grain: None,
                group: false,
                prefixed: false,
                suffixed: false,
                precision: Precision::Exact,
            }),
    {
        IntegerValue {
            value,
            grain: None,
            group: false,
            prefixed: false,
            suffixed: false,
            precision: Precision::Exact,
        }
    }

    pub fn new_with_grain(value: i64, grain: u32) -> (r: IntegerValue)
        ensures
            r == (IntegerValue { grain: Some(grain), ..IntegerValue::spec_new(value) }),
    {
        IntegerValue { grain: Some(grain), ..IntegerValue::new(value) }
    }

    pub open spec fn spec_new(value: i64) -> IntegerValue {
        IntegerValue {
            value,
            grain: None,
            group: false,
            prefixed: false,
            suffixed: false,
            precision: Precision::Exact,
        }
    }
}

/// A fractional number, as an exact decimal.
#[derive(Clone, Copy, Debug, PartialEq, Eq, Structural)]
pub struct FloatValue {
    pub value: Dec,
    pub prefixed: bool,
    pub suffixed: bool,
    pub precision: Precision,
}

impl FloatValue {
    pub fn new(value: Dec) -> (r: FloatValue)
        ensures
            r == (FloatValue {
                value,
                prefixed: false,
                suffixed: false,
                precision: Precision::Exact,
            }),
    {
        FloatValue { value, prefixed: false, suffixed: false, precision: Precision::Exact }
    }
}

#[derive(Clone, Copy, Debug, PartialEq, Eq, Structural)]
pub enum NumberValue {
    Integer(IntegerValue),
    Float(FloatValue),
}

impl NumberValue {
    /// The numeric value as a decimal.
    pub open spec fn value_spec(self) -> Dec {
        match self {
            NumberValue::Integer(i) => Dec { mantissa: i.value, scale: 0 },
            NumberValue::Float(f) => f.value,
        }
    }

    pub fn value(&self) -> (r: Dec)
        ensures
            r == self.value_spec(),
    {
        match self {
            NumberValue::Integer(i) => Dec { mantissa: i.value, scale: 0 },
            NumberValue::Float(f) => f.value,
        }
    }

    /// The grain: digits the integer lexeme vouches for, 0 otherwise.
    pub open spec fn grain_spec(self) -> u32 {
        match self {
            NumberValue::Integer(i) => match i.grain {
                Some(g) => g,
                None => 0,
            },
            NumberValue::Float(..) => 0,
        }
    }

    pub fn grain_or_zero(&self) -> (r: u32)
        ensures
            r == self.grain_spec(),
    {
        match self {
            NumberValue::Integer(i) => match i.grain {
                Some(g) => g,
                None => 0,
            },
            NumberValue::Float(..) => 0,
        }
    }
}

/// An ordinal ("third", "21st").
#[derive(Clone, Copy, Debug, PartialEq, Eq, Structural)]
pub struct OrdinalValue {
    pub value: i64,
    pub grain: Option<u32>,
    pub prefixed: bool,
}

impl OrdinalValue {
    pub fn new(value: i64) -> (r: OrdinalValue)
        ensures
            r == (OrdinalValue { value, grain: None, prefixed: false }),
    {
        OrdinalValue { value, grain: None, prefixed: false }
    }

    pub fn new_with_grain(value: i64, grain: u32) -> (r: OrdinalValue)
        ensures
            r == (OrdinalValue { value, grain: Some(grain), prefixed: false }),
    {
        OrdinalValue { value, grain: Some(grain), prefixed: false }
    }
}

/// A bare unit of duration ("hour" in "three hours").
#[derive(Clone, Copy, Debug, PartialEq, Eq, Structural)]
pub struct UnitOfDurationValue {
    pub grain: Grain,
}

impl UnitOfDurationValue {
    pub fn new(grain: Grain) -> (r: UnitOfDurationValue)
        ensures
            r.grain == grain,
    {
        UnitOfDurationValue { grain }
    }
}

/// A repeating calendar unit ("week" in "next week").
#[derive(Clone, Copy, Debug, PartialEq, Eq, Structural)]
pub struct CycleValue {
    pub grain: Grain,
}

impl CycleValue {
    pub fn new(grain: Grain) -> (r: Result<CycleValue, RuleError>)
        ensures
            r matches Ok(c) && c.grain == grain,
    {
        Ok(CycleValue { grain })
    }
}

/// An amount of elapsed time, as a period.
#[derive(Clone, Copy, Debug, PartialEq, Eq, Structural)]
pub struct DurationValue {
    pub period: Period,
    pub precision: Precision,
    pub prefixed: bool,
    pub suffixed: bool,
}

impl DurationValue {
    pub fn new(period: Period) -> (r: DurationValue)
        ensures
            r == (DurationValue {
                period,
                precision: Precision::Exact,
                prefixed: false,
                suffixed: false,
            }),
    {
        DurationValue { period, precision: Precision::Exact, prefixed: false, suffixed: false }
    }

    pub fn prefixed(self) -> (r: DurationValue)
        ensures
            r == (DurationValue { prefixed: true, ..self }),
    {
        DurationValue { prefixed: true, ..self }
    }

    pub fn suffixed(self) -> (r: DurationValue)
        ensures
            r == (DurationValue { suffixed: true, ..self }),
    {
        DurationValue { suffixed: true, ..self }
    }

    pub fn precision(self, precision: Precision) -> (r: DurationValue)
        ensures
            r == (DurationValue { precision, ..self }),
    {
        DurationValue { precision, ..self }
    }

    /// Componentwise sum of the periods, keeping the combined precision;
    /// fails exactly when a component's sum leaves the i64 range.
    pub fn add(&self, other: &DurationValue) -> (r: Result<DurationValue, RuleError>)
        ensures
            r == (match crate::period::period_plus_spec(self.period, other.period) {
                Some(p) => Ok::<DurationValue, RuleError>(
                    DurationValue {
                        period: p,
                        precision: crate::grain::precision_resolution_spec(
                            self.precision,
                            other.precision,
                        ),
                        prefixed: false,
                        suffixed: false,
                    },
                ),
                None => Err(RuleError::Invalid),
            }),
            r matches Ok(d) ==> forall|g: Grain| d.period.comp_spec(g) == self.period.comp_spec(g)
                + other.period.comp_spec(g),
    {
        match self.period.plus(&other.period) {
            Some(p) => Ok(
                DurationValue {
                    period: p,
                    precision: crate::grain::precision_resolution(self.precision, other.precision),
                    prefixed: false,
                    suffixed: false,
                },
            ),
            None => Err(RuleError::Invalid),
        }
    }
}

/// The clock shape carried by a time-of-day form.
#[derive(Clone, Copy, Debug, PartialEq, Eq, Structural)]
pub enum TimeOfDayForm {
    Hour { full_hour: u32, is_12_clock: bool },
    HourMinute { full_hour: u32, minute: u32, is_12_clock: bool },
    HourMinuteSecond { full_hour: u32, minute: u32, second: u32, is_12_clock: bool },
}

impl TimeOfDayForm {
    pub fn hour(full_hour: u32, is_12_clock: bool) -> (r: TimeOfDayForm)
        ensures
            r == (TimeOfDayForm::Hour { full_hour, is_12_clock }),
    {
        TimeOfDayForm::Hour { full_hour, is_12_clock }
    }

    pub fn hour_minute(full_hour: u32, minute: u32, is_12_clock: bool) -> (r: TimeOfDayForm)
        ensures
            r == (TimeOfDayForm::HourMinute { full_hour, minute, is_12_clock }),
    {
        TimeOfDayForm::HourMinute { full_hour, minute, is_12_clock }
    }

    pub fn hour_minute_second(full_hour: u32, minute: u32, second: u32, is_12_clock: bool) -> (r:
        TimeOfDayForm)
        ensures
            r == (TimeOfDayForm::HourMinuteSecond { full_hour, minute, second, is_12_clock }),
    {
        TimeOfDayForm::HourMinuteSecond { full_hour, minute, second, is_12_clock }
    }
}

/// A month and day pair carried by a month/day form.
#[derive(Clone, Copy, Debug, PartialEq, Eq, Structural)]
pub struct MonthDayForm {
    pub month: u32,
    pub day_of_month: u32,
}

#[derive(Clone, Copy, Debug, PartialEq, Eq, Structural)]
pub enum PartOfDayForm {
    Morning,
    Afternoon,
    Evening,
    Night,
}

/// The grammatical role attached to a parsed time value.
#[derive(Clone, Copy, Debug, PartialEq, Eq, Structural)]
pub enum Form {
    Empty,
    Year(i64),
    Month(u32),
    DayOfMonth,
    DayOfWeek { not_immediate: bool },
    MonthDay(Option<MonthDayForm>),
    TimeOfDay(TimeOfDayForm),
    PartOfDay(PartOfDayForm),
    Meal,
    Cycle(Grain),
    Celebration,
    PartOfMonth,
}

/// Which side of the referenced interval a "before"/"after" marker bounds.
#[derive(Clone, Copy, Debug, PartialEq, Eq, Structural)]
pub enum BoundedDirection {
    AfterStart,
    AfterEnd,
    BeforeStart,
    BeforeEnd,
}

impl BoundedDirection {
    pub fn after_start() -> (r: BoundedDirection)
        ensures
            r == BoundedDirection::AfterStart,
    {
        BoundedDirection::AfterStart
    }

    pub fn after_end() -> (r: BoundedDirection)
        ensures
            r == BoundedDirection::AfterEnd,
    {
        BoundedDirection::AfterEnd
    }

    pub fn before_start() -> (r: BoundedDirection)
        ensures
            r == BoundedDirection::BeforeStart,
    {
        BoundedDirection::BeforeStart
    }

    pub fn before_end() -> (r: BoundedDirection)
        ensures
            r == BoundedDirection::BeforeEnd,
    {
        BoundedDirection::BeforeEnd
    }
}

/// A point or family of points in time, as a constraint plus bookkeeping.
#[derive(Debug, PartialEq, Eq)]
pub struct TimeValue {
    pub constraint: Constraint,
    pub form: Form,
    pub direction: Option<BoundedDirection>,
    pub precision: Precision,
    pub latent: bool,
}

impl Clone for TimeValue {
    fn clone(&self) -> (r: Self)
        ensures
            r == *self,
    {
        TimeValue {
            constraint: self.constraint.clone(),
            form: self.form,
            direction: self.direction,
            precision: self.precision,
            latent: self.latent,
        }
    }
}

/// A money unit code.
#[derive(Clone, Copy, Debug, PartialEq, Eq, Structural)]
pub enum MoneyUnit {
    Dollar,
    Cent,
    Euro,
    Pound,
    UsdCode,
    EurCode,
    GbpCode,
}

/// A bare currency marker awaiting an amount.
#[derive(Clone, Copy, Debug, PartialEq, Eq, Structural)]
pub struct MoneyUnitValue {
    pub unit: Option<MoneyUnit>,
}

#[derive(Clone, Copy, Debug, PartialEq, Eq, Structural)]
pub struct AmountOfMoneyValue {
    pub value: Dec,
    pub unit: Option<MoneyUnit>,
    pub precision: Precision,
}

impl AmountOfMoneyValue {
    pub fn new(value: Dec, unit: Option<MoneyUnit>) -> (r: AmountOfMoneyValue)
        ensures
            r == (AmountOfMoneyValue { value, unit, precision: Precision::Exact }),
    {
        AmountOfMoneyValue { value, unit, precision: Precision::Exact }
    }
}

#[derive(Clone, Copy, Debug, PartialEq, Eq, Structural)]
pub enum TemperatureUnit {
    Celsius,
    Fahrenheit,
    Kelvin,
    Degree,
}

#[derive(Clone, Copy, Debug, PartialEq, Eq, Structural)]
pub struct TemperatureValue {
    pub value: Dec,
    pub unit: Option<TemperatureUnit>,
    pub latent: bool,
}

#[derive(Clone, Copy, Debug, PartialEq, Eq, Structural)]
pub struct PercentageValue {
    pub value: Dec,
}

/// The discriminated union of everything the grammar can produce.
#[derive(Debug, PartialEq, Eq)]
pub enum Dimension {
    Number(NumberValue),
    Ordinal(OrdinalValue),
    UnitOfDuration(UnitOfDurationValue),
    Duration(DurationValue),
    Cycle(CycleValue),
    Time(TimeValue),
    MoneyUnit(MoneyUnitValue),
    AmountOfMoney(AmountOfMoneyValue),
    Temperature(TemperatureValue),
    Percentage(PercentageValue),
}

impl Clone for Dimension {
    fn clone(&self) -> (r: Self)
        ensures
            r == *self,
    {
        match self {
            Dimension::Number(n) => Dimension::Number(*n),
            Dimension::Ordinal(o) => Dimension::Ordinal(*o),
            Dimension::UnitOfDuration(u) => Dimension::UnitOfDuration(*u),
            Dimension::Duration(d) => Dimension::Duration(*d),
            Dimension::Cycle(c) => Dimension::Cycle(*c),
            Dimension::Time(t) => Dimension::Time(t.clone()),
            Dimension::MoneyUnit(u) => Dimension::MoneyUnit(*u),
            Dimension::AmountOfMoney(a) => Dimension::AmountOfMoney(*a),
            Dimension::Temperature(t) => Dimension::Temperature(*t),
            Dimension::Percentage(p) => Dimension::Percentage(*p),
        }
    }
}

/// The kind tag of a dimension, for filtering and sorting.
#[derive(Clone, Copy, Debug, PartialEq, Eq, Structural)]
pub enum DimensionKind {
    Number,
    Ordinal,
    UnitOfDuration,
    Duration,
    Cycle,
    Time,
    MoneyUnit,
    AmountOfMoney,
    Temperature,
    Percentage,
}

impl Dimension {
    pub open spec fn kind_spec(self) -> DimensionKind {
        match self {
            Dimension::Number(..) => DimensionKind::Number,
            Dimension::Ordinal(..) => DimensionKind::Ordinal,
            Dimension::UnitOfDuration(..) => DimensionKind::UnitOfDuration,
            Dimension::Duration(..) => DimensionKind::Duration,
            Dimension::Cycle(..) => DimensionKind::Cycle,
            Dimension::Time(..) => DimensionKind::Time,
            Dimension::MoneyUnit(..) => DimensionKind::MoneyUnit,
            Dimension::AmountOfMoney(..) => DimensionKind::AmountOfMoney,
            Dimension::Temperature(..) => DimensionKind::Temperature,
            Dimension::Percentage(..) => DimensionKind::Percentage,
        }
    }

    pub fn kind(&self) -> (r: DimensionKind)
        ensures
            r == self.kind_spec(),
    {
        match self {
            Dimension::Number(..) => DimensionKind::Number,
            Dimension::Ordinal(..) => DimensionKind::Ordinal,
            Dimension::UnitOfDuration(..) => DimensionKind::UnitOfDuration,
            Dimension::Duration(..) => DimensionKind::Duration,
            Dimension::Cycle(..) => DimensionKind::Cycle,
            Dimension::Time(..) => DimensionKind::Time,
            Dimension::MoneyUnit(..) => DimensionKind::MoneyUnit,
            Dimension::AmountOfMoney(..) => DimensionKind::AmountOfMoney,
            Dimension::Temperature(..) => DimensionKind::Temperature,
            Dimension::Percentage(..) => DimensionKind::Percentage,
        }
    }

    /// A value whose reading is so underdetermined the tagger drops it: a
    /// latent time or a latent temperature.
    pub open spec fn is_too_ambiguous_spec(self) -> bool {
        match self {
            Dimension::Time(t) => t.latent,
            Dimension::Temperature(t) => t.latent,
            _ => false,
        }
    }

    pub fn is_too_ambiguous(&self) -> (r: bool)
        ensures
            r == self.is_too_ambiguous_spec(),
    {
        match self {
            Dimension::Time(t) => t.latent,
            Dimension::Temperature(t) => t.latent,
            _ => false,
        }
    }
}

} // verus!
