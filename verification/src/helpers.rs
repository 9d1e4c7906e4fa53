//! Constructors and combinators that assemble values from parsed
//! sub-values: the helper layer the grammar rules call.

use vstd::prelude::*;
use crate::constraint::Constraint;
use crate::grain::{precision_resolution, precision_resolution_spec, Grain, Precision, Weekday};
use crate::moment::{easter_calc, easter_month_day, MAX_YEAR};
use crate::period::{period_neg_spec, Period};
use crate::values::{
    dec_add,
    dec_add_spec,
    dec_cross,
    dec_sum_mantissa,
    pow10,
    pow10_spec,
    AmountOfMoneyValue,
    BoundedDirection,
    CycleValue,
    Dec,
    DurationValue,
    FloatValue,
    Form,
    IntegerValue,
    MonthDayForm,
    NumberValue,
    RuleError,
    TimeOfDayForm,
    TimeValue,
};

verus! {

/// A plain time value over a constraint: empty form, no direction, exact,
/// not latent.
pub open spec fn spec_time_value(c: Constraint) -> TimeValue {
    TimeValue {
        constraint: c,
        form: Form::Empty,
        direction: None,
        precision: Precision::Exact,
        latent: false,
    }
}

/// The digits of a byte slice read as a base-10 integer.
pub open spec fn int_of_digits(s: Seq<u8>) -> int
    decreases s.len(),
{
    if s.len() == 0 {
        0
    } else {
        int_of_digits(s.drop_last()) * 10 + (s.last() - 48)
    }
}

/// Every byte is an ASCII digit.
pub open spec fn all_digits(s: Seq<u8>) -> bool {
    forall|i: int| 0 <= i < s.len() ==> 48 <= #[trigger] s[i] <= 57
}

/// What parsing an ASCII-digit byte slice yields: its base-10 reading, or a
/// failure for empty, overlong or non-digit input.
pub open spec fn spec_parse_int(s: Seq<u8>) -> Result<i64, RuleError> {
    if s.len() == 0 || s.len() > 18 || !all_digits(s) {
        Err(RuleError::Invalid)
    } else {
        Ok(int_of_digits(s) as i64)
    }
}

/// Parse an ASCII-digit byte slice as an i64; rejects empty input, any
/// non-digit, and overlong input.
pub fn parse_int(s: &[u8]) -> (r: Result<i64, RuleError>)
    ensures
        r == spec_parse_int(s@),
        r matches Ok(v) ==> all_digits(s@) && 1 <= s@.len() <= 18 && v == int_of_digits(s@),
        s@.len() == 0 || s@.len() > 18 || !all_digits(s@) <==> r is Err,
{
    if s.len() == 0 || s.len() > 18 {
        return Err(RuleError::Invalid);
    }
    let mut acc: i64 = 0;
    let mut i: usize = 0;
    proof {
        lemma_pow10_eighteen();
        lemma_pow10_mono(s@.len() as nat, 18);
    }
    while i < s.len()
        invariant
            i <= s@.len(),
            1 <= s@.len() <= 18,
            all_digits(s@.take(i as int)),
            acc == int_of_digits(s@.take(i as int)),
            0 <= acc,
            acc < pow10_spec(i as nat),
            pow10_spec(s@.len() as nat) <= pow10_spec(18),
            pow10_spec(18) == 1000000000000000000,
        decreases s@.len() - i,
    {
        let b = s[i];
        if b < 48 || b > 57 {
            proof {
                assert(!all_digits(s@));
            }
            return Err(RuleError::Invalid);
        }
        proof {
            assert(s@.take(i + 1).drop_last() =~= s@.take(i as int));
            assert(s@.take(i + 1).last() == s@[i as int]);
            lemma_pow10_mono(i as nat + 1, 18);
            assert(acc * 10 + (b - 48) < pow10_spec(i as nat + 1)) by (nonlinear_arith)
                requires
                    acc < pow10_spec(i as nat),
                    b - 48 < 10,
                    pow10_spec(i as nat + 1) == 10 * pow10_spec(i as nat),
            ;
            assert(0 <= acc * 10) by (nonlinear_arith)
                requires
                    0 <= acc,
            ;
        }
        acc = acc * 10 + (b - 48) as i64;
        i = i + 1;
    }
    proof {
        assert(s@.take(s@.len() as int) =~= s@);
        lemma_int_of_digits_range(s@);
    }
    Ok(acc)
}

proof fn lemma_pow10_pos(a: nat)
    ensures
        pow10_spec(a) >= 1,
    decreases a,
{
    if a > 0 {
        lemma_pow10_pos((a - 1) as nat);
    }
}

proof fn lemma_pow10_mono(a: nat, b: nat)
    requires
        a <= b,
    ensures
        pow10_spec(a) <= pow10_spec(b),
        pow10_spec(a) >= 1,
    decreases b - a,
{
    lemma_pow10_pos(a);
    if a < b {
        lemma_pow10_mono(a, (b - 1) as nat);
        lemma_pow10_pos((b - 1) as nat);
        assert(pow10_spec(b) == 10 * pow10_spec((b - 1) as nat));
    }
}

proof fn lemma_pow10_eighteen()
    ensures
        pow10_spec(18) == 1000000000000000000,
{
    reveal_with_fuel(pow10_spec, 19);
}

/// What composing two number lexemes yields: rejected unless ten to the
/// left grain exceeds the right value; integer plus integer stays an
/// integer, any other pair becomes a decimal sum.
pub open spec fn compose_numbers_spec(a: NumberValue, b: NumberValue) -> Result<
    NumberValue,
    RuleError,
> {
    if b.value_spec().mantissa >= pow10_spec(
        a.grain_spec() as nat + b.value_spec().scale as nat,
    ) {
        Err(RuleError::Invalid)
    } else {
        match (a, b) {
            (NumberValue::Integer(ia), NumberValue::Integer(ib)) => {
                if ia.value + ib.value > i64::MAX || ia.value + ib.value < i64::MIN {
                    Err(RuleError::Invalid)
                } else {
                    Ok(NumberValue::Integer(IntegerValue::spec_new((ia.value + ib.value) as i64)))
                }
            },
            _ => {
                match dec_add_spec(a.value_spec(), b.value_spec()) {
                    Some(c) => Ok(
                        NumberValue::Float(
                            FloatValue {
                                value: c,
                                prefixed: false,
                                suffixed: false,
                                precision: Precision::Exact,
                            },
                        ),
                    ),
                    None => Err(RuleError::Invalid),
                }
            },
        }
    }
}

/// Composition of two number lexemes ("twenty" + "one"): valid only when
/// ten to the left grain exceeds the right value; the sum keeps the integer
/// shape when both sides are integers.
pub fn compose_numbers(a: &NumberValue, b: &NumberValue) -> (r: Result<NumberValue, RuleError>)
    requires
        a.value_spec().wf(),
        b.value_spec().wf(),
        a.grain_spec() <= 10,
    ensures
        r == compose_numbers_spec(*a, *b),
        r matches Ok(v) ==> dec_cross(b.value_spec(), 0) < pow10_spec(
            a.grain_spec() as nat + b.value_spec().scale as nat,
        ),
        r is Err <==> dec_cross(b.value_spec(), 0) >= pow10_spec(
            a.grain_spec() as nat + b.value_spec().scale as nat,
        ) || (match (a, b) {
            (NumberValue::Integer(ia), NumberValue::Integer(ib)) => ia.value + ib.value
                > i64::MAX || ia.value + ib.value < i64::MIN,
            _ => dec_sum_mantissa(a.value_spec(), b.value_spec()) > i64::MAX || dec_sum_mantissa(
                a.value_spec(),
                b.value_spec(),
            ) < i64::MIN,
        }),
        (match (a, b) {
            (NumberValue::Integer(ia), NumberValue::Integer(ib)) => r matches Ok(v) ==> v
                == NumberValue::Integer(IntegerValue::spec_new((ia.value + ib.value) as i64)),
            _ => r matches Ok(v) ==> (dec_add_spec(a.value_spec(), b.value_spec()) matches Some(c)
                && v == NumberValue::Float(
                FloatValue {
                    value: c,
                    prefixed: false,
                    suffixed: false,
                    precision: Precision::Exact,
                },
            )),
        }),
{
    let grain = a.grain_or_zero();
    let bv = b.value();
    proof {
        assert(dec_cross(bv, 0) == bv.mantissa * 1);
        assert(bv.mantissa * 1 == bv.mantissa) by (nonlinear_arith);
    }
    match pow10(grain + bv.scale) {
        Some(t) => {
            if bv.mantissa >= t {
                return Err(RuleError::Invalid);
            }
        },
        None => {
            // ten to a power past the i64 range always exceeds the mantissa
            proof {
                lemma_pow10_eighteen();
                lemma_pow10_mono(19, grain as nat + bv.scale as nat);
                assert(pow10_spec(19) == 10 * pow10_spec(18));
            }
        },
    }
    match (a, b) {
        (NumberValue::Integer(ia), NumberValue::Integer(ib)) => {
            match ia.value.checked_add(ib.value) {
                Some(sum) => Ok(NumberValue::Integer(IntegerValue::new(sum))),
                None => Err(RuleError::Invalid),
            }
        },
        _ => {
            let av = a.value();
            match dec_add(av, bv) {
                Some(c) => Ok(NumberValue::Float(FloatValue::new(c))),
                None => Err(RuleError::Invalid),
            }
        },
    }
}

/// What the decimal-hour reading denotes: the fraction digits contribute
/// six minutes per tenth, the hours sixty each; unparseable digits or a
/// total past the i64 range are rejected.
pub open spec fn decimal_hour_spec(a: Seq<u8>, b: Seq<u8>) -> Result<i64, RuleError> {
    if a.len() == 0 || a.len() > 18 || !all_digits(a) || b.len() == 0 || b.len() > 18
        || !all_digits(b) {
        Err(RuleError::Invalid)
    } else {
        let total = (int_of_digits(b) * 6) / pow10_spec((b.len() - 1) as nat) + int_of_digits(a)
            * 60;
        if total > i64::MAX {
            Err(RuleError::Invalid)
        } else {
            Ok(total as i64)
        }
    }
}

/// Total minutes denoted by an "H.F hours" decimal: the fraction digits
/// contribute six minutes per tenth, the hours sixty each.
pub fn decimal_hour_in_minute(a: &[u8], b: &[u8]) -> (r: Result<i64, RuleError>)
    ensures
        r == decimal_hour_spec(a@, b@),
        r matches Ok(v) ==> all_digits(a@) && all_digits(b@) && 1 <= a@.len() <= 18 && 1 <= b@.len()
            <= 18 && v == (int_of_digits(b@) * 6) / pow10_spec((b@.len() - 1) as nat)
            + int_of_digits(a@) * 60,
{
    let av = parse_int(a)?;
    let bv = parse_int(b)?;
    let p = match pow10(b.len() as u32 - 1) {
        Some(p) => p,
        None => {
            return Err(RuleError::Invalid);
        },
    };
    proof {
        lemma_int_of_digits_range(b@);
        lemma_int_of_digits_range(a@);
        lemma_pow10_mono(b@.len() as nat, 18);
        lemma_pow10_mono(a@.len() as nat, 18);
        lemma_pow10_eighteen();
        assert(bv * 6 <= 6000000000000000000) by (nonlinear_arith)
            requires
                0 <= bv <= 1000000000000000000,
        ;
        assert(0 <= bv * 6) by (nonlinear_arith)
            requires
                0 <= bv,
        ;
        assert((bv as int * 6) / (p as int) <= bv * 6) by (nonlinear_arith)
            requires
                p >= 1,
                bv * 6 >= 0,
        ;
        assert(av * 60 <= 60000000000000000000int) by (nonlinear_arith)
            requires
                0 <= av <= 1000000000000000000,
        ;
        assert(0 <= av * 60) by (nonlinear_arith)
            requires
                0 <= av,
        ;
    }
    let scaled = (bv * 6) / p;
    match scaled.checked_add(av.checked_mul(60).ok_or(RuleError::Invalid)?) {
        Some(v) => Ok(v),
        None => Err(RuleError::Invalid),
    }
}

pub proof fn lemma_int_of_digits_range(s: Seq<u8>)
    requires
        all_digits(s),
    ensures
        0 <= int_of_digits(s) < pow10_spec(s.len() as nat),
    decreases s.len(),
{
    if s.len() == 0 {
    } else {
        assert forall|i: int| 0 <= i < s.drop_last().len() implies 48 <= #[trigger] s.drop_last()[i]
            <= 57 by {
            assert(s.drop_last()[i] == s[i]);
        }
        lemma_int_of_digits_range(s.drop_last());
        assert(pow10_spec(s.len() as nat) == 10 * pow10_spec((s.len() - 1) as nat));
        assert(int_of_digits(s.drop_last()) * 10 + (s.last() - 48) < pow10_spec(s.len() as nat)
            && int_of_digits(s.drop_last()) * 10 >= 0) by (nonlinear_arith)
            requires
                0 <= int_of_digits(s.drop_last()) < pow10_spec((s.len() - 1) as nat),
                s.last() - 48 < 10,
                pow10_spec(s.len() as nat) == 10 * pow10_spec((s.len() - 1) as nat),
        ;
    }
}

/// The combined amount "X and Y cents": Y is scaled down by a hundred and
/// added to X; the unit is X's.
pub fn compose_money(a: &AmountOfMoneyValue, b: &AmountOfMoneyValue) -> (r: Result<
    AmountOfMoneyValue,
    RuleError,
>)
    requires
        a.value.wf(),
        b.value.scale <= 10,
    ensures
        r == (match dec_add_spec(
            a.value,
            Dec { mantissa: b.value.mantissa, scale: (b.value.scale + 2) as u32 },
        ) {
            Some(v) => Ok::<AmountOfMoneyValue, RuleError>(
                AmountOfMoneyValue { value: v, unit: a.unit, precision: Precision::Exact },
            ),
            None => Err(RuleError::Invalid),
        }),
        r matches Ok(m) ==> m.value.wf() && m.value.mantissa * pow10_spec(
            (a.value.scale + b.value.scale + 2 - m.value.scale) as nat,
        ) == dec_cross(a.value, b.value.scale as nat + 2) + dec_cross(b.value, a.value.scale as nat),
{
    let shifted = Dec { mantissa: b.value.mantissa, scale: b.value.scale + 2 };
    match dec_add(a.value, shifted) {
        Some(v) => Ok(AmountOfMoneyValue { value: v, unit: a.unit, precision: Precision::Exact }),
        None => Err(RuleError::Invalid),
    }
}

/// As `compose_money`, with a bare number for the cents part.
pub fn compose_money_number(a: &AmountOfMoneyValue, b: &NumberValue) -> (r: Result<
    AmountOfMoneyValue,
    RuleError,
>)
    requires
        a.value.wf(),
        b.value_spec().scale <= 10,
    ensures
        r == (match dec_add_spec(
            a.value,
            Dec { mantissa: b.value_spec().mantissa, scale: (b.value_spec().scale + 2) as u32 },
        ) {
            Some(v) => Ok::<AmountOfMoneyValue, RuleError>(
                AmountOfMoneyValue { value: v, unit: a.unit, precision: Precision::Exact },
            ),
            None => Err(RuleError::Invalid),
        }),
        r matches Ok(m) ==> m.value.wf() && m.value.mantissa * pow10_spec(
            (a.value.scale + b.value_spec().scale + 2 - m.value.scale) as nat,
        ) == dec_cross(a.value, b.value_spec().scale as nat + 2) + dec_cross(
            b.value_spec(),
            a.value.scale as nat,
        ),
{
    let bv = b.value();
    let shifted = Dec { mantissa: bv.mantissa, scale: bv.scale + 2 };
    match dec_add(a.value, shifted) {
        Some(v) => Ok(AmountOfMoneyValue { value: v, unit: a.unit, precision: Precision::Exact }),
        None => Err(RuleError::Invalid),
    }
}

impl Form {
    pub fn time_of_day_hour(full_hour: u32, is_12_clock: bool) -> (r: Form)
        ensures
            r == Form::TimeOfDay(TimeOfDayForm::Hour { full_hour, is_12_clock }),
    {
        Form::TimeOfDay(TimeOfDayForm::hour(full_hour, is_12_clock))
    }

    pub fn time_of_day_hour_minute(full_hour: u32, minute: u32, is_12_clock: bool) -> (r: Form)
        ensures
            r == Form::TimeOfDay(TimeOfDayForm::HourMinute { full_hour, minute, is_12_clock }),
    {
        Form::TimeOfDay(TimeOfDayForm::hour_minute(full_hour, minute, is_12_clock))
    }

    pub fn time_of_day_hour_minute_second(
        full_hour: u32,
        minute: u32,
        second: u32,
        is_12_clock: bool,
    ) -> (r: Form)
        ensures
            r == Form::TimeOfDay(
                TimeOfDayForm::HourMinuteSecond { full_hour, minute, second, is_12_clock },
            ),
    {
        Form::TimeOfDay(TimeOfDayForm::hour_minute_second(full_hour, minute, second, is_12_clock))
    }

    pub fn is_time_of_day(&self) -> (r: bool)
        ensures
            r == (self matches Form::TimeOfDay(_)),
    {
        match self {
            Form::TimeOfDay(_) => true,
            _ => false,
        }
    }
}

impl TimeOfDayForm {
    /// Rebuild the time value this clock form denotes, on the given clock.
    pub fn build_time_value(&self, is_12_clock: bool) -> (r: Result<TimeValue, RuleError>)
        ensures
            r == (match *self {
                TimeOfDayForm::Hour { full_hour, .. } => spec_hour_result(full_hour, is_12_clock),
                TimeOfDayForm::HourMinute { full_hour, minute, .. } => spec_hour_minute_result(
                    full_hour,
                    minute,
                    is_12_clock,
                ),
                TimeOfDayForm::HourMinuteSecond { full_hour, minute, second, .. } => spec_hms_result(
                    full_hour,
                    minute,
                    second,
                    is_12_clock,
                ),
            }),
    {
        match self {
            TimeOfDayForm::Hour { full_hour, .. } => hour(*full_hour, is_12_clock),
            TimeOfDayForm::HourMinute { full_hour, minute, .. } => hour_minute(
                *full_hour,
                *minute,
                is_12_clock,
            ),
            TimeOfDayForm::HourMinuteSecond { full_hour, minute, second, .. } => hour_minute_second(
                *full_hour,
                *minute,
                *second,
                is_12_clock,
            ),
        }
    }

    pub fn is_12_clock(&self) -> (r: bool)
        ensures
            r == (match *self {
                TimeOfDayForm::Hour { is_12_clock, .. } => is_12_clock,
                TimeOfDayForm::HourMinute { is_12_clock, .. } => is_12_clock,
                TimeOfDayForm::HourMinuteSecond { is_12_clock, .. } => is_12_clock,
            }),
    {
        match self {
            TimeOfDayForm::Hour { is_12_clock, .. } => *is_12_clock,
            TimeOfDayForm::HourMinute { is_12_clock, .. } => *is_12_clock,
            TimeOfDayForm::HourMinuteSecond { is_12_clock, .. } => *is_12_clock,
        }
    }

    pub fn full_hour(&self) -> (r: u32)
        ensures
            r == (match *self {
                TimeOfDayForm::Hour { full_hour, .. } => full_hour,
                TimeOfDayForm::HourMinute { full_hour, .. } => full_hour,
                TimeOfDayForm::HourMinuteSecond { full_hour, .. } => full_hour,
            }),
    {
        match self {
            TimeOfDayForm::Hour { full_hour, .. } => *full_hour,
            TimeOfDayForm::HourMinute { full_hour, .. } => *full_hour,
            TimeOfDayForm::HourMinuteSecond { full_hour, .. } => *full_hour,
        }
    }
}

impl TimeValue {
    /// A plain time value over a constraint.
    pub fn constraint(constraint: Constraint) -> (r: TimeValue)
        ensures
            r == spec_time_value(constraint),
    {
        TimeValue {
            constraint,
            form: Form::Empty,
            direction: None,
            precision: Precision::Exact,
            latent: false,
        }
    }

    pub fn with_latent(self, latent: bool) -> (r: TimeValue)
        ensures
            r == (TimeValue { latent, ..self }),
    {
        TimeValue { latent, ..self }
    }

    pub fn latent(self) -> (r: TimeValue)
        ensures
            r == (TimeValue { latent: true, ..self }),
    {
        TimeValue { latent: true, ..self }
    }

    pub fn not_latent(self) -> (r: TimeValue)
        ensures
            r == (TimeValue { latent: false, ..self }),
    {
        TimeValue { latent: false, ..self }
    }

    pub fn form(self, form: Form) -> (r: TimeValue)
        ensures
            r == (TimeValue { form, ..self }),
    {
        TimeValue { form, ..self }
    }

    pub fn direction(self, direction: Option<BoundedDirection>) -> (r: TimeValue)
        ensures
            r == (TimeValue { direction, ..self }),
    {
        TimeValue { direction, ..self }
    }

    pub fn mark_after_start(self) -> (r: TimeValue)
        ensures
            r == (TimeValue { direction: Some(BoundedDirection::AfterStart), ..self }),
    {
        TimeValue { direction: Some(BoundedDirection::after_start()), ..self }
    }

    pub fn mark_after_end(self) -> (r: TimeValue)
        ensures
            r == (TimeValue { direction: Some(BoundedDirection::AfterEnd), ..self }),
    {
        TimeValue { direction: Some(BoundedDirection::after_end()), ..self }
    }

    pub fn mark_before_start(self) -> (r: TimeValue)
        ensures
            r == (TimeValue { direction: Some(BoundedDirection::BeforeStart), ..self }),
    {
        TimeValue { direction: Some(BoundedDirection::before_start()), ..self }
    }

    pub fn mark_before_end(self) -> (r: TimeValue)
        ensures
            r == (TimeValue { direction: Some(BoundedDirection::BeforeEnd), ..self }),
    {
        TimeValue { direction: Some(BoundedDirection::before_end()), ..self }
    }

    pub fn precision(self, precision: Precision) -> (r: TimeValue)
        ensures
            r == (TimeValue { precision, ..self }),
    {
        TimeValue { precision, ..self }
    }

    /// Intersection of two time values: both constraints must hold; the
    /// direction marker of the left side wins, precisions combine.
    pub fn intersect(&self, other: &TimeValue) -> (r: Result<TimeValue, RuleError>)
        ensures
            r matches Ok(t) && t == (TimeValue {
                constraint: Constraint::Intersect(
                    Box::new(self.constraint),
                    Box::new(other.constraint),
                ),
                form: Form::Empty,
                direction: if self.direction is Some {
                    self.direction
                } else {
                    other.direction
                },
                precision: precision_resolution_spec(self.precision, other.precision),
                latent: false,
            }),
    {
        let direction = match self.direction {
            Some(d) => Some(d),
            None => other.direction,
        };
        Ok(
            TimeValue::constraint(
                Constraint::Intersect(
                    Box::new(self.constraint.clone()),
                    Box::new(other.constraint.clone()),
                ),
            ).direction(direction).precision(
                precision_resolution(self.precision, other.precision),
            ),
        )
    }

    /// The last occurrence of this value inside each occurrence of `other`.
    pub fn last_of(&self, other: &TimeValue) -> (r: Result<TimeValue, RuleError>)
        ensures
            r matches Ok(t) && t == (TimeValue {
                constraint: Constraint::LastOf {
                    inner: Box::new(self.constraint),
                    base: Box::new(other.constraint),
                },
                form: Form::Empty,
                direction: None,
                precision: precision_resolution_spec(self.precision, other.precision),
                latent: false,
            }),
    {
        Ok(
            TimeValue::constraint(
                Constraint::LastOf {
                    inner: Box::new(self.constraint.clone()),
                    base: Box::new(other.constraint.clone()),
                },
            ).precision(precision_resolution(self.precision, other.precision)),
        )
    }

    /// The n-th occurrence from the reference; negative n counts backward.
    pub fn the_nth(&self, n: i64) -> (r: Result<TimeValue, RuleError>)
        ensures
            r matches Ok(t) && t == (TimeValue {
                constraint: Constraint::TakeTheNth {
                    n,
                    not_immediate: false,
                    inner: Box::new(self.constraint),
                },
                form: Form::Empty,
                direction: None,
                precision: self.precision,
                latent: false,
            }),
    {
        Ok(
            TimeValue::constraint(
                Constraint::TakeTheNth {
                    n,
                    not_immediate: false,
                    inner: Box::new(self.constraint.clone()),
                },
            ).precision(self.precision),
        )
    }

    /// As `the_nth`, skipping an occurrence that contains the reference.
    pub fn the_nth_not_immediate(&self, n: i64) -> (r: Result<TimeValue, RuleError>)
        ensures
            r matches Ok(t) && t == (TimeValue {
                constraint: Constraint::TakeTheNth {
                    n,
                    not_immediate: true,
                    inner: Box::new(self.constraint),
                },
                form: Form::Empty,
                direction: None,
                precision: self.precision,
                latent: false,
            }),
    {
        Ok(
            TimeValue::constraint(
                Constraint::TakeTheNth {
                    n,
                    not_immediate: true,
                    inner: Box::new(self.constraint.clone()),
                },
            ).precision(self.precision),
        )
    }

    /// The n-th occurrence of this value after each occurrence of `after_value`.
    pub fn the_nth_after(&self, n: i64, after_value: &TimeValue) -> (r: Result<
        TimeValue,
        RuleError,
    >)
        ensures
            r matches Ok(t) && t == (TimeValue {
                constraint: Constraint::TheNthAfter {
                    n,
                    not_immediate: true,
                    inner: Box::new(self.constraint),
                    base: Box::new(after_value.constraint),
                },
                form: Form::Empty,
                direction: None,
                precision: precision_resolution_spec(self.precision, after_value.precision),
                latent: false,
            }),
    {
        Ok(
            TimeValue::constraint(
                Constraint::TheNthAfter {
                    n,
                    not_immediate: true,
                    inner: Box::new(self.constraint.clone()),
                    base: Box::new(after_value.constraint.clone()),
                },
            ).precision(precision_resolution(self.precision, after_value.precision)),
        )
    }

    /// The span from this value to `to`, reconciling mismatched clocks on
    /// the two time-of-day ends first.
    pub fn smart_span_to(&self, to: &TimeValue, is_inclusive: bool) -> (r: Result<
        TimeValue,
        RuleError,
    >)
        ensures
            r == spec_smart_span_to(*self, *to, is_inclusive),
    {
        let self_is_tod = self.form.is_time_of_day();
        let to_is_tod = to.form.is_time_of_day();
        if self_is_tod && to_is_tod {
            let start_clock = self.form_time_of_day()?;
            let end_clock = to.form_time_of_day()?;
            if start_clock.is_12_clock() != end_clock.is_12_clock() {
                let is_12_clock = start_clock.is_12_clock() && end_clock.is_12_clock();
                start_clock.build_time_value(is_12_clock)?.span_to(
                    &end_clock.build_time_value(is_12_clock)?,
                    is_inclusive,
                )
            } else {
                self.span_to(to, is_inclusive)
            }
        } else {
            self.span_to(to, is_inclusive)
        }
    }

    /// The span from this value's occurrence up to `to`'s: through it when
    /// `is_inclusive` or when both sides are day-grained, else up to its
    /// start.
    pub fn span_to(&self, to: &TimeValue, is_inclusive: bool) -> (r: Result<TimeValue, RuleError>)
        ensures
            r == Ok::<TimeValue, RuleError>(spec_span_to(*self, *to, is_inclusive)),
    {
        let day_pair = match (self.constraint.grain(), to.constraint.grain()) {
            (Grain::Day, Grain::Day) => true,
            _ => false,
        };
        Ok(
            TimeValue::constraint(
                Constraint::SpanTo {
                    inclusive: day_pair || is_inclusive,
                    from: Box::new(self.constraint.clone()),
                    to: Box::new(to.constraint.clone()),
                },
            ).precision(precision_resolution(self.precision, to.precision)),
        )
    }

    pub fn form_month(&self) -> (r: Result<u32, RuleError>)
        ensures
            self.form matches Form::Month(m) ==> r == Ok::<u32, RuleError>(m),
            r is Err <==> !(self.form matches Form::Month(_)),
    {
        if let Form::Month(m) = self.form {
            Ok(m)
        } else {
            Err(RuleError::Invalid)
        }
    }

    pub fn form_year(&self) -> (r: Result<i64, RuleError>)
        ensures
            self.form matches Form::Year(y) ==> r == Ok::<i64, RuleError>(y),
            r is Err <==> !(self.form matches Form::Year(_)),
    {
        if let Form::Year(y) = self.form {
            Ok(y)
        } else {
            Err(RuleError::Invalid)
        }
    }

    pub fn form_time_of_day(&self) -> (r: Result<TimeOfDayForm, RuleError>)
        ensures
            self.form matches Form::TimeOfDay(f) ==> r == Ok::<TimeOfDayForm, RuleError>(f),
            r is Err <==> !(self.form matches Form::TimeOfDay(_)),
    {
        if let Form::TimeOfDay(f) = self.form {
            Ok(f)
        } else {
            Err(RuleError::Invalid)
        }
    }
}

/// What `span_to` builds.
pub open spec fn spec_span_to(a: TimeValue, b: TimeValue, is_inclusive: bool) -> TimeValue {
    TimeValue {
        constraint: Constraint::SpanTo {
            inclusive: (a.constraint.grain_spec() == Grain::Day && b.constraint.grain_spec()
                == Grain::Day) || is_inclusive,
            from: Box::new(a.constraint),
            to: Box::new(b.constraint),
        },
        form: Form::Empty,
        direction: None,
        precision: precision_resolution_spec(a.precision, b.precision),
        latent: false,
    }
}

/// What `smart_span_to` builds: with one 12-clock and one 24-clock end,
/// both ends are rebuilt on the 24-hour clock first.
pub open spec fn spec_smart_span_to(a: TimeValue, b: TimeValue, is_inclusive: bool) -> Result<
    TimeValue,
    RuleError,
> {
    match (a.form, b.form) {
        (Form::TimeOfDay(fa), Form::TimeOfDay(fb)) => {
            if spec_tod_is_12(fa) != spec_tod_is_12(fb) {
                let ra = spec_build_time_value(fa, false);
                let rb = spec_build_time_value(fb, false);
                match (ra, rb) {
                    (Ok(ta), Ok(tb)) => Ok(spec_span_to(ta, tb, is_inclusive)),
                    _ => Err(RuleError::Invalid),
                }
            } else {
                Ok(spec_span_to(a, b, is_inclusive))
            }
        },
        _ => Ok(spec_span_to(a, b, is_inclusive)),
    }
}

pub open spec fn spec_tod_is_12(f: TimeOfDayForm) -> bool {
    match f {
        TimeOfDayForm::Hour { is_12_clock, .. } => is_12_clock,
        TimeOfDayForm::HourMinute { is_12_clock, .. } => is_12_clock,
        TimeOfDayForm::HourMinuteSecond { is_12_clock, .. } => is_12_clock,
    }
}

pub open spec fn spec_build_time_value(f: TimeOfDayForm, is_12_clock: bool) -> Result<
    TimeValue,
    RuleError,
> {
    match f {
        TimeOfDayForm::Hour { full_hour, .. } => spec_hour_result(full_hour, is_12_clock),
        TimeOfDayForm::HourMinute { full_hour, minute, .. } => spec_hour_minute_result(
            full_hour,
            minute,
            is_12_clock,
        ),
        TimeOfDayForm::HourMinuteSecond { full_hour, minute, second, .. } => spec_hms_result(
            full_hour,
            minute,
            second,
            is_12_clock,
        ),
    }
}

/// What `hour` builds.
pub open spec fn spec_hour_value(h: u32, is_12_clock: bool) -> TimeValue {
    TimeValue {
        constraint: Constraint::Hour { hour: h, is_12_clock },
        form: Form::TimeOfDay(TimeOfDayForm::Hour { full_hour: h, is_12_clock }),
        direction: None,
        precision: Precision::Exact,
        latent: false,
    }
}

pub open spec fn spec_hour_result(h: u32, is_12_clock: bool) -> Result<TimeValue, RuleError> {
    Ok(spec_hour_value(h, is_12_clock))
}

/// What `hour_minute` builds.
pub open spec fn spec_hour_minute_value(h: u32, m: u32, is_12_clock: bool) -> TimeValue {
    TimeValue {
        constraint: Constraint::Intersect(
            Box::new(Constraint::Hour { hour: h, is_12_clock }),
            Box::new(Constraint::Minute(m)),
        ),
        form: Form::TimeOfDay(TimeOfDayForm::HourMinute { full_hour: h, minute: m, is_12_clock }),
        direction: None,
        precision: Precision::Exact,
        latent: false,
    }
}

pub open spec fn spec_hour_minute_result(h: u32, m: u32, is_12_clock: bool) -> Result<
    TimeValue,
    RuleError,
> {
    Ok(spec_hour_minute_value(h, m, is_12_clock))
}

/// What `hour_minute_second` builds.
pub open spec fn spec_hms_value(h: u32, m: u32, sec: u32, is_12_clock: bool) -> TimeValue {
    TimeValue {
        constraint: Constraint::Intersect(
            Box::new(
                Constraint::Intersect(
                    Box::new(Constraint::Hour { hour: h, is_12_clock }),
                    Box::new(Constraint::Minute(m)),
                ),
            ),
            Box::new(Constraint::Second(sec)),
        ),
        form: Form::TimeOfDay(
            TimeOfDayForm::HourMinuteSecond { full_hour: h, minute: m, second: sec, is_12_clock },
        ),
        direction: None,
        precision: Precision::Exact,
        latent: false,
    }
}

pub open spec fn spec_hms_result(h: u32, m: u32, sec: u32, is_12_clock: bool) -> Result<
    TimeValue,
    RuleError,
> {
    Ok(spec_hms_value(h, m, sec, is_12_clock))
}

/// The single year `y`.
pub fn year(y: i64) -> (r: Result<TimeValue, RuleError>)
    ensures
        r matches Ok(t) && t == (TimeValue {
            form: Form::Year(y),
            ..spec_time_value(Constraint::Year(y))
        }),
{
    Ok(TimeValue::constraint(Constraint::Year(y)).form(Form::Year(y)))
}

/// Month `m`; rejected outside 1..=12.
pub fn month(m: u32) -> (r: Result<TimeValue, RuleError>)
    ensures
        1 <= m <= 12 ==> (r matches Ok(t) && t == (TimeValue {
            form: Form::Month(m),
            ..spec_time_value(Constraint::Month(m))
        })),
        r is Err <==> !(1 <= m <= 12),
{
    if !(1 <= m && m <= 12) {
        return Err(RuleError::Invalid);
    }
    Ok(TimeValue::constraint(Constraint::Month(m)).form(Form::Month(m)))
}

/// Day of month `dom`; rejected outside 1..=31.
pub fn day_of_month(dom: u32) -> (r: Result<TimeValue, RuleError>)
    ensures
        1 <= dom <= 31 ==> (r matches Ok(t) && t == (TimeValue {
            form: Form::DayOfMonth,
            ..spec_time_value(Constraint::DayOfMonth(dom))
        })),
        r is Err <==> !(1 <= dom <= 31),
{
    if !(1 <= dom && dom <= 31) {
        return Err(RuleError::Invalid);
    }
    Ok(TimeValue::constraint(Constraint::DayOfMonth(dom)).form(Form::DayOfMonth))
}

/// Every day with the given weekday.
pub fn day_of_week(weekday: Weekday) -> (r: Result<TimeValue, RuleError>)
    ensures
        r matches Ok(t) && t == (TimeValue {
            form: Form::DayOfWeek { not_immediate: true },
            ..spec_time_value(Constraint::DayOfWeek(weekday))
        }),
{
    Ok(
        TimeValue::constraint(Constraint::DayOfWeek(weekday)).form(
            Form::DayOfWeek { not_immediate: true },
        ),
    )
}

/// A month/day pair of every year.
pub fn month_day(m: u32, d: u32) -> (r: Result<TimeValue, RuleError>)
    ensures
        r matches Ok(t) && t == (TimeValue {
            form: Form::MonthDay(Some(MonthDayForm { month: m, day_of_month: d })),
            ..spec_time_value(Constraint::MonthDay { month: m, day: d })
        }),
{
    Ok(
        TimeValue::constraint(Constraint::MonthDay { month: m, day: d }).form(
            Form::MonthDay(Some(MonthDayForm { month: m, day_of_month: d })),
        ),
    )
}

/// An hour of the day, on either clock. The hour is deliberately not
/// range-checked here: an hour past 23 builds a constraint with no
/// occurrences, so evaluation yields nothing for it.
pub fn hour(h: u32, is_12_clock: bool) -> (r: Result<TimeValue, RuleError>)
    ensures
        r == spec_hour_result(h, is_12_clock),
{
    Ok(
        TimeValue::constraint(Constraint::Hour { hour: h, is_12_clock }).form(
            Form::time_of_day_hour(h, is_12_clock),
        ),
    )
}

/// Minute `m` of every hour.
pub fn minute(m: u32) -> (r: Result<TimeValue, RuleError>)
    ensures
        r matches Ok(t) && t == spec_time_value(Constraint::Minute(m)),
{
    Ok(TimeValue::constraint(Constraint::Minute(m)))
}

/// Second `s` of every minute.
pub fn second(s: u32) -> (r: Result<TimeValue, RuleError>)
    ensures
        r matches Ok(t) && t == spec_time_value(Constraint::Second(s)),
{
    Ok(TimeValue::constraint(Constraint::Second(s)))
}

/// A clock reading of hour and minute.
pub fn hour_minute(h: u32, m: u32, is_12_clock: bool) -> (r: Result<TimeValue, RuleError>)
    ensures
        r == spec_hour_minute_result(h, m, is_12_clock),
{
    Ok(
        TimeValue::constraint(
            Constraint::Intersect(
                Box::new(Constraint::Hour { hour: h, is_12_clock }),
                Box::new(Constraint::Minute(m)),
            ),
        ).form(Form::time_of_day_hour_minute(h, m, is_12_clock)),
    )
}

/// A clock reading of hour, minute and second.
pub fn hour_minute_second(h: u32, m: u32, s: u32, is_12_clock: bool) -> (r: Result<
    TimeValue,
    RuleError,
>)
    ensures
        r == spec_hms_result(h, m, s, is_12_clock),
{
    let hm = hour_minute(h, m, is_12_clock)?;
    let sec = second(s)?;
    let combined = hm.intersect(&sec)?;
    Ok(combined.form(Form::time_of_day_hour_minute_second(h, m, s, is_12_clock)))
}

/// What `hour_relative_minute` builds: minutes in -59..=59 are normalized
/// by borrowing one hour, with the wrap rules of each clock at hours 0
/// and 1.
pub open spec fn spec_hour_relative_minute(h: u32, m: i64, is_12_clock: bool) -> Result<
    TimeValue,
    RuleError,
> {
    if h > 23 || m < -59 || m > 59 {
        Err(RuleError::Invalid)
    } else {
        let normalized = ((m + 60) % 60) as u32;
        let shifter: u32 = if m >= 0 {
            h
        } else if h == 0 {
            23
        } else if h == 1 && is_12_clock {
            12
        } else if h == 1 {
            0
        } else {
            (h - 1) as u32
        };
        Ok(spec_hour_minute_value(shifter, normalized, is_12_clock))
    }
}

/// A clock reading of an hour and a signed minute offset.
pub fn hour_relative_minute(h: u32, m: i64, is_12_clock: bool) -> (r: Result<TimeValue, RuleError>)
    ensures
        r == spec_hour_relative_minute(h, m, is_12_clock),
{
    if !(h <= 23) {
        return Err(RuleError::Invalid);
    }
    if !(-59 <= m && m <= 59) {
        return Err(RuleError::Invalid);
    }
    let normalized_minute = ((m + 60) % 60) as u32;
    let shifter_hour = if m >= 0 {
        h
    } else {
        match (h, is_12_clock) {
            (0, true) => 23,
            (1, true) => 12,
            (0, false) => 23,
            (1, false) => 0,
            _ => h - 1,
        }
    };
    hour_minute(shifter_hour, normalized_minute, is_12_clock)
}

/// A relative minute reading with offset zero is the plain clock reading,
/// and a negative offset borrows from the previous hour: quarter to eleven
/// reads as forty-five past ten.
pub proof fn lemma_hour_relative_minute_laws(h: u32, is_12_clock: bool)
    requires
        2 <= h <= 23,
    ensures
        spec_hour_relative_minute(h, 0, is_12_clock) == spec_hour_minute_result(h, 0, is_12_clock),
        spec_hour_relative_minute(h, -15int as i64, is_12_clock) == spec_hour_minute_result(
            (h - 1) as u32,
            45,
            is_12_clock,
        ),
        spec_hour_relative_minute(0, 0, is_12_clock) == spec_hour_minute_result(0, 0, is_12_clock),
        spec_hour_relative_minute(0, -15int as i64, is_12_clock) == spec_hour_minute_result(
            23,
            45,
            is_12_clock,
        ),
        spec_hour_relative_minute(1, -15int as i64, true) == spec_hour_minute_result(12, 45, true),
        spec_hour_relative_minute(1, -15int as i64, false) == spec_hour_minute_result(0, 45, false),
{
    assert((0int + 60) % 60 == 0);
    assert((-15int + 60) % 60 == 45);
}

/// The repeating unit of a grain.
pub fn cycle(grain: Grain) -> (r: Result<TimeValue, RuleError>)
    ensures
        r matches Ok(t) && t == (TimeValue {
            form: Form::Cycle(grain),
            ..spec_time_value(Constraint::Cycle(grain))
        }),
{
    Ok(TimeValue::constraint(Constraint::Cycle(grain)).form(Form::Cycle(grain)))
}

/// The n-th unit of a grain from the reference; `cycle_nth(Second, 0)` is
/// the current second, which is what "now" denotes.
pub fn cycle_nth(grain: Grain, n: i64) -> (r: Result<TimeValue, RuleError>)
    ensures
        r matches Ok(t) && t == (TimeValue {
            form: Form::Cycle(grain),
            ..spec_time_value(
                Constraint::TakeTheNth {
                    n,
                    not_immediate: false,
                    inner: Box::new(Constraint::Cycle(grain)),
                },
            )
        }),
{
    Ok(
        TimeValue::constraint(
            Constraint::TakeTheNth {
                n,
                not_immediate: false,
                inner: Box::new(Constraint::Cycle(grain)),
            },
        ).form(Form::Cycle(grain)),
    )
}

/// The n-th unit of a grain after a time value's occurrence.
pub fn cycle_nth_after(grain: Grain, n: i64, after_value: &TimeValue) -> (r: Result<
    TimeValue,
    RuleError,
>)
    ensures
        r matches Ok(t) && t == (TimeValue {
            form: Form::Cycle(grain),
            ..spec_time_value(
                Constraint::TheNthAfter {
                    n,
                    not_immediate: false,
                    inner: Box::new(Constraint::Cycle(grain)),
                    base: Box::new(after_value.constraint),
                },
            )
        }),
{
    Ok(
        TimeValue::constraint(
            Constraint::TheNthAfter {
                n,
                not_immediate: false,
                inner: Box::new(Constraint::Cycle(grain)),
                base: Box::new(after_value.constraint.clone()),
            },
        ).form(Form::Cycle(grain)),
    )
}

/// As `cycle_nth_after`, skipping a unit that straddles the anchor.
pub fn cycle_nth_after_not_immediate(grain: Grain, n: i64, after_value: &TimeValue) -> (r: Result<
    TimeValue,
    RuleError,
>)
    ensures
        r matches Ok(t) && t == (TimeValue {
            form: Form::Cycle(grain),
            ..spec_time_value(
                Constraint::TheNthAfter {
                    n,
                    not_immediate: true,
                    inner: Box::new(Constraint::Cycle(grain)),
                    base: Box::new(after_value.constraint),
                },
            )
        }),
{
    Ok(
        TimeValue::constraint(
            Constraint::TheNthAfter {
                n,
                not_immediate: true,
                inner: Box::new(Constraint::Cycle(grain)),
                base: Box::new(after_value.constraint.clone()),
            },
        ).form(Form::Cycle(grain)),
    )
}

/// The span covering the next n units of a grain.
pub fn cycle_n(grain: Grain, n: i64) -> (r: Result<TimeValue, RuleError>)
    ensures
        r matches Ok(t) && t == (TimeValue {
            form: Form::Cycle(grain),
            ..spec_time_value(
                Constraint::TakeN {
                    n,
                    not_immediate: false,
                    inner: Box::new(Constraint::Cycle(grain)),
                },
            )
        }),
{
    Ok(
        TimeValue::constraint(
            Constraint::TakeN { n, not_immediate: false, inner: Box::new(Constraint::Cycle(grain)) },
        ).form(Form::Cycle(grain)),
    )
}

/// As `cycle_n`, not counting the unit that contains the reference.
pub fn cycle_n_not_immediate(grain: Grain, n: i64) -> (r: Result<TimeValue, RuleError>)
    ensures
        r matches Ok(t) && t == (TimeValue {
            form: Form::Cycle(grain),
            ..spec_time_value(
                Constraint::TakeN {
                    n,
                    not_immediate: true,
                    inner: Box::new(Constraint::Cycle(grain)),
                },
            )
        }),
{
    Ok(
        TimeValue::constraint(
            Constraint::TakeN { n, not_immediate: true, inner: Box::new(Constraint::Cycle(grain)) },
        ).form(Form::Cycle(grain)),
    )
}

/// A single calendar day.
pub fn ymd(y: i64, m: u32, d: u32) -> (r: Result<TimeValue, RuleError>)
    ensures
        r matches Ok(t) && t == spec_time_value(
            Constraint::YearMonthDay { year: y, month: m, day: d },
        ),
{
    Ok(TimeValue::constraint(Constraint::YearMonthDay { year: y, month: m, day: d }))
}

/// Easter day, anchored on the March of each year.
pub fn easter() -> (r: Result<TimeValue, RuleError>)
    ensures
        r matches Ok(t) && t == spec_time_value(
            Constraint::EasterOf { inner: Box::new(Constraint::Month(3)) },
        ),
{
    Ok(TimeValue::constraint(Constraint::EasterOf { inner: Box::new(Constraint::Month(3)) }))
}

/// Easter's (year, month, day) by Gauss's algorithm.
pub fn computer_easter(year: i64) -> (r: (i64, u32, u32))
    requires
        0 <= year <= MAX_YEAR,
    ensures
        ({
            let (mo, dy) = easter_calc(year as int);
            r.0 == year && r.1 == mo && r.2 == dy
        }),
{
    let (mo, dy) = easter_month_day(year);
    (year, mo, dy)
}

impl CycleValue {
    /// The last unit of this cycle inside the base value's occurrence.
    pub fn last_of(&self, base: &TimeValue) -> (r: Result<TimeValue, RuleError>)
        ensures
            r matches Ok(t) && t == (TimeValue {
                constraint: Constraint::LastOf {
                    inner: Box::new(Constraint::Cycle(self.grain)),
                    base: Box::new(base.constraint),
                },
                form: Form::Empty,
                direction: None,
                precision: base.precision,
                latent: false,
            }),
    {
        let c = cycle(self.grain)?;
        let combined = c.last_of(base)?;
        Ok(combined)
    }
}

impl DurationValue {
    /// The current second translated forward by this duration.
    pub fn in_present(&self) -> (r: Result<TimeValue, RuleError>)
        ensures
            r matches Ok(t) && t == (TimeValue {
                constraint: Constraint::ShiftBy {
                    period: self.period,
                    inner: Box::new(
                        Constraint::TakeTheNth {
                            n: 0,
                            not_immediate: false,
                            inner: Box::new(Constraint::Cycle(Grain::Second)),
                        },
                    ),
                },
                form: Form::Empty,
                direction: None,
                precision: self.precision,
                latent: false,
            }),
    {
        let now = cycle_nth(Grain::Second, 0)?;
        Ok(
            TimeValue::constraint(
                Constraint::ShiftBy { period: self.period, inner: Box::new(now.constraint) },
            ).precision(self.precision),
        )
    }

    /// The current second translated backward by this duration; fails
    /// exactly when a period component cannot be negated.
    pub fn ago(&self) -> (r: Result<TimeValue, RuleError>)
        ensures
            r == (match period_neg_spec(self.period) {
                Some(p) => Ok::<TimeValue, RuleError>(
                    TimeValue {
                        constraint: Constraint::ShiftBy {
                            period: p,
                            inner: Box::new(
                                Constraint::TakeTheNth {
                                    n: 0,
                                    not_immediate: false,
                                    inner: Box::new(Constraint::Cycle(Grain::Second)),
                                },
                            ),
                        },
                        form: Form::Empty,
                        direction: None,
                        precision: self.precision,
                        latent: false,
                    },
                ),
                None => Err(RuleError::Invalid),
            }),
    {
        let neg = match self.period.negated() {
            Some(p) => p,
            None => {
                return Err(RuleError::Invalid);
            },
        };
        let now = cycle_nth(Grain::Second, 0)?;
        Ok(
            TimeValue::constraint(
                Constraint::ShiftBy { period: neg, inner: Box::new(now.constraint) },
            ).precision(self.precision),
        )
    }

    /// A time value translated forward by this duration.
    pub fn after(&self, time: &TimeValue) -> (r: Result<TimeValue, RuleError>)
        ensures
            r matches Ok(t) && t == (TimeValue {
                constraint: Constraint::ShiftBy {
                    period: self.period,
                    inner: Box::new(time.constraint),
                },
                form: Form::Empty,
                direction: None,
                precision: self.precision,
                latent: false,
            }),
    {
        Ok(
            TimeValue::constraint(
                Constraint::ShiftBy {
                    period: self.period,
                    inner: Box::new(time.constraint.clone()),
                },
            ).precision(self.precision),
        )
    }

    /// A time value translated backward by this duration; fails exactly
    /// when a period component cannot be negated.
    pub fn before(&self, time: &TimeValue) -> (r: Result<TimeValue, RuleError>)
        ensures
            r == (match period_neg_spec(self.period) {
                Some(p) => Ok::<TimeValue, RuleError>(
                    TimeValue {
                        constraint: Constraint::ShiftBy {
                            period: p,
                            inner: Box::new(time.constraint),
                        },
                        form: Form::Empty,
                        direction: None,
                        precision: self.precision,
                        latent: false,
                    },
                ),
                None => Err(RuleError::Invalid),
            }),
    {
        let neg = match self.period.negated() {
            Some(p) => p,
            None => {
                return Err(RuleError::Invalid);
            },
        };
        Ok(
            TimeValue::constraint(
                Constraint::ShiftBy { period: neg, inner: Box::new(time.constraint.clone()) },
            ).precision(self.precision),
        )
    }
}

/// The canonical decimal digits of a non-negative integer, most significant
/// first.
pub open spec fn digits_of(n: int) -> Seq<u8>
    decreases n,
{
    if n <= 0 {
        seq![48u8]
    } else if n < 10 {
        seq![(48 + n) as u8]
    } else {
        digits_of(n / 10).push((48 + n % 10) as u8)
    }
}

/// Reading back the canonical digits of a number gives the number: the
/// numeric form of every number round-trips through its text.
pub proof fn lemma_digits_round_trip(n: int)
    requires
        n >= 0,
    ensures
        all_digits(digits_of(n)),
        int_of_digits(digits_of(n)) == n,
    decreases n,
{
    if n < 10 {
        let s = digits_of(n);
        assert(s.len() == 1);
        assert(s.drop_last() =~= Seq::<u8>::empty());
        assert(int_of_digits(Seq::<u8>::empty()) == 0);
        assert(int_of_digits(s) == int_of_digits(s.drop_last()) * 10 + (s.last() - 48));
        assert(int_of_digits(s.drop_last()) == 0);
        assert(0 * 10 == 0) by (nonlinear_arith);
        assert(s.last() == (48 + n) as u8);
    } else {
        lemma_digits_round_trip(n / 10);
        let s = digits_of(n);
        assert(s.drop_last() =~= digits_of(n / 10));
        assert(s.last() == 48 + n % 10);
        assert(int_of_digits(s) == (n / 10) * 10 + n % 10);
        assert((n / 10) * 10 + n % 10 == n) by (nonlinear_arith);
        assert forall|i: int| 0 <= i < s.len() implies 48 <= #[trigger] s[i] <= 57 by {
            if i < s.len() - 1 {
                assert(s[i] == digits_of(n / 10)[i]);
            }
        }
    }
}

/// Every ordinal value reads back from its canonical digits: the numeral
/// inside a suffixed ordinal form denotes the ordinal itself.
pub proof fn lemma_ordinal_digits_round_trip(o: int)
    requires
        1 <= o <= 999999,
    ensures
        all_digits(digits_of(o)),
        int_of_digits(digits_of(o)) == o,
{
    lemma_digits_round_trip(o);
}

/// The canonical textual form of a non-negative integer, as ASCII digits.
pub fn format_int(n: i64) -> (r: Vec<u8>)
    requires
        n >= 0,
    ensures
        r@ == digits_of(n as int),
        all_digits(r@),
        int_of_digits(r@) == n,
    decreases n,
{
    proof {
        lemma_digits_round_trip(n as int);
    }
    if n < 10 {
        let mut v: Vec<u8> = Vec::new();
        v.push((48 + n) as u8);
        proof {
            assert(v@ =~= digits_of(n as int));
        }
        v
    } else {
        let mut v = format_int(n / 10);
        v.push(48 + (n % 10) as u8);
        v
    }
}

} // verus!
