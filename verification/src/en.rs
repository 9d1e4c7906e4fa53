//! The English rule set: terminal patterns, typed rules, and the producers
//! that assemble values from matched children.

use vstd::prelude::*;
use crate::constraint::Constraint;
use crate::engine::{rule_entry, ProducerArg, Pred, RulePat, RuleSetBuilder};
use crate::grain::{Grain, Precision, Weekday};
use crate::helpers;
use crate::helpers::{
    spec_hms_result,
    spec_hour_minute_result,
    spec_hour_relative_minute,
    spec_hour_result,
    spec_parse_int,
    spec_smart_span_to,
    spec_time_value,
    spec_tod_is_12,
};
use crate::period::{period_plus_spec, period_neg_spec};
use crate::values::{dec_add_spec, pow10_spec};
use crate::period::Period;
use crate::values::{
    AmountOfMoneyValue,
    BoundedDirection,
    Form,
    CycleValue,
    Dec,
    Dimension,
    DimensionKind,
    DurationValue,
    FloatValue,
    IntegerValue,
    MoneyUnit,
    MoneyUnitValue,
    NumberValue,
    OrdinalValue,
    PercentageValue,
    RuleError,
    TemperatureUnit,
    TemperatureValue,
    TimeOfDayForm,
    TimeValue,
    UnitOfDurationValue,
};

verus! {

/// Every rule of the English grammar, by name.
#[derive(Clone, Copy, Debug, PartialEq, Eq, Structural)]
pub enum RuleId {
    IntegerNumeric,
    IntegerLexical,
    TensLexical,
    CompositionTensUnits,
    DecimalNumeral,
    OrdinalDigits,
    OrdinalLexical,
    OrdinalTensLexical,
    CompositionTensOrdinal,
    TheOrdinal,
    UnitSecond,
    UnitMinute,
    UnitHour,
    UnitDay,
    UnitWeek,
    UnitMonth,
    UnitYear,
    HalfAnHour,
    IntegerUnitDuration,
    IntegerUnitAndAHalf,
    DecimalHours,
    IntegerAndHalfHours,
    InDuration,
    ForDuration,
    DurationAndDuration,
    DurationDuration,
    DurationAgo,
    DurationHence,
    DurationAfterTime,
    DurationBeforeTime,
    AboutDuration,
    ExactlyDuration,
    AUnitDuration,
    CycleSecond,
    CycleMinute,
    CycleHour,
    CycleDay,
    CycleWeek,
    CycleMonth,
    CycleQuarter,
    CycleYear,
    ThisCycle,
    NextCycle,
    LastCycle,
    Now,
    Today,
    Tomorrow,
    Yesterday,
    DayOfWeekLexical,
    MonthLexical,
    IntersectTime,
    IntersectTimeOf,
    LastTime,
    NextTime,
    ThisTime,
    YearNumeric,
    TimeOfDayLatent,
    AtTimeOfDay,
    AmPmTimeOfDay,
    DigitalHourMinute,
    QuarterPast,
    HalfPast,
    QuarterTo,
    FromTodToTod,
    TheOrdinalTimeOfTime,
    EasterDay,
    Noon,
    Midnight,
    UntilTime,
    MoneyUnitDollar,
    MoneyUnitCent,
    UnitAmount,
    AmountUnit,
    AmountAndCents,
    TempDegrees,
    TempCelsius,
    TempFahrenheit,
    NumberPercent,
}


/// The value child at a slot, if any, as data.
pub open spec fn spec_arg_val(args: Seq<ProducerArg>, i: int) -> Option<Dimension> {
    if 0 <= i < args.len() {
        match args[i] {
            ProducerArg::Val(d) => Some(d),
            ProducerArg::Text(..) => None,
        }
    } else {
        None
    }
}

/// Capture group `g` of the terminal at a slot, if matched, as bytes.
pub open spec fn spec_arg_group(args: Seq<ProducerArg>, i: int, g: int) -> Option<Seq<u8>> {
    if 0 <= i < args.len() {
        match args[i] {
            ProducerArg::Text(groups) => if 0 <= g < groups@.len() {
                match groups@[g] {
                    Some(s) => Some(s@),
                    None => None,
                }
            } else {
                None
            },
            ProducerArg::Val(..) => None,
        }
    } else {
        None
    }
}

/// The first matched alternative among groups `g..=n`.
pub open spec fn spec_which_alt_from(args: Seq<ProducerArg>, i: int, g: int, n: int) -> Option<
    int,
>
    decreases n - g + 1,
{
    if g > n {
        None
    } else if spec_arg_group(args, i, g) is Some {
        Some(g)
    } else {
        spec_which_alt_from(args, i, g + 1, n)
    }
}

pub open spec fn spec_which_alt(args: Seq<ProducerArg>, i: int, n: int) -> Option<int> {
    spec_which_alt_from(args, i, 1, n)
}

pub open spec fn spec_int_arg(args: Seq<ProducerArg>, i: int) -> Option<i64> {
    match spec_arg_val(args, i) {
        Some(Dimension::Number(NumberValue::Integer(iv))) => Some(iv.value),
        _ => None,
    }
}

pub open spec fn spec_number_arg(args: Seq<ProducerArg>, i: int) -> Option<NumberValue> {
    match spec_arg_val(args, i) {
        Some(Dimension::Number(n)) => Some(n),
        _ => None,
    }
}

pub open spec fn spec_ordinal_arg(args: Seq<ProducerArg>, i: int) -> Option<OrdinalValue> {
    match spec_arg_val(args, i) {
        Some(Dimension::Ordinal(o)) => Some(o),
        _ => None,
    }
}

pub open spec fn spec_duration_arg(args: Seq<ProducerArg>, i: int) -> Option<DurationValue> {
    match spec_arg_val(args, i) {
        Some(Dimension::Duration(d)) => Some(d),
        _ => None,
    }
}

pub open spec fn spec_uod_arg(args: Seq<ProducerArg>, i: int) -> Option<UnitOfDurationValue> {
    match spec_arg_val(args, i) {
        Some(Dimension::UnitOfDuration(u)) => Some(u),
        _ => None,
    }
}

pub open spec fn spec_cycle_arg(args: Seq<ProducerArg>, i: int) -> Option<CycleValue> {
    match spec_arg_val(args, i) {
        Some(Dimension::Cycle(c)) => Some(c),
        _ => None,
    }
}

pub open spec fn spec_time_arg(args: Seq<ProducerArg>, i: int) -> Option<TimeValue> {
    match spec_arg_val(args, i) {
        Some(Dimension::Time(t)) => Some(t),
        _ => None,
    }
}

pub open spec fn spec_money_arg(args: Seq<ProducerArg>, i: int) -> Option<AmountOfMoneyValue> {
    match spec_arg_val(args, i) {
        Some(Dimension::AmountOfMoney(a)) => Some(a),
        _ => None,
    }
}

pub open spec fn spec_money_unit_arg(args: Seq<ProducerArg>, i: int) -> Option<MoneyUnitValue> {
    match spec_arg_val(args, i) {
        Some(Dimension::MoneyUnit(u)) => Some(u),
        _ => None,
    }
}

pub open spec fn spec_temp_arg(args: Seq<ProducerArg>, i: int) -> Option<TemperatureValue> {
    match spec_arg_val(args, i) {
        Some(Dimension::Temperature(t)) => Some(t),
        _ => None,
    }
}

pub open spec fn spec_group_int(args: Seq<ProducerArg>, i: int, g: int) -> Option<i64> {
    match spec_arg_group(args, i, g) {
        Some(s) => match spec_parse_int(s) {
            Ok(v) => Some(v),
            Err(..) => None,
        },
        None => None,
    }
}

pub open spec fn spec_weekday_of_alt(k: int) -> Option<Weekday> {
    if k == 1 {
        Some(Weekday::Mon)
    } else if k == 2 {
        Some(Weekday::Tue)
    } else if k == 3 {
        Some(Weekday::Wed)
    } else if k == 4 {
        Some(Weekday::Thu)
    } else if k == 5 {
        Some(Weekday::Fri)
    } else if k == 6 {
        Some(Weekday::Sat)
    } else if k == 7 {
        Some(Weekday::Sun)
    } else {
        None
    }
}

/// The decimal a pair of digit groups denotes, or nothing for overlong
/// fractions, unparseable digits, or a mantissa past the i64 range.
pub open spec fn spec_decimal_of_groups(ip: Seq<u8>, fp: Seq<u8>) -> Option<Dec> {
    if fp.len() > 12 {
        None
    } else {
        let ip_read = if ip.len() == 0 {
            Ok(0i64)
        } else {
            spec_parse_int(ip)
        };
        match (ip_read, spec_parse_int(fp)) {
            (Ok(ipv), Ok(fpv)) => {
                let shifted = ipv * pow10_spec(fp.len());
                if shifted > i64::MAX || shifted < i64::MIN {
                    None
                } else if shifted + fpv > i64::MAX || shifted + fpv < i64::MIN {
                    None
                } else {
                    Some(Dec { mantissa: (shifted + fpv) as i64, scale: fp.len() as u32 })
                }
            },
            _ => None,
        }
    }
}

/// The hour a clock form reads.
pub open spec fn spec_tod_full_hour(f: TimeOfDayForm) -> u32 {
    match f {
        TimeOfDayForm::Hour { full_hour, .. } => full_hour,
        TimeOfDayForm::HourMinute { full_hour, .. } => full_hour,
        TimeOfDayForm::HourMinuteSecond { full_hour, .. } => full_hour,
    }
}

/// What the am/pm marker makes of a clock form: the hour refixed on the
/// 24-hour clock, the minute and second kept.
pub open spec fn spec_apply_am_pm(f: TimeOfDayForm, pm: bool) -> Option<Dimension> {
    let base = spec_tod_full_hour(f);
    if base > 23 {
        None
    } else {
        let hh = ((base as int % 12) + if pm {
            12int
        } else {
            0int
        }) as u32;
        let built = match f {
            TimeOfDayForm::Hour { .. } => spec_hour_result(hh, false),
            TimeOfDayForm::HourMinute { minute, .. } => spec_hour_minute_result(hh, minute, false),
            TimeOfDayForm::HourMinuteSecond { minute, second, .. } => spec_hms_result(
                hh,
                minute,
                second,
                false,
            ),
        };
        match built {
            Ok(t) => Some(Dimension::Time(TimeValue { latent: false, ..t })),
            Err(..) => None,
        }
    }
}

/// What a relative-minute marker makes of a spoken hour.
pub open spec fn spec_relative_minute(args: Seq<ProducerArg>, m: i64) -> Option<Dimension> {
    match spec_time_arg(args, 1) {
        Some(t) => match t.form {
            Form::TimeOfDay(f) => match spec_hour_relative_minute(
                spec_tod_full_hour(f),
                m,
                spec_tod_is_12(f),
            ) {
                Ok(t2) => Some(Dimension::Time(t2)),
                Err(..) => None,
            },
            _ => None,
        },
        None => None,
    }
}

/// A fresh duration value over a period.
pub open spec fn spec_dur_new(p: Period) -> DurationValue {
    DurationValue { period: p, precision: Precision::Exact, prefixed: false, suffixed: false }
}

/// What adding two duration values yields.
pub open spec fn spec_duration_sum(a: DurationValue, b: DurationValue) -> Option<DurationValue> {
    match period_plus_spec(a.period, b.period) {
        Some(p) => Some(
            DurationValue {
                period: p,
                precision: crate::grain::precision_resolution_spec(a.precision, b.precision),
                prefixed: false,
                suffixed: false,
            },
        ),
        None => None,
    }
}

/// The n-th cycle of a grain from the reference, as a time value.
pub open spec fn spec_cycle_nth_tv(g: Grain, n: i64) -> TimeValue {
    TimeValue {
        form: Form::Cycle(g),
        ..spec_time_value(
            Constraint::TakeTheNth { n, not_immediate: false, inner: Box::new(Constraint::Cycle(g)) },
        )
    }
}

/// The intersection of two time values.
pub open spec fn spec_intersect_tv(a: TimeValue, b: TimeValue) -> TimeValue {
    TimeValue {
        constraint: Constraint::Intersect(Box::new(a.constraint), Box::new(b.constraint)),
        form: Form::Empty,
        direction: if a.direction is Some {
            a.direction
        } else {
            b.direction
        },
        precision: crate::grain::precision_resolution_spec(a.precision, b.precision),
        latent: false,
    }
}

/// The n-th occurrence of a time value from the reference.
pub open spec fn spec_the_nth_tv(t: TimeValue, n: i64, not_immediate: bool) -> TimeValue {
    TimeValue {
        constraint: Constraint::TakeTheNth { n, not_immediate, inner: Box::new(t.constraint) },
        form: Form::Empty,
        direction: None,
        precision: t.precision,
        latent: false,
    }
}

/// The n-th occurrence of one time value after another's occurrence.
pub open spec fn spec_the_nth_after_tv(a: TimeValue, n: i64, base: TimeValue) -> TimeValue {
    TimeValue {
        constraint: Constraint::TheNthAfter {
            n,
            not_immediate: true,
            inner: Box::new(a.constraint),
            base: Box::new(base.constraint),
        },
        form: Form::Empty,
        direction: None,
        precision: crate::grain::precision_resolution_spec(a.precision, base.precision),
        latent: false,
    }
}

/// The current second translated by a duration.
pub open spec fn spec_in_present_tv(d: DurationValue) -> TimeValue {
    TimeValue {
        constraint: Constraint::ShiftBy {
            period: d.period,
            inner: Box::new(
                Constraint::TakeTheNth {
                    n: 0,
                    not_immediate: false,
                    inner: Box::new(Constraint::Cycle(Grain::Second)),
                },
            ),
        },
        form: Form::Empty,
        direction: None,
        precision: d.precision,
        latent: false,
    }
}

/// A time value translated by a duration's period.
pub open spec fn spec_shift_tv(p: Period, t: TimeValue, precision: Precision) -> TimeValue {
    TimeValue {
        constraint: Constraint::ShiftBy { period: p, inner: Box::new(t.constraint) },
        form: Form::Empty,
        direction: None,
        precision,
        latent: false,
    }
}

/// The value child at a slot, if any.
fn arg_val(args: &Vec<ProducerArg>, i: usize) -> (r: Option<&Dimension>)
    ensures
        (match r {
            Some(d) => spec_arg_val(args@, i as int) == Some(*d),
            None => spec_arg_val(args@, i as int) is None,
        }),
{
    if i < args.len() {
        match &args[i] {
            ProducerArg::Val(d) => Some(d),
            ProducerArg::Text(..) => None,
        }
    } else {
        None
    }
}

/// Capture group `g` of the terminal at a slot, if matched.
fn arg_group(args: &Vec<ProducerArg>, i: usize, g: usize) -> (r: Option<&Vec<u8>>)
    ensures
        (match r {
            Some(sv) => spec_arg_group(args@, i as int, g as int) == Some(sv@),
            None => spec_arg_group(args@, i as int, g as int) is None,
        }),
{
    if i < args.len() {
        match &args[i] {
            ProducerArg::Text(groups) => {
                if g < groups.len() {
                    match &groups[g] {
                        Some(s) => Some(s),
                        None => None,
                    }
                } else {
                    None
                }
            },
            ProducerArg::Val(..) => None,
        }
    } else {
        None
    }
}

/// The first matched alternative among capture groups 1..=n.
fn which_alternative(args: &Vec<ProducerArg>, i: usize, n: usize) -> (r: Option<usize>)
    requires
        n <= 64,
    ensures
        r matches Some(k) ==> 1 <= k <= n,
        (match r {
            Some(k) => spec_which_alt(args@, i as int, n as int) == Some(k as int),
            None => spec_which_alt(args@, i as int, n as int) is None,
        }),
{
    let mut g: usize = 1;
    while g <= n
        invariant
            n <= 64,
            1 <= g <= n + 1,
            spec_which_alt(args@, i as int, n as int) == spec_which_alt_from(
                args@,
                i as int,
                g as int,
                n as int,
            ),
        decreases n + 1 - g,
    {
        if arg_group(args, i, g).is_some() {
            return Some(g);
        }
        g = g + 1;
    }
    None
}

fn int_arg(args: &Vec<ProducerArg>, i: usize) -> (r: Option<i64>)
    ensures
        r == spec_int_arg(args@, i as int),
{
    match arg_val(args, i) {
        Some(Dimension::Number(NumberValue::Integer(iv))) => Some(iv.value),
        _ => None,
    }
}

fn number_arg(args: &Vec<ProducerArg>, i: usize) -> (r: Option<NumberValue>)
    ensures
        r == spec_number_arg(args@, i as int),
{
    match arg_val(args, i) {
        Some(Dimension::Number(n)) => Some(*n),
        _ => None,
    }
}

fn ordinal_arg(args: &Vec<ProducerArg>, i: usize) -> (r: Option<OrdinalValue>)
    ensures
        r == spec_ordinal_arg(args@, i as int),
{
    match arg_val(args, i) {
        Some(Dimension::Ordinal(o)) => Some(*o),
        _ => None,
    }
}

fn duration_arg(args: &Vec<ProducerArg>, i: usize) -> (r: Option<DurationValue>)
    ensures
        r == spec_duration_arg(args@, i as int),
{
    match arg_val(args, i) {
        Some(Dimension::Duration(d)) => Some(*d),
        _ => None,
    }
}

fn uod_arg(args: &Vec<ProducerArg>, i: usize) -> (r: Option<UnitOfDurationValue>)
    ensures
        r == spec_uod_arg(args@, i as int),
{
    match arg_val(args, i) {
        Some(Dimension::UnitOfDuration(u)) => Some(*u),
        _ => None,
    }
}

fn cycle_arg(args: &Vec<ProducerArg>, i: usize) -> (r: Option<CycleValue>)
    ensures
        r == spec_cycle_arg(args@, i as int),
{
    match arg_val(args, i) {
        Some(Dimension::Cycle(c)) => Some(*c),
        _ => None,
    }
}

fn time_arg(args: &Vec<ProducerArg>, i: usize) -> (r: Option<TimeValue>)
    ensures
        r == spec_time_arg(args@, i as int),
{
    match arg_val(args, i) {
        Some(Dimension::Time(t)) => Some(t.clone()),
        _ => None,
    }
}

fn money_arg(args: &Vec<ProducerArg>, i: usize) -> (r: Option<AmountOfMoneyValue>)
    ensures
        r == spec_money_arg(args@, i as int),
{
    match arg_val(args, i) {
        Some(Dimension::AmountOfMoney(a)) => Some(*a),
        _ => None,
    }
}

fn money_unit_arg(args: &Vec<ProducerArg>, i: usize) -> (r: Option<MoneyUnitValue>)
    ensures
        r == spec_money_unit_arg(args@, i as int),
{
    match arg_val(args, i) {
        Some(Dimension::MoneyUnit(u)) => Some(*u),
        _ => None,
    }
}

fn temp_arg(args: &Vec<ProducerArg>, i: usize) -> (r: Option<TemperatureValue>)
    ensures
        r == spec_temp_arg(args@, i as int),
{
    match arg_val(args, i) {
        Some(Dimension::Temperature(t)) => Some(*t),
        _ => None,
    }
}

/// Parse a capture group as a bounded integer.
fn group_int(args: &Vec<ProducerArg>, i: usize, g: usize) -> (r: Option<i64>)
    ensures
        r == spec_group_int(args@, i as int, g as int),
{
    match arg_group(args, i, g) {
        Some(s) => match helpers::parse_int(s.as_slice()) {
            Ok(v) => Some(v),
            Err(..) => None,
        },
        None => None,
    }
}

fn u32_of(v: i64) -> (r: Option<u32>)
    ensures
        r matches Some(u) ==> u == v,
        r is Some <==> 0 <= v <= u32::MAX,
{
    if 0 <= v && v <= 4294967295 {
        Some(v as u32)
    } else {
        None
    }
}

/// The weekday named by an alternative index, Monday first.
fn weekday_of_alt(k: usize) -> (r: Option<Weekday>)
    ensures
        r == spec_weekday_of_alt(k as int),
{
    if k == 1 {
        Some(Weekday::Mon)
    } else if k == 2 {
        Some(Weekday::Tue)
    } else if k == 3 {
        Some(Weekday::Wed)
    } else if k == 4 {
        Some(Weekday::Thu)
    } else if k == 5 {
        Some(Weekday::Fri)
    } else if k == 6 {
        Some(Weekday::Sat)
    } else if k == 7 {
        Some(Weekday::Sun)
    } else {
        None
    }
}

/// A decimal from integer and fraction digit groups.
fn decimal_of_groups(ip: &Vec<u8>, fp: &Vec<u8>) -> (r: Option<Dec>)
    ensures
        r == spec_decimal_of_groups(ip@, fp@),
        r matches Some(d) ==> d.wf(),
{
    if fp.len() > 12 {
        return None;
    }
    let scale = fp.len() as u32;
    let ipv = if ip.len() == 0 {
        0i64
    } else {
        match helpers::parse_int(ip.as_slice()) {
            Ok(v) => v,
            Err(..) => {
                return None;
            },
        }
    };
    let fpv = match helpers::parse_int(fp.as_slice()) {
        Ok(v) => v,
        Err(..) => {
            return None;
        },
    };
    let p = match crate::values::pow10(scale) {
        Some(p) => p,
        None => {
            return None;
        },
    };
    let shifted = match ipv.checked_mul(p) {
        Some(v) => v,
        None => {
            return None;
        },
    };
    let mantissa = match shifted.checked_add(fpv) {
        Some(v) => v,
        None => {
            return None;
        },
    };
    Some(Dec { mantissa, scale })
}

/// The patterns and rules the percentage group registers, as data: one
/// terminal and the "<number> per cent" rule over it.
pub open spec fn percentage_installed(pre: RuleSetBuilder, post: RuleSetBuilder) -> bool {
    let p0 = pre.patterns@.len() as int;
    let r0 = pre.rules@.len() as int;
    &&& post.patterns@.len() == p0 + 1
    &&& post.rules@.len() == r0 + 1
    &&& post.patterns@.subrange(0, p0) == pre.patterns@
    &&& post.rules@.subrange(0, r0) == pre.rules@
    &&& post.patterns@[p0]@ == "(?i)(?:%|per ?cents?)"@
    &&& rule_entry(
        post.rules@[r0],
        RuleId::NumberPercent,
        seq![
            RulePat::Dim(DimensionKind::Number, Pred::Any),
            RulePat::Reg(p0 as usize),
        ],
    )
}

/// Rules for percentages.
pub fn rules_percentage(b: &mut RuleSetBuilder) -> (r: Result<(), RuleError>)
    requires
        old(b).wf(),
    ensures
        final(b).wf(),
        r is Ok ==> percentage_installed(*old(b), *final(b)),
{
    let percent = b.reg("(?i)(?:%|per ?cents?)")?;
    b.rule(
        RuleId::NumberPercent,
        vec![RulePat::Dim(DimensionKind::Number, Pred::Any), RulePat::Reg(percent)],
    );
    proof {
        assert(b.patterns@.subrange(0, old(b).patterns@.len() as int) =~= old(b).patterns@);
        assert(b.rules@.subrange(0, old(b).rules@.len() as int) =~= old(b).rules@);
        assert(b.rules@[old(b).rules@.len() as int].pats@ =~= seq![
            RulePat::Dim(DimensionKind::Number, Pred::Any),
            RulePat::Reg(old(b).patterns@.len() as int as usize),
        ]);
    }
    Ok(())
}

/// The patterns and rules the duration group registers, as data.
pub open spec fn duration_installed(pre: RuleSetBuilder, post: RuleSetBuilder) -> bool {
    let p0 = pre.patterns@.len() as int;
    let r0 = pre.rules@.len() as int;
    &&& post.patterns@.len() == p0 + 22
    &&& post.rules@.len() == r0 + 23
    &&& post.patterns@.subrange(0, p0) == pre.patterns@
    &&& post.rules@.subrange(0, r0) == pre.rules@
    &&& post.patterns@[p0 + 0]@ == "(?i)sec(?:ond)?s?\\b"@
    &&& post.patterns@[p0 + 1]@ == "(?i)min(?:ute)?s?\\b"@
    &&& post.patterns@[p0 + 2]@ == "(?i)h(?:(?:ou)?rs?)?\\b"@
    &&& post.patterns@[p0 + 3]@ == "(?i)days?\\b"@
    &&& post.patterns@[p0 + 4]@ == "(?i)weeks?\\b"@
    &&& post.patterns@[p0 + 5]@ == "(?i)months?\\b"@
    &&& post.patterns@[p0 + 6]@ == "(?i)years?\\b"@
    &&& post.patterns@[p0 + 7]@ == "(?i)1/2\\s?h(?:our)?|half an? hour|an? half hour"@
    &&& post.patterns@[p0 + 8]@ == "(?i)and (?:an? )?half\\b"@
    &&& post.patterns@[p0 + 9]@ == "(?i)(\\d+)\\.(\\d+)"@
    &&& post.patterns@[p0 + 10]@ == "(?i)hours?\\b"@
    &&& post.patterns@[p0 + 11]@ == "(?i)and (?:an? )?half hours?"@
    &&& post.patterns@[p0 + 12]@ == "(?i)\\bin\\b"@
    &&& post.patterns@[p0 + 13]@ == "(?i)\\b(?:for|during)\\b"@
    &&& post.patterns@[p0 + 14]@ == "(?i)\\band\\b"@
    &&& post.patterns@[p0 + 15]@ == "(?i)\\bago\\b"@
    &&& post.patterns@[p0 + 16]@ == "(?i)\\b(?:hence|from now)\\b"@
    &&& post.patterns@[p0 + 17]@ == "(?i)\\bafter\\b"@
    &&& post.patterns@[p0 + 18]@ == "(?i)\\bbefore\\b"@
    &&& post.patterns@[p0 + 19]@ == "(?i)\\b(?:about|around|approximately|roughly)\\b"@
    &&& post.patterns@[p0 + 20]@ == "(?i)\\b(?:exactly|precisely)\\b"@
    &&& rule_entry(
        post.rules@[r0 + 0],
        RuleId::UnitSecond,
        seq![
            RulePat::Reg((p0 + 0) as usize),
        ],
    )
    &&& rule_entry(
        post.rules@[r0 + 1],
        RuleId::UnitMinute,
        seq![
            RulePat::Reg((p0 + 1) as usize),
        ],
    )
    &&& rule_entry(
        post.rules@[r0 + 2],
        RuleId::UnitHour,
        seq![
            RulePat::Reg((p0 + 2) as usize),
        ],
    )
    &&& rule_entry(
        post.rules@[r0 + 3],
        RuleId::UnitDay,
        seq![
            RulePat::Reg((p0 + 3) as usize),
        ],
    )
    &&& rule_entry(
        post.rules@[r0 + 4],
        RuleId::UnitWeek,
        seq![
            RulePat::Reg((p0 + 4) as usize),
        ],
    )
    &&& rule_entry(
        post.rules@[r0 + 5],
        RuleId::UnitMonth,
        seq![
            RulePat::Reg((p0 + 5) as usize),
        ],
    )
    &&& rule_entry(
        post.rules@[r0 + 6],
        RuleId::UnitYear,
        seq![
            RulePat::Reg((p0 + 6) as usize),
        ],
    )
    &&& rule_entry(
        post.rules@[r0 + 7],
        RuleId::HalfAnHour,
        seq![
            RulePat::Reg((p0 + 7) as usize),
        ],
    )
    &&& rule_entry(
        post.rules@[r0 + 8],
        RuleId::IntegerUnitDuration,
        seq![
            RulePat::Dim(DimensionKind::Number, Pred::IntegerRange(0, 1000000)),
            RulePat::Dim(DimensionKind::UnitOfDuration, Pred::Any),
        ],
    )
    &&& rule_entry(
        post.rules@[r0 + 9],
        RuleId::IntegerUnitAndAHalf,
        seq![
            RulePat::Dim(DimensionKind::Number, Pred::IntegerRange(0, 1000000)),
            RulePat::Dim(DimensionKind::UnitOfDuration, Pred::Any),
            RulePat::Reg((p0 + 8) as usize),
        ],
    )
    &&& rule_entry(
        post.rules@[r0 + 10],
        RuleId::DecimalHours,
        seq![
            RulePat::Reg((p0 + 9) as usize),
            RulePat::Reg((p0 + 10) as usize),
        ],
    )
    &&& rule_entry(
        post.rules@[r0 + 11],
        RuleId::IntegerAndHalfHours,
        seq![
            RulePat::Dim(DimensionKind::Number, Pred::IntegerRange(0, 1000000)),
            RulePat::Reg((p0 + 11) as usize),
        ],
    )
    &&& rule_entry(
        post.rules@[r0 + 12],
        RuleId::InDuration,
        seq![
            RulePat::Reg((p0 + 12) as usize),
            RulePat::Dim(DimensionKind::Duration, Pred::Any),
        ],
    )
    &&& rule_entry(
        post.rules@[r0 + 13],
        RuleId::ForDuration,
        seq![
            RulePat::Reg((p0 + 13) as usize),
            RulePat::Dim(DimensionKind::Duration, Pred::Any),
        ],
    )
    &&& rule_entry(
        post.rules@[r0 + 14],
        RuleId::DurationAndDuration,
        seq![
            RulePat::Dim(DimensionKind::Duration, Pred::DurationNotSuffixed),
            RulePat::Reg((p0 + 14) as usize),
            RulePat::Dim(DimensionKind::Duration, Pred::DurationNotPrefixed),
        ],
    )
    &&& rule_entry(
        post.rules@[r0 + 15],
        RuleId::DurationDuration,
        seq![
            RulePat::Dim(DimensionKind::Duration, Pred::DurationNotSuffixed),
            RulePat::Dim(DimensionKind::Duration, Pred::DurationNotPrefixed),
        ],
    )
    &&& rule_entry(
        post.rules@[r0 + 16],
        RuleId::DurationAgo,
        seq![
            RulePat::Dim(DimensionKind::Duration, Pred::Any),
            RulePat::Reg((p0 + 15) as usize),
        ],
    )
    &&& rule_entry(
        post.rules@[r0 + 17],
        RuleId::DurationHence,
        seq![
            RulePat::Dim(DimensionKind::Duration, Pred::Any),
            RulePat::Reg((p0 + 16) as usize),
        ],
    )
    &&& rule_entry(
        post.rules@[r0 + 18],
        RuleId::DurationAfterTime,
        seq![
            RulePat::Dim(DimensionKind::Duration, Pred::Any),
            RulePat::Reg((p0 + 17) as usize),
            RulePat::Dim(DimensionKind::Time, Pred::Any),
        ],
    )
    &&& rule_entry(
        post.rules@[r0 + 19],
        RuleId::DurationBeforeTime,
        seq![
            RulePat::Dim(DimensionKind::Duration, Pred::Any),
            RulePat::Reg((p0 + 18) as usize),
            RulePat::Dim(DimensionKind::Time, Pred::Any),
        ],
    )
    &&& rule_entry(
        post.rules@[r0 + 20],
        RuleId::AboutDuration,
        seq![
            RulePat::Reg((p0 + 19) as usize),
            RulePat::Dim(DimensionKind::Duration, Pred::Any),
        ],
    )
    &&& rule_entry(
        post.rules@[r0 + 21],
        RuleId::ExactlyDuration,
        seq![
            RulePat::Reg((p0 + 20) as usize),
            RulePat::Dim(DimensionKind::Duration, Pred::Any),
        ],
    )    &&& post.patterns@[p0 + 21]@ == "(?i)\\ban?\\b"@
    &&& rule_entry(
        post.rules@[r0 + 22],
        RuleId::AUnitDuration,
        seq![
            RulePat::Reg((p0 + 21) as usize),
            RulePat::Dim(DimensionKind::UnitOfDuration, Pred::Any),
        ],
    )
}

/// Rules for durations.
#[verifier::rlimit(100)]
#[verifier::spinoff_prover]
pub fn rules_duration(b: &mut RuleSetBuilder) -> (r: Result<(), RuleError>)
    requires
        old(b).wf(),
    ensures
        final(b).wf(),
        r is Ok ==> duration_installed(*old(b), *final(b)),
{
    let sec = b.reg("(?i)sec(?:ond)?s?\\b")?;
    b.rule(RuleId::UnitSecond, vec![RulePat::Reg(sec)]);
    let min = b.reg("(?i)min(?:ute)?s?\\b")?;
    b.rule(RuleId::UnitMinute, vec![RulePat::Reg(min)]);
    let hour = b.reg("(?i)h(?:(?:ou)?rs?)?\\b")?;
    b.rule(RuleId::UnitHour, vec![RulePat::Reg(hour)]);
    let day = b.reg("(?i)days?\\b")?;
    b.rule(RuleId::UnitDay, vec![RulePat::Reg(day)]);
    let week = b.reg("(?i)weeks?\\b")?;
    b.rule(RuleId::UnitWeek, vec![RulePat::Reg(week)]);
    let month = b.reg("(?i)months?\\b")?;
    b.rule(RuleId::UnitMonth, vec![RulePat::Reg(month)]);
    let year = b.reg("(?i)years?\\b")?;
    b.rule(RuleId::UnitYear, vec![RulePat::Reg(year)]);
    let half_hour = b.reg("(?i)1/2\\s?h(?:our)?|half an? hour|an? half hour")?;
    b.rule(RuleId::HalfAnHour, vec![RulePat::Reg(half_hour)]);
    b.rule(
        RuleId::IntegerUnitDuration,
        vec![
            RulePat::Dim(DimensionKind::Number, Pred::IntegerRange(0, 1000000)),
            RulePat::Dim(DimensionKind::UnitOfDuration, Pred::Any),
        ],
    );
    let and_half = b.reg("(?i)and (?:an? )?half\\b")?;
    b.rule(
        RuleId::IntegerUnitAndAHalf,
        vec![
            RulePat::Dim(DimensionKind::Number, Pred::IntegerRange(0, 1000000)),
            RulePat::Dim(DimensionKind::UnitOfDuration, Pred::Any),
            RulePat::Reg(and_half),
        ],
    );
    let decimal = b.reg("(?i)(\\d+)\\.(\\d+)")?;
    let hours_w = b.reg("(?i)hours?\\b")?;
    b.rule(RuleId::DecimalHours, vec![RulePat::Reg(decimal), RulePat::Reg(hours_w)]);
    let and_half_hours = b.reg("(?i)and (?:an? )?half hours?")?;
    b.rule(
        RuleId::IntegerAndHalfHours,
        vec![
            RulePat::Dim(DimensionKind::Number, Pred::IntegerRange(0, 1000000)),
            RulePat::Reg(and_half_hours),
        ],
    );
    let in_w = b.reg("(?i)\\bin\\b")?;
    b.rule(
        RuleId::InDuration,
        vec![RulePat::Reg(in_w), RulePat::Dim(DimensionKind::Duration, Pred::Any)],
    );
    let for_w = b.reg("(?i)\\b(?:for|during)\\b")?;
    b.rule(
        RuleId::ForDuration,
        vec![RulePat::Reg(for_w), RulePat::Dim(DimensionKind::Duration, Pred::Any)],
    );
    let and_w = b.reg("(?i)\\band\\b")?;
    b.rule(
        RuleId::DurationAndDuration,
        vec![
            RulePat::Dim(DimensionKind::Duration, Pred::DurationNotSuffixed),
            RulePat::Reg(and_w),
            RulePat::Dim(DimensionKind::Duration, Pred::DurationNotPrefixed),
        ],
    );
    b.rule(
        RuleId::DurationDuration,
        vec![
            RulePat::Dim(DimensionKind::Duration, Pred::DurationNotSuffixed),
            RulePat::Dim(DimensionKind::Duration, Pred::DurationNotPrefixed),
        ],
    );
    let ago = b.reg("(?i)\\bago\\b")?;
    b.rule(
        RuleId::DurationAgo,
        vec![RulePat::Dim(DimensionKind::Duration, Pred::Any), RulePat::Reg(ago)],
    );
    let hence = b.reg("(?i)\\b(?:hence|from now)\\b")?;
    b.rule(
        RuleId::DurationHence,
        vec![RulePat::Dim(DimensionKind::Duration, Pred::Any), RulePat::Reg(hence)],
    );
    let after_w = b.reg("(?i)\\bafter\\b")?;
    b.rule(
        RuleId::DurationAfterTime,
        vec![
            RulePat::Dim(DimensionKind::Duration, Pred::Any),
            RulePat::Reg(after_w),
            RulePat::Dim(DimensionKind::Time, Pred::Any),
        ],
    );
    let before_w = b.reg("(?i)\\bbefore\\b")?;
    b.rule(
        RuleId::DurationBeforeTime,
        vec![
            RulePat::Dim(DimensionKind::Duration, Pred::Any),
            RulePat::Reg(before_w),
            RulePat::Dim(DimensionKind::Time, Pred::Any),
        ],
    );
    let about = b.reg("(?i)\\b(?:about|around|approximately|roughly)\\b")?;
    b.rule(
        RuleId::AboutDuration,
        vec![RulePat::Reg(about), RulePat::Dim(DimensionKind::Duration, Pred::Any)],
    );
    let exactly = b.reg("(?i)\\b(?:exactly|precisely)\\b")?;
    b.rule(
        RuleId::ExactlyDuration,
        vec![RulePat::Reg(exactly), RulePat::Dim(DimensionKind::Duration, Pred::Any)],
    );
    let article = b.reg("(?i)\\ban?\\b")?;
    b.rule(
        RuleId::AUnitDuration,
        vec![RulePat::Reg(article), RulePat::Dim(DimensionKind::UnitOfDuration, Pred::Any)],
    );
    proof {
        assert(b.patterns@.subrange(0, old(b).patterns@.len() as int) =~= old(b).patterns@);
        assert(b.rules@.subrange(0, old(b).rules@.len() as int) =~= old(b).rules@);
        assert(b.rules@[old(b).rules@.len() as int + 0].pats@ =~= seq![
            RulePat::Reg(((old(b).patterns@.len() as int) + 0) as usize),
        ]);
        assert(b.rules@[old(b).rules@.len() as int + 1].pats@ =~= seq![
            RulePat::Reg(((old(b).patterns@.len() as int) + 1) as usize),
        ]);
        assert(b.rules@[old(b).rules@.len() as int + 2].pats@ =~= seq![
            RulePat::Reg(((old(b).patterns@.len() as int) + 2) as usize),
        ]);
        assert(b.rules@[old(b).rules@.len() as int + 3].pats@ =~= seq![
            RulePat::Reg(((old(b).patterns@.len() as int) + 3) as usize),
        ]);
        assert(b.rules@[old(b).rules@.len() as int + 4].pats@ =~= seq![
            RulePat::Reg(((old(b).patterns@.len() as int) + 4) as usize),
        ]);
        assert(b.rules@[old(b).rules@.len() as int + 5].pats@ =~= seq![
            RulePat::Reg(((old(b).patterns@.len() as int) + 5) as usize),
        ]);
        assert(b.rules@[old(b).rules@.len() as int + 6].pats@ =~= seq![
            RulePat::Reg(((old(b).patterns@.len() as int) + 6) as usize),
        ]);
        assert(b.rules@[old(b).rules@.len() as int + 7].pats@ =~= seq![
            RulePat::Reg(((old(b).patterns@.len() as int) + 7) as usize),
        ]);
        assert(b.rules@[old(b).rules@.len() as int + 8].pats@ =~= seq![
            RulePat::Dim(DimensionKind::Number, Pred::IntegerRange(0, 1000000)),
            RulePat::Dim(DimensionKind::UnitOfDuration, Pred::Any),
        ]);
        assert(b.rules@[old(b).rules@.len() as int + 9].pats@ =~= seq![
            RulePat::Dim(DimensionKind::Number, Pred::IntegerRange(0, 1000000)),
            RulePat::Dim(DimensionKind::UnitOfDuration, Pred::Any),
            RulePat::Reg(((old(b).patterns@.len() as int) + 8) as usize),
        ]);
        assert(b.rules@[old(b).rules@.len() as int + 10].pats@ =~= seq![
            RulePat::Reg(((old(b).patterns@.len() as int) + 9) as usize),
            RulePat::Reg(((old(b).patterns@.len() as int) + 10) as usize),
        ]);
        assert(b.rules@[old(b).rules@.len() as int + 11].pats@ =~= seq![
            RulePat::Dim(DimensionKind::Number, Pred::IntegerRange(0, 1000000)),
            RulePat::Reg(((old(b).patterns@.len() as int) + 11) as usize),
        ]);
        assert(b.rules@[old(b).rules@.len() as int + 12].pats@ =~= seq![
            RulePat::Reg(((old(b).patterns@.len() as int) + 12) as usize),
            RulePat::Dim(DimensionKind::Duration, Pred::Any),
        ]);
        assert(b.rules@[old(b).rules@.len() as int + 13].pats@ =~= seq![
            RulePat::Reg(((old(b).patterns@.len() as int) + 13) as usize),
            RulePat::Dim(DimensionKind::Duration, Pred::Any),
        ]);
        assert(b.rules@[old(b).rules@.len() as int + 14].pats@ =~= seq![
            RulePat::Dim(DimensionKind::Duration, Pred::DurationNotSuffixed),
            RulePat::Reg(((old(b).patterns@.len() as int) + 14) as usize),
            RulePat::Dim(DimensionKind::Duration, Pred::DurationNotPrefixed),
        ]);
        assert(b.rules@[old(b).rules@.len() as int + 15].pats@ =~= seq![
            RulePat::Dim(DimensionKind::Duration, Pred::DurationNotSuffixed),
            RulePat::Dim(DimensionKind::Duration, Pred::DurationNotPrefixed),
        ]);
        assert(b.rules@[old(b).rules@.len() as int + 16].pats@ =~= seq![
            RulePat::Dim(DimensionKind::Duration, Pred::Any),
            RulePat::Reg(((old(b).patterns@.len() as int) + 15) as usize),
        ]);
        assert(b.rules@[old(b).rules@.len() as int + 17].pats@ =~= seq![
            RulePat::Dim(DimensionKind::Duration, Pred::Any),
            RulePat::Reg(((old(b).patterns@.len() as int) + 16) as usize),
        ]);
        assert(b.rules@[old(b).rules@.len() as int + 18].pats@ =~= seq![
            RulePat::Dim(DimensionKind::Duration, Pred::Any),
            RulePat::Reg(((old(b).patterns@.len() as int) + 17) as usize),
            RulePat::Dim(DimensionKind::Time, Pred::Any),
        ]);
        assert(b.rules@[old(b).rules@.len() as int + 19].pats@ =~= seq![
            RulePat::Dim(DimensionKind::Duration, Pred::Any),
            RulePat::Reg(((old(b).patterns@.len() as int) + 18) as usize),
            RulePat::Dim(DimensionKind::Time, Pred::Any),
        ]);
        assert(b.rules@[old(b).rules@.len() as int + 20].pats@ =~= seq![
            RulePat::Reg(((old(b).patterns@.len() as int) + 19) as usize),
            RulePat::Dim(DimensionKind::Duration, Pred::Any),
        ]);
        assert(b.rules@[old(b).rules@.len() as int + 21].pats@ =~= seq![
            RulePat::Reg(((old(b).patterns@.len() as int) + 20) as usize),
            RulePat::Dim(DimensionKind::Duration, Pred::Any),
        ]);    assert(b.rules@[old(b).rules@.len() as int + 22].pats@ =~= seq![
            RulePat::Reg(((old(b).patterns@.len() as int) + 21) as usize),
            RulePat::Dim(DimensionKind::UnitOfDuration, Pred::Any),
        ]);
    }
    Ok(())
}

/// The patterns and rules the cycle group registers, as data.
pub open spec fn cycle_installed(pre: RuleSetBuilder, post: RuleSetBuilder) -> bool {
    let p0 = pre.patterns@.len() as int;
    let r0 = pre.rules@.len() as int;
    &&& post.patterns@.len() == p0 + 11
    &&& post.rules@.len() == r0 + 11
    &&& post.patterns@.subrange(0, p0) == pre.patterns@
    &&& post.rules@.subrange(0, r0) == pre.rules@
    &&& post.patterns@[p0 + 0]@ == "(?i)seconds?\\b"@
    &&& post.patterns@[p0 + 1]@ == "(?i)minutes?\\b"@
    &&& post.patterns@[p0 + 2]@ == "(?i)h(?:ou)?rs?\\b"@
    &&& post.patterns@[p0 + 3]@ == "(?i)days?\\b"@
    &&& post.patterns@[p0 + 4]@ == "(?i)weeks?\\b"@
    &&& post.patterns@[p0 + 5]@ == "(?i)months?\\b"@
    &&& post.patterns@[p0 + 6]@ == "(?i)(?:fiscal )?quarters?\\b"@
    &&& post.patterns@[p0 + 7]@ == "(?i)years?\\b"@
    &&& post.patterns@[p0 + 8]@ == "(?i)\\bthis\\b"@
    &&& post.patterns@[p0 + 9]@ == "(?i)\\bnext\\b"@
    &&& post.patterns@[p0 + 10]@ == "(?i)\\blast\\b"@
    &&& rule_entry(
        post.rules@[r0 + 0],
        RuleId::CycleSecond,
        seq![
            RulePat::Reg((p0 + 0) as usize),
        ],
    )
    &&& rule_entry(
        post.rules@[r0 + 1],
        RuleId::CycleMinute,
        seq![
            RulePat::Reg((p0 + 1) as usize),
        ],
    )
    &&& rule_entry(
        post.rules@[r0 + 2],
        RuleId::CycleHour,
        seq![
            RulePat::Reg((p0 + 2) as usize),
        ],
    )
    &&& rule_entry(
        post.rules@[r0 + 3],
        RuleId::CycleDay,
        seq![
            RulePat::Reg((p0 + 3) as usize),
        ],
    )
    &&& rule_entry(
        post.rules@[r0 + 4],
        RuleId::CycleWeek,
        seq![
            RulePat::Reg((p0 + 4) as usize),
        ],
    )
    &&& rule_entry(
        post.rules@[r0 + 5],
        RuleId::CycleMonth,
        seq![
            RulePat::Reg((p0 + 5) as usize),
        ],
    )
    &&& rule_entry(
        post.rules@[r0 + 6],
        RuleId::CycleQuarter,
        seq![
            RulePat::Reg((p0 + 6) as usize),
        ],
    )
    &&& rule_entry(
        post.rules@[r0 + 7],
        RuleId::CycleYear,
        seq![
            RulePat::Reg((p0 + 7) as usize),
        ],
    )
    &&& rule_entry(
        post.rules@[r0 + 8],
        RuleId::ThisCycle,
        seq![
            RulePat::Reg((p0 + 8) as usize),
            RulePat::Dim(DimensionKind::Cycle, Pred::Any),
        ],
    )
    &&& rule_entry(
        post.rules@[r0 + 9],
        RuleId::NextCycle,
        seq![
            RulePat::Reg((p0 + 9) as usize),
            RulePat::Dim(DimensionKind::Cycle, Pred::Any),
        ],
    )
    &&& rule_entry(
        post.rules@[r0 + 10],
        RuleId::LastCycle,
        seq![
            RulePat::Reg((p0 + 10) as usize),
            RulePat::Dim(DimensionKind::Cycle, Pred::Any),
        ],
    )
}

/// Rules for calendar cycles.
pub fn rules_cycle(b: &mut RuleSetBuilder) -> (r: Result<(), RuleError>)
    requires
        old(b).wf(),
    ensures
        final(b).wf(),
        r is Ok ==> cycle_installed(*old(b), *final(b)),
{
    let sec = b.reg("(?i)seconds?\\b")?;
    b.rule(RuleId::CycleSecond, vec![RulePat::Reg(sec)]);
    let min = b.reg("(?i)minutes?\\b")?;
    b.rule(RuleId::CycleMinute, vec![RulePat::Reg(min)]);
    let hour = b.reg("(?i)h(?:ou)?rs?\\b")?;
    b.rule(RuleId::CycleHour, vec![RulePat::Reg(hour)]);
    let day = b.reg("(?i)days?\\b")?;
    b.rule(RuleId::CycleDay, vec![RulePat::Reg(day)]);
    let week = b.reg("(?i)weeks?\\b")?;
    b.rule(RuleId::CycleWeek, vec![RulePat::Reg(week)]);
    let month = b.reg("(?i)months?\\b")?;
    b.rule(RuleId::CycleMonth, vec![RulePat::Reg(month)]);
    let quarter = b.reg("(?i)(?:fiscal )?quarters?\\b")?;
    b.rule(RuleId::CycleQuarter, vec![RulePat::Reg(quarter)]);
    let year = b.reg("(?i)years?\\b")?;
    b.rule(RuleId::CycleYear, vec![RulePat::Reg(year)]);
    let this_w = b.reg("(?i)\\bthis\\b")?;
    b.rule(
        RuleId::ThisCycle,
        vec![RulePat::Reg(this_w), RulePat::Dim(DimensionKind::Cycle, Pred::Any)],
    );
    let next_w = b.reg("(?i)\\bnext\\b")?;
    b.rule(
        RuleId::NextCycle,
        vec![RulePat::Reg(next_w), RulePat::Dim(DimensionKind::Cycle, Pred::Any)],
    );
    let last_w = b.reg("(?i)\\blast\\b")?;
    b.rule(
        RuleId::LastCycle,
        vec![RulePat::Reg(last_w), RulePat::Dim(DimensionKind::Cycle, Pred::Any)],
    );
    proof {
        assert(b.patterns@.subrange(0, old(b).patterns@.len() as int) =~= old(b).patterns@);
        assert(b.rules@.subrange(0, old(b).rules@.len() as int) =~= old(b).rules@);
        assert(b.rules@[old(b).rules@.len() as int + 0].pats@ =~= seq![
            RulePat::Reg(((old(b).patterns@.len() as int) + 0) as usize),
        ]);
        assert(b.rules@[old(b).rules@.len() as int + 1].pats@ =~= seq![
            RulePat::Reg(((old(b).patterns@.len() as int) + 1) as usize),
        ]);
        assert(b.rules@[old(b).rules@.len() as int + 2].pats@ =~= seq![
            RulePat::Reg(((old(b).patterns@.len() as int) + 2) as usize),
        ]);
        assert(b.rules@[old(b).rules@.len() as int + 3].pats@ =~= seq![
            RulePat::Reg(((old(b).patterns@.len() as int) + 3) as usize),
        ]);
        assert(b.rules@[old(b).rules@.len() as int + 4].pats@ =~= seq![
            RulePat::Reg(((old(b).patterns@.len() as int) + 4) as usize),
        ]);
        assert(b.rules@[old(b).rules@.len() as int + 5].pats@ =~= seq![
            RulePat::Reg(((old(b).patterns@.len() as int) + 5) as usize),
        ]);
        assert(b.rules@[old(b).rules@.len() as int + 6].pats@ =~= seq![
            RulePat::Reg(((old(b).patterns@.len() as int) + 6) as usize),
        ]);
        assert(b.rules@[old(b).rules@.len() as int + 7].pats@ =~= seq![
            RulePat::Reg(((old(b).patterns@.len() as int) + 7) as usize),
        ]);
        assert(b.rules@[old(b).rules@.len() as int + 8].pats@ =~= seq![
            RulePat::Reg(((old(b).patterns@.len() as int) + 8) as usize),
            RulePat::Dim(DimensionKind::Cycle, Pred::Any),
        ]);
        assert(b.rules@[old(b).rules@.len() as int + 9].pats@ =~= seq![
            RulePat::Reg(((old(b).patterns@.len() as int) + 9) as usize),
            RulePat::Dim(DimensionKind::Cycle, Pred::Any),
        ]);
        assert(b.rules@[old(b).rules@.len() as int + 10].pats@ =~= seq![
            RulePat::Reg(((old(b).patterns@.len() as int) + 10) as usize),
            RulePat::Dim(DimensionKind::Cycle, Pred::Any),
        ]);
    }
    Ok(())
}

/// The patterns and rules the time group registers, as data.
pub open spec fn time_installed(pre: RuleSetBuilder, post: RuleSetBuilder) -> bool {
    let p0 = pre.patterns@.len() as int;
    let r0 = pre.rules@.len() as int;
    &&& post.patterns@.len() == p0 + 24
    &&& post.rules@.len() == r0 + 25
    &&& post.patterns@.subrange(0, p0) == pre.patterns@
    &&& post.rules@.subrange(0, r0) == pre.rules@
    &&& post.patterns@[p0 + 0]@ == "(?i)(?:just|right )?now\\b|at th(?:e|is) moment"@
    &&& post.patterns@[p0 + 1]@ == "(?i)\\btoday\\b"@
    &&& post.patterns@[p0 + 2]@ == "(?i)\\btomorrow\\b"@
    &&& post.patterns@[p0 + 3]@ == "(?i)\\byesterday\\b"@
    &&& post.patterns@[p0 + 4]@ == "(?i)\\b(?:(monday|mon\\.?)|(tuesday|tues?\\.?)|(wednesday|wed\\.?)|(thursday|thu(?:rs?)?\\.?)|(friday|fri\\.?)|(saturday|sat\\.?)|(sunday|sun\\.?))\\b"@
    &&& post.patterns@[p0 + 5]@ == "(?i)\\b(?:(january|jan\\.?)|(february|feb\\.?)|(march|mar\\.?)|(april|apr\\.?)|(may)|(june|jun\\.?)|(july|jul\\.?)|(august|aug\\.?)|(september|sept?\\.?)|(october|oct\\.?)|(november|nov\\.?)|(december|dec\\.?))\\b"@
    &&& post.patterns@[p0 + 6]@ == "(?i)\\b(?:of|from|for)\\b|'s"@
    &&& post.patterns@[p0 + 7]@ == "(?i)\\blast\\b"@
    &&& post.patterns@[p0 + 8]@ == "(?i)\\bnext\\b"@
    &&& post.patterns@[p0 + 9]@ == "(?i)\\b(?:this|current|coming)\\b"@
    &&& post.patterns@[p0 + 10]@ == "(?i)\\b(?:at|@)\\b"@
    &&& post.patterns@[p0 + 11]@ == "(?i)(?:in the )?([ap])(?:\\s|\\.)?m?\\.?"@
    &&& post.patterns@[p0 + 12]@ == "(?i)((?:[01]?\\d)|(?:2[0-3]))[:.]([0-5]\\d)"@
    &&& post.patterns@[p0 + 13]@ == "(?i)(?:a |one )?quarter (?:past|after)"@
    &&& post.patterns@[p0 + 14]@ == "(?i)half (?:past|after)"@
    &&& post.patterns@[p0 + 15]@ == "(?i)(?:a |one )?quarter (?:to|till|before)"@
    &&& post.patterns@[p0 + 16]@ == "(?i)\\bfrom\\b"@
    &&& post.patterns@[p0 + 17]@ == "(?i)\\b(?:to|until|till)\\b"@
    &&& post.patterns@[p0 + 18]@ == "(?i)\\bthe\\b"@
    &&& post.patterns@[p0 + 19]@ == "(?i)\\b(?:of|in)\\b"@
    &&& post.patterns@[p0 + 20]@ == "(?i)easter(?: sunday)?\\b"@
    &&& rule_entry(
        post.rules@[r0 + 0],
        RuleId::Now,
        seq![
            RulePat::Reg((p0 + 0) as usize),
        ],
    )
    &&& rule_entry(
        post.rules@[r0 + 1],
        RuleId::Today,
        seq![
            RulePat::Reg((p0 + 1) as usize),
        ],
    )
    &&& rule_entry(
        post.rules@[r0 + 2],
        RuleId::Tomorrow,
        seq![
            RulePat::Reg((p0 + 2) as usize),
        ],
    )
    &&& rule_entry(
        post.rules@[r0 + 3],
        RuleId::Yesterday,
        seq![
            RulePat::Reg((p0 + 3) as usize),
        ],
    )
    &&& rule_entry(
        post.rules@[r0 + 4],
        RuleId::DayOfWeekLexical,
        seq![
            RulePat::Reg((p0 + 4) as usize),
        ],
    )
    &&& rule_entry(
        post.rules@[r0 + 5],
        RuleId::MonthLexical,
        seq![
            RulePat::Reg((p0 + 5) as usize),
        ],
    )
    &&& rule_entry(
        post.rules@[r0 + 6],
        RuleId::IntersectTime,
        seq![
            RulePat::Dim(DimensionKind::Time, Pred::TimeNotLatent),
            RulePat::Dim(DimensionKind::Time, Pred::TimeNotLatent),
        ],
    )
    &&& rule_entry(
        post.rules@[r0 + 7],
        RuleId::IntersectTimeOf,
        seq![
            RulePat::Dim(DimensionKind::Time, Pred::TimeNotLatent),
            RulePat::Reg((p0 + 6) as usize),
            RulePat::Dim(DimensionKind::Time, Pred::TimeNotLatent),
        ],
    )
    &&& rule_entry(
        post.rules@[r0 + 8],
        RuleId::LastTime,
        seq![
            RulePat::Reg((p0 + 7) as usize),
            RulePat::Dim(DimensionKind::Time, Pred::Any),
        ],
    )
    &&& rule_entry(
        post.rules@[r0 + 9],
        RuleId::NextTime,
        seq![
            RulePat::Reg((p0 + 8) as usize),
            RulePat::Dim(DimensionKind::Time, Pred::Any),
        ],
    )
    &&& rule_entry(
        post.rules@[r0 + 10],
        RuleId::ThisTime,
        seq![
            RulePat::Reg((p0 + 9) as usize),
            RulePat::Dim(DimensionKind::Time, Pred::Any),
        ],
    )
    &&& rule_entry(
        post.rules@[r0 + 11],
        RuleId::YearNumeric,
        seq![
            RulePat::Dim(DimensionKind::Number, Pred::IntegerRange(1000, 2100)),
        ],
    )
    &&& rule_entry(
        post.rules@[r0 + 12],
        RuleId::TimeOfDayLatent,
        seq![
            RulePat::Dim(DimensionKind::Number, Pred::IntegerRange(0, 23)),
        ],
    )
    &&& rule_entry(
        post.rules@[r0 + 13],
        RuleId::AtTimeOfDay,
        seq![
            RulePat::Reg((p0 + 10) as usize),
            RulePat::Dim(DimensionKind::Time, Pred::TimeFormTimeOfDay),
        ],
    )
    &&& rule_entry(
        post.rules@[r0 + 14],
        RuleId::AmPmTimeOfDay,
        seq![
            RulePat::Dim(DimensionKind::Time, Pred::TimeFormTimeOfDay),
            RulePat::Reg((p0 + 11) as usize),
        ],
    )
    &&& rule_entry(
        post.rules@[r0 + 15],
        RuleId::DigitalHourMinute,
        seq![
            RulePat::Reg((p0 + 12) as usize),
        ],
    )
    &&& rule_entry(
        post.rules@[r0 + 16],
        RuleId::QuarterPast,
        seq![
            RulePat::Reg((p0 + 13) as usize),
            RulePat::Dim(DimensionKind::Time, Pred::TimeFormTimeOfDay),
        ],
    )
    &&& rule_entry(
        post.rules@[r0 + 17],
        RuleId::HalfPast,
        seq![
            RulePat::Reg((p0 + 14) as usize),
            RulePat::Dim(DimensionKind::Time, Pred::TimeFormTimeOfDay),
        ],
    )
    &&& rule_entry(
        post.rules@[r0 + 18],
        RuleId::QuarterTo,
        seq![
            RulePat::Reg((p0 + 15) as usize),
            RulePat::Dim(DimensionKind::Time, Pred::TimeFormTimeOfDay),
        ],
    )
    &&& rule_entry(
        post.rules@[r0 + 19],
        RuleId::FromTodToTod,
        seq![
            RulePat::Reg((p0 + 16) as usize),
            RulePat::Dim(DimensionKind::Time, Pred::TimeFormTimeOfDay),
            RulePat::Reg((p0 + 17) as usize),
            RulePat::Dim(DimensionKind::Time, Pred::TimeFormTimeOfDay),
        ],
    )
    &&& rule_entry(
        post.rules@[r0 + 20],
        RuleId::TheOrdinalTimeOfTime,
        seq![
            RulePat::Reg((p0 + 18) as usize),
            RulePat::Dim(DimensionKind::Ordinal, Pred::OrdinalRange(1, 60)),
            RulePat::Dim(DimensionKind::Time, Pred::Any),
            RulePat::Reg((p0 + 19) as usize),
            RulePat::Dim(DimensionKind::Time, Pred::Any),
        ],
    )
    &&& rule_entry(
        post.rules@[r0 + 21],
        RuleId::EasterDay,
        seq![
            RulePat::Reg((p0 + 20) as usize),
        ],
    )
    &&& post.patterns@[p0 + 21]@ == "(?i)\\b(?:noon|midday)\\b"@
    &&& rule_entry(post.rules@[r0 + 22], RuleId::Noon, seq![RulePat::Reg((p0 + 21) as usize)])
    &&& post.patterns@[p0 + 22]@ == "(?i)\\bmidni(?:ght|te)\\b"@
    &&& rule_entry(
        post.rules@[r0 + 23],
        RuleId::Midnight,
        seq![RulePat::Reg((p0 + 22) as usize)],
    )
    &&& post.patterns@[p0 + 23]@ == "(?i)\\b(?:until|till|by)\\b"@
    &&& rule_entry(
        post.rules@[r0 + 24],
        RuleId::UntilTime,
        seq![
            RulePat::Reg((p0 + 23) as usize),
            RulePat::Dim(DimensionKind::Time, Pred::TimeNotLatent),
        ],
    )
}

/// Rules for points and intervals in time.
#[verifier::rlimit(100)]
#[verifier::spinoff_prover]
pub fn rules_time(b: &mut RuleSetBuilder) -> (r: Result<(), RuleError>)
    requires
        old(b).wf(),
    ensures
        final(b).wf(),
        r is Ok ==> time_installed(*old(b), *final(b)),
{
    let now = b.reg("(?i)(?:just|right )?now\\b|at th(?:e|is) moment")?;
    b.rule(RuleId::Now, vec![RulePat::Reg(now)]);
    let today = b.reg("(?i)\\btoday\\b")?;
    b.rule(RuleId::Today, vec![RulePat::Reg(today)]);
    let tomorrow = b.reg("(?i)\\btomorrow\\b")?;
    b.rule(RuleId::Tomorrow, vec![RulePat::Reg(tomorrow)]);
    let yesterday = b.reg("(?i)\\byesterday\\b")?;
    b.rule(RuleId::Yesterday, vec![RulePat::Reg(yesterday)]);
    let dow = b.reg(
        "(?i)\\b(?:(monday|mon\\.?)|(tuesday|tues?\\.?)|(wednesday|wed\\.?)|(thursday|thu(?:rs?)?\\.?)|(friday|fri\\.?)|(saturday|sat\\.?)|(sunday|sun\\.?))\\b",
    )?;
    b.rule(RuleId::DayOfWeekLexical, vec![RulePat::Reg(dow)]);
    let mon = b.reg(
        "(?i)\\b(?:(january|jan\\.?)|(february|feb\\.?)|(march|mar\\.?)|(april|apr\\.?)|(may)|(june|jun\\.?)|(july|jul\\.?)|(august|aug\\.?)|(september|sept?\\.?)|(october|oct\\.?)|(november|nov\\.?)|(december|dec\\.?))\\b",
    )?;
    b.rule(RuleId::MonthLexical, vec![RulePat::Reg(mon)]);
    b.rule(
        RuleId::IntersectTime,
        vec![
            RulePat::Dim(DimensionKind::Time, Pred::TimeNotLatent),
            RulePat::Dim(DimensionKind::Time, Pred::TimeNotLatent),
        ],
    );
    let of_w = b.reg("(?i)\\b(?:of|from|for)\\b|'s")?;
    b.rule(
        RuleId::IntersectTimeOf,
        vec![
            RulePat::Dim(DimensionKind::Time, Pred::TimeNotLatent),
            RulePat::Reg(of_w),
            RulePat::Dim(DimensionKind::Time, Pred::TimeNotLatent),
        ],
    );
    let last_w = b.reg("(?i)\\blast\\b")?;
    b.rule(
        RuleId::LastTime,
        vec![RulePat::Reg(last_w), RulePat::Dim(DimensionKind::Time, Pred::Any)],
    );
    let next_w = b.reg("(?i)\\bnext\\b")?;
    b.rule(
        RuleId::NextTime,
        vec![RulePat::Reg(next_w), RulePat::Dim(DimensionKind::Time, Pred::Any)],
    );
    let this_w = b.reg("(?i)\\b(?:this|current|coming)\\b")?;
    b.rule(
        RuleId::ThisTime,
        vec![RulePat::Reg(this_w), RulePat::Dim(DimensionKind::Time, Pred::Any)],
    );
    b.rule(
        RuleId::YearNumeric,
        vec![RulePat::Dim(DimensionKind::Number, Pred::IntegerRange(1000, 2100))],
    );
    b.rule(
        RuleId::TimeOfDayLatent,
        vec![RulePat::Dim(DimensionKind::Number, Pred::IntegerRange(0, 23))],
    );
    let at_w = b.reg("(?i)\\b(?:at|@)\\b")?;
    b.rule(
        RuleId::AtTimeOfDay,
        vec![RulePat::Reg(at_w), RulePat::Dim(DimensionKind::Time, Pred::TimeFormTimeOfDay)],
    );
    let ampm = b.reg("(?i)(?:in the )?([ap])(?:\\s|\\.)?m?\\.?")?;
    b.rule(
        RuleId::AmPmTimeOfDay,
        vec![RulePat::Dim(DimensionKind::Time, Pred::TimeFormTimeOfDay), RulePat::Reg(ampm)],
    );
    let digital = b.reg("(?i)((?:[01]?\\d)|(?:2[0-3]))[:.]([0-5]\\d)")?;
    b.rule(RuleId::DigitalHourMinute, vec![RulePat::Reg(digital)]);
    let quarter_past = b.reg("(?i)(?:a |one )?quarter (?:past|after)")?;
    b.rule(
        RuleId::QuarterPast,
        vec![
            RulePat::Reg(quarter_past),
            RulePat::Dim(DimensionKind::Time, Pred::TimeFormTimeOfDay),
        ],
    );
    let half_past = b.reg("(?i)half (?:past|after)")?;
    b.rule(
        RuleId::HalfPast,
        vec![RulePat::Reg(half_past), RulePat::Dim(DimensionKind::Time, Pred::TimeFormTimeOfDay)],
    );
    let quarter_to = b.reg("(?i)(?:a |one )?quarter (?:to|till|before)")?;
    b.rule(
        RuleId::QuarterTo,
        vec![RulePat::Reg(quarter_to), RulePat::Dim(DimensionKind::Time, Pred::TimeFormTimeOfDay)],
    );
    let from_w = b.reg("(?i)\\bfrom\\b")?;
    let to_w = b.reg("(?i)\\b(?:to|until|till)\\b")?;
    b.rule(
        RuleId::FromTodToTod,
        vec![
            RulePat::Reg(from_w),
            RulePat::Dim(DimensionKind::Time, Pred::TimeFormTimeOfDay),
            RulePat::Reg(to_w),
            RulePat::Dim(DimensionKind::Time, Pred::TimeFormTimeOfDay),
        ],
    );
    let the_w = b.reg("(?i)\\bthe\\b")?;
    let of_in = b.reg("(?i)\\b(?:of|in)\\b")?;
    b.rule(
        RuleId::TheOrdinalTimeOfTime,
        vec![
            RulePat::Reg(the_w),
            RulePat::Dim(DimensionKind::Ordinal, Pred::OrdinalRange(1, 60)),
            RulePat::Dim(DimensionKind::Time, Pred::Any),
            RulePat::Reg(of_in),
            RulePat::Dim(DimensionKind::Time, Pred::Any),
        ],
    );
    let easter_w = b.reg("(?i)easter(?: sunday)?\\b")?;
    b.rule(RuleId::EasterDay, vec![RulePat::Reg(easter_w)]);
    let noon_w = b.reg("(?i)\\b(?:noon|midday)\\b")?;
    b.rule(RuleId::Noon, vec![RulePat::Reg(noon_w)]);
    let midnight_w = b.reg("(?i)\\bmidni(?:ght|te)\\b")?;
    b.rule(RuleId::Midnight, vec![RulePat::Reg(midnight_w)]);
    let until_w = b.reg("(?i)\\b(?:until|till|by)\\b")?;
    b.rule(
        RuleId::UntilTime,
        vec![RulePat::Reg(until_w), RulePat::Dim(DimensionKind::Time, Pred::TimeNotLatent)],
    );
    proof {
        assert(b.patterns@.subrange(0, old(b).patterns@.len() as int) =~= old(b).patterns@);
        assert(b.rules@.subrange(0, old(b).rules@.len() as int) =~= old(b).rules@);
        assert(b.rules@[old(b).rules@.len() as int + 0].pats@ =~= seq![
            RulePat::Reg(((old(b).patterns@.len() as int) + 0) as usize),
        ]);
        assert(b.rules@[old(b).rules@.len() as int + 1].pats@ =~= seq![
            RulePat::Reg(((old(b).patterns@.len() as int) + 1) as usize),
        ]);
        assert(b.rules@[old(b).rules@.len() as int + 2].pats@ =~= seq![
            RulePat::Reg(((old(b).patterns@.len() as int) + 2) as usize),
        ]);
        assert(b.rules@[old(b).rules@.len() as int + 3].pats@ =~= seq![
            RulePat::Reg(((old(b).patterns@.len() as int) + 3) as usize),
        ]);
        assert(b.rules@[old(b).rules@.len() as int + 4].pats@ =~= seq![
            RulePat::Reg(((old(b).patterns@.len() as int) + 4) as usize),
        ]);
        assert(b.rules@[old(b).rules@.len() as int + 5].pats@ =~= seq![
            RulePat::Reg(((old(b).patterns@.len() as int) + 5) as usize),
        ]);
        assert(b.rules@[old(b).rules@.len() as int + 6].pats@ =~= seq![
            RulePat::Dim(DimensionKind::Time, Pred::TimeNotLatent),
            RulePat::Dim(DimensionKind::Time, Pred::TimeNotLatent),
        ]);
        assert(b.rules@[old(b).rules@.len() as int + 7].pats@ =~= seq![
            RulePat::Dim(DimensionKind::Time, Pred::TimeNotLatent),
            RulePat::Reg(((old(b).patterns@.len() as int) + 6) as usize),
            RulePat::Dim(DimensionKind::Time, Pred::TimeNotLatent),
        ]);
        assert(b.rules@[old(b).rules@.len() as int + 8].pats@ =~= seq![
            RulePat::Reg(((old(b).patterns@.len() as int) + 7) as usize),
            RulePat::Dim(DimensionKind::Time, Pred::Any),
        ]);
        assert(b.rules@[old(b).rules@.len() as int + 9].pats@ =~= seq![
            RulePat::Reg(((old(b).patterns@.len() as int) + 8) as usize),
            RulePat::Dim(DimensionKind::Time, Pred::Any),
        ]);
        assert(b.rules@[old(b).rules@.len() as int + 10].pats@ =~= seq![
            RulePat::Reg(((old(b).patterns@.len() as int) + 9) as usize),
            RulePat::Dim(DimensionKind::Time, Pred::Any),
        ]);
        assert(b.rules@[old(b).rules@.len() as int + 11].pats@ =~= seq![
            RulePat::Dim(DimensionKind::Number, Pred::IntegerRange(1000, 2100)),
        ]);
        assert(b.rules@[old(b).rules@.len() as int + 12].pats@ =~= seq![
            RulePat::Dim(DimensionKind::Number, Pred::IntegerRange(0, 23)),
        ]);
        assert(b.rules@[old(b).rules@.len() as int + 13].pats@ =~= seq![
            RulePat::Reg(((old(b).patterns@.len() as int) + 10) as usize),
            RulePat::Dim(DimensionKind::Time, Pred::TimeFormTimeOfDay),
        ]);
        assert(b.rules@[old(b).rules@.len() as int + 14].pats@ =~= seq![
            RulePat::Dim(DimensionKind::Time, Pred::TimeFormTimeOfDay),
            RulePat::Reg(((old(b).patterns@.len() as int) + 11) as usize),
        ]);
        assert(b.rules@[old(b).rules@.len() as int + 15].pats@ =~= seq![
            RulePat::Reg(((old(b).patterns@.len() as int) + 12) as usize),
        ]);
        assert(b.rules@[old(b).rules@.len() as int + 16].pats@ =~= seq![
            RulePat::Reg(((old(b).patterns@.len() as int) + 13) as usize),
            RulePat::Dim(DimensionKind::Time, Pred::TimeFormTimeOfDay),
        ]);
        assert(b.rules@[old(b).rules@.len() as int + 17].pats@ =~= seq![
            RulePat::Reg(((old(b).patterns@.len() as int) + 14) as usize),
            RulePat::Dim(DimensionKind::Time, Pred::TimeFormTimeOfDay),
        ]);
        assert(b.rules@[old(b).rules@.len() as int + 18].pats@ =~= seq![
            RulePat::Reg(((old(b).patterns@.len() as int) + 15) as usize),
            RulePat::Dim(DimensionKind::Time, Pred::TimeFormTimeOfDay),
        ]);
        assert(b.rules@[old(b).rules@.len() as int + 19].pats@ =~= seq![
            RulePat::Reg(((old(b).patterns@.len() as int) + 16) as usize),
            RulePat::Dim(DimensionKind::Time, Pred::TimeFormTimeOfDay),
            RulePat::Reg(((old(b).patterns@.len() as int) + 17) as usize),
            RulePat::Dim(DimensionKind::Time, Pred::TimeFormTimeOfDay),
        ]);
        assert(b.rules@[old(b).rules@.len() as int + 20].pats@ =~= seq![
            RulePat::Reg(((old(b).patterns@.len() as int) + 18) as usize),
            RulePat::Dim(DimensionKind::Ordinal, Pred::OrdinalRange(1, 60)),
            RulePat::Dim(DimensionKind::Time, Pred::Any),
            RulePat::Reg(((old(b).patterns@.len() as int) + 19) as usize),
            RulePat::Dim(DimensionKind::Time, Pred::Any),
        ]);
        assert(b.rules@[old(b).rules@.len() as int + 21].pats@ =~= seq![
            RulePat::Reg(((old(b).patterns@.len() as int) + 20) as usize),
        ]);    assert(b.rules@[old(b).rules@.len() as int + 22].pats@ =~= seq![
            RulePat::Reg(((old(b).patterns@.len() as int) + 21) as usize),
        ]);
        assert(b.rules@[old(b).rules@.len() as int + 23].pats@ =~= seq![
            RulePat::Reg(((old(b).patterns@.len() as int) + 22) as usize),
        ]);
        assert(b.rules@[old(b).rules@.len() as int + 24].pats@ =~= seq![
            RulePat::Reg(((old(b).patterns@.len() as int) + 23) as usize),
            RulePat::Dim(DimensionKind::Time, Pred::TimeNotLatent),
        ]);
    }
    Ok(())
}

/// The patterns and rules the finance group registers, as data.
pub open spec fn finance_installed(pre: RuleSetBuilder, post: RuleSetBuilder) -> bool {
    let p0 = pre.patterns@.len() as int;
    let r0 = pre.rules@.len() as int;
    &&& post.patterns@.len() == p0 + 3
    &&& post.rules@.len() == r0 + 5
    &&& post.patterns@.subrange(0, p0) == pre.patterns@
    &&& post.rules@.subrange(0, r0) == pre.rules@
    &&& post.patterns@[p0 + 0]@ == "(?i)\\$|\\b(?:dollars?|bucks?)\\b"@
    &&& post.patterns@[p0 + 1]@ == "(?i)\\b(?:cents?|penn(?:y|ies))\\b|¢"@
    &&& post.patterns@[p0 + 2]@ == "(?i)\\band\\b"@
    &&& rule_entry(
        post.rules@[r0 + 0],
        RuleId::MoneyUnitDollar,
        seq![
            RulePat::Reg((p0 + 0) as usize),
        ],
    )
    &&& rule_entry(
        post.rules@[r0 + 1],
        RuleId::MoneyUnitCent,
        seq![
            RulePat::Reg((p0 + 1) as usize),
        ],
    )
    &&& rule_entry(
        post.rules@[r0 + 2],
        RuleId::UnitAmount,
        seq![
            RulePat::Dim(DimensionKind::MoneyUnit, Pred::Any),
            RulePat::Dim(DimensionKind::Number, Pred::Any),
        ],
    )
    &&& rule_entry(
        post.rules@[r0 + 3],
        RuleId::AmountUnit,
        seq![
            RulePat::Dim(DimensionKind::Number, Pred::Any),
            RulePat::Dim(DimensionKind::MoneyUnit, Pred::Any),
        ],
    )
    &&& rule_entry(
        post.rules@[r0 + 4],
        RuleId::AmountAndCents,
        seq![
            RulePat::Dim(DimensionKind::AmountOfMoney, Pred::MoneyNotCents),
            RulePat::Reg((p0 + 2) as usize),
            RulePat::Dim(DimensionKind::AmountOfMoney, Pred::MoneyCents),
        ],
    )
}

/// Rules for money amounts.
pub fn rules_finance(b: &mut RuleSetBuilder) -> (r: Result<(), RuleError>)
    requires
        old(b).wf(),
    ensures
        final(b).wf(),
        r is Ok ==> finance_installed(*old(b), *final(b)),
{
    let dollar = b.reg("(?i)\\$|\\b(?:dollars?|bucks?)\\b")?;
    b.rule(RuleId::MoneyUnitDollar, vec![RulePat::Reg(dollar)]);
    let cent = b.reg("(?i)\\b(?:cents?|penn(?:y|ies))\\b|¢")?;
    b.rule(RuleId::MoneyUnitCent, vec![RulePat::Reg(cent)]);
    b.rule(
        RuleId::UnitAmount,
        vec![
            RulePat::Dim(DimensionKind::MoneyUnit, Pred::Any),
            RulePat::Dim(DimensionKind::Number, Pred::Any),
        ],
    );
    b.rule(
        RuleId::AmountUnit,
        vec![
            RulePat::Dim(DimensionKind::Number, Pred::Any),
            RulePat::Dim(DimensionKind::MoneyUnit, Pred::Any),
        ],
    );
    let and_w = b.reg("(?i)\\band\\b")?;
    b.rule(
        RuleId::AmountAndCents,
        vec![
            RulePat::Dim(DimensionKind::AmountOfMoney, Pred::MoneyNotCents),
            RulePat::Reg(and_w),
            RulePat::Dim(DimensionKind::AmountOfMoney, Pred::MoneyCents),
        ],
    );
    proof {
        assert(b.patterns@.subrange(0, old(b).patterns@.len() as int) =~= old(b).patterns@);
        assert(b.rules@.subrange(0, old(b).rules@.len() as int) =~= old(b).rules@);
        assert(b.rules@[old(b).rules@.len() as int + 0].pats@ =~= seq![
            RulePat::Reg(((old(b).patterns@.len() as int) + 0) as usize),
        ]);
        assert(b.rules@[old(b).rules@.len() as int + 1].pats@ =~= seq![
            RulePat::Reg(((old(b).patterns@.len() as int) + 1) as usize),
        ]);
        assert(b.rules@[old(b).rules@.len() as int + 2].pats@ =~= seq![
            RulePat::Dim(DimensionKind::MoneyUnit, Pred::Any),
            RulePat::Dim(DimensionKind::Number, Pred::Any),
        ]);
        assert(b.rules@[old(b).rules@.len() as int + 3].pats@ =~= seq![
            RulePat::Dim(DimensionKind::Number, Pred::Any),
            RulePat::Dim(DimensionKind::MoneyUnit, Pred::Any),
        ]);
        assert(b.rules@[old(b).rules@.len() as int + 4].pats@ =~= seq![
            RulePat::Dim(DimensionKind::AmountOfMoney, Pred::MoneyNotCents),
            RulePat::Reg(((old(b).patterns@.len() as int) + 2) as usize),
            RulePat::Dim(DimensionKind::AmountOfMoney, Pred::MoneyCents),
        ]);
    }
    Ok(())
}

/// The patterns and rules the temperature group registers, as data.
pub open spec fn temperature_installed(pre: RuleSetBuilder, post: RuleSetBuilder) -> bool {
    let p0 = pre.patterns@.len() as int;
    let r0 = pre.rules@.len() as int;
    &&& post.patterns@.len() == p0 + 3
    &&& post.rules@.len() == r0 + 3
    &&& post.patterns@.subrange(0, p0) == pre.patterns@
    &&& post.rules@.subrange(0, r0) == pre.rules@
    &&& post.patterns@[p0 + 0]@ == "(?i)(?:°|\\bdegrees?\\b|\\bdeg\\.?\\b)"@
    &&& post.patterns@[p0 + 1]@ == "(?i)\\bc(?:el[cs]?(?:ius)?)?\\.?\\b"@
    &&& post.patterns@[p0 + 2]@ == "(?i)\\bf(?:ah?rh?enh?eit)?\\.?\\b"@
    &&& rule_entry(
        post.rules@[r0 + 0],
        RuleId::TempDegrees,
        seq![
            RulePat::Dim(DimensionKind::Number, Pred::Any),
            RulePat::Reg((p0 + 0) as usize),
        ],
    )
    &&& rule_entry(
        post.rules@[r0 + 1],
        RuleId::TempCelsius,
        seq![
            RulePat::Dim(DimensionKind::Temperature, Pred::Any),
            RulePat::Reg((p0 + 1) as usize),
        ],
    )
    &&& rule_entry(
        post.rules@[r0 + 2],
        RuleId::TempFahrenheit,
        seq![
            RulePat::Dim(DimensionKind::Temperature, Pred::Any),
            RulePat::Reg((p0 + 2) as usize),
        ],
    )
}

/// Rules for temperatures. A bare "<number> degrees" reading is reported
/// outright: the degree marker itself lifts the value, so it is not latent.
pub fn rules_temperature(b: &mut RuleSetBuilder) -> (r: Result<(), RuleError>)
    requires
        old(b).wf(),
    ensures
        final(b).wf(),
        r is Ok ==> temperature_installed(*old(b), *final(b)),
{
    let degrees = b.reg("(?i)(?:°|\\bdegrees?\\b|\\bdeg\\.?\\b)")?;
    b.rule(
        RuleId::TempDegrees,
        vec![RulePat::Dim(DimensionKind::Number, Pred::Any), RulePat::Reg(degrees)],
    );
    let celsius = b.reg("(?i)\\bc(?:el[cs]?(?:ius)?)?\\.?\\b")?;
    b.rule(
        RuleId::TempCelsius,
        vec![RulePat::Dim(DimensionKind::Temperature, Pred::Any), RulePat::Reg(celsius)],
    );
    let fahrenheit = b.reg("(?i)\\bf(?:ah?rh?enh?eit)?\\.?\\b")?;
    b.rule(
        RuleId::TempFahrenheit,
        vec![RulePat::Dim(DimensionKind::Temperature, Pred::Any), RulePat::Reg(fahrenheit)],
    );
    proof {
        assert(b.patterns@.subrange(0, old(b).patterns@.len() as int) =~= old(b).patterns@);
        assert(b.rules@.subrange(0, old(b).rules@.len() as int) =~= old(b).rules@);
        assert(b.rules@[old(b).rules@.len() as int + 0].pats@ =~= seq![
            RulePat::Dim(DimensionKind::Number, Pred::Any),
            RulePat::Reg(((old(b).patterns@.len() as int) + 0) as usize),
        ]);
        assert(b.rules@[old(b).rules@.len() as int + 1].pats@ =~= seq![
            RulePat::Dim(DimensionKind::Temperature, Pred::Any),
            RulePat::Reg(((old(b).patterns@.len() as int) + 1) as usize),
        ]);
        assert(b.rules@[old(b).rules@.len() as int + 2].pats@ =~= seq![
            RulePat::Dim(DimensionKind::Temperature, Pred::Any),
            RulePat::Reg(((old(b).patterns@.len() as int) + 2) as usize),
        ]);
    }
    Ok(())
}

/// The patterns and rules the numbers group registers, as data.
pub open spec fn numbers_installed(pre: RuleSetBuilder, post: RuleSetBuilder) -> bool {
    let p0 = pre.patterns@.len() as int;
    let r0 = pre.rules@.len() as int;
    &&& post.patterns@.len() == p0 + 8
    &&& post.rules@.len() == r0 + 10
    &&& post.patterns@.subrange(0, p0) == pre.patterns@
    &&& post.rules@.subrange(0, r0) == pre.rules@
    &&& post.patterns@[p0 + 0]@ == "(\\d{1,18})"@
    &&& post.patterns@[p0 + 1]@ == "(?i)\\b(?:(zero|naught|nought|nil)|(one)|(two)|(three)|(four)|(five)|(six)|(seven)|(eight)|(nine)|(ten)|(eleven)|(twelve)|(thirteen)|(fourteen)|(fifteen)|(sixteen)|(seventeen)|(eighteen)|(nineteen))\\b"@
    &&& post.patterns@[p0 + 2]@ == "(?i)\\b(?:(twenty)|(thirty)|(fou?rty)|(fifty)|(sixty)|(seventy)|(eighty)|(ninety))\\b"@
    &&& post.patterns@[p0 + 3]@ == "(\\d*)\\.(\\d+)"@
    &&& post.patterns@[p0 + 4]@ == "(?i)0*(\\d{1,6}) ?(?:st|nd|rd|th)\\b"@
    &&& post.patterns@[p0 + 5]@ == "(?i)\\b(?:(first)|(second)|(third)|(fourth)|(fifth)|(sixth)|(seventh)|(eighth)|(ninth)|(tenth)|(eleventh)|(twelfth)|(thirteenth)|(fourteenth)|(fifteenth)|(sixteenth)|(seventeenth)|(eighteenth)|(nineteenth))\\b"@
    &&& post.patterns@[p0 + 6]@ == "(?i)\\b(?:(twentieth)|(thirtieth)|(fou?rtieth)|(fiftieth)|(sixtieth)|(seventieth)|(eightieth)|(ninetieth))\\b"@
    &&& post.patterns@[p0 + 7]@ == "(?i)\\bthe\\b"@
    &&& rule_entry(
        post.rules@[r0 + 0],
        RuleId::IntegerNumeric,
        seq![
            RulePat::Reg((p0 + 0) as usize),
        ],
    )
    &&& rule_entry(
        post.rules@[r0 + 1],
        RuleId::IntegerLexical,
        seq![
            RulePat::Reg((p0 + 1) as usize),
        ],
    )
    &&& rule_entry(
        post.rules@[r0 + 2],
        RuleId::TensLexical,
        seq![
            RulePat::Reg((p0 + 2) as usize),
        ],
    )
    &&& rule_entry(
        post.rules@[r0 + 3],
        RuleId::CompositionTensUnits,
        seq![
            RulePat::Dim(DimensionKind::Number, Pred::IntegerRange(20, 90)),
            RulePat::Dim(DimensionKind::Number, Pred::IntegerRange(1, 9)),
        ],
    )
    &&& rule_entry(
        post.rules@[r0 + 4],
        RuleId::DecimalNumeral,
        seq![
            RulePat::Reg((p0 + 3) as usize),
        ],
    )
    &&& rule_entry(
        post.rules@[r0 + 5],
        RuleId::OrdinalDigits,
        seq![
            RulePat::Reg((p0 + 4) as usize),
        ],
    )
    &&& rule_entry(
        post.rules@[r0 + 6],
        RuleId::OrdinalLexical,
        seq![
            RulePat::Reg((p0 + 5) as usize),
        ],
    )
    &&& rule_entry(
        post.rules@[r0 + 7],
        RuleId::OrdinalTensLexical,
        seq![
            RulePat::Reg((p0 + 6) as usize),
        ],
    )
    &&& rule_entry(
        post.rules@[r0 + 8],
        RuleId::CompositionTensOrdinal,
        seq![
            RulePat::Dim(DimensionKind::Number, Pred::IntegerRange(20, 90)),
            RulePat::Dim(DimensionKind::Ordinal, Pred::OrdinalRange(1, 9)),
        ],
    )
    &&& rule_entry(
        post.rules@[r0 + 9],
        RuleId::TheOrdinal,
        seq![
            RulePat::Reg((p0 + 7) as usize),
            RulePat::Dim(DimensionKind::Ordinal, Pred::Any),
        ],
    )
}

/// Rules for cardinal and decimal numbers.
pub fn rules_numbers(b: &mut RuleSetBuilder) -> (r: Result<(), RuleError>)
    requires
        old(b).wf(),
    ensures
        final(b).wf(),
        r is Ok ==> numbers_installed(*old(b), *final(b)),
{
    let digits = b.reg("(\\d{1,18})")?;
    b.rule(RuleId::IntegerNumeric, vec![RulePat::Reg(digits)]);
    let lex = b.reg(
        "(?i)\\b(?:(zero|naught|nought|nil)|(one)|(two)|(three)|(four)|(five)|(six)|(seven)|(eight)|(nine)|(ten)|(eleven)|(twelve)|(thirteen)|(fourteen)|(fifteen)|(sixteen)|(seventeen)|(eighteen)|(nineteen))\\b",
    )?;
    b.rule(RuleId::IntegerLexical, vec![RulePat::Reg(lex)]);
    let tens = b.reg(
        "(?i)\\b(?:(twenty)|(thirty)|(fou?rty)|(fifty)|(sixty)|(seventy)|(eighty)|(ninety))\\b",
    )?;
    b.rule(RuleId::TensLexical, vec![RulePat::Reg(tens)]);
    b.rule(
        RuleId::CompositionTensUnits,
        vec![
            RulePat::Dim(DimensionKind::Number, Pred::IntegerRange(20, 90)),
            RulePat::Dim(DimensionKind::Number, Pred::IntegerRange(1, 9)),
        ],
    );
    let decimal = b.reg("(\\d*)\\.(\\d+)")?;
    b.rule(RuleId::DecimalNumeral, vec![RulePat::Reg(decimal)]);
    let ord_digits = b.reg("(?i)0*(\\d{1,6}) ?(?:st|nd|rd|th)\\b")?;
    b.rule(RuleId::OrdinalDigits, vec![RulePat::Reg(ord_digits)]);
    let ord_lex = b.reg(
        "(?i)\\b(?:(first)|(second)|(third)|(fourth)|(fifth)|(sixth)|(seventh)|(eighth)|(ninth)|(tenth)|(eleventh)|(twelfth)|(thirteenth)|(fourteenth)|(fifteenth)|(sixteenth)|(seventeenth)|(eighteenth)|(nineteenth))\\b",
    )?;
    b.rule(RuleId::OrdinalLexical, vec![RulePat::Reg(ord_lex)]);
    let ord_tens = b.reg(
        "(?i)\\b(?:(twentieth)|(thirtieth)|(fou?rtieth)|(fiftieth)|(sixtieth)|(seventieth)|(eightieth)|(ninetieth))\\b",
    )?;
    b.rule(RuleId::OrdinalTensLexical, vec![RulePat::Reg(ord_tens)]);
    b.rule(
        RuleId::CompositionTensOrdinal,
        vec![
            RulePat::Dim(DimensionKind::Number, Pred::IntegerRange(20, 90)),
            RulePat::Dim(DimensionKind::Ordinal, Pred::OrdinalRange(1, 9)),
        ],
    );
    let the_w = b.reg("(?i)\\bthe\\b")?;
    b.rule(
        RuleId::TheOrdinal,
        vec![RulePat::Reg(the_w), RulePat::Dim(DimensionKind::Ordinal, Pred::Any)],
    );
    proof {
        assert(b.patterns@.subrange(0, old(b).patterns@.len() as int) =~= old(b).patterns@);
        assert(b.rules@.subrange(0, old(b).rules@.len() as int) =~= old(b).rules@);
        assert(b.rules@[old(b).rules@.len() as int + 0].pats@ =~= seq![
            RulePat::Reg(((old(b).patterns@.len() as int) + 0) as usize),
        ]);
        assert(b.rules@[old(b).rules@.len() as int + 1].pats@ =~= seq![
            RulePat::Reg(((old(b).patterns@.len() as int) + 1) as usize),
        ]);
        assert(b.rules@[old(b).rules@.len() as int + 2].pats@ =~= seq![
            RulePat::Reg(((old(b).patterns@.len() as int) + 2) as usize),
        ]);
        assert(b.rules@[old(b).rules@.len() as int + 3].pats@ =~= seq![
            RulePat::Dim(DimensionKind::Number, Pred::IntegerRange(20, 90)),
            RulePat::Dim(DimensionKind::Number, Pred::IntegerRange(1, 9)),
        ]);
        assert(b.rules@[old(b).rules@.len() as int + 4].pats@ =~= seq![
            RulePat::Reg(((old(b).patterns@.len() as int) + 3) as usize),
        ]);
        assert(b.rules@[old(b).rules@.len() as int + 5].pats@ =~= seq![
            RulePat::Reg(((old(b).patterns@.len() as int) + 4) as usize),
        ]);
        assert(b.rules@[old(b).rules@.len() as int + 6].pats@ =~= seq![
            RulePat::Reg(((old(b).patterns@.len() as int) + 5) as usize),
        ]);
        assert(b.rules@[old(b).rules@.len() as int + 7].pats@ =~= seq![
            RulePat::Reg(((old(b).patterns@.len() as int) + 6) as usize),
        ]);
        assert(b.rules@[old(b).rules@.len() as int + 8].pats@ =~= seq![
            RulePat::Dim(DimensionKind::Number, Pred::IntegerRange(20, 90)),
            RulePat::Dim(DimensionKind::Ordinal, Pred::OrdinalRange(1, 9)),
        ]);
        assert(b.rules@[old(b).rules@.len() as int + 9].pats@ =~= seq![
            RulePat::Reg(((old(b).patterns@.len() as int) + 7) as usize),
            RulePat::Dim(DimensionKind::Ordinal, Pred::Any),
        ]);
    }
    Ok(())
}

/// Rebuild a time-of-day on the 24-hour clock after an am/pm marker.
/// Intersecting with a half-day span would bind to the wrong day under
/// this evaluator's anchored walks, so the hour is refixed directly; the
/// resolved instants agree.
fn apply_am_pm(f: &TimeOfDayForm, pm: bool) -> (r: Option<Dimension>)
    ensures
        r == spec_apply_am_pm(*f, pm),
{
    let base = f.full_hour();
    if base > 23 {
        return None;
    }
    let hh = base % 12 + (if pm {
        12u32
    } else {
        0u32
    });
    let built = match f {
        TimeOfDayForm::Hour { .. } => helpers::hour(hh, false),
        TimeOfDayForm::HourMinute { minute, .. } => helpers::hour_minute(hh, *minute, false),
        TimeOfDayForm::HourMinuteSecond { minute, second, .. } => helpers::hour_minute_second(
            hh,
            *minute,
            *second,
            false,
        ),
    };
    match built {
        Ok(t) => Some(Dimension::Time(t.not_latent())),
        Err(..) => None,
    }
}


/// What each rule's producer yields from its matched children, as data:
/// the value assembled by the corresponding helper, or nothing when a
/// child is missing, a guard fails, or the helper rejects the match.
pub open spec fn produce_spec(id: RuleId, args: Seq<ProducerArg>) -> Option<Dimension> {
    match id {
        RuleId::IntegerNumeric => match spec_group_int(args, 0, 1) {
            Some(v) => Some(Dimension::Number(NumberValue::Integer(IntegerValue::spec_new(v)))),
            None => None,
        },
        RuleId::IntegerLexical => match spec_which_alt(args, 0, 20) {
            Some(k) => Some(
                Dimension::Number(NumberValue::Integer(IntegerValue::spec_new((k - 1) as i64))),
            ),
            None => None,
        },
        RuleId::TensLexical => match spec_which_alt(args, 0, 8) {
            Some(k) => Some(
                Dimension::Number(
                    NumberValue::Integer(
                        IntegerValue {
                            grain: Some(1),
                            ..IntegerValue::spec_new(((k + 1) * 10) as i64)
                        },
                    ),
                ),
            ),
            None => None,
        },
        RuleId::CompositionTensUnits => match (spec_number_arg(args, 0), spec_number_arg(args, 1)) {
            (Some(a), Some(b)) => if a.value_spec().scale > 12 || b.value_spec().scale > 12
                || a.grain_spec() > 10 {
                None
            } else {
                match helpers::compose_numbers_spec(a, b) {
                    Ok(n) => Some(Dimension::Number(n)),
                    Err(..) => None,
                }
            },
            _ => None,
        },
        RuleId::DecimalNumeral => match (spec_arg_group(args, 0, 1), spec_arg_group(args, 0, 2)) {
            (Some(ip), Some(fp)) => match spec_decimal_of_groups(ip, fp) {
                Some(d) => Some(
                    Dimension::Number(
                        NumberValue::Float(
                            FloatValue {
                                value: d,
                                prefixed: false,
                                suffixed: false,
                                precision: Precision::Exact,
                            },
                        ),
                    ),
                ),
                None => None,
            },
            _ => None,
        },
        RuleId::OrdinalDigits => match spec_group_int(args, 0, 1) {
            Some(v) => Some(Dimension::Ordinal(OrdinalValue { value: v, grain: None, prefixed: false })),
            None => None,
        },
        RuleId::OrdinalLexical => match spec_which_alt(args, 0, 19) {
            Some(k) => Some(
                Dimension::Ordinal(OrdinalValue { value: k as i64, grain: None, prefixed: false }),
            ),
            None => None,
        },
        RuleId::OrdinalTensLexical => match spec_which_alt(args, 0, 8) {
            Some(k) => Some(
                Dimension::Ordinal(
                    OrdinalValue { value: ((k + 1) * 10) as i64, grain: Some(1), prefixed: false },
                ),
            ),
            None => None,
        },
        RuleId::CompositionTensOrdinal => match (spec_int_arg(args, 0), spec_ordinal_arg(args, 1)) {
            (Some(a), Some(o)) => if a + o.value > i64::MAX || a + o.value < i64::MIN {
                None
            } else {
                Some(
                    Dimension::Ordinal(
                        OrdinalValue { value: (a + o.value) as i64, grain: None, prefixed: false },
                    ),
                )
            },
            _ => None,
        },
        RuleId::TheOrdinal => match spec_ordinal_arg(args, 1) {
            Some(o) => Some(Dimension::Ordinal(OrdinalValue { prefixed: true, ..o })),
            None => None,
        },
        RuleId::UnitSecond => Some(
            Dimension::UnitOfDuration(UnitOfDurationValue { grain: Grain::Second }),
        ),
        RuleId::UnitMinute => Some(
            Dimension::UnitOfDuration(UnitOfDurationValue { grain: Grain::Minute }),
        ),
        RuleId::UnitHour => Some(
            Dimension::UnitOfDuration(UnitOfDurationValue { grain: Grain::Hour }),
        ),
        RuleId::UnitDay => Some(
            Dimension::UnitOfDuration(UnitOfDurationValue { grain: Grain::Day }),
        ),
        RuleId::UnitWeek => Some(
            Dimension::UnitOfDuration(UnitOfDurationValue { grain: Grain::Week }),
        ),
        RuleId::UnitMonth => Some(
            Dimension::UnitOfDuration(UnitOfDurationValue { grain: Grain::Month }),
        ),
        RuleId::UnitYear => Some(
            Dimension::UnitOfDuration(UnitOfDurationValue { grain: Grain::Year }),
        ),
        RuleId::HalfAnHour => Some(
            Dimension::Duration(spec_dur_new(Period::single_spec(Grain::Minute, 30))),
        ),
        RuleId::IntegerUnitDuration => match (spec_int_arg(args, 0), spec_uod_arg(args, 1)) {
            (Some(v), Some(u)) => if v < 0 {
                None
            } else {
                Some(Dimension::Duration(spec_dur_new(Period::single_spec(u.grain, v))))
            },
            _ => None,
        },
        RuleId::IntegerUnitAndAHalf => match (spec_int_arg(args, 0), spec_uod_arg(args, 1)) {
            (Some(v), Some(u)) => if v < 0 {
                None
            } else {
                let whole = Period::single_spec(u.grain, v);
                match u.grain.half_period_spec() {
                    Some((g2, n)) => match period_plus_spec(whole, Period::single_spec(g2, n)) {
                        Some(p) => Some(Dimension::Duration(spec_dur_new(p))),
                        None => None,
                    },
                    None => Some(Dimension::Duration(spec_dur_new(whole))),
                }
            },
            _ => None,
        },
        RuleId::DecimalHours => match (spec_arg_group(args, 0, 1), spec_arg_group(args, 0, 2)) {
            (Some(g1), Some(g2)) => match helpers::decimal_hour_spec(g1, g2) {
                Ok(m) => Some(
                    Dimension::Duration(spec_dur_new(Period::single_spec(Grain::Minute, m))),
                ),
                Err(..) => None,
            },
            _ => None,
        },
        RuleId::IntegerAndHalfHours => match spec_int_arg(args, 0) {
            Some(v) => if v < 0 || v * 60 > i64::MAX || v * 60 + 30 > i64::MAX {
                None
            } else {
                Some(
                    Dimension::Duration(
                        spec_dur_new(Period::single_spec(Grain::Minute, (v * 60 + 30) as i64)),
                    ),
                )
            },
            None => None,
        },
        RuleId::InDuration => match spec_duration_arg(args, 1) {
            Some(d) => Some(Dimension::Time(spec_in_present_tv(d))),
            None => None,
        },
        RuleId::ForDuration => match spec_duration_arg(args, 1) {
            Some(d) => Some(Dimension::Duration(DurationValue { prefixed: true, ..d })),
            None => None,
        },
        RuleId::DurationAndDuration => match (
            spec_duration_arg(args, 0),
            spec_duration_arg(args, 2),
        ) {
            (Some(a), Some(b)) => match spec_duration_sum(a, b) {
                Some(d) => Some(Dimension::Duration(d)),
                None => None,
            },
            _ => None,
        },
        RuleId::DurationDuration => match (spec_duration_arg(args, 0), spec_duration_arg(args, 1)) {
            (Some(a), Some(b)) => match spec_duration_sum(a, b) {
                Some(d) => Some(Dimension::Duration(d)),
                None => None,
            },
            _ => None,
        },
        RuleId::DurationAgo => match spec_duration_arg(args, 0) {
            Some(a) => match period_neg_spec(a.period) {
                Some(p) => Some(
                    Dimension::Time(spec_shift_tv(p, spec_cycle_nth_tv(Grain::Second, 0), a.precision)),
                ),
                None => None,
            },
            None => None,
        },
        RuleId::DurationHence => match spec_duration_arg(args, 0) {
            Some(a) => Some(Dimension::Time(spec_in_present_tv(a))),
            None => None,
        },
        RuleId::DurationAfterTime => match (spec_duration_arg(args, 0), spec_time_arg(args, 2)) {
            (Some(a), Some(t)) => Some(Dimension::Time(spec_shift_tv(a.period, t, a.precision))),
            _ => None,
        },
        RuleId::DurationBeforeTime => match (spec_duration_arg(args, 0), spec_time_arg(args, 2)) {
            (Some(a), Some(t)) => match period_neg_spec(a.period) {
                Some(p) => Some(Dimension::Time(spec_shift_tv(p, t, a.precision))),
                None => None,
            },
            _ => None,
        },
        RuleId::AboutDuration => match spec_duration_arg(args, 1) {
            Some(d) => Some(
                Dimension::Duration(DurationValue { precision: Precision::Approximate, ..d }),
            ),
            None => None,
        },
        RuleId::ExactlyDuration => match spec_duration_arg(args, 1) {
            Some(d) => Some(Dimension::Duration(DurationValue { precision: Precision::Exact, ..d })),
            None => None,
        },
        RuleId::AUnitDuration => match spec_uod_arg(args, 1) {
            Some(u) => Some(Dimension::Duration(spec_dur_new(Period::single_spec(u.grain, 1)))),
            None => None,
        },
        RuleId::CycleSecond => Some(Dimension::Cycle(CycleValue { grain: Grain::Second })),
        RuleId::CycleMinute => Some(Dimension::Cycle(CycleValue { grain: Grain::Minute })),
        RuleId::CycleHour => Some(Dimension::Cycle(CycleValue { grain: Grain::Hour })),
        RuleId::CycleDay => Some(Dimension::Cycle(CycleValue { grain: Grain::Day })),
        RuleId::CycleWeek => Some(Dimension::Cycle(CycleValue { grain: Grain::Week })),
        RuleId::CycleMonth => Some(Dimension::Cycle(CycleValue { grain: Grain::Month })),
        RuleId::CycleQuarter => Some(Dimension::Cycle(CycleValue { grain: Grain::Quarter })),
        RuleId::CycleYear => Some(Dimension::Cycle(CycleValue { grain: Grain::Year })),
        RuleId::ThisCycle => match spec_cycle_arg(args, 1) {
            Some(c) => Some(Dimension::Time(spec_cycle_nth_tv(c.grain, 0))),
            None => None,
        },
        RuleId::NextCycle => match spec_cycle_arg(args, 1) {
            Some(c) => Some(Dimension::Time(spec_cycle_nth_tv(c.grain, 1))),
            None => None,
        },
        RuleId::LastCycle => match spec_cycle_arg(args, 1) {
            Some(c) => Some(Dimension::Time(spec_cycle_nth_tv(c.grain, -1int as i64))),
            None => None,
        },
        RuleId::Now => Some(Dimension::Time(spec_cycle_nth_tv(Grain::Second, 0))),
        RuleId::Today => Some(Dimension::Time(spec_cycle_nth_tv(Grain::Day, 0))),
        RuleId::Tomorrow => Some(Dimension::Time(spec_cycle_nth_tv(Grain::Day, 1))),
        RuleId::Yesterday => Some(Dimension::Time(spec_cycle_nth_tv(Grain::Day, -1int as i64))),
        RuleId::DayOfWeekLexical => match spec_which_alt(args, 0, 7) {
            Some(k) => match spec_weekday_of_alt(k) {
                Some(w) => Some(
                    Dimension::Time(
                        TimeValue {
                            form: Form::DayOfWeek { not_immediate: true },
                            ..spec_time_value(Constraint::DayOfWeek(w))
                        },
                    ),
                ),
                None => None,
            },
            None => None,
        },
        RuleId::MonthLexical => match spec_which_alt(args, 0, 12) {
            Some(k) => if 1 <= k <= 12 {
                Some(
                    Dimension::Time(
                        TimeValue {
                            form: Form::Month(k as u32),
                            ..spec_time_value(Constraint::Month(k as u32))
                        },
                    ),
                )
            } else {
                None
            },
            None => None,
        },
        RuleId::IntersectTime => match (spec_time_arg(args, 0), spec_time_arg(args, 1)) {
            (Some(a), Some(b)) => Some(Dimension::Time(spec_intersect_tv(a, b))),
            _ => None,
        },
        RuleId::IntersectTimeOf => match (spec_time_arg(args, 0), spec_time_arg(args, 2)) {
            (Some(a), Some(b)) => Some(Dimension::Time(spec_intersect_tv(a, b))),
            _ => None,
        },
        RuleId::LastTime => match spec_time_arg(args, 1) {
            Some(t) => Some(Dimension::Time(spec_the_nth_tv(t, -1int as i64, false))),
            None => None,
        },
        RuleId::NextTime => match spec_time_arg(args, 1) {
            Some(t) => Some(Dimension::Time(spec_the_nth_tv(t, 0, true))),
            None => None,
        },
        RuleId::ThisTime => match spec_time_arg(args, 1) {
            Some(t) => Some(Dimension::Time(spec_the_nth_tv(t, 0, false))),
            None => None,
        },
        RuleId::YearNumeric => match spec_int_arg(args, 0) {
            Some(v) => Some(
                Dimension::Time(
                    TimeValue { form: Form::Year(v), ..spec_time_value(Constraint::Year(v)) },
                ),
            ),
            None => None,
        },
        RuleId::TimeOfDayLatent => match spec_int_arg(args, 0) {
            Some(v) => if !(0 <= v <= u32::MAX) || v > 23 {
                None
            } else {
                let h = v as u32;
                let is_12_clock = 1 <= h <= 12;
                Some(
                    Dimension::Time(
                        TimeValue { latent: true, ..helpers::spec_hour_value(h, is_12_clock) },
                    ),
                )
            },
            None => None,
        },
        RuleId::AtTimeOfDay => match spec_time_arg(args, 1) {
            Some(t) => Some(Dimension::Time(TimeValue { latent: false, ..t })),
            None => None,
        },
        RuleId::AmPmTimeOfDay => match (spec_time_arg(args, 0), spec_arg_group(args, 1, 1)) {
            (Some(t), Some(marker)) => if marker.len() == 0 {
                None
            } else {
                let pm = marker[0] == 112 || marker[0] == 80;
                match t.form {
                    Form::TimeOfDay(f) => spec_apply_am_pm(f, pm),
                    _ => None,
                }
            },
            _ => None,
        },
        RuleId::DigitalHourMinute => match (spec_group_int(args, 0, 1), spec_group_int(args, 0, 2)) {
            (Some(h), Some(m)) => if !(0 <= h <= u32::MAX) || !(0 <= m <= u32::MAX) || h > 23 || m
                > 59 {
                None
            } else {
                Some(
                    Dimension::Time(
                        TimeValue {
                            latent: false,
                            ..helpers::spec_hour_minute_value(h as u32, m as u32, true)
                        },
                    ),
                )
            },
            _ => None,
        },
        RuleId::QuarterPast => spec_relative_minute(args, 15),
        RuleId::HalfPast => spec_relative_minute(args, 30),
        RuleId::QuarterTo => spec_relative_minute(args, -15int as i64),
        RuleId::FromTodToTod => match (spec_time_arg(args, 1), spec_time_arg(args, 3)) {
            (Some(a), Some(b)) => match spec_smart_span_to(a, b, false) {
                Ok(t) => Some(Dimension::Time(t)),
                Err(..) => None,
            },
            _ => None,
        },
        RuleId::TheOrdinalTimeOfTime => match (
            spec_ordinal_arg(args, 1),
            spec_time_arg(args, 2),
            spec_time_arg(args, 4),
        ) {
            (Some(o), Some(a), Some(base)) => if o.value < 1 {
                None
            } else {
                Some(Dimension::Time(spec_the_nth_after_tv(a, (o.value - 1) as i64, base)))
            },
            _ => None,
        },
        RuleId::EasterDay => Some(
            Dimension::Time(
                spec_time_value(Constraint::EasterOf { inner: Box::new(Constraint::Month(3)) }),
            ),
        ),
        RuleId::Noon => Some(Dimension::Time(helpers::spec_hour_value(12, false))),
        RuleId::Midnight => Some(Dimension::Time(helpers::spec_hour_value(0, false))),
        RuleId::UntilTime => match spec_time_arg(args, 1) {
            Some(t) => Some(
                Dimension::Time(TimeValue { direction: Some(BoundedDirection::BeforeEnd), ..t }),
            ),
            None => None,
        },
        RuleId::MoneyUnitDollar => Some(
            Dimension::MoneyUnit(MoneyUnitValue { unit: Some(MoneyUnit::Dollar) }),
        ),
        RuleId::MoneyUnitCent => Some(
            Dimension::MoneyUnit(MoneyUnitValue { unit: Some(MoneyUnit::Cent) }),
        ),
        RuleId::UnitAmount => match (spec_money_unit_arg(args, 0), spec_number_arg(args, 1)) {
            (Some(u), Some(n)) => if n.value_spec().scale > 12 {
                None
            } else {
                Some(
                    Dimension::AmountOfMoney(
                        AmountOfMoneyValue {
                            value: n.value_spec(),
                            unit: u.unit,
                            precision: Precision::Exact,
                        },
                    ),
                )
            },
            _ => None,
        },
        RuleId::AmountUnit => match (spec_number_arg(args, 0), spec_money_unit_arg(args, 1)) {
            (Some(n), Some(u)) => if n.value_spec().scale > 12 {
                None
            } else {
                Some(
                    Dimension::AmountOfMoney(
                        AmountOfMoneyValue {
                            value: n.value_spec(),
                            unit: u.unit,
                            precision: Precision::Exact,
                        },
                    ),
                )
            },
            _ => None,
        },
        RuleId::AmountAndCents => match (spec_money_arg(args, 0), spec_money_arg(args, 2)) {
            (Some(a), Some(b)) => if a.value.scale > 12 || b.value.scale > 10 {
                None
            } else {
                match dec_add_spec(
                    a.value,
                    Dec { mantissa: b.value.mantissa, scale: (b.value.scale + 2) as u32 },
                ) {
                    Some(v) => Some(
                        Dimension::AmountOfMoney(
                            AmountOfMoneyValue {
                                value: v,
                                unit: a.unit,
                                precision: Precision::Exact,
                            },
                        ),
                    ),
                    None => None,
                }
            },
            _ => None,
        },
        RuleId::TempDegrees => match spec_number_arg(args, 0) {
            Some(n) => Some(
                Dimension::Temperature(
                    TemperatureValue {
                        value: n.value_spec(),
                        unit: Some(TemperatureUnit::Degree),
                        latent: false,
                    },
                ),
            ),
            None => None,
        },
        RuleId::TempCelsius => match spec_temp_arg(args, 0) {
            Some(t) => Some(
                Dimension::Temperature(
                    TemperatureValue { unit: Some(TemperatureUnit::Celsius), ..t },
                ),
            ),
            None => None,
        },
        RuleId::TempFahrenheit => match spec_temp_arg(args, 0) {
            Some(t) => Some(
                Dimension::Temperature(
                    TemperatureValue { unit: Some(TemperatureUnit::Fahrenheit), ..t },
                ),
            ),
            None => None,
        },
        RuleId::NumberPercent => match spec_number_arg(args, 0) {
            Some(n) => Some(Dimension::Percentage(PercentageValue { value: n.value_spec() })),
            None => None,
        },
    }
}

/// Run a rule's producer over its matched children; None rejects the match.
pub fn produce(id: &RuleId, args: &Vec<ProducerArg>) -> (r: Option<Dimension>)
    ensures
        r == produce_spec(*id, args@),
{
    match id {
        RuleId::IntegerNumeric
        | RuleId::IntegerLexical
        | RuleId::TensLexical
        | RuleId::CompositionTensUnits
        | RuleId::DecimalNumeral
        | RuleId::OrdinalDigits
        | RuleId::OrdinalLexical
        | RuleId::OrdinalTensLexical
        | RuleId::CompositionTensOrdinal
        | RuleId::TheOrdinal => produce_numbers(id, args),
        RuleId::UnitSecond
        | RuleId::UnitMinute
        | RuleId::UnitHour
        | RuleId::UnitDay
        | RuleId::UnitWeek
        | RuleId::UnitMonth
        | RuleId::UnitYear
        | RuleId::HalfAnHour
        | RuleId::IntegerUnitDuration
        | RuleId::IntegerUnitAndAHalf
        | RuleId::DecimalHours
        | RuleId::IntegerAndHalfHours
        | RuleId::InDuration
        | RuleId::ForDuration
        | RuleId::DurationAndDuration
        | RuleId::DurationDuration
        | RuleId::DurationAgo
        | RuleId::DurationHence
        | RuleId::DurationAfterTime
        | RuleId::DurationBeforeTime
        | RuleId::AboutDuration
        | RuleId::ExactlyDuration
        | RuleId::AUnitDuration
        | RuleId::CycleSecond
        | RuleId::CycleMinute
        | RuleId::CycleHour
        | RuleId::CycleDay
        | RuleId::CycleWeek
        | RuleId::CycleMonth
        | RuleId::CycleQuarter
        | RuleId::CycleYear
        | RuleId::ThisCycle
        | RuleId::NextCycle
        | RuleId::LastCycle => produce_durations(id, args),
        RuleId::Now
        | RuleId::Today
        | RuleId::Tomorrow
        | RuleId::Yesterday
        | RuleId::DayOfWeekLexical
        | RuleId::MonthLexical
        | RuleId::IntersectTime
        | RuleId::IntersectTimeOf
        | RuleId::LastTime
        | RuleId::NextTime
        | RuleId::ThisTime
        | RuleId::YearNumeric
        | RuleId::TimeOfDayLatent
        | RuleId::AtTimeOfDay
        | RuleId::AmPmTimeOfDay
        | RuleId::DigitalHourMinute
        | RuleId::QuarterPast
        | RuleId::HalfPast
        | RuleId::QuarterTo
        | RuleId::FromTodToTod
        | RuleId::TheOrdinalTimeOfTime
        | RuleId::EasterDay
        | RuleId::Noon
        | RuleId::Midnight
        | RuleId::UntilTime => produce_time(id, args),
        RuleId::MoneyUnitDollar
        | RuleId::MoneyUnitCent
        | RuleId::UnitAmount
        | RuleId::AmountUnit
        | RuleId::AmountAndCents
        | RuleId::TempDegrees
        | RuleId::TempCelsius
        | RuleId::TempFahrenheit
        | RuleId::NumberPercent => produce_amounts(id, args),
    }
}

fn produce_numbers(id: &RuleId, args: &Vec<ProducerArg>) -> (r: Option<Dimension>)
    requires
        (*id) is IntegerNumeric || (*id) is IntegerLexical || (*id) is TensLexical || (*id) is CompositionTensUnits || (*id) is DecimalNumeral || (*id) is OrdinalDigits || (*id) is OrdinalLexical || (*id) is OrdinalTensLexical || (*id) is CompositionTensOrdinal || (*id) is TheOrdinal,
    ensures
        r == produce_spec(*id, args@),
{
    match id {
        RuleId::IntegerNumeric => {
            let v = group_int(args, 0, 1)?;
            Some(Dimension::Number(NumberValue::Integer(IntegerValue::new(v))))
        },
        RuleId::IntegerLexical => {
            let k = which_alternative(args, 0, 20)?;
            Some(
                Dimension::Number(
                    NumberValue::Integer(IntegerValue::new((k - 1) as i64)),
                ),
            )
        },
        RuleId::TensLexical => {
            let k = which_alternative(args, 0, 8)?;
            Some(
                Dimension::Number(
                    NumberValue::Integer(IntegerValue::new_with_grain(((k + 1) * 10) as i64, 1)),
                ),
            )
        },
        RuleId::CompositionTensUnits => {
            let a = number_arg(args, 0)?;
            let b = number_arg(args, 1)?;
            if a.value().scale > 12 || b.value().scale > 12 || a.grain_or_zero() > 10 {
                return None;
            }
            match helpers::compose_numbers(&a, &b) {
                Ok(n) => Some(Dimension::Number(n)),
                Err(..) => None,
            }
        },
        RuleId::DecimalNumeral => {
            let ip = arg_group(args, 0, 1)?;
            let fp = arg_group(args, 0, 2)?;
            let d = decimal_of_groups(ip, fp)?;
            Some(Dimension::Number(NumberValue::Float(FloatValue::new(d))))
        },
        RuleId::OrdinalDigits => {
            let v = group_int(args, 0, 1)?;
            Some(Dimension::Ordinal(OrdinalValue::new(v)))
        },
        RuleId::OrdinalLexical => {
            let k = which_alternative(args, 0, 19)?;
            Some(Dimension::Ordinal(OrdinalValue::new(k as i64)))
        },
        RuleId::OrdinalTensLexical => {
            let k = which_alternative(args, 0, 8)?;
            Some(Dimension::Ordinal(OrdinalValue::new_with_grain(((k + 1) * 10) as i64, 1)))
        },
        RuleId::CompositionTensOrdinal => {
            let a = int_arg(args, 0)?;
            let o = ordinal_arg(args, 1)?;
            let v = a.checked_add(o.value)?;
            Some(Dimension::Ordinal(OrdinalValue::new(v)))
        },
        RuleId::TheOrdinal => {
            let o = ordinal_arg(args, 1)?;
            Some(Dimension::Ordinal(OrdinalValue { prefixed: true, ..o }))
        },
        _ => None,
    }
}

fn produce_durations(id: &RuleId, args: &Vec<ProducerArg>) -> (r: Option<Dimension>)
    requires
        (*id) is UnitSecond || (*id) is UnitMinute || (*id) is UnitHour || (*id) is UnitDay || (*id) is UnitWeek || (*id) is UnitMonth || (*id) is UnitYear || (*id) is HalfAnHour || (*id) is IntegerUnitDuration || (*id) is IntegerUnitAndAHalf || (*id) is DecimalHours || (*id) is IntegerAndHalfHours || (*id) is InDuration || (*id) is ForDuration || (*id) is DurationAndDuration || (*id) is DurationDuration || (*id) is DurationAgo || (*id) is DurationHence || (*id) is DurationAfterTime || (*id) is DurationBeforeTime || (*id) is AboutDuration || (*id) is ExactlyDuration || (*id) is AUnitDuration || (*id) is CycleSecond || (*id) is CycleMinute || (*id) is CycleHour || (*id) is CycleDay || (*id) is CycleWeek || (*id) is CycleMonth || (*id) is CycleQuarter || (*id) is CycleYear || (*id) is ThisCycle || (*id) is NextCycle || (*id) is LastCycle,
    ensures
        r == produce_spec(*id, args@),
{
    match id {
        RuleId::UnitSecond => Some(
            Dimension::UnitOfDuration(UnitOfDurationValue::new(Grain::Second)),
        ),
        RuleId::UnitMinute => Some(
            Dimension::UnitOfDuration(UnitOfDurationValue::new(Grain::Minute)),
        ),
        RuleId::UnitHour => Some(Dimension::UnitOfDuration(UnitOfDurationValue::new(Grain::Hour))),
        RuleId::UnitDay => Some(Dimension::UnitOfDuration(UnitOfDurationValue::new(Grain::Day))),
        RuleId::UnitWeek => Some(Dimension::UnitOfDuration(UnitOfDurationValue::new(Grain::Week))),
        RuleId::UnitMonth => Some(
            Dimension::UnitOfDuration(UnitOfDurationValue::new(Grain::Month)),
        ),
        RuleId::UnitYear => Some(Dimension::UnitOfDuration(UnitOfDurationValue::new(Grain::Year))),
        RuleId::HalfAnHour => Some(
            Dimension::Duration(DurationValue::new(Period::single(Grain::Minute, 30))),
        ),
        RuleId::IntegerUnitDuration => {
            let v = int_arg(args, 0)?;
            let u = uod_arg(args, 1)?;
            if v < 0 {
                return None;
            }
            Some(Dimension::Duration(DurationValue::new(Period::single(u.grain, v))))
        },
        RuleId::IntegerUnitAndAHalf => {
            let v = int_arg(args, 0)?;
            let u = uod_arg(args, 1)?;
            if v < 0 {
                return None;
            }
            let whole = Period::single(u.grain, v);
            let p = match u.grain.half_period() {
                Some((g2, n)) => match whole.plus(&Period::single(g2, n)) {
                    Some(p) => p,
                    None => {
                        return None;
                    },
                },
                None => whole,
            };
            Some(Dimension::Duration(DurationValue::new(p)))
        },
        RuleId::DecimalHours => {
            let g1 = arg_group(args, 0, 1)?;
            let g2 = arg_group(args, 0, 2)?;
            match helpers::decimal_hour_in_minute(g1.as_slice(), g2.as_slice()) {
                Ok(m) => Some(
                    Dimension::Duration(DurationValue::new(Period::single(Grain::Minute, m))),
                ),
                Err(..) => None,
            }
        },
        RuleId::IntegerAndHalfHours => {
            let v = int_arg(args, 0)?;
            if v < 0 {
                return None;
            }
            let m = v.checked_mul(60)?.checked_add(30)?;
            Some(Dimension::Duration(DurationValue::new(Period::single(Grain::Minute, m))))
        },
        RuleId::InDuration => {
            let d = duration_arg(args, 1)?;
            match d.in_present() {
                Ok(t) => Some(Dimension::Time(t)),
                Err(..) => None,
            }
        },
        RuleId::ForDuration => {
            let d = duration_arg(args, 1)?;
            Some(Dimension::Duration(d.prefixed()))
        },
        RuleId::DurationAndDuration => {
            let a = duration_arg(args, 0)?;
            let b = duration_arg(args, 2)?;
            match a.add(&b) {
                Ok(d) => Some(Dimension::Duration(d)),
                Err(..) => None,
            }
        },
        RuleId::DurationDuration => {
            let a = duration_arg(args, 0)?;
            let b = duration_arg(args, 1)?;
            match a.add(&b) {
                Ok(d) => Some(Dimension::Duration(d)),
                Err(..) => None,
            }
        },
        RuleId::DurationAgo => {
            let a = duration_arg(args, 0)?;
            match a.ago() {
                Ok(t) => Some(Dimension::Time(t)),
                Err(..) => None,
            }
        },
        RuleId::DurationHence => {
            let a = duration_arg(args, 0)?;
            match a.in_present() {
                Ok(t) => Some(Dimension::Time(t)),
                Err(..) => None,
            }
        },
        RuleId::DurationAfterTime => {
            let a = duration_arg(args, 0)?;
            let t = time_arg(args, 2)?;
            match a.after(&t) {
                Ok(t2) => Some(Dimension::Time(t2)),
                Err(..) => None,
            }
        },
        RuleId::DurationBeforeTime => {
            let a = duration_arg(args, 0)?;
            let t = time_arg(args, 2)?;
            match a.before(&t) {
                Ok(t2) => Some(Dimension::Time(t2)),
                Err(..) => None,
            }
        },
        RuleId::AboutDuration => {
            let d = duration_arg(args, 1)?;
            Some(Dimension::Duration(d.precision(Precision::Approximate)))
        },
        RuleId::ExactlyDuration => {
            let d = duration_arg(args, 1)?;
            Some(Dimension::Duration(d.precision(Precision::Exact)))
        },
        RuleId::AUnitDuration => {
            let u = uod_arg(args, 1)?;
            Some(Dimension::Duration(DurationValue::new(Period::single(u.grain, 1))))
        },
        RuleId::CycleSecond => cycle_dim(Grain::Second),
        RuleId::CycleMinute => cycle_dim(Grain::Minute),
        RuleId::CycleHour => cycle_dim(Grain::Hour),
        RuleId::CycleDay => cycle_dim(Grain::Day),
        RuleId::CycleWeek => cycle_dim(Grain::Week),
        RuleId::CycleMonth => cycle_dim(Grain::Month),
        RuleId::CycleQuarter => cycle_dim(Grain::Quarter),
        RuleId::CycleYear => cycle_dim(Grain::Year),
        RuleId::ThisCycle => {
            let c = cycle_arg(args, 1)?;
            time_of(helpers::cycle_nth(c.grain, 0))
        },
        RuleId::NextCycle => {
            let c = cycle_arg(args, 1)?;
            time_of(helpers::cycle_nth(c.grain, 1))
        },
        RuleId::LastCycle => {
            let c = cycle_arg(args, 1)?;
            time_of(helpers::cycle_nth(c.grain, -1))
        },
        _ => None,
    }
}

fn produce_time(id: &RuleId, args: &Vec<ProducerArg>) -> (r: Option<Dimension>)
    requires
        (*id) is Now || (*id) is Today || (*id) is Tomorrow || (*id) is Yesterday || (*id) is DayOfWeekLexical || (*id) is MonthLexical || (*id) is IntersectTime || (*id) is IntersectTimeOf || (*id) is LastTime || (*id) is NextTime || (*id) is ThisTime || (*id) is YearNumeric || (*id) is TimeOfDayLatent || (*id) is AtTimeOfDay || (*id) is AmPmTimeOfDay || (*id) is DigitalHourMinute || (*id) is QuarterPast || (*id) is HalfPast || (*id) is QuarterTo || (*id) is FromTodToTod || (*id) is TheOrdinalTimeOfTime || (*id) is EasterDay || (*id) is Noon || (*id) is Midnight || (*id) is UntilTime,
    ensures
        r == produce_spec(*id, args@),
{
    match id {
        RuleId::Now => time_of(helpers::cycle_nth(Grain::Second, 0)),
        RuleId::Today => time_of(helpers::cycle_nth(Grain::Day, 0)),
        RuleId::Tomorrow => time_of(helpers::cycle_nth(Grain::Day, 1)),
        RuleId::Yesterday => time_of(helpers::cycle_nth(Grain::Day, -1)),
        RuleId::DayOfWeekLexical => {
            let k = which_alternative(args, 0, 7)?;
            let w = weekday_of_alt(k)?;
            time_of(helpers::day_of_week(w))
        },
        RuleId::MonthLexical => {
            let k = which_alternative(args, 0, 12)?;
            time_of(helpers::month(k as u32))
        },
        RuleId::IntersectTime => {
            let a = time_arg(args, 0)?;
            let b = time_arg(args, 1)?;
            time_of(a.intersect(&b))
        },
        RuleId::IntersectTimeOf => {
            let a = time_arg(args, 0)?;
            let b = time_arg(args, 2)?;
            time_of(a.intersect(&b))
        },
        RuleId::LastTime => {
            let t = time_arg(args, 1)?;
            time_of(t.the_nth(-1))
        },
        RuleId::NextTime => {
            let t = time_arg(args, 1)?;
            time_of(t.the_nth_not_immediate(0))
        },
        RuleId::ThisTime => {
            let t = time_arg(args, 1)?;
            time_of(t.the_nth(0))
        },
        RuleId::YearNumeric => {
            let v = int_arg(args, 0)?;
            time_of(helpers::year(v))
        },
        RuleId::TimeOfDayLatent => {
            let v = int_arg(args, 0)?;
            let h = u32_of(v)?;
            if h > 23 {
                return None;
            }
            let is_12_clock = 1 <= h && h <= 12;
            match helpers::hour(h, is_12_clock) {
                Ok(t) => Some(Dimension::Time(t.latent())),
                Err(..) => None,
            }
        },
        RuleId::AtTimeOfDay => {
            let t = time_arg(args, 1)?;
            Some(Dimension::Time(t.not_latent()))
        },
        RuleId::AmPmTimeOfDay => {
            let t = time_arg(args, 0)?;
            let marker = arg_group(args, 1, 1)?;
            if marker.len() == 0 {
                return None;
            }
            let c = marker[0];
            let pm = c == 112 || c == 80;
            let f = match t.form_time_of_day() {
                Ok(f) => f,
                Err(..) => {
                    return None;
                },
            };
            apply_am_pm(&f, pm)
        },
        RuleId::DigitalHourMinute => {
            let h = group_int(args, 0, 1)?;
            let m = group_int(args, 0, 2)?;
            let hh = u32_of(h)?;
            let mm = u32_of(m)?;
            if hh > 23 || mm > 59 {
                return None;
            }
            match helpers::hour_minute(hh, mm, true) {
                Ok(t) => Some(Dimension::Time(t.not_latent())),
                Err(..) => None,
            }
        },
        RuleId::QuarterPast => relative_minute(args, 15),
        RuleId::HalfPast => relative_minute(args, 30),
        RuleId::QuarterTo => relative_minute(args, -15),
        RuleId::FromTodToTod => {
            let a = time_arg(args, 1)?;
            let b = time_arg(args, 3)?;
            time_of(a.smart_span_to(&b, false))
        },
        RuleId::TheOrdinalTimeOfTime => {
            let o = ordinal_arg(args, 1)?;
            let a = time_arg(args, 2)?;
            let base = time_arg(args, 4)?;
            if o.value < 1 {
                return None;
            }
            time_of(a.the_nth_after(o.value - 1, &base))
        },
        RuleId::EasterDay => time_of(helpers::easter()),
        RuleId::Noon => time_of(helpers::hour(12, false)),
        RuleId::Midnight => time_of(helpers::hour(0, false)),
        RuleId::UntilTime => {
            let t = time_arg(args, 1)?;
            Some(Dimension::Time(t.mark_before_end()))
        },
        _ => None,
    }
}

fn produce_amounts(id: &RuleId, args: &Vec<ProducerArg>) -> (r: Option<Dimension>)
    requires
        (*id) is MoneyUnitDollar || (*id) is MoneyUnitCent || (*id) is UnitAmount || (*id) is AmountUnit || (*id) is AmountAndCents || (*id) is TempDegrees || (*id) is TempCelsius || (*id) is TempFahrenheit || (*id) is NumberPercent,
    ensures
        r == produce_spec(*id, args@),
{
    match id {
        RuleId::MoneyUnitDollar => Some(
            Dimension::MoneyUnit(MoneyUnitValue { unit: Some(MoneyUnit::Dollar) }),
        ),
        RuleId::MoneyUnitCent => Some(
            Dimension::MoneyUnit(MoneyUnitValue { unit: Some(MoneyUnit::Cent) }),
        ),
        RuleId::UnitAmount => {
            let u = money_unit_arg(args, 0)?;
            let n = number_arg(args, 1)?;
            let v = n.value();
            if v.scale > 12 {
                return None;
            }
            Some(Dimension::AmountOfMoney(AmountOfMoneyValue::new(v, u.unit)))
        },
        RuleId::AmountUnit => {
            let n = number_arg(args, 0)?;
            let u = money_unit_arg(args, 1)?;
            let v = n.value();
            if v.scale > 12 {
                return None;
            }
            Some(Dimension::AmountOfMoney(AmountOfMoneyValue::new(v, u.unit)))
        },
        RuleId::AmountAndCents => {
            let a = money_arg(args, 0)?;
            let b = money_arg(args, 2)?;
            if a.value.scale > 12 || b.value.scale > 10 {
                return None;
            }
            match helpers::compose_money(&a, &b) {
                Ok(m) => Some(Dimension::AmountOfMoney(m)),
                Err(..) => None,
            }
        },
        RuleId::TempDegrees => {
            let n = number_arg(args, 0)?;
            Some(
                Dimension::Temperature(
                    TemperatureValue {
                        value: n.value(),
                        unit: Some(TemperatureUnit::Degree),
                        latent: false,
                    },
                ),
            )
        },
        RuleId::TempCelsius => {
            let t = temp_arg(args, 0)?;
            Some(
                Dimension::Temperature(
                    TemperatureValue { unit: Some(TemperatureUnit::Celsius), ..t },
                ),
            )
        },
        RuleId::TempFahrenheit => {
            let t = temp_arg(args, 0)?;
            Some(
                Dimension::Temperature(
                    TemperatureValue { unit: Some(TemperatureUnit::Fahrenheit), ..t },
                ),
            )
        },
        RuleId::NumberPercent => {
            let n = number_arg(args, 0)?;
            Some(Dimension::Percentage(PercentageValue { value: n.value() }))
        },
        _ => None,
    }
}


fn cycle_dim(g: Grain) -> (r: Option<Dimension>)
    ensures
        r == Some(Dimension::Cycle(CycleValue { grain: g })),
{
    match CycleValue::new(g) {
        Ok(c) => Some(Dimension::Cycle(c)),
        Err(..) => None,
    }
}

fn time_of(r: Result<TimeValue, RuleError>) -> (out: Option<Dimension>)
    ensures
        out == (match r {
            Ok(t) => Some(Dimension::Time(t)),
            Err(..) => None::<Dimension>,
        }),
{
    match r {
        Ok(t) => Some(Dimension::Time(t)),
        Err(..) => None,
    }
}

/// A clock reading shifted by whole minutes from a spoken hour.
fn relative_minute(args: &Vec<ProducerArg>, m: i64) -> (r: Option<Dimension>)
    ensures
        r == spec_relative_minute(args@, m),
{
    let t = time_arg(args, 1)?;
    let f = match t.form_time_of_day() {
        Ok(f) => f,
        Err(..) => {
            return None;
        },
    };
    match helpers::hour_relative_minute(f.full_hour(), m, f.is_12_clock()) {
        Ok(t2) => Some(Dimension::Time(t2)),
        Err(..) => None,
    }
}

/// The full English rule set: starting from nothing, the seven groups'
/// patterns and rules installed in order.
pub fn build_english_rules() -> (r: Result<RuleSetBuilder, RuleError>)
    ensures
        r matches Ok(bb) ==> bb.wf() && (exists|
            b0: RuleSetBuilder,
            b1: RuleSetBuilder,
            b2: RuleSetBuilder,
            b3: RuleSetBuilder,
            b4: RuleSetBuilder,
            b5: RuleSetBuilder,
            b6: RuleSetBuilder,
        |
            #![trigger numbers_installed(b0, b1), duration_installed(b1, b2), cycle_installed(
                b2,
                b3,
            ), time_installed(b3, b4), finance_installed(b4, b5), temperature_installed(
                b5,
                b6,
            ), percentage_installed(b6, bb)]
            b0.patterns@.len() == 0 && b0.rules@.len() == 0 && numbers_installed(b0, b1)
                && duration_installed(b1, b2) && cycle_installed(b2, b3) && time_installed(b3, b4)
                && finance_installed(b4, b5) && temperature_installed(b5, b6)
                && percentage_installed(b6, bb)),
{
    let mut b = RuleSetBuilder::new();
    let ghost g0 = b;
    rules_numbers(&mut b)?;
    let ghost g1 = b;
    rules_duration(&mut b)?;
    let ghost g2 = b;
    rules_cycle(&mut b)?;
    let ghost g3 = b;
    rules_time(&mut b)?;
    let ghost g4 = b;
    rules_finance(&mut b)?;
    let ghost g5 = b;
    rules_temperature(&mut b)?;
    let ghost g6 = b;
    rules_percentage(&mut b)?;
    proof {
        assert(numbers_installed(g0, g1) && duration_installed(g1, g2) && cycle_installed(g2, g3)
            && time_installed(g3, g4) && finance_installed(g4, g5) && temperature_installed(
            g5,
            g6,
        ) && percentage_installed(g6, b));
    }
    Ok(b)
}

} // verus!
