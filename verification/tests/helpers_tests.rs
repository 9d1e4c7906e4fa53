use chronolex::grain::{precision_resolution, Grain, Precision, Weekday};
use chronolex::helpers::{
    compose_money, compose_numbers, computer_easter, day_of_week, decimal_hour_in_minute,
    format_int, hour_minute, hour_relative_minute, parse_int, year,
};
use chronolex::moment::Date;
use chronolex::period::Period;
use chronolex::values::{
    AmountOfMoneyValue, Dec, DurationValue, IntegerValue, MoneyUnit, NumberValue,
};

#[test]
fn test_decimal_hour() {
    assert_eq!(90, decimal_hour_in_minute(b"1", b"5").unwrap());
    assert_eq!(93, decimal_hour_in_minute(b"1", b"55").unwrap());
}

#[test]
fn test_computer_easter() {
    assert_eq!((2017, 4, 16), computer_easter(2017));
    assert_eq!((2018, 4, 1), computer_easter(2018));
    assert_eq!((2019, 4, 21), computer_easter(2019));
}

#[test]
fn test_compose_numbers_sums() {
    let twenty = NumberValue::Integer(IntegerValue::new_with_grain(20, 1));
    let one = NumberValue::Integer(IntegerValue::new(1));
    let r = compose_numbers(&twenty, &one).unwrap();
    match r {
        NumberValue::Integer(iv) => assert_eq!(21, iv.value),
        _ => panic!("expected an integer"),
    }
}

#[test]
fn test_compose_numbers_rejects_large_right_operand() {
    // grain 1 admits only values below ten on the right
    let twenty = NumberValue::Integer(IntegerValue::new_with_grain(20, 1));
    let eleven = NumberValue::Integer(IntegerValue::new(11));
    assert!(compose_numbers(&twenty, &eleven).is_err());
}

#[test]
fn test_compose_numbers_no_grain_rejects() {
    let five = NumberValue::Integer(IntegerValue::new(5));
    let one = NumberValue::Integer(IntegerValue::new(1));
    assert!(compose_numbers(&five, &one).is_err());
}

#[test]
fn test_hour_relative_minute_matches_hour_minute() {
    assert_eq!(
        hour_relative_minute(10, 0, true).unwrap(),
        hour_minute(10, 0, true).unwrap()
    );
    assert_eq!(
        hour_relative_minute(10, -15, true).unwrap(),
        hour_minute(9, 45, true).unwrap()
    );
    assert_eq!(
        hour_relative_minute(10, -15, false).unwrap(),
        hour_minute(9, 45, false).unwrap()
    );
    assert_eq!(
        hour_relative_minute(0, -15, false).unwrap(),
        hour_minute(23, 45, false).unwrap()
    );
    assert_eq!(
        hour_relative_minute(1, -15, true).unwrap(),
        hour_minute(12, 45, true).unwrap()
    );
    assert_eq!(
        hour_relative_minute(1, -15, false).unwrap(),
        hour_minute(0, 45, false).unwrap()
    );
    assert!(hour_relative_minute(24, 0, false).is_err());
    assert!(hour_relative_minute(10, 60, false).is_err());
}

#[test]
fn test_precision_combination() {
    assert_eq!(
        Precision::Approximate,
        precision_resolution(Precision::Approximate, Precision::Exact)
    );
    assert_eq!(
        Precision::Approximate,
        precision_resolution(Precision::Exact, Precision::Approximate)
    );
    assert_eq!(
        Precision::Approximate,
        precision_resolution(Precision::Approximate, Precision::Approximate)
    );
    assert_eq!(
        Precision::Exact,
        precision_resolution(Precision::Exact, Precision::Exact)
    );
}

#[test]
fn test_duration_add_keeps_disjoint_components() {
    let two_hours = DurationValue::new(Period::single(Grain::Hour, 2));
    let thirty_minutes = DurationValue::new(Period::single(Grain::Minute, 30));
    let sum = two_hours.add(&thirty_minutes).unwrap();
    assert_eq!(2, sum.period.hours);
    assert_eq!(30, sum.period.minutes);
    assert_eq!(0, sum.period.seconds);
    assert_eq!(0, sum.period.days);
}

#[test]
fn test_compose_money_adds_cents() {
    let twenty = AmountOfMoneyValue::new(Dec { mantissa: 20, scale: 0 }, Some(MoneyUnit::Dollar));
    let fifty = AmountOfMoneyValue::new(Dec { mantissa: 50, scale: 0 }, Some(MoneyUnit::Cent));
    let r = compose_money(&twenty, &fifty).unwrap();
    assert_eq!(Dec { mantissa: 2050, scale: 2 }, r.value);
    assert_eq!(Some(MoneyUnit::Dollar), r.unit);
}

#[test]
fn test_integer_text_round_trip() {
    for n in [0i64, 7, 21, 90, 1234, 999999, 987654321] {
        let text = format_int(n);
        assert_eq!(n, parse_int(&text).unwrap());
    }
    assert_eq!(7, parse_int(b"007").unwrap());
    assert!(parse_int(b"").is_err());
    assert!(parse_int(b"12a").is_err());
}

#[test]
fn test_weekday_of_known_dates() {
    // the fixed reference used by the scenarios is a Tuesday
    let d = Date { year: 2013, month: 2, day: 12 };
    assert_eq!(Weekday::Tue, d.weekday());
    let d2 = Date { year: 2014, month: 3, day: 17 };
    assert_eq!(Weekday::Mon, d2.weekday());
    let d3 = Date { year: 2000, month: 1, day: 1 };
    assert_eq!(Weekday::Sat, d3.weekday());
}

#[test]
fn test_time_value_builders() {
    let y = year(2014).unwrap();
    match y.form {
        chronolex::values::Form::Year(v) => assert_eq!(2014, v),
        _ => panic!("expected a year form"),
    }
    let dow = day_of_week(Weekday::Mon).unwrap();
    assert!(!dow.latent);
}
