//! End-to-end scenarios: parse English text against the fixed reference
//! instant 2013-02-12 04:30:00 (a Tuesday) and check the resolved outputs.

use chronolex::engine::RuleSetBuilder;
use chronolex::en::build_english_rules;
use chronolex::grain::Grain;
use chronolex::moment::{Date, Moment};
use chronolex::output::{Output, OutputKind, TimeOutput};
use chronolex::tagger::{parse, Candidate};
use chronolex::values::{Dec, Dimension, MoneyUnit, TimeOfDayForm};

fn reference() -> Moment {
    Moment { date: Date { year: 2013, month: 2, day: 12 }, hour: 4, minute: 30, second: 0 }
}

fn rules() -> RuleSetBuilder {
    build_english_rules().unwrap()
}

fn moment(y: i64, mo: u32, d: u32, h: u32, mi: u32, s: u32) -> Moment {
    Moment { date: Date { year: y, month: mo, day: d }, hour: h, minute: mi, second: s }
}

fn tagged(results: &[Candidate]) -> Vec<&Candidate> {
    results.iter().filter(|c| c.tagged).collect()
}

fn time_output(c: &Candidate) -> TimeOutput {
    match c.output {
        Some(Output::Time(to)) => to,
        _ => panic!("expected a time output"),
    }
}

#[test]
fn scenario_in_two_hours() {
    let rs = rules();
    let r = parse(&rs, b"in 2 hours", reference(), vec![OutputKind::Time], false);
    let sel = tagged(&r);
    assert_eq!(1, sel.len());
    let to = time_output(sel[0]);
    assert_eq!(Some(moment(2013, 2, 12, 6, 30, 0)), to.start);
    assert_eq!(Some(moment(2013, 2, 12, 7, 30, 0)), to.end);
    assert_eq!(Grain::Hour, to.grain);
}

#[test]
fn scenario_next_tuesday_at_nine() {
    let rs = rules();
    let r = parse(&rs, b"next tuesday at 9am", reference(), vec![OutputKind::Time], false);
    let sel = tagged(&r);
    assert_eq!(1, sel.len());
    let to = time_output(sel[0]);
    assert_eq!(Some(moment(2013, 2, 19, 9, 0, 0)), to.start);
    assert_eq!(Some(moment(2013, 2, 19, 10, 0, 0)), to.end);
    assert_eq!(Grain::Hour, to.grain);
}

#[test]
fn scenario_from_nine_to_eleven() {
    let rs = rules();
    let r = parse(
        &rs,
        b"from 9am to 11am",
        reference(),
        vec![OutputKind::TimePeriod],
        false,
    );
    let sel = tagged(&r);
    assert_eq!(1, sel.len());
    let to = time_output(sel[0]);
    assert_eq!(Some(moment(2013, 2, 12, 9, 0, 0)), to.start);
    assert_eq!(Some(moment(2013, 2, 12, 11, 0, 0)), to.end);
    assert_eq!(Grain::Hour, to.grain);
}

#[test]
fn scenario_dollar_amounts() {
    let rs = rules();
    let r = parse(&rs, b"$20.5", reference(), vec![OutputKind::AmountOfMoney], false);
    let sel = tagged(&r);
    assert_eq!(1, sel.len());
    match sel[0].output {
        Some(Output::AmountOfMoney(v, u, _)) => {
            assert_eq!(Dec { mantissa: 205, scale: 1 }, v);
            assert_eq!(Some(MoneyUnit::Dollar), u);
        },
        _ => panic!("expected a money output"),
    }
    let r2 = parse(
        &rs,
        b"20 dollars and 50 cents",
        reference(),
        vec![OutputKind::AmountOfMoney],
        false,
    );
    let sel2 = tagged(&r2);
    assert_eq!(1, sel2.len());
    match sel2[0].output {
        Some(Output::AmountOfMoney(v, u, _)) => {
            assert_eq!(Dec { mantissa: 2050, scale: 2 }, v);
            assert_eq!(Some(MoneyUnit::Dollar), u);
        },
        _ => panic!("expected a money output"),
    }
}

#[test]
fn scenario_quarter_past_three() {
    let rs = rules();
    let r = parse(&rs, b"quarter past three", reference(), vec![OutputKind::Time], false);
    let sel = tagged(&r);
    assert_eq!(1, sel.len());
    match &sel[0].match_.value {
        Dimension::Time(t) => match t.form {
            chronolex::values::Form::TimeOfDay(TimeOfDayForm::HourMinute {
                full_hour,
                minute,
                is_12_clock,
            }) => {
                assert_eq!(3, full_hour);
                assert_eq!(15, minute);
                assert!(is_12_clock);
            },
            _ => panic!("expected an hour-minute clock form"),
        },
        _ => panic!("expected a time value"),
    }
}

#[test]
fn scenario_third_monday_of_march() {
    let rs = rules();
    let r = parse(
        &rs,
        b"the third monday of March 2014",
        reference(),
        vec![OutputKind::Date],
        false,
    );
    let sel = tagged(&r);
    assert_eq!(1, sel.len());
    let to = time_output(sel[0]);
    assert_eq!(Some(moment(2014, 3, 17, 0, 0, 0)), to.start);
    assert_eq!(Some(moment(2014, 3, 18, 0, 0, 0)), to.end);
    assert_eq!(Grain::Day, to.grain);
}

#[test]
fn scenario_now_is_the_current_second() {
    let rs = rules();
    let r = parse(&rs, b"now", reference(), vec![OutputKind::Time], false);
    let sel = tagged(&r);
    assert_eq!(1, sel.len());
    let to = time_output(sel[0]);
    assert_eq!(Grain::Second, to.grain);
    assert_eq!(Some(reference()), to.start);
    assert_eq!(Some(moment(2013, 2, 12, 4, 30, 1)), to.end);
}

#[test]
fn scenario_last_and_next_weekday() {
    let rs = rules();
    let r = parse(&rs, b"last monday", reference(), vec![OutputKind::Date], false);
    let sel = tagged(&r);
    assert_eq!(1, sel.len());
    let to = time_output(sel[0]);
    assert_eq!(Some(moment(2013, 2, 11, 0, 0, 0)), to.start);

    let r2 = parse(&rs, b"next monday", reference(), vec![OutputKind::Date], false);
    let sel2 = tagged(&r2);
    assert_eq!(1, sel2.len());
    let to2 = time_output(sel2[0]);
    assert_eq!(Some(moment(2013, 2, 18, 0, 0, 0)), to2.start);

    // the reference day is a Tuesday: its own weekday steps a whole week
    let r3 = parse(&rs, b"last tuesday", reference(), vec![OutputKind::Date], false);
    let sel3 = tagged(&r3);
    assert_eq!(1, sel3.len());
    let to3 = time_output(sel3[0]);
    assert_eq!(Some(moment(2013, 2, 5, 0, 0, 0)), to3.start);
}

#[test]
fn scenario_ordinals() {
    let rs = rules();
    let r = parse(&rs, b"the 7th", reference(), vec![OutputKind::Ordinal], false);
    let sel = tagged(&r);
    assert_eq!(1, sel.len());
    assert_eq!(Some(Output::Ordinal(7)), sel[0].output);
    match &sel[0].match_.value {
        Dimension::Ordinal(o) => {
            assert_eq!(7, o.value);
            assert!(o.prefixed);
        },
        _ => panic!("expected an ordinal value"),
    }

    let r2 = parse(&rs, b"twenty-first", reference(), vec![OutputKind::Ordinal], false);
    let sel2 = tagged(&r2);
    assert_eq!(1, sel2.len());
    assert_eq!(Some(Output::Ordinal(21)), sel2[0].output);
}

#[test]
fn scenario_numbers_round_trip() {
    let rs = rules();
    for (text, expected) in [
        (&b"21"[..], 21i64),
        (&b"twenty one"[..], 21),
        (&b"seven"[..], 7),
        (&b"90"[..], 90),
    ] {
        let r = parse(&rs, text, reference(), vec![OutputKind::Number], false);
        let sel = tagged(&r);
        assert_eq!(1, sel.len(), "for input {:?}", String::from_utf8_lossy(text));
        assert_eq!(Some(Output::Integer(expected)), sel[0].output);
    }
    let r = parse(&rs, b"20.5", reference(), vec![OutputKind::Number], false);
    let sel = tagged(&r);
    assert_eq!(1, sel.len());
    assert_eq!(Some(Output::Float(Dec { mantissa: 205, scale: 1 })), sel[0].output);
}

#[test]
fn scenario_duration_sum() {
    let rs = rules();
    let r = parse(
        &rs,
        b"2 hours and 30 minutes",
        reference(),
        vec![OutputKind::Duration],
        false,
    );
    let sel = tagged(&r);
    assert_eq!(1, sel.len());
    match sel[0].output {
        Some(Output::Duration(p, _)) => {
            assert_eq!(2, p.hours);
            assert_eq!(30, p.minutes);
        },
        _ => panic!("expected a duration output"),
    }
}

#[test]
fn tagged_spans_never_overlap() {
    let rs = rules();
    let r = parse(
        &rs,
        b"in 2 hours and 30 minutes from 9am to 11am",
        reference(),
        vec![OutputKind::Time, OutputKind::TimePeriod, OutputKind::Duration, OutputKind::Number],
        false,
    );
    let sel = tagged(&r);
    for i in 0..sel.len() {
        for j in (i + 1)..sel.len() {
            let a = &sel[i].match_;
            let b = &sel[j].match_;
            assert!(a.byte_end <= b.byte_start || b.byte_end <= a.byte_start);
        }
    }
}

#[test]
fn scenario_percentage_and_temperature() {
    let rs = rules();
    let r = parse(&rs, b"25%", reference(), vec![OutputKind::Percentage], false);
    let sel = tagged(&r);
    assert_eq!(1, sel.len());
    assert_eq!(
        Some(Output::Percentage(Dec { mantissa: 25, scale: 0 })),
        sel[0].output
    );

    let r2 = parse(&rs, b"70 degrees", reference(), vec![OutputKind::Temperature], false);
    let sel2 = tagged(&r2);
    assert_eq!(1, sel2.len());
    match sel2[0].output {
        Some(Output::Temperature(v, _)) => assert_eq!(Dec { mantissa: 70, scale: 0 }, v),
        _ => panic!("expected a temperature output"),
    }
}

#[test]
fn scenario_easter_dates() {
    let rs = rules();
    let r = parse(&rs, b"easter", reference(), vec![OutputKind::Date], false);
    let sel = tagged(&r);
    assert_eq!(1, sel.len());
    let to = time_output(sel[0]);
    // the Easter after the reference instant falls on the last day of March
    assert_eq!(Some(moment(2013, 3, 31, 0, 0, 0)), to.start);
}

#[test]
fn scenario_unit_and_a_half() {
    let rs = rules();
    let r = parse(
        &rs,
        b"2 hours and a half",
        reference(),
        vec![OutputKind::Duration],
        false,
    );
    let sel = tagged(&r);
    assert_eq!(1, sel.len());
    match sel[0].output {
        Some(Output::Duration(p, _)) => {
            assert_eq!(2, p.hours);
            assert_eq!(30, p.minutes);
        },
        _ => panic!("expected a duration output"),
    }
}

#[test]
fn scenario_digital_clock() {
    let rs = rules();
    let r = parse(&rs, b"14:30", reference(), vec![OutputKind::Time], false);
    let sel = tagged(&r);
    assert_eq!(1, sel.len());
    let to = time_output(sel[0]);
    assert_eq!(Some(moment(2013, 2, 12, 14, 30, 0)), to.start);
    assert_eq!(Grain::Minute, to.grain);
}

#[test]
fn scenario_tomorrow_and_yesterday() {
    let rs = rules();
    let r = parse(&rs, b"tomorrow", reference(), vec![OutputKind::Date], false);
    let sel = tagged(&r);
    assert_eq!(1, sel.len());
    assert_eq!(Some(moment(2013, 2, 13, 0, 0, 0)), time_output(sel[0]).start);

    let r2 = parse(&rs, b"yesterday", reference(), vec![OutputKind::Date], false);
    let sel2 = tagged(&r2);
    assert_eq!(1, sel2.len());
    assert_eq!(Some(moment(2013, 2, 11, 0, 0, 0)), time_output(sel2[0]).start);
}

#[test]
fn scenario_approximate_duration() {
    let rs = rules();
    let r = parse(
        &rs,
        b"about 2 hours",
        reference(),
        vec![OutputKind::Duration],
        false,
    );
    let sel = tagged(&r);
    assert_eq!(1, sel.len());
    match sel[0].output {
        Some(Output::Duration(p, prec)) => {
            assert_eq!(2, p.hours);
            assert_eq!(chronolex::grain::Precision::Approximate, prec);
        },
        _ => panic!("expected a duration output"),
    }
}

#[test]
fn scenario_two_hours_ago() {
    let rs = rules();
    let r = parse(&rs, b"2 hours ago", reference(), vec![OutputKind::Time], false);
    let sel = tagged(&r);
    assert_eq!(1, sel.len());
    let to = time_output(sel[0]);
    assert_eq!(Some(moment(2013, 2, 12, 2, 30, 0)), to.start);
    assert_eq!(Grain::Hour, to.grain);
}

#[test]
fn scenario_empty_and_unmatched_input() {
    let rs = rules();
    let r = parse(&rs, b"", reference(), vec![OutputKind::Time], false);
    assert!(tagged(&r).is_empty());
    let r2 = parse(&rs, b"xyzzy plugh", reference(), vec![OutputKind::Time], false);
    assert!(tagged(&r2).is_empty());
}

#[test]
fn scenario_article_unit_duration() {
    let rs = rules();
    let r = parse(&rs, b"a week", reference(), vec![OutputKind::Duration], false);
    let sel = tagged(&r);
    assert_eq!(1, sel.len());
    match sel[0].output {
        Some(Output::Duration(p, _)) => assert_eq!(1, p.weeks),
        _ => panic!("expected a duration output"),
    }
}

#[test]
fn scenario_noon_and_until() {
    let rs = rules();
    let r = parse(&rs, b"noon", reference(), vec![OutputKind::Time], false);
    let sel = tagged(&r);
    assert_eq!(1, sel.len());
    let to = time_output(sel[0]);
    assert_eq!(Some(moment(2013, 2, 12, 12, 0, 0)), to.start);
    assert_eq!(Grain::Hour, to.grain);

    // a directional marker makes the resolved window one-sided
    let r2 = parse(&rs, b"until noon", reference(), vec![OutputKind::Time], false);
    let sel2 = tagged(&r2);
    assert_eq!(1, sel2.len());
    let to2 = time_output(sel2[0]);
    assert_eq!(None, to2.start);
    assert_eq!(Some(moment(2013, 2, 12, 13, 0, 0)), to2.end);
}
