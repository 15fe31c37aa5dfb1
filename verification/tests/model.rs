use zombiesplit::model::timing::comparison::provider::{Null, Provider};
use zombiesplit::model::run::{self, Run};
use zombiesplit::model::short;
use zombiesplit::model::timing::aggregate::{AggregateSet, Scope};
use zombiesplit::model::timing::comparison::delta;
use zombiesplit::model::timing::comparison::pace::{Pace, PacedTime, SplitInRun};
use zombiesplit::model::timing::comparison::{self, Comparison};
use zombiesplit::model::timing::time::error::IntErrorKind;
use zombiesplit::model::timing::time::field::Carry;
use zombiesplit::model::timing::time::{human, Error, Field, Position, Time};

#[test]
fn human_from_millis_splits_fields() {
    let t = human::Time::from_millis(3_723_456);
    assert_eq!(
        (t.is_negative, t.hours, t.mins, t.secs, t.millis),
        (false, 1, 2, 3, 456)
    );
    let n = human::Time::from_millis(-61_001);
    assert_eq!(
        (n.is_negative, n.hours, n.mins, n.secs, n.millis),
        (true, 0, 1, 1, 1)
    );
    let m = human::Time::from_millis(i32::MIN);
    assert_eq!(m.try_into_millis(), Ok(i32::MIN));
}

#[test]
fn human_millis_roundtrip() {
    for ms in [0, 1, 999, 1000, 59_999, 3_600_000, -5, i32::MAX, i32::MIN] {
        assert_eq!(human::Time::from_millis(ms).try_into_millis(), Ok(ms));
    }
}

#[test]
fn human_try_into_millis_overflow() {
    let t = human::Time::new(65534, 0, 0, 0);
    assert_eq!(t.try_into_millis(), Err(Error::MsecOverflow(t)));
}

#[test]
fn human_seconds() {
    let t = human::Time::seconds(61).expect("fits");
    assert_eq!((t.mins, t.secs, t.millis), (1, 1, 0));
    assert_eq!(
        human::Time::seconds(3_000_000),
        Err(Error::SecOverflow(3_000_000))
    );
}

#[test]
fn human_display() {
    let t = human::Time::new(1, 2, 3, 456);
    assert_eq!(t.to_display_string(), "010203456");
    assert_eq!(human::Time::parse_str("1h2m3s456"), Ok(t));
    let u = human::Time::new(0, 0, 7, 8);
    assert_eq!(u.to_display_string(), "000007008");
    assert_eq!(human::Time::parse_str("07s008"), Ok(u));
    assert_eq!(human::Time::from_millis(-1500).to_display_string(), "000001500");
    assert_eq!(human::Time::default().to_display_string(), "000000000");
    assert_eq!(
        human::Time::parse_str(&human::Time::default().to_display_string()),
        Ok(human::Time::default())
    );
    assert!(human::Time::default().is_zero());
}

#[test]
fn human_parse_errors() {
    assert_eq!(
        human::Time::parse_str("1x"),
        Err(Error::FieldParse {
            pos: Position::Milliseconds,
            err: IntErrorKind::InvalidDigit
        })
    );
    assert_eq!(
        human::Time::parse_str("99999h"),
        Err(Error::FieldParse {
            pos: Position::Hours,
            err: IntErrorKind::PosOverflow
        })
    );
}

#[test]
fn human_to_internal() {
    let t = human::Time::new(0, 1, 0, 5);
    assert_eq!(human::to_internal(t), Ok(Time::from_millis(60_005)));
    assert_eq!(human::Time::from(Time::from_millis(60_005)), t);
}

#[test]
fn field_parse_too_big() {
    assert_eq!(
        Field::parse(Position::Minutes, "60"),
        Err(Error::FieldTooBig {
            pos: Position::Minutes,
            val: 60
        })
    );
    assert_eq!(
        Field::new(Position::Seconds, 75),
        Err(Error::FieldTooBig {
            pos: Position::Seconds,
            val: 75
        })
    );
    let f = Field::parse(Position::Seconds, "59").expect("fits");
    assert_eq!(f.fmt_value(None), "59");
    assert_eq!(f.fmt_value_delimited(None), "59s");
    assert_eq!(Field::zero(Position::Hours).fmt_value_delimited(None), "");
}

#[test]
fn field_as_msecs() {
    let f = Field::new(Position::Minutes, 2).expect("fits");
    assert_eq!(f.as_msecs(), 120_000);
    assert!(!f.is_msecs());
}

#[test]
fn carry_splits_value() {
    let c = Carry::new(Position::Seconds, 135);
    assert_eq!(c.field.value(), 15);
    assert_eq!(c.carry, 2);
    assert_eq!(c.original, 135);
    assert!(c.try_into_field().is_err());
    let d = Carry::new(Position::Milliseconds, 999);
    assert_eq!(d.try_into_field().map(|f| f.value()), Ok(999));
}

#[test]
fn position_fit() {
    let f = Position::Milliseconds.fit(12_345);
    assert_eq!(f.result.value, 345);
    assert_eq!(f.overflow, 12);
    assert_eq!(f.input, 12_345);
}

#[test]
fn pace_of_comparison() {
    let a = human::Time::new(0, 0, 10, 0);
    let b = human::Time::new(0, 0, 11, 0);
    assert_eq!(Pace::of_comparison(a, b), Pace::Ahead);
    assert_eq!(Pace::of_comparison(b, a), Pace::Behind);
    assert_eq!(Pace::of_comparison(a, a), Pace::Ahead);
    assert_eq!(PacedTime::of_comparison(b, a).pace, Pace::Behind);
    assert_eq!(PacedTime::personal_best(a).pace, Pace::PersonalBest);
}

#[test]
fn split_in_run_paces() {
    assert_eq!(SplitInRun::new(Pace::Behind, Pace::Behind), SplitInRun::BehindAndLosing);
    assert_eq!(SplitInRun::new(Pace::Ahead, Pace::Behind), SplitInRun::BehindAndGaining);
    assert_eq!(SplitInRun::new(Pace::Behind, Pace::Ahead), SplitInRun::AheadAndLosing);
    assert_eq!(SplitInRun::new(Pace::Ahead, Pace::Ahead), SplitInRun::AheadAndGaining);
    assert_eq!(
        SplitInRun::new(Pace::PersonalBest, Pace::Behind),
        SplitInRun::SplitPersonalBest
    );
    assert_eq!(
        SplitInRun::new(Pace::Ahead, Pace::Inconclusive),
        SplitInRun::Inconclusive
    );
    assert_eq!(SplitInRun::BehindAndGaining.overall(), Pace::Behind);
    assert_eq!(SplitInRun::SplitPersonalBest.overall(), Pace::Ahead);
}

#[test]
fn delta_of_comparison() {
    let d = delta::Time::of_comparison(Time::from_millis(1200), Time::from_millis(1000));
    assert_eq!(d.delta.pace, Pace::Behind);
    assert_eq!(d.delta.time, Time::from_millis(200));
    assert_eq!(d.comparison(), Time::from_millis(1000));
    let e = delta::Delta::of_comparison(Time::from_millis(900), Time::from_millis(1000));
    assert_eq!(e.pace, Pace::Ahead);
    assert_eq!(e.time, Time::from_millis(-100));
}

fn comparison_with_s1() -> Comparison {
    let mut c = Comparison::default();
    c.splits.insert(
        short::Name::from_str("s1"),
        comparison::Split {
            split_pb: Time::from_millis(900),
            in_pb_run: AggregateSet {
                split: Time::from_millis(1000),
                cumulative: Time::from_millis(5000),
            },
        },
    );
    c
}

#[test]
fn comparison_delta() {
    let c = comparison_with_s1();
    let against = AggregateSet {
        split: Time::from_millis(850),
        cumulative: Time::from_millis(5100),
    };
    let d = c.delta(&short::Name::from_str("s1"), against).expect("fits");
    assert_eq!(d.split.pace, Pace::PersonalBest);
    assert_eq!(d.split.time, Time::from_millis(-150));
    assert_eq!(d.run.pace, Pace::Behind);
    assert_eq!(d.run.time, Time::from_millis(100));
    assert_eq!(d.pace(), SplitInRun::SplitPersonalBest);
    let none = c.delta(&short::Name::from_str("s2"), against).expect("fits");
    assert_eq!(none.pace(), SplitInRun::Inconclusive);
    assert!(c.aggregate_for(&short::Name::from_str("s2")).is_none());
    assert_eq!(
        c.aggregate_for(&short::Name::from_str("s1")).map(|a| a.index(Scope::Split)),
        Some(Time::from_millis(1000))
    );
}

#[test]
fn comparison_delta_overflow() {
    let c = comparison_with_s1();
    let against = AggregateSet {
        split: Time::from_millis(i32::MIN),
        cumulative: Time::from_millis(0),
    };
    assert_eq!(
        c.delta(&short::Name::from_str("s1"), against),
        Err(Error::DeltaOverflow {
            time: i32::MIN,
            compared_to: 1000
        })
    );
}

#[test]
fn accumulate_splits_totals() {
    let mut a = run::Split::new(short::Name::from_str("a"), "A".to_string());
    a.times.push(Time::from_millis(10));
    a.times.push(Time::from_millis(20));
    let mut b = run::Split::new(short::Name::from_str("b"), "B".to_string());
    b.times.push(Time::from_millis(5));
    let aggs = AggregateSet::accumulate_splits(&vec![a, b]);
    assert_eq!(aggs.len(), 2);
    assert_eq!(aggs[0].1.split, Time::from_millis(30));
    assert_eq!(aggs[0].1.cumulative, Time::from_millis(30));
    assert_eq!(aggs[1].0 .0, "b");
    assert_eq!(aggs[1].1.split, Time::from_millis(5));
    assert_eq!(aggs[1].1.cumulative, Time::from_millis(35));
}

#[test]
fn run_push_pop() {
    let mut r = Run {
        splits: vec![
            run::Split::new(short::Name::from_str("a"), "A".to_string()),
            run::Split::new(short::Name::from_str("b"), "B".to_string()),
        ],
    };
    assert_eq!(r.num_splits(), 2);
    r.push_to(1, Time::from_millis(7));
    r.push_to(1, Time::from_millis(8));
    assert_eq!(r.pop_from(1), Some(Time::from_millis(8)));
    assert_eq!(r.pop_from(0), None);
    r.clear_at(1);
    assert!(r.splits[1].times.is_empty());
    r.push_to(0, Time::from_millis(1));
    r.reset();
    assert!(r.splits.iter().all(|s| s.times.is_empty()));
}

#[test]
fn name_map_insert_replaces() {
    let mut m = short::NameMap::new();
    m.insert(short::Name::from_str("a"), 1);
    m.insert(short::Name::from_str("b"), 2);
    m.insert(short::Name::from_str("a"), 3);
    assert_eq!(m.len(), 2);
    assert_eq!(m.get(&short::Name::from_str("a")), Some(&3));
    assert_eq!(m.get(&short::Name::from_str("b")), Some(&2));
    assert_eq!(m.get(&short::Name::from_str("c")), None);
}

#[test]
fn field_ordering_within_position() {
    let a = Field::new(Position::Seconds, 5).expect("fits");
    let b = Field::new(Position::Seconds, 9).expect("fits");
    let c = Field::new(Position::Minutes, 5).expect("fits");
    assert_eq!(a.partial_cmp(&b), Some(std::cmp::Ordering::Less));
    assert_eq!(b.partial_cmp(&a), Some(std::cmp::Ordering::Greater));
    assert_eq!(a.partial_cmp(&a), Some(std::cmp::Ordering::Equal));
    assert_eq!(a.partial_cmp(&c), None);
    assert!(a < b);
    assert!(!(a < c) && !(c < a));
}

#[test]
fn field_display_parse_roundtrip() {
    for (p, v) in [
        (Position::Hours, 0u32),
        (Position::Hours, 123),
        (Position::Minutes, 7),
        (Position::Seconds, 59),
        (Position::Milliseconds, 8),
        (Position::Milliseconds, 80),
        (Position::Milliseconds, 999),
    ] {
        let f = Field::new(p, v).expect("fits");
        let back = Field::parse(p, &f.fmt_value(None)).expect("parses");
        assert_eq!(back, f);
    }
}

#[test]
fn human_time_survives_millis() {
    for t in [
        human::Time::new(0, 0, 0, 0),
        human::Time::new(1, 59, 59, 999),
        human::Time::new(596, 31, 23, 647),
    ] {
        let ms = t.try_into_millis().expect("fits");
        assert_eq!(human::Time::from_millis(ms), t);
    }
    let n = human::Time::from_millis(-1500);
    assert_eq!(human::Time::from_millis(n.try_into_millis().expect("fits")), n);
}

#[test]
fn pace_of_comparison_signed() {
    let a = human::Time::from_millis(-5000);
    let b = human::Time::from_millis(3000);
    assert_eq!(Pace::of_comparison(a, b), Pace::Ahead);
    assert_eq!(Pace::of_comparison(b, a), Pace::Behind);
    let c = human::Time::from_millis(-7000);
    assert_eq!(Pace::of_comparison(c, a), Pace::Ahead);
    assert_eq!(Pace::of_comparison(a, c), Pace::Behind);
    assert_eq!(a.signed_total(), -5000);
}

#[test]
fn comparison_provides_itself() {
    let mut c = comparison_with_s1();
    c.run.sum_of_best = Some(Time::from_millis(77));
    let got = c.comparison().expect("no error").expect("some comparison");
    assert_eq!(got.run, c.run);
    assert_eq!(got.splits.len(), 1);
    assert_eq!(
        got.splits.get(&short::Name::from_str("s1")),
        c.splits.get(&short::Name::from_str("s1"))
    );
    assert!(Null.comparison().expect("no error").is_none());
}
