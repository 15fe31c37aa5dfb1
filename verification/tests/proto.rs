use zombiesplit::model::game::category::{AttemptInfo, Info, ShortDescriptor};
use zombiesplit::model::run;
use zombiesplit::model::session::{self, action, event, state};
use zombiesplit::model::short;
use zombiesplit::model::timing::aggregate::{AggregateSet, Kind};
use zombiesplit::model::timing::comparison::delta::{self, Delta};
use zombiesplit::model::timing::comparison::pace::{Pace, SplitInRun};
use zombiesplit::model::timing::comparison::{self, run::TotalType, Comparison};
use zombiesplit::model::timing::time::{self, Time};
use zombiesplit::net::dump;
use zombiesplit::net::proto::decode::error::status_code;
use zombiesplit::net::proto::{self, decode, encode, Code};

fn delta(pace: Pace, millis: i32) -> Delta {
    Delta {
        pace,
        time: Time::from_millis(millis),
    }
}

#[test]
fn run_delta_behind_is_positive() {
    let d = delta(Pace::Behind, 1500);
    let w = encode::timing::run_delta(&d);
    assert_eq!(w, proto::RunDelta { pace: 1, abs_delta: 1500 });
    assert_eq!(decode::timing::run_delta(&w), Ok(d));
}

#[test]
fn run_delta_ahead_is_negative() {
    let d = delta(Pace::Ahead, -250);
    let w = encode::timing::run_delta(&d);
    assert_eq!(w, proto::RunDelta { pace: 4, abs_delta: 250 });
    assert_eq!(decode::timing::run_delta(&w), Ok(d));
}

#[test]
fn run_delta_too_large() {
    let w = proto::RunDelta {
        pace: 1,
        abs_delta: u32::MAX,
    };
    assert_eq!(
        decode::timing::run_delta(&w),
        Err(decode::Error::IndexConversion)
    );
    // Ahead amounts may reach one further, down to the smallest time.
    let w = proto::RunDelta {
        pace: 4,
        abs_delta: 0x8000_0000,
    };
    assert_eq!(
        decode::timing::run_delta(&w),
        Ok(delta(Pace::Ahead, i32::MIN))
    );
}

#[test]
fn run_delta_unknown_pace_reads_as_none() {
    let w = proto::RunDelta {
        pace: 42,
        abs_delta: 7,
    };
    assert_eq!(
        decode::timing::run_delta(&w),
        Ok(delta(Pace::Inconclusive, -7))
    );
}

#[test]
fn split_delta_roundtrip() {
    let d = delta::Split::new(delta(Pace::Ahead, -100), delta(Pace::Behind, 300));
    assert_eq!(d.pace(), SplitInRun::BehindAndGaining);
    let w = encode::timing::split_delta(&d);
    assert_eq!(
        w,
        proto::SplitDelta {
            pace: 2,
            split_abs_delta: 100,
            run_abs_delta: 300
        }
    );
    assert_eq!(decode::timing::split_delta(&w), Ok(d));
}

#[test]
fn split_delta_personal_best_keeps_pace() {
    // A personal best behind the run only keeps its split-in-run pace.
    let d = delta::Split::new(delta(Pace::PersonalBest, -20), delta(Pace::Behind, 10));
    let back = decode::timing::split_delta(&encode::timing::split_delta(&d)).expect("decodes");
    assert_eq!(back.pace(), d.pace());
    assert_eq!(back.pace(), SplitInRun::SplitPersonalBest);
    assert_eq!(back.run.pace, Pace::Ahead);
}

#[test]
fn total_roundtrip() {
    let t = delta::Time {
        delta: delta(Pace::Behind, 40),
        time: Time::from_millis(99_000),
    };
    let w = encode::timing::total(t);
    assert_eq!(decode::timing::total(&w), Ok(t));
    let missing = proto::Total {
        delta: None,
        time: proto::Time { millis: 5 },
    };
    let d = decode::timing::total(&missing).expect("decodes");
    assert_eq!(d.delta.pace, Pace::Inconclusive);
    assert_eq!(d.delta.time, Time::from_millis(0));
    assert_eq!(d.time, Time::from_millis(5));
}

#[test]
fn aggregate_roundtrip() {
    let agg = AggregateSet {
        split: Time::from_millis(63),
        cumulative: Time::from_millis(105),
    };
    assert_eq!(decode::timing::aggregate(&encode::aggregate(&agg)), agg);
    let empty = proto::Aggregate {
        split: None,
        cumulative: None,
    };
    assert_eq!(decode::timing::aggregate(&empty), AggregateSet::default());
}

#[test]
fn pace_codes() {
    for p in [Pace::Inconclusive, Pace::Behind, Pace::Ahead, Pace::PersonalBest] {
        assert_eq!(decode::pace_from_index(encode::pace(p).code()), Ok(p));
    }
    assert_eq!(
        decode::pace_from_index(6),
        Err(decode::Error::Unknown(decode::Unknown::Pace))
    );
    assert_eq!(decode::pace_from_index(2), Ok(Pace::Behind));
    assert_eq!(decode::pace_from_index(3), Ok(Pace::Ahead));
}

#[test]
fn split_in_run_pace_codes() {
    for p in [
        SplitInRun::Inconclusive,
        SplitInRun::SplitPersonalBest,
        SplitInRun::BehindAndLosing,
        SplitInRun::BehindAndGaining,
        SplitInRun::AheadAndLosing,
        SplitInRun::AheadAndGaining,
    ] {
        assert_eq!(
            decode::split_in_run_pace_from_index(encode::split_in_run_pace(p).code()),
            Ok(p)
        );
    }
    assert_eq!(
        decode::split_in_run_pace_from_index(-1),
        Err(decode::Error::Unknown(decode::Unknown::Pace))
    );
}

#[test]
fn pop_codes() {
    assert_eq!(encode::pop(action::Pop::One), 0);
    assert_eq!(encode::pop(action::Pop::All), 1);
    assert_eq!(decode::pop(0), Ok(action::Pop::One));
    assert_eq!(decode::pop(1), Ok(action::Pop::All));
    assert_eq!(
        decode::pop(2),
        Err(decode::Error::Unknown(decode::Unknown::Pop))
    );
}

#[test]
fn split_index_conversion() {
    assert_eq!(decode::split_index(5), Ok(5));
    assert_eq!(decode::split_index(u64::from(u32::MAX)), Ok(u32::MAX as usize));
}

#[test]
fn action_roundtrip() {
    let push = encode::action::push(3, Time::from_millis(1234)).expect("encodes");
    assert_eq!(push, proto::PushRequest { index: 3, time: 1234 });
    assert_eq!(
        decode::action::push(&push),
        Ok(action::Action::Push(3, Time::from_millis(1234)))
    );
    let pop = encode::action::pop(2, action::Pop::All).expect("encodes");
    assert_eq!(
        decode::action::pop(&pop),
        Ok(action::Action::Pop(2, action::Pop::All))
    );
    let bad = proto::PopRequest {
        index: 2,
        pop_type: 9,
    };
    assert_eq!(
        decode::action::pop(&bad),
        Err(decode::Error::Unknown(decode::Unknown::Pop))
    );
}

#[test]
fn attempt_info_roundtrip() {
    let info = AttemptInfo {
        total: 12,
        completed: 7,
    };
    let w = encode::attempt_info(&info).expect("encodes");
    assert_eq!(
        w,
        proto::AttemptInfo {
            total: 12,
            completed: 7
        }
    );
    assert_eq!(decode::attempt_info(&w), Ok(info));
}

fn split_event(sid: &str, s: event::Split) -> session::Event {
    session::Event::Split(short::Name::from_str(sid), s)
}

#[test]
fn event_roundtrip_split_time() {
    let e = split_event(
        "s1",
        event::Split::Time(
            Time::from_millis(1234),
            event::Time::Aggregate(Kind::attempt_cumulative()),
        ),
    );
    let w = encode::event::encode(&e).expect("encodes");
    match decode::event::decode(w).expect("decodes") {
        Some(session::Event::Split(n, s)) => {
            assert_eq!(n.0, "s1");
            assert_eq!(
                s,
                event::Split::Time(
                    Time::from_millis(1234),
                    event::Time::Aggregate(Kind::attempt_cumulative())
                )
            );
        }
        other => panic!("unexpected event {other:?}"),
    }
}

#[test]
fn event_roundtrip_others() {
    let events = [
        session::Event::Total(event::Total::Attempt(Pace::Ahead), Some(Time::from_millis(5))),
        session::Event::Total(event::Total::Comparison(TotalType::SumOfBest), None),
        session::Event::Reset(AttemptInfo {
            total: 3,
            completed: 1,
        }),
        split_event("x", event::Split::Pace(SplitInRun::AheadAndLosing)),
        split_event("y", event::Split::Popped(action::Pop::One)),
    ];
    for e in events {
        let w = encode::event::encode(&e).expect("encodes");
        let back = decode::event::decode(w).expect("decodes").expect("has payload");
        match (&e, &back) {
            (session::Event::Total(t1, v1), session::Event::Total(t2, v2)) => {
                assert_eq!(t1, t2);
                assert_eq!(v1, v2);
            }
            (session::Event::Reset(i1), session::Event::Reset(i2)) => assert_eq!(i1, i2),
            (session::Event::Split(n1, s1), session::Event::Split(n2, s2)) => {
                assert_eq!(n1.0, n2.0);
                assert_eq!(s1, s2);
            }
            _ => panic!("event changed kind: {e:?} became {back:?}"),
        }
    }
}

#[test]
fn event_decode_errors() {
    assert!(matches!(
        decode::event::decode(proto::Event { payload: None }),
        Ok(None)
    ));
    let no_split_payload = proto::Event {
        payload: Some(proto::EventPayload::Split(proto::EventSplit {
            sid: "a".to_string(),
            payload: None,
        })),
    };
    assert!(matches!(
        decode::event::decode(no_split_payload),
        Err(decode::Error::Missing(decode::Missing::SplitEvent))
    ));
    let no_type = proto::Event {
        payload: Some(proto::EventPayload::Total(proto::EventTotal {
            total_type: None,
            value: None,
        })),
    };
    assert!(matches!(
        decode::event::decode(no_type),
        Err(decode::Error::Unknown(decode::Unknown::TotalType))
    ));
    let bad_comparison = proto::Event {
        payload: Some(proto::EventPayload::Total(proto::EventTotal {
            total_type: Some(proto::TotalType::Comparison(5)),
            value: None,
        })),
    };
    assert!(matches!(
        decode::event::decode(bad_comparison),
        Err(decode::Error::Unknown(decode::Unknown::ComparisonTotalType))
    ));
}

#[test]
fn unknown_time_type_reads_as_pushed() {
    let w = proto::Event {
        payload: Some(proto::EventPayload::Split(proto::EventSplit {
            sid: "a".to_string(),
            payload: Some(proto::SplitPayload::Time(proto::SplitTime {
                time_type: 77,
                time: proto::Time { millis: 10 },
            })),
        })),
    };
    match decode::event::decode(w) {
        Ok(Some(session::Event::Split(_, s))) => assert_eq!(
            s,
            event::Split::Time(Time::from_millis(10), event::Time::Pushed)
        ),
        other => panic!("unexpected result {other:?}"),
    }
}

fn sample_state() -> session::State {
    let mut s1 = run::Split::new(short::Name::from_str("s1"), "Split One".to_string());
    s1.times.push(Time::from_millis(1000));
    s1.times.push(Time::from_millis(2500));
    let s2 = run::Split::new(short::Name::from_str("s2"), "Split Two".to_string());
    let attempt = session::Attempt {
        category: Info {
            game: "Game".to_string(),
            category: "Any%".to_string(),
            short: ShortDescriptor::new("g", "any"),
        },
        info: AttemptInfo {
            total: 10,
            completed: 4,
        },
        splits: vec![s1, s2],
    };
    let mut comparison = Comparison::default();
    comparison.run.sum_of_best = Some(Time::from_millis(3000));
    comparison.splits.insert(
        short::Name::from_str("s1"),
        comparison::Split {
            split_pb: Time::from_millis(3200),
            in_pb_run: AggregateSet {
                split: Time::from_millis(3300),
                cumulative: Time::from_millis(3300),
            },
        },
    );
    let mut notes = short::NameMap::new();
    notes.insert(
        short::Name::from_str("s1"),
        state::SplitNote {
            aggregates: AggregateSet {
                split: Time::from_millis(3500),
                cumulative: Time::from_millis(3500),
            },
            delta: Some(delta::Split::new(
                delta(Pace::Behind, 200),
                delta(Pace::Behind, 200),
            )),
        },
    );
    session::State {
        attempt,
        comparison,
        notes,
        total: Some(delta::Time {
            delta: delta(Pace::Behind, 200),
            time: Time::from_millis(3500),
        }),
    }
}

#[test]
fn dump_roundtrip() {
    let s = sample_state();
    let w = encode::dump::encode(&s).expect("encodes");
    let back = decode::dump::dump(&w).expect("decodes");
    assert_eq!(back.attempt.info, s.attempt.info);
    assert_eq!(back.attempt.category.game, "Game");
    assert_eq!(back.attempt.category.short.category.0, "any");
    assert_eq!(back.attempt.splits.len(), 2);
    assert_eq!(back.attempt.splits[0].short.0, "s1");
    assert_eq!(back.attempt.splits[0].name, "Split One");
    assert_eq!(back.attempt.splits[0].times, s.attempt.splits[0].times);
    assert!(back.attempt.splits[1].times.is_empty());
    assert_eq!(back.comparison.run, s.comparison.run);
    assert_eq!(back.comparison.splits.len(), 1);
    assert_eq!(
        back.comparison.splits.get(&short::Name::from_str("s1")),
        s.comparison.splits.get(&short::Name::from_str("s1"))
    );
    assert_eq!(
        back.notes.get(&short::Name::from_str("s1")),
        s.notes.get(&short::Name::from_str("s1"))
    );
    assert_eq!(back.total, s.total);
}

#[test]
fn dump_decode_errors() {
    let s = sample_state();
    let mut w = encode::dump::encode(&s).expect("encodes");
    w.notes[0].1.delta = Some(proto::SplitDelta {
        pace: 1,
        split_abs_delta: u32::MAX,
        run_abs_delta: 0,
    });
    assert!(matches!(
        decode::dump::dump(&w),
        Err(decode::Error::IndexConversion)
    ));
    w.attempt.as_mut().expect("has attempt").game_category = None;
    assert!(matches!(
        decode::dump::dump(&w),
        Err(decode::Error::Missing(decode::Missing::AttemptInfo))
    ));
    w.attempt = None;
    assert!(matches!(
        decode::dump::dump(&w),
        Err(decode::Error::Missing(decode::Missing::Attempt))
    ));
}

#[test]
fn server_info_encoding() {
    let server = dump::Server {
        ident: "zombiesplit".to_string(),
        version: dump::Version {
            major: 0,
            minor: 1,
            patch: 2,
        },
    };
    let r = encode::server_info(&server).expect("encodes");
    assert_eq!(r.ident, "zombiesplit");
    assert_eq!(
        r.version,
        Some(proto::Version {
            major: 0,
            minor: 1,
            patch: 2
        })
    );
}

#[test]
fn status_codes() {
    assert_eq!(status_code(&decode::Error::IndexConversion), Code::OutOfRange);
    assert_eq!(
        status_code(&decode::Error::Missing(decode::Missing::Attempt)),
        Code::DataLoss
    );
    assert_eq!(
        status_code(&decode::Error::Unknown(decode::Unknown::Pop)),
        Code::OutOfRange
    );
    assert_eq!(
        status_code(&decode::Error::Time(time::Error::SecOverflow(1))),
        Code::InvalidArgument
    );
}
