use zombiesplit::model::timing::time::{human::Time, Position};

#[test]
fn time_from_str_empty() {
    let t: Time = "".parse().expect("should be valid");
    assert_eq!(u16::from(t.hours), 0);
    assert_eq!(u16::from(t.mins), 0);
    assert_eq!(u16::from(t.secs), 0);
    assert_eq!(u16::from(t.millis), 0);
}

#[test]
fn time_from_str_msec_only() {
    let t: Time = "123".parse().expect("should be valid");
    assert_eq!(u16::from(t.hours), 0);
    assert_eq!(u16::from(t.mins), 0);
    assert_eq!(u16::from(t.secs), 0);
    assert_eq!(u16::from(t.millis), 123);
}

#[test]
fn time_from_str_msec_short() {
    let t: Time = "02".parse().expect("should be valid");
    assert_eq!(u16::from(t.hours), 0);
    assert_eq!(u16::from(t.mins), 0);
    assert_eq!(u16::from(t.secs), 0);
    assert_eq!(u16::from(t.millis), 20);
}

#[test]
fn time_from_str_secs_only() {
    let t: Time = "10s".parse().expect("should be valid");
    assert_eq!(u16::from(t.hours), 0);
    assert_eq!(u16::from(t.mins), 0);
    assert_eq!(u16::from(t.secs), 10);
    assert_eq!(u16::from(t.millis), 0);
}

#[test]
fn time_from_str_secs_msec() {
    let t: Time = "10s50".parse().expect("should be valid");
    assert_eq!(u16::from(t.hours), 0);
    assert_eq!(u16::from(t.mins), 0);
    assert_eq!(u16::from(t.secs), 10);
    assert_eq!(u16::from(t.millis), 500);
}

#[test]
fn time_from_str_all() {
    let t: Time = "1h2m3s456".parse().expect("should be valid");
    assert_eq!(u16::from(t.hours), 1);
    assert_eq!(u16::from(t.mins), 2);
    assert_eq!(u16::from(t.secs), 3);
    assert_eq!(u16::from(t.millis), 456);
}

/// Tests that indexing seems to work properly.
#[test]
fn index() {
    let t: Time = "1h2m3s456".parse().expect("should be valid");
    assert_eq!("01", Position::Hours.fmt_value(t.index(Position::Hours), None));
    assert_eq!("02", Position::Minutes.fmt_value(t.index(Position::Minutes), None));
    assert_eq!("03", Position::Seconds.fmt_value(t.index(Position::Seconds), None));
    assert_eq!(
        "456",
        Position::Milliseconds.fmt_value(t.index(Position::Milliseconds), None)
    );
}
