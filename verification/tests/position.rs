use zombiesplit::model::timing::time::position::Value;
use zombiesplit::model::timing::time::Position;

/// Tests a millisecond parse.
fn test_parse(from: &'static str, want: u16) {
    let (t, rest) = Position::Milliseconds
        .split_and_parse(from)
        .expect("should be valid");
    assert_eq!(u16::from(t), want);
    // We should consume the whole string.
    assert_eq!("", rest);
}

/// Tests a millisecond display.
fn test_display(from: u16, want: &'static str) {
    let t = Value {
        field: Position::Milliseconds,
        value: from,
    };
    assert_eq!(want, t.to_display_string());
}

/// Tests that the empty string is parsed into the right msec.
#[test]
fn position_from_str_empty() {
    test_parse("", 0);
}

/// Tests that a short unpadded string is parsed into the right msec.
#[test]
fn position_from_str_short() {
    test_parse("2", 200);
}

/// Tests that a full unpadded string is parsed into the right msec.
#[test]
fn position_from_str_full() {
    test_parse("246", 246);
}

/// Tests that a short half-padded string is parsed into the right msec.
#[test]
fn position_from_str_short_leading_zero() {
    test_parse("02", 20);
}

/// Tests that a full half-padded string is parsed into the right msec.
#[test]
fn position_from_str_full_leading_zero() {
    test_parse("024", 24);
}

/// Tests that a short fully-padded string is parsed into the right msec.
#[test]
fn position_from_str_short_leading_zeroes() {
    test_parse("002", 2);
}

/// Tests that a string full of zeroes is parsed into the right msec.
#[test]
fn position_from_str_all_zeroes() {
    test_parse("000", 0);
}

/// Tests that an empty millisecond field is padded into three zeroes.
#[test]
fn position_display_empty() {
    test_display(0, "000");
}

/// Tests that an one-digit millisecond field is padded correctly.
#[test]
fn position_display_one_digit() {
    test_display(1, "001");
}

/// Tests that a two-digit millisecond field is padded correctly.
#[test]
fn position_display_two_digits() {
    test_display(23, "023");
}

/// Tests that a three-digit millisecond field is padded correctly.
#[test]
fn position_display_three_digits() {
    test_display(456, "456");
}

/// Tests that an three-digit millisecond field with one trailing zero is padded correctly.
#[test]
fn position_display_three_digits_one_zero() {
    test_display(780, "780");
}

/// Tests that an three-digit millisecond field with two trailing zeroes is padded correctly.
#[test]
fn position_display_three_digits_two_zeroes() {
    test_display(900, "900");
}

/// Tests that truncating a millisecond value to two digits drops digits from the right.
#[test]
fn position_display_three_digits_as_two() {
    assert_eq!(Position::Milliseconds.fmt_value(123, Some(2)), "12");
}

/// Tests that stretching a millisecond value to four digits zero-pads on the left.
#[test]
fn position_display_three_digits_as_four() {
    assert_eq!(Position::Milliseconds.fmt_value(123, Some(4)), "0123");
}
