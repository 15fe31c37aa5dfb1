//! Errors that occur when parsing and converting times.
use super::human;
use super::position::Position;
use vstd::prelude::*;

verus! {

/// The reason that a string of digits failed to parse as a field value.
#[derive(Clone, Copy, Debug, PartialEq, Eq, Structural, Hash)]
pub enum IntErrorKind {
    /// A character was not a decimal digit.
    InvalidDigit,
    /// The number was too large to store.
    PosOverflow,
}

/// An error that occurs when parsing a time.
#[derive(Clone, Copy, Debug, PartialEq, Eq, Structural)]
pub enum Error {
    /// A field failed to parse.
    FieldParse { pos: Position, err: IntErrorKind },
    /// A field's value was too big for its position.
    FieldTooBig { pos: Position, val: u32 },
    /// A number of seconds was too large to convert to milliseconds.
    SecOverflow(i32),
    /// A human time was too large to convert to a millisecond value.
    MsecOverflow(human::Time),
    /// The difference between two times could not be represented.
    DeltaOverflow { time: i32, compared_to: i32 },
}

} // verus!
