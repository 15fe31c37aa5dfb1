//! Time fields and associated functions.
use super::error::Error;
use super::position::Position;
use std::cmp::Ordering;
use vstd::prelude::*;

verus! {

/// A field in a time struct: a value at a given position, strictly below the position's
/// capacity.
#[derive(Clone, Copy, Debug, PartialEq, Eq, Structural, Hash)]
pub struct Field {
    /// The value, in terms of the units of `position`.
    val: u16,
    /// The position this field represents.
    position: Position,
}

/// The outcome of parsing `s` as a field at `position`: the value, or the error that stops it.
pub open spec fn spec_parse_field(position: Position, s: Seq<char>) -> Result<u16, Error> {
    let parsed: Result<u16, Error> = if s.len() == 0 {
        Ok(0)
    } else {
        position.spec_parse_value(s)
    };
    match parsed {
        Err(e) => Err(e),
        Ok(v) => if (v as nat) < position.spec_capacity() {
            Ok(v)
        } else {
            Err(Error::FieldTooBig { pos: position, val: v as u32 })
        },
    }
}

impl Field {
    #[verifier::type_invariant]
    spec fn inv(self) -> bool {
        (self.val as nat) < self.position.spec_capacity()
    }

    /// The value of this field, in units of its position.
    pub closed spec fn spec_value(self) -> u16 {
        self.val
    }

    /// The position of this field.
    pub closed spec fn spec_position(self) -> Position {
        self.position
    }

    /// Creates a field at `position` with value zero.
    pub fn zero(position: Position) -> (f: Self)
        ensures
            f.spec_position() == position,
            f.spec_value() == 0,
    {
        Self { position, val: 0 }
    }

    /// The value of this field, which is always below its position's capacity.
    pub fn value(&self) -> (v: u16)
        ensures
            v == self.spec_value(),
            (v as nat) < self.spec_position().spec_capacity(),
    {
        proof {
            use_type_invariant(self);
        }
        self.val
    }

    /// The position of this field.
    pub fn position(&self) -> (p: Position)
        ensures
            p == self.spec_position(),
    {
        self.position
    }

    /// Tries to construct a field with a given position and value, failing if the value is
    /// too big for the position.
    pub fn new(position: Position, val: u32) -> (r: Result<Self, Error>)
        ensures
            (val as nat) < position.spec_capacity() ==> (r matches Ok(f) && f.spec_position()
                == position && f.spec_value() == val),
            (val as nat) >= position.spec_capacity() ==> r == Err::<Field, Error>(
                Error::FieldTooBig { pos: position, val },
            ),
    {
        Carry::new(position, val).try_into_field()
    }

    /// Tries to construct a field with a given position, parsing it from an undelimited
    /// string.  The empty string is zero.
    pub fn parse(position: Position, s: &str) -> (r: Result<Self, Error>)
        ensures
            match (r, spec_parse_field(position, s@)) {
                (Ok(f), Ok(v)) => f.spec_position() == position && f.spec_value() == v,
                (Err(e), Err(se)) => e == se,
                _ => false,
            },
    {
        let val: u16 = if s.is_empty() {
            0
        } else {
            match position.parse_value(s) {
                Ok(v) => v,
                Err(e) => return Err(e),
            }
        };
        Self::new(position, val as u32)
    }

    /// Tries to find `position`'s delimiter in `s`, and parses the delimited number if one
    /// exists; otherwise, returns an empty field.  The rest of the string is passed through.
    pub fn parse_delimited<'a>(position: Position, s: &'a str) -> (r: Result<(Self, &'a str), Error>)
        ensures
            match (r, spec_parse_field(position, position.spec_split_delimiter(s@).0)) {
                (Ok((f, rest)), Ok(v)) => f.spec_position() == position && f.spec_value() == v
                    && rest@ == position.spec_split_delimiter(s@).1,
                (Err(e), Err(se)) => e == se,
                _ => false,
            },
    {
        let (to_parse, to_return) = position.split_delimiter(s);
        match Self::parse(position, to_parse) {
            Ok(f) => Ok((f, to_return)),
            Err(e) => Err(e),
        }
    }

    /// Formats this field's value at `width` digits (or the position's default width).
    ///
    /// Milliseconds shown at less than the default width lose digits from the right.
    pub fn fmt_value(self, width: Option<usize>) -> (s: String)
        ensures
            s@ == self.spec_position().spec_fmt_value(self.spec_value(), width),
    {
        self.position.fmt_value(self.val, width)
    }

    /// Formats this field's value with its delimiter, omitting delimited fields that are zero.
    pub fn fmt_value_delimited(self, width: Option<usize>) -> (s: String)
        ensures
            s@ == self.spec_position().spec_fmt_value_delimited(self.spec_value(), width),
    {
        if self.is_msecs() {
            self.fmt_value(width)
        } else if self.val != 0 {
            let mut s = self.fmt_value(width);
            let d = self.position.delimiter();
            match d {
                Some(c) => crate::text::push_char(&mut s, c),
                None => {},
            }
            s
        } else {
            let s = String::new();
            assert(s@ =~= Seq::<char>::empty());
            s
        }
    }

    /// Returns this field's value as milliseconds.
    pub fn as_msecs(self) -> (ms: u32)
        requires
            self.spec_value() * self.spec_position().spec_ms_offset() <= u32::MAX,
        ensures
            ms == self.spec_value() * self.spec_position().spec_ms_offset(),
    {
        (self.val as u32) * self.position.ms_offset()
    }

    /// Whether this field is a milliseconds field.
    pub fn is_msecs(self) -> (b: bool)
        ensures
            b == (self.spec_position() == Position::Milliseconds),
    {
        match self.position {
            Position::Milliseconds => true,
            _ => false,
        }
    }
}

/// We can extract the value of the field, regardless of position.
impl From<Field> for u16 {
    fn from(field: Field) -> (v: u16) {
        field.value()
    }
}

impl vstd::std_specs::convert::FromSpecImpl<Field> for u16 {
    open spec fn obeys_from_spec() -> bool {
        true
    }

    open spec fn from_spec(v: Field) -> u16 {
        v.spec_value()
    }
}

/// Fields are only ordered if they have the same position; then they are ordered by value.
impl PartialOrd for Field {
    fn partial_cmp(&self, other: &Self) -> (r: Option<Ordering>) {
        if self.position == other.position {
            if self.val < other.val {
                Some(Ordering::Less)
            } else if self.val == other.val {
                Some(Ordering::Equal)
            } else {
                Some(Ordering::Greater)
            }
        } else {
            None
        }
    }
}

impl vstd::std_specs::cmp::PartialOrdSpecImpl for Field {
    open spec fn obeys_partial_cmp_spec() -> bool {
        true
    }

    open spec fn partial_cmp_spec(&self, other: &Self) -> Option<Ordering> {
        if self.spec_position() == other.spec_position() {
            if self.spec_value() < other.spec_value() {
                Some(Ordering::Less)
            } else if self.spec_value() == other.spec_value() {
                Some(Ordering::Equal)
            } else {
                Some(Ordering::Greater)
            }
        } else {
            None
        }
    }
}

/// A field with carry into the next position.
pub struct Carry {
    /// The field, modulo its position's capacity.
    pub field: Field,
    /// Any carry into the next position.
    pub carry: u32,
    /// The original value, stored for error reporting.
    pub original: u32,
}

impl Carry {
    /// Constructs a field at `position` with `val` modulo `position`'s capacity.
    /// The quotient is stored as carry.
    pub fn new(position: Position, val: u32) -> (c: Self)
        ensures
            c.field.spec_position() == position,
            c.field.spec_value() == val % (position.spec_capacity() as u32),
            c.carry == val / (position.spec_capacity() as u32),
            c.original == val,
            c.carry * position.spec_capacity() + c.field.spec_value() == val,
    {
        let divisor = position.capacity() as u32;
        let carried = val % divisor;
        proof {
            vstd::arithmetic::div_mod::lemma_fundamental_div_mod(val as int, divisor as int);
        }
        assert((val - carried) / (divisor as int) == val / divisor && (val / divisor) * divisor
            + carried == val) by (nonlinear_arith)
            requires
                divisor > 0,
                val == divisor * (val / divisor) + carried,
        ;
        Self {
            field: Field { position, val: carried as u16 },
            carry: (val - carried) / divisor,
            original: val,
        }
    }

    /// Converts this carry to a field, if the carry is empty.
    pub fn try_into_field(self) -> (r: Result<Field, Error>)
        ensures
            self.carry == 0 ==> r == Ok::<Field, Error>(self.field),
            self.carry != 0 ==> r == Err::<Field, Error>(
                Error::FieldTooBig { pos: self.field.spec_position(), val: self.original },
            ),
    {
        if self.carry == 0 {
            Ok(self.field)
        } else {
            Err(Error::FieldTooBig { pos: self.field.position, val: self.original })
        }
    }
}

/// Parsing the display of any value that fits at a position gives the value back.
pub proof fn law_field_display_parse(position: Position, v: u16)
    requires
        (v as nat) < position.spec_capacity(),
    ensures
        spec_parse_field(position, position.spec_fmt_value(v, None)) == Ok::<u16, Error>(v),
{
    let shown = position.spec_fmt_value(v, None);
    let nd = position.spec_default_width();
    assert(shown == crate::text::pad_left(crate::text::decimal(v as nat), nd, '0'));
    crate::text::lemma_parse_padded(v as nat, nd);
    assert(shown.len() >= nd);
    assert(position.spec_preprocess(shown) == shown);
}

} // verus!
