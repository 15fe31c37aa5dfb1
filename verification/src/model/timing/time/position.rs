//! Position-specific field logic.
use super::error::{Error, IntErrorKind};
use crate::text::{
    chars_of, decimal, pad_left, parse_u16, parse_u16_spec, push_char, zero_padded,
};
use num_integer::Integer;
use vstd::prelude::*;

verus! {

/// Enumeration of possible positions in a time.
#[derive(Copy, Clone, Debug, PartialEq, Eq, Structural, Hash)]
pub enum Position {
    /// Denotes the hours field.
    Hours,
    /// Denotes the minutes field.
    Minutes,
    /// Denotes the seconds field.
    Seconds,
    /// Denotes the milliseconds field.
    Milliseconds,
}

/// Every position, in decreasing order of significance.
pub open spec fn all_positions() -> Seq<Position> {
    seq![Position::Hours, Position::Minutes, Position::Seconds, Position::Milliseconds]
}

impl Position {
    /// The delimiter written after a value at this position.
    pub open spec fn spec_delimiter(self) -> Option<char> {
        match self {
            Position::Hours => Some('h'),
            Position::Minutes => Some('m'),
            Position::Seconds => Some('s'),
            Position::Milliseconds => None,
        }
    }

    /// The number of milliseconds in one unit of this position.
    pub open spec fn spec_ms_offset(self) -> nat {
        match self {
            Position::Hours => 3_600_000,
            Position::Minutes => 60_000,
            Position::Seconds => 1_000,
            Position::Milliseconds => 1,
        }
    }

    /// The number of digits displayed or parsed, by default, for this position.
    pub open spec fn spec_default_width(self) -> nat {
        match self {
            Position::Milliseconds => 3,
            _ => 2,
        }
    }

    /// The amount (maximum+1) at which this position overflows into the next.
    pub open spec fn spec_capacity(self) -> nat {
        match self {
            Position::Hours => 65535,
            Position::Minutes => 60,
            Position::Seconds => 60,
            Position::Milliseconds => 1000,
        }
    }

    /// `s`, prepared for parsing as a value at this position: milliseconds shorter than the
    /// default width are padded on the right with zeroes (so `5` means 500 milliseconds).
    pub open spec fn spec_preprocess(self, s: Seq<char>) -> Seq<char> {
        if self == Position::Milliseconds && s.len() < 3 {
            s + Seq::new((3 - s.len()) as nat, |i: int| '0')
        } else {
            s
        }
    }

    /// The parts of `s` before and after this position's delimiter.
    ///
    /// Positions with no delimiter take the whole string; if the delimiter does not occur, the
    /// part before it is empty and the whole string is passed on.
    pub open spec fn spec_split_delimiter(self, s: Seq<char>) -> (Seq<char>, Seq<char>) {
        match self.spec_delimiter() {
            None => (s, Seq::empty()),
            Some(d) => {
                let k = first_index(s, d);
                if k < s.len() {
                    (s.take(k), s.skip(k + 1))
                } else {
                    (Seq::empty(), s)
                }
            },
        }
    }

    /// The value parsed from `s` at this position.
    pub open spec fn spec_parse_value(self, s: Seq<char>) -> Result<u16, Error> {
        match parse_u16_spec(self.spec_preprocess(s)) {
            Ok(v) => Ok(v),
            Err(err) => Err(Error::FieldParse { pos: self, err }),
        }
    }

    /// The result of splitting `s` at this position's delimiter and parsing what comes before.
    pub open spec fn spec_split_and_parse(self, s: Seq<char>) -> Result<(u16, Seq<char>), Error> {
        let (before, after) = self.spec_split_delimiter(s);
        match self.spec_parse_value(before) {
            Ok(v) => Ok((v, after)),
            Err(e) => Err(e),
        }
    }

    /// The digits shown for value `v` at this position, at the given width (or the default).
    ///
    /// Milliseconds shown at less than their default width lose digits from the right.
    pub open spec fn spec_fmt_value(self, v: u16, width: Option<usize>) -> Seq<char> {
        let nd = self.spec_default_width();
        let w: nat = match width {
            Some(w) => w as nat,
            None => nd,
        };
        let shown: nat = if self == Position::Milliseconds && w < nd {
            (v as nat) / pow10((nd - w) as nat)
        } else {
            v as nat
        };
        pad_left(decimal(shown), w, '0')
    }

    /// The value `v` shown with this position's delimiter; delimited positions are only shown
    /// when `v` is nonzero.
    pub open spec fn spec_fmt_value_delimited(self, v: u16, width: Option<usize>) -> Seq<char> {
        match self.spec_delimiter() {
            None => self.spec_fmt_value(v, width),
            Some(d) => if v != 0 {
                self.spec_fmt_value(v, width).push(d)
            } else {
                Seq::empty()
            },
        }
    }

    /// The name of this position, as shown to users.
    pub open spec fn spec_name(self) -> Seq<char> {
        match self {
            Position::Hours => "hours"@,
            Position::Minutes => "minutes"@,
            Position::Seconds => "seconds"@,
            Position::Milliseconds => "milliseconds"@,
        }
    }

    /// The name of this position, as shown to users.
    pub fn name(self) -> (s: &'static str)
        ensures
            s@ == self.spec_name(),
    {
        match self {
            Position::Hours => "hours",
            Position::Minutes => "minutes",
            Position::Seconds => "seconds",
            Position::Milliseconds => "milliseconds",
        }
    }

    /// The delimiter for this position.
    pub fn delimiter(self) -> (d: Option<char>)
        ensures
            d == self.spec_delimiter(),
    {
        match self {
            Position::Hours => Some('h'),
            Position::Minutes => Some('m'),
            Position::Seconds => Some('s'),
            Position::Milliseconds => None,
        }
    }

    /// The multiplier needed to convert this position to milliseconds.
    pub fn ms_offset(self) -> (o: u32)
        ensures
            o == self.spec_ms_offset(),
    {
        match self {
            Position::Hours => 3_600_000,
            Position::Minutes => 60_000,
            Position::Seconds => 1_000,
            Position::Milliseconds => 1,
        }
    }

    /// The number of digits displayed or parsed, by default, for this position.
    pub fn default_width(self) -> (w: usize)
        ensures
            w == self.spec_default_width(),
    {
        match self {
            Position::Milliseconds => 3,
            _ => 2,
        }
    }

    /// The amount (maximum+1) at which this field will overflow to the next.
    pub fn capacity(self) -> (c: u16)
        ensures
            c == self.spec_capacity(),
    {
        match self {
            Position::Hours => u16::MAX,
            Position::Minutes => 60,
            Position::Seconds => 60,
            Position::Milliseconds => 1000,
        }
    }

    /// Splits a string on this field's delimiter, parses the first part of the string as a
    /// value at this particular field, and passes through the second part for further parsing.
    pub fn split_and_parse<'a>(self, s: &'a str) -> (r: Result<(u16, &'a str), Error>)
        ensures
            match (r, self.spec_split_and_parse(s@)) {
                (Ok((v, rest)), Ok((sv, srest))) => v == sv && rest@ == srest,
                (Err(e), Err(se)) => e == se,
                _ => false,
            },
    {
        let (before, after) = self.split_delimiter(s);
        let chars = chars_of(before);
        let prepared = self.preprocess_string(&chars);
        match parse_u16(prepared.as_slice()) {
            Ok(v) => Ok((v, after)),
            Err(err) => Err(Error::FieldParse { pos: self, err }),
        }
    }

    /// Parses `s` (not containing this position's delimiter) as a value at this position.
    pub fn parse_value(self, s: &str) -> (r: Result<u16, Error>)
        ensures
            r == self.spec_parse_value(s@),
    {
        let chars = chars_of(s);
        let prepared = self.preprocess_string(&chars);
        match parse_u16(prepared.as_slice()) {
            Ok(v) => Ok(v),
            Err(err) => Err(Error::FieldParse { pos: self, err }),
        }
    }

    /// Performs any preprocessing that should be done to a string before parsing it as a
    /// field: for milliseconds, this involves right-padding it with zeroes.
    pub fn preprocess_string(self, s: &Vec<char>) -> (r: Vec<char>)
        ensures
            r@ == self.spec_preprocess(s@),
    {
        let mut r = s.clone();
        assert(r@ =~= s@);
        if self == Position::Milliseconds && s.len() < 3 {
            let mut i: usize = s.len();
            while i < 3
                invariant
                    s@.len() <= i <= 3,
                    r@ == s@ + Seq::new((i - s@.len()) as nat, |j: int| '0'),
                decreases 3 - i,
            {
                r.push('0');
                i = i + 1;
                assert(r@ =~= s@ + Seq::new((i - s@.len()) as nat, |j: int| '0'));
            }
        }
        r
    }

    /// Splits `s` into a part before this position's delimiter (if any), and
    /// one after this position's delimiter.
    pub fn split_delimiter<'a>(self, s: &'a str) -> (r: (&'a str, &'a str))
        ensures
            r.0@ == self.spec_split_delimiter(s@).0,
            r.1@ == self.spec_split_delimiter(s@).1,
    {
        match self.delimiter() {
            None => {
                let empty = s.substring_char(0, 0);
                assert(empty@ =~= Seq::<char>::empty());
                (s, empty)
            },
            Some(d) => {
                let n = s.unicode_len();
                let mut i: usize = 0;
                while i < n
                    invariant
                        n == s@.len(),
                        i <= n,
                        self.spec_delimiter() == Some(d),
                        forall|j: int| 0 <= j < i ==> s@[j] != d,
                    decreases n - i,
                {
                    if s.get_char(i) == d {
                        proof {
                            lemma_first_index(s@, d, i as int);
                        }
                        assert(s@.subrange(0, i as int) =~= s@.take(i as int));
                        assert(s@.subrange(i + 1, n as int) =~= s@.skip(i + 1));
                        return (s.substring_char(0, i), s.substring_char(i + 1, n));
                    }
                    i = i + 1;
                }
                proof {
                    lemma_first_index(s@, d, n as int);
                }
                let empty = s.substring_char(0, 0);
                assert(empty@ =~= Seq::<char>::empty());
                assert(s@.subrange(0, n as int) =~= s@);
                (empty, s.substring_char(0, n))
            },
        }
    }

    /// Formats the value `v` in a way appropriate for this position, at `width` digits (or the
    /// position's default width if `None`).
    pub fn fmt_value(self, v: u16, width: Option<usize>) -> (s: String)
        ensures
            s@ == self.spec_fmt_value(v, width),
    {
        let nd = self.default_width();
        let w = match width {
            Some(w) => w,
            None => nd,
        };
        let shown: u32 = if self == Position::Milliseconds && w < nd {
            let to_drop = nd - w;
            let divisor: u32 = if to_drop == 1 {
                10
            } else if to_drop == 2 {
                100
            } else {
                1000
            };
            proof {
                reveal_with_fuel(pow10, 4);
            }
            (v as u32) / divisor
        } else {
            v as u32
        };
        zero_padded(shown, w)
    }

    /// Formats the value `v` with a delimiter, if nonzero.
    pub fn fmt_value_delimited(self, v: u16, width: Option<usize>) -> (s: String)
        ensures
            s@ == self.spec_fmt_value_delimited(v, width),
    {
        match self.delimiter() {
            Some(d) => {
                if v != 0 {
                    let mut s = self.fmt_value(v, width);
                    push_char(&mut s, d);
                    s
                } else {
                    let s = String::new();
                    assert(s@ =~= Seq::<char>::empty());
                    s
                }
            },
            None => self.fmt_value(v, width),
        }
    }

    /// Tries to fit `input` into this position, returning the result as well as any carry.
    pub fn fit(self, input: u32) -> (f: Fit)
        ensures
            f.input == input,
            f.result.field == self,
            f.result.value == input % (self.spec_capacity() as u32),
            f.overflow == input / (self.spec_capacity() as u32),
            f.result.value < self.spec_capacity(),
            f.overflow * self.spec_capacity() + f.result.value == input,
    {
        let divisor = self.capacity() as u32;
        let (overflow, rem) = div_rem(input, divisor);
        assert(rem < divisor);
        let value = rem as u16;
        let result = Value { field: self, value };
        proof {
            vstd::arithmetic::div_mod::lemma_fundamental_div_mod(input as int, divisor as int);
        }
        Fit { result, overflow, input }
    }
}

/// `10` raised to the power `k`.
pub open spec fn pow10(k: nat) -> nat
    decreases k,
{
    if k == 0 {
        1
    } else {
        10 * pow10((k - 1) as nat)
    }
}

/// The index of the first occurrence of `c` in `s`, or the length of `s` if it does not occur.
pub open spec fn first_index(s: Seq<char>, c: char) -> int
    decreases s.len(),
{
    if s.len() == 0 {
        0
    } else if s[0] == c {
        0
    } else {
        first_index(s.drop_first(), c) + 1
    }
}

/// `first_index` is the least index holding `c` (or the length, if there is none).
pub proof fn lemma_first_index(s: Seq<char>, c: char, k: int)
    requires
        0 <= k <= s.len(),
        forall|j: int| 0 <= j < k ==> s[j] != c,
        k < s.len() ==> s[k] == c,
    ensures
        first_index(s, c) == k,
    decreases s.len(),
{
    if s.len() > 0 && s[0] != c {
        assert forall|j: int| 0 <= j < k - 1 implies s.drop_first()[j] != c by {
            assert(s.drop_first()[j] == s[j + 1]);
        }
        lemma_first_index(s.drop_first(), c, k - 1);
    }
}

/// Quotient and remainder of `x` divided by `y` (`num_integer::Integer::div_rem`, which for
/// unsigned integers is documented as, and implemented by, `(x / y, x % y)`; it panics when
/// `y` is zero).
#[verifier::external_body]
fn div_rem(x: u32, y: u32) -> (r: (u32, u32))
    requires
        y > 0,
    ensures
        r.0 == x / y,
        r.1 == x % y,
{
    x.div_rem(&y)
}

/// The result of a call to `Position::fit`.
pub struct Fit {
    /// The result (input modulo the capacity of the field).
    pub result: Value,
    /// Any overflow into the next position.
    pub overflow: u32,
    /// The original value, stored for error reporting.
    pub input: u32,
}

/// A combination of a field and value.
///
/// There is no check to make sure that `value` is below the capacity of `field`.
#[derive(Copy, Clone, Debug, PartialEq, Eq, Structural)]
pub struct Value {
    /// The field to which this value belongs.
    pub field: Position,
    /// The value assigned to the field.
    pub value: u16,
}

impl Value {
    /// Shows this value, with its delimiter (if any), at the default width.
    pub fn to_display_string(&self) -> (s: String)
        ensures
            s@ == self.field.spec_fmt_value_delimited(self.value, None),
    {
        self.field.fmt_value_delimited(self.value, None)
    }
}

} // verus!
