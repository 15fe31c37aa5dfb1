//! Human-centred presentations of times.
use super::error::Error;
use super::position::Position;
use crate::text::push_str;
use vstd::prelude::*;

verus! {

/// A time split into hours, minutes, seconds, and milliseconds for human consumption.
///
/// Note that not all human-times are valid times: some are too large to represent, and negative
/// zero is subnormal.
#[derive(Copy, Clone, Debug, PartialEq, Eq, Structural, PartialOrd, Ord, Hash)]
pub struct Time {
    /// Whether the time is negative.
    pub is_negative: bool,
    /// Number of hours (0-596).
    pub hours: u16,
    /// Number of minutes (0-59).
    pub mins: u16,
    /// Number of seconds (0-59).
    pub secs: u16,
    /// Number of milliseconds (0-999).
    pub millis: u16,
}

/// The zero time.
pub open spec fn zero_time() -> Time {
    Time { is_negative: false, hours: 0, mins: 0, secs: 0, millis: 0 }
}

/// The magnitude of `m`.
pub open spec fn abs_millis(m: i32) -> nat {
    if m < 0 {
        (-(m as int)) as nat
    } else {
        m as nat
    }
}

/// The human time for a signed millisecond count.
pub open spec fn spec_from_millis(m: i32) -> Time {
    let a = abs_millis(m);
    Time {
        is_negative: m < 0,
        hours: ((a / 3_600_000) % 65535) as u16,
        mins: ((a / 60_000) % 60) as u16,
        secs: ((a / 1_000) % 60) as u16,
        millis: (a % 1_000) as u16,
    }
}

/// The magnitude of a human time, in milliseconds.
pub open spec fn total_millis(t: Time) -> nat {
    (t.hours as nat) * 3_600_000 + (t.mins as nat) * 60_000 + (t.secs as nat) * 1_000 + (t.millis as nat)
}

/// The signed millisecond count that a human time denotes.
pub open spec fn signed_millis(t: Time) -> int {
    if t.is_negative {
        -(total_millis(t) as int)
    } else {
        total_millis(t) as int
    }
}

/// The value at position `p` of `t`.
pub open spec fn spec_index(t: Time, p: Position) -> u16 {
    match p {
        Position::Hours => t.hours,
        Position::Minutes => t.mins,
        Position::Seconds => t.secs,
        Position::Milliseconds => t.millis,
    }
}

/// The result of parsing a human time from `s`: hours, minutes and seconds are each taken from
/// before their delimiter (if present), and the remainder is milliseconds.
pub open spec fn spec_parse(s: Seq<char>) -> Result<Time, Error> {
    match Position::Hours.spec_split_and_parse(s) {
        Err(e) => Err(e),
        Ok((h, r1)) => match Position::Minutes.spec_split_and_parse(r1) {
            Err(e) => Err(e),
            Ok((m, r2)) => match Position::Seconds.spec_split_and_parse(r2) {
                Err(e) => Err(e),
                Ok((sec, r3)) => match Position::Milliseconds.spec_split_and_parse(r3) {
                    Err(e) => Err(e),
                    Ok((ms, _)) => Ok(
                        Time { is_negative: false, hours: h, mins: m, secs: sec, millis: ms },
                    ),
                },
            },
        },
    }
}

/// The display form of a human time: the digits of every position, each at its default width,
/// with no delimiters and no sign.
pub open spec fn spec_display(t: Time) -> Seq<char> {
    Position::Hours.spec_fmt_value(t.hours, None) + Position::Minutes.spec_fmt_value(t.mins, None)
        + Position::Seconds.spec_fmt_value(t.secs, None) + Position::Milliseconds.spec_fmt_value(
        t.millis,
        None,
    )
}

impl Default for Time {
    fn default() -> (t: Self)
        ensures
            t == zero_time(),
    {
        Time { is_negative: false, hours: 0, mins: 0, secs: 0, millis: 0 }
    }
}

impl Time {
    /// Constructs a non-negative time from its hour, minute, second, and millisecond positions.
    pub fn new(hours: u16, mins: u16, secs: u16, millis: u16) -> (t: Self)
        ensures
            t == (Time { is_negative: false, hours, mins, secs, millis }),
    {
        Self { is_negative: false, hours, mins, secs, millis }
    }

    /// Converts a time given as a 32-bit millisecond timestamp to a human time.
    pub fn from_millis(millis: i32) -> (t: Self)
        ensures
            t == spec_from_millis(millis),
    {
        let a: u32 = if millis < 0 {
            (-(millis as i64)) as u32
        } else {
            millis as u32
        };
        // Milliseconds first, then carry into seconds, minutes and hours.
        let f_ms = Position::Milliseconds.fit(a);
        let f_s = Position::Seconds.fit(f_ms.overflow);
        let f_m = Position::Minutes.fit(f_s.overflow);
        let f_h = Position::Hours.fit(f_m.overflow);
        proof {
            vstd::arithmetic::div_mod::lemma_div_denominator(a as int, 1000, 60);
            vstd::arithmetic::div_mod::lemma_div_denominator(a as int, 60000, 60);
        }
        Self {
            is_negative: millis < 0,
            hours: f_h.result.value,
            mins: f_m.result.value,
            secs: f_s.result.value,
            millis: f_ms.result.value,
        }
    }

    /// Converts this time into a signed 32-bit millisecond timestamp.
    ///
    /// Fails with `MsecOverflow` if the time doesn't fit into a signed 32-bit integer.
    pub fn try_into_millis(self) -> (r: Result<i32, Error>)
        ensures
            super::fits_i32(signed_millis(self)) ==> r == Ok::<i32, Error>(
                signed_millis(self) as i32,
            ),
            !super::fits_i32(signed_millis(self)) ==> r == Err::<i32, Error>(
                Error::MsecOverflow(self),
            ),
    {
        let h = match self.field_ms(Position::Hours) {
            Ok(v) => v,
            Err(e) => return Err(e),
        };
        let m = match self.field_ms(Position::Minutes) {
            Ok(v) => v,
            Err(e) => return Err(e),
        };
        let s = match self.field_ms(Position::Seconds) {
            Ok(v) => v,
            Err(e) => return Err(e),
        };
        let ms = match self.field_ms(Position::Milliseconds) {
            Ok(v) => v,
            Err(e) => return Err(e),
        };
        let total: i64 = (h as i64) + (m as i64) + (s as i64) + (ms as i64);
        let signed: i64 = if self.is_negative {
            -total
        } else {
            total
        };
        if signed < (i32::MIN as i64) || signed > (i32::MAX as i64) {
            Err(Error::MsecOverflow(self))
        } else {
            Ok(signed as i32)
        }
    }

    /// Tries to construct a time from a given number of seconds.
    pub fn seconds(amount: i32) -> (r: Result<Self, Error>)
        ensures
            super::fits_i32(amount * 1000) ==> r == Ok::<Time, Error>(
                spec_from_millis((amount * 1000) as i32),
            ),
            !super::fits_i32(amount * 1000) ==> r == Err::<Time, Error>(
                Error::SecOverflow(amount),
            ),
    {
        match amount.checked_mul(1000) {
            Some(ms) => Ok(Self::from_millis(ms)),
            None => Err(Error::SecOverflow(amount)),
        }
    }

    /// Gets whether this time is zero (regardless of sign).
    pub fn is_zero(&self) -> (b: bool)
        ensures
            b == (self.hours == 0 && self.mins == 0 && self.secs == 0 && self.millis == 0),
    {
        self.hours == 0 && self.mins == 0 && self.secs == 0 && self.millis == 0
    }

    /// The contribution, in milliseconds, of the value at `field`.
    ///
    /// Fails with `MsecOverflow` if it does not fit into a signed 32-bit integer.
    pub fn field_ms(&self, field: Position) -> (r: Result<i32, Error>)
        ensures
            spec_index(*self, field) * field.spec_ms_offset() <= i32::MAX ==> r == Ok::<i32, Error>(
                (spec_index(*self, field) * field.spec_ms_offset()) as i32,
            ),
            spec_index(*self, field) * field.spec_ms_offset() > i32::MAX ==> r == Err::<i32, Error>(
                Error::MsecOverflow(*self),
            ),
    {
        let offset = field.ms_offset() as i32;
        let base = self.index(field) as i32;
        match offset.checked_mul(base) {
            Some(v) => Ok(v),
            None => Err(Error::MsecOverflow(*self)),
        }
    }

    /// The value at position `p`.
    pub fn index(&self, p: Position) -> (v: u16)
        ensures
            v == spec_index(*self, p),
    {
        match p {
            Position::Hours => self.hours,
            Position::Minutes => self.mins,
            Position::Seconds => self.secs,
            Position::Milliseconds => self.millis,
        }
    }

    /// Sets the value at position `p` to `v`, leaving the other positions alone.
    pub fn set(&mut self, p: Position, v: u16)
        ensures
            spec_index(*final(self), p) == v,
            final(self).is_negative == old(self).is_negative,
            forall|q: Position| q != p ==> spec_index(*final(self), q) == spec_index(*old(self), q),
    {
        match p {
            Position::Hours => self.hours = v,
            Position::Minutes => self.mins = v,
            Position::Seconds => self.secs = v,
            Position::Milliseconds => self.millis = v,
        }
    }

    /// Parses `s` as a field at position `p` (see `Field::parse`) and, if it succeeds, stores it
    /// at that position.
    pub fn set_field_str(&mut self, p: Position, s: &str) -> (r: Result<(), Error>)
        ensures
            match (r, super::field::spec_parse_field(p, s@)) {
                (Ok(()), Ok(v)) => spec_index(*final(self), p) == v && final(self).is_negative
                    == old(self).is_negative && forall|q: Position|
                    q != p ==> spec_index(*final(self), q) == spec_index(*old(self), q),
                (Err(e), Err(se)) => e == se && *final(self) == *old(self),
                _ => false,
            },
    {
        match super::field::Field::parse(p, s) {
            Ok(f) => {
                let v = f.value();
                self.set(p, v);
                Ok(())
            },
            Err(e) => Err(e),
        }
    }

    /// The signed number of milliseconds that this time denotes, which always fits in an
    /// `i64`.
    pub fn signed_total(&self) -> (m: i64)
        ensures
            m == signed_millis(*self),
    {
        let total: i64 = (self.hours as i64) * 3_600_000 + (self.mins as i64) * 60_000
            + (self.secs as i64) * 1_000 + (self.millis as i64);
        if self.is_negative {
            -total
        } else {
            total
        }
    }

    /// Parses a human time from a string such as `1h2m3s456`.
    pub fn parse_str(s: &str) -> (r: Result<Self, Error>)
        ensures
            r == spec_parse(s@),
    {
        let mut result = Self::default();
        let (h, r1) = match Position::Hours.split_and_parse(s) {
            Ok(x) => x,
            Err(e) => return Err(e),
        };
        result.set(Position::Hours, h);
        let (m, r2) = match Position::Minutes.split_and_parse(r1) {
            Ok(x) => x,
            Err(e) => return Err(e),
        };
        result.set(Position::Minutes, m);
        let (sec, r3) = match Position::Seconds.split_and_parse(r2) {
            Ok(x) => x,
            Err(e) => return Err(e),
        };
        result.set(Position::Seconds, sec);
        let (ms, _rest) = match Position::Milliseconds.split_and_parse(r3) {
            Ok(x) => x,
            Err(e) => return Err(e),
        };
        result.set(Position::Milliseconds, ms);
        Ok(result)
    }

    /// Displays this time: the digits of every position, each at its default width, with no
    /// delimiters and no sign.
    pub fn to_display_string(&self) -> (s: String)
        ensures
            s@ == spec_display(*self),
    {
        let mut s = Position::Hours.fmt_value(self.hours, None);
        let m = Position::Minutes.fmt_value(self.mins, None);
        push_str(&mut s, m.as_str());
        let sec = Position::Seconds.fmt_value(self.secs, None);
        push_str(&mut s, sec.as_str());
        let ms = Position::Milliseconds.fmt_value(self.millis, None);
        push_str(&mut s, ms.as_str());
        s
    }
}

/// Conversion from internal times to human times.
impl From<super::Time> for Time {
    fn from(time: super::Time) -> (t: Time) {
        Self::from_millis(time.into_millis())
    }
}

impl vstd::std_specs::convert::FromSpecImpl<super::Time> for Time {
    open spec fn obeys_from_spec() -> bool {
        true
    }

    open spec fn from_spec(v: super::Time) -> Time {
        spec_from_millis(v.0)
    }
}

impl std::str::FromStr for Time {
    type Err = Error;

    fn from_str(s: &str) -> (r: Result<Self, Error>)
        ensures
            r == spec_parse(s@),
    {
        Self::parse_str(s)
    }
}

/// Partial conversion from human times to internal times.
pub fn to_internal(time: Time) -> (r: Result<super::Time, Error>)
    ensures
        super::fits_i32(signed_millis(time)) ==> (r matches Ok(t) && t@ == signed_millis(time)),
        !super::fits_i32(signed_millis(time)) ==> r == Err::<super::Time, Error>(
            Error::MsecOverflow(time),
        ),
{
    match time.try_into_millis() {
        Ok(ms) => Ok(super::Time::from_millis(ms)),
        Err(e) => Err(e),
    }
}

/// Converting a millisecond count to a human time and back gives the same count.
pub proof fn law_millis_roundtrip(m: i32)
    ensures
        super::fits_i32(signed_millis(spec_from_millis(m))),
        signed_millis(spec_from_millis(m)) == m,
{
    let a = abs_millis(m);
    assert(a <= 2147483648);
    vstd::arithmetic::div_mod::lemma_div_denominator(a as int, 1000, 60);
    vstd::arithmetic::div_mod::lemma_div_denominator(a as int, 60000, 60);
    vstd::arithmetic::div_mod::lemma_fundamental_div_mod(a as int, 1000);
    vstd::arithmetic::div_mod::lemma_fundamental_div_mod((a / 1000) as int, 60);
    vstd::arithmetic::div_mod::lemma_fundamental_div_mod((a / 60000) as int, 60);
    let q3 = a / 3_600_000;
    assert(q3 <= 596) by {
        vstd::arithmetic::div_mod::lemma_div_is_ordered(a as int, 2147483648, 3_600_000);
    }
    vstd::arithmetic::div_mod::lemma_small_mod(q3, 65535);
    let t = spec_from_millis(m);
    assert(total_millis(t) == a);
}

/// A valid human time (fields within their capacities, representable, and not negative zero)
/// survives conversion to milliseconds and back.
pub proof fn law_human_roundtrip(t: Time)
    requires
        t.mins < 60,
        t.secs < 60,
        t.millis < 1000,
        super::fits_i32(signed_millis(t)),
        !(t.is_negative && total_millis(t) == 0),
    ensures
        spec_from_millis(signed_millis(t) as i32) == t,
{
    let m = signed_millis(t) as i32;
    let a = abs_millis(m);
    assert(a == total_millis(t));
    let q1 = (t.hours as nat) * 3600 + (t.mins as nat) * 60 + (t.secs as nat);
    let q2 = (t.hours as nat) * 60 + (t.mins as nat);
    assert(a == q1 * 1000 + t.millis);
    vstd::arithmetic::div_mod::lemma_fundamental_div_mod_converse(
        a as int,
        1000,
        q1 as int,
        t.millis as int,
    );
    assert(q1 == q2 * 60 + t.secs);
    vstd::arithmetic::div_mod::lemma_fundamental_div_mod_converse(
        q1 as int,
        60,
        q2 as int,
        t.secs as int,
    );
    vstd::arithmetic::div_mod::lemma_fundamental_div_mod_converse(
        q2 as int,
        60,
        t.hours as int,
        t.mins as int,
    );
    vstd::arithmetic::div_mod::lemma_div_denominator(a as int, 1000, 60);
    vstd::arithmetic::div_mod::lemma_div_denominator(a as int, 60000, 60);
    vstd::arithmetic::div_mod::lemma_small_mod(t.hours as nat, 65535);
    assert(t.hours < 65535) by {
        assert(total_millis(t) <= 2147483648);
    }
}

} // verus!
