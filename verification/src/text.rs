//! Decimal digits: parsing and formatting of small unsigned numbers as characters.
use crate::model::timing::time::error::IntErrorKind;
use vstd::prelude::*;

verus! {

/// Whether `c` is an ASCII decimal digit.
pub open spec fn is_digit(c: char) -> bool {
    '0' <= c && c <= '9'
}

/// The value of the decimal digit `c`.
pub open spec fn digit_value(c: char) -> nat {
    (c as int - '0' as int) as nat
}

/// The character for the decimal digit `d` (which should be below 10).
pub open spec fn digit_char(d: nat) -> char {
    (d + ('0' as int)) as char
}

/// Scans `s` from left to right as a sequence of decimal digits, stopping at the first
/// non-digit (an `InvalidDigit` error) or the first time the running value exceeds the range
/// of a `u16` (a `PosOverflow` error).
pub open spec fn scan_digits(s: Seq<char>) -> Result<nat, IntErrorKind>
    decreases s.len(),
{
    if s.len() == 0 {
        Ok(0)
    } else {
        match scan_digits(s.drop_last()) {
            Err(e) => Err(e),
            Ok(v) => if !is_digit(s.last()) {
                Err(IntErrorKind::InvalidDigit)
            } else if v * 10 + digit_value(s.last()) > u16::MAX {
                Err(IntErrorKind::PosOverflow)
            } else {
                Ok(v * 10 + digit_value(s.last()))
            },
        }
    }
}

/// Parses `s` as an unsigned 16-bit decimal number.
///
/// The empty string parses as zero; otherwise, `s` is an optional `+` followed by at least
/// one digit, and the number must fit in 16 bits.
pub open spec fn parse_u16_spec(s: Seq<char>) -> Result<u16, IntErrorKind> {
    if s.len() == 0 {
        Ok(0)
    } else {
        let digits = if s[0] == '+' { s.drop_first() } else { s };
        if digits.len() == 0 {
            Err(IntErrorKind::InvalidDigit)
        } else {
            match scan_digits(digits) {
                Ok(v) => Ok(v as u16),
                Err(e) => Err(e),
            }
        }
    }
}

/// The decimal representation of `n`, without leading zeroes (zero is `0`).
pub open spec fn decimal(n: nat) -> Seq<char>
    decreases n,
{
    if n < 10 {
        seq![digit_char(n)]
    } else {
        decimal(n / 10).push(digit_char(n % 10))
    }
}

/// `s`, padded on the left with `c` up to `width` characters.
pub open spec fn pad_left(s: Seq<char>, width: nat, c: char) -> Seq<char> {
    if s.len() < width {
        Seq::new((width - s.len()) as nat, |i: int| c) + s
    } else {
        s
    }
}

/// `s`, padded on the right with `c` up to `width` characters.
pub open spec fn pad_right(s: Seq<char>, width: nat, c: char) -> Seq<char> {
    if s.len() < width {
        s + Seq::new((width - s.len()) as nat, |i: int| c)
    } else {
        s
    }
}

/// Appends `c` to `s` (`String::push`, whose documentation says that it appends the given
/// character to the end of the string).
#[verifier::external_body]
pub(crate) fn push_char(s: &mut String, c: char)
    ensures
        final(s)@ == old(s)@.push(c),
{
    s.push(c);
}

/// Removes the last character of `s` and returns it, or `None` if `s` is empty
/// (`String::pop`, which is documented to do exactly this).
#[verifier::external_body]
pub(crate) fn pop_char(s: &mut String) -> (c: Option<char>)
    ensures
        old(s)@.len() == 0 ==> c is None && final(s)@ == old(s)@,
        old(s)@.len() > 0 ==> c == Some(old(s)@.last()) && final(s)@ == old(s)@.drop_last(),
{
    s.pop()
}

/// The characters of `s`, in order.
pub fn chars_of(s: &str) -> (v: Vec<char>)
    ensures
        v@ == s@,
{
    let n = s.unicode_len();
    let mut v: Vec<char> = Vec::new();
    let mut i: usize = 0;
    while i < n
        invariant
            n == s@.len(),
            i <= n,
            v@ == s@.take(i as int),
        decreases n - i,
    {
        v.push(s.get_char(i));
        i = i + 1;
        assert(v@ =~= s@.take(i as int));
    }
    assert(s@.take(n as int) =~= s@);
    v
}

/// A string holding exactly the characters of `v`.
pub fn string_of(v: &[char]) -> (s: String)
    ensures
        s@ == v@,
{
    let mut s = String::new();
    let mut i: usize = 0;
    while i < v.len()
        invariant
            i <= v@.len(),
            s@ == v@.take(i as int),
        decreases v@.len() - i,
    {
        push_char(&mut s, v[i]);
        i = i + 1;
        assert(s@ =~= v@.take(i as int));
    }
    assert(v@.take(v@.len() as int) =~= v@);
    s
}

/// The character for the decimal digit `d`.
pub fn digit_to_char(d: u32) -> (c: char)
    requires
        d < 10,
    ensures
        c == digit_char(d as nat),
{
    let b: u8 = (d as u8) + 48u8;
    b as char
}

/// Appends the characters of `t` to `s`.
pub fn push_str(s: &mut String, t: &str)
    ensures
        final(s)@ == old(s)@ + t@,
{
    let ghost start = s@;
    let chars = chars_of(t);
    let mut i: usize = 0;
    while i < chars.len()
        invariant
            i <= chars@.len(),
            chars@ == t@,
            s@ == start + chars@.take(i as int),
        decreases chars@.len() - i,
    {
        push_char(s, chars[i]);
        i = i + 1;
        assert(s@ =~= start + chars@.take(i as int));
    }
    assert(chars@.take(chars@.len() as int) =~= chars@);
}

/// Appends the decimal representation of `n` to `s`.
pub fn push_decimal(s: &mut String, n: u32)
    ensures
        final(s)@ == old(s)@ + decimal(n as nat),
    decreases n,
{
    if n >= 10 {
        push_decimal(s, n / 10);
    }
    let c = digit_to_char(n % 10);
    push_char(s, c);
    proof {
        if n >= 10 {
            assert(decimal(n as nat) == decimal((n / 10) as nat).push(digit_char((n % 10) as nat)));
        }
    }
    assert(final(s)@ =~= old(s)@ + decimal(n as nat));
}

/// Appends `count` copies of `c` to `s`.
pub fn push_repeat(s: &mut String, c: char, count: usize)
    ensures
        final(s)@ == old(s)@ + Seq::new(count as nat, |i: int| c),
{
    let ghost start = s@;
    let mut i: usize = 0;
    while i < count
        invariant
            i <= count,
            s@ == start + Seq::new(i as nat, |j: int| c),
        decreases count - i,
    {
        push_char(s, c);
        i = i + 1;
        assert(s@ =~= start + Seq::new(i as nat, |j: int| c));
    }
}

/// The decimal representation of `n`, padded on the left with zeroes to `width` characters.
pub fn zero_padded(n: u32, width: usize) -> (s: String)
    ensures
        s@ == pad_left(decimal(n as nat), width as nat, '0'),
{
    let mut digits = String::new();
    push_decimal(&mut digits, n);
    assert(digits@ =~= decimal(n as nat));
    let len = digits.unicode_len();
    if len < width {
        let mut s = String::new();
        push_repeat(&mut s, '0', width - len);
        let ghost pad = s@;
        let mut i: usize = 0;
        let dchars = chars_of(digits.as_str());
        while i < len
            invariant
                i <= len,
                len == dchars@.len(),
                dchars@ == decimal(n as nat),
                s@ == pad + dchars@.take(i as int),
            decreases len - i,
        {
            push_char(&mut s, dchars[i]);
            i = i + 1;
            assert(s@ =~= pad + dchars@.take(i as int));
        }
        assert(dchars@.take(len as int) =~= dchars@);
        assert(s@ =~= pad_left(decimal(n as nat), width as nat, '0'));
        s
    } else {
        digits
    }
}

/// Parses a sequence of characters as an unsigned 16-bit decimal number.
pub fn parse_u16(s: &[char]) -> (r: Result<u16, IntErrorKind>)
    ensures
        r == parse_u16_spec(s@),
{
    if s.len() == 0 {
        return Ok(0);
    }
    let start: usize = if s[0] == '+' { 1 } else { 0 };
    let ghost digits = if s@[0] == '+' { s@.drop_first() } else { s@ };
    assert(digits =~= s@.skip(start as int));
    if start == s.len() {
        return Err(IntErrorKind::InvalidDigit);
    }
    let mut acc: u32 = 0;
    let mut i: usize = start;
    while i < s.len()
        invariant
            start <= i <= s@.len(),
            start < s@.len(),
            digits == s@.skip(start as int),
            digits == (if s@[0] == '+' { s@.drop_first() } else { s@ }),
            scan_digits(digits.take(i - start)) == Ok::<nat, IntErrorKind>(acc as nat),
            acc <= u16::MAX,
        decreases s@.len() - i,
    {
        let c = s[i];
        assert(digits.take(i - start + 1).drop_last() =~= digits.take(i - start));
        assert(digits.take(i - start + 1).last() == c);
        if !('0' <= c && c <= '9') {
            assert(scan_digits(digits.take(i - start + 1)) == Err::<nat, IntErrorKind>(
                IntErrorKind::InvalidDigit,
            ));
            proof {
                lemma_scan_error_extends(digits, (i - start + 1) as int);
            }
            return Err(IntErrorKind::InvalidDigit);
        }
        let d = (c as u32) - 48;
        assert(d == digit_value(c));
        if acc * 10 + d > 65535 {
            assert(scan_digits(digits.take(i - start + 1)) == Err::<nat, IntErrorKind>(
                IntErrorKind::PosOverflow,
            ));
            proof {
                lemma_scan_error_extends(digits, (i - start + 1) as int);
            }
            return Err(IntErrorKind::PosOverflow);
        }
        acc = acc * 10 + d;
        i = i + 1;
    }
    assert(digits.take(s@.len() - start) =~= digits);
    Ok(acc as u16)
}

/// Once a scan fails on a prefix, it fails the same way on the whole sequence.
pub proof fn lemma_scan_error_extends(s: Seq<char>, k: int)
    requires
        0 <= k <= s.len(),
        scan_digits(s.take(k)) is Err,
    ensures
        scan_digits(s) == scan_digits(s.take(k)),
    decreases s.len() - k,
{
    if k < s.len() {
        assert(s.take(k + 1).drop_last() =~= s.take(k));
        lemma_scan_error_extends(s, k + 1);
    } else {
        assert(s.take(k) =~= s);
    }
}

} // verus!

verus! {

/// Digit characters convert back to their values.
pub proof fn lemma_digit_char(d: nat)
    requires
        d < 10,
    ensures
        is_digit(digit_char(d)),
        digit_value(digit_char(d)) == d,
        digit_char(d) != '+',
{
}

/// Every character of a decimal representation is a digit.
pub proof fn lemma_decimal_digits(n: nat)
    ensures
        decimal(n).len() >= 1,
        forall|i: int| 0 <= i < decimal(n).len() ==> #[trigger] is_digit(decimal(n)[i]),
    decreases n,
{
    lemma_digit_char(n % 10);
    if n >= 10 {
        lemma_decimal_digits(n / 10);
        assert forall|i: int| 0 <= i < decimal(n).len() implies #[trigger] is_digit(
            decimal(n)[i],
        ) by {
            if i < decimal(n / 10).len() {
                assert(decimal(n)[i] == decimal(n / 10)[i]);
            }
        }
    } else {
        lemma_digit_char(n);
    }
}

/// Scanning a decimal representation gives back its value.
pub proof fn lemma_scan_decimal(n: nat)
    requires
        n <= u16::MAX,
    ensures
        scan_digits(decimal(n)) == Ok::<nat, IntErrorKind>(n),
    decreases n,
{
    if n < 10 {
        lemma_digit_char(n);
        assert(decimal(n).drop_last() =~= Seq::<char>::empty());
        assert(scan_digits(decimal(n).drop_last()) == Ok::<nat, IntErrorKind>(0));
        assert(decimal(n).last() == digit_char(n));
    } else {
        lemma_scan_decimal(n / 10);
        lemma_digit_char(n % 10);
        vstd::arithmetic::div_mod::lemma_fundamental_div_mod(n as int, 10);
        assert(decimal(n).drop_last() =~= decimal(n / 10));
        assert(decimal(n).last() == digit_char(n % 10));
        assert((n / 10) * 10 + n % 10 == n);
        assert(scan_digits(decimal(n).drop_last()) == Ok::<nat, IntErrorKind>(n / 10));
    }
}

/// Leading zeroes do not change the outcome of a scan.
pub proof fn lemma_scan_zero_prefix(k: nat, b: Seq<char>)
    ensures
        scan_digits(Seq::new(k, |i: int| '0') + b) == scan_digits(b),
    decreases k + b.len(),
{
    let zeros = Seq::new(k, |i: int| '0');
    if b.len() == 0 {
        assert(zeros + b =~= zeros);
        if k > 0 {
            assert(zeros.drop_last() =~= Seq::new((k - 1) as nat, |i: int| '0'));
            lemma_scan_zero_prefix((k - 1) as nat, b);
            assert(Seq::new((k - 1) as nat, |i: int| '0') + b =~= zeros.drop_last());
        }
    } else {
        assert((zeros + b).drop_last() =~= zeros + b.drop_last());
        lemma_scan_zero_prefix(k, b.drop_last());
    }
}

/// Parsing a zero-padded decimal representation gives back its value.
pub proof fn lemma_parse_padded(n: nat, w: nat)
    requires
        n <= u16::MAX,
    ensures
        parse_u16_spec(pad_left(decimal(n), w, '0')) == Ok::<u16, IntErrorKind>(n as u16),
{
    let d = decimal(n);
    let p = pad_left(d, w, '0');
    lemma_decimal_digits(n);
    lemma_scan_decimal(n);
    if d.len() < w {
        lemma_scan_zero_prefix((w - d.len()) as nat, d);
        assert(p[0] == '0');
    } else {
        assert(is_digit(d[0]));
    }
}

} // verus!
