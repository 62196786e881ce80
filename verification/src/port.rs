//! Decimal text of TCP ports (`u16`): reading it the way `str::parse::<u16>`
//! does, and writing it the way `{}` formats a `u16`.
use vstd::prelude::*;

verus! {

/// Why a text is not a port number.
#[derive(Debug, Clone, Copy, PartialEq, Eq, Structural)]
pub enum PortParseError {
    /// The text is empty.
    Empty,
    /// The text holds a character that is not a decimal digit
    /// (a single leading `+` aside).
    InvalidDigit,
    /// The number is larger than `u16::MAX`.
    TooLarge,
}

pub open spec fn is_digit(c: char) -> bool {
    '0' <= c && c <= '9'
}

pub open spec fn digit_value(c: char) -> nat {
    (c as int - '0' as int) as nat
}

/// The character of a decimal digit.
pub open spec fn digit_char(d: nat) -> char {
    if d == 0 { '0' }
    else if d == 1 { '1' }
    else if d == 2 { '2' }
    else if d == 3 { '3' }
    else if d == 4 { '4' }
    else if d == 5 { '5' }
    else if d == 6 { '6' }
    else if d == 7 { '7' }
    else if d == 8 { '8' }
    else { '9' }
}

/// Reads decimal digits from left to right. The first character that is not
/// a digit, or the first digit that makes the number exceed `u16::MAX`,
/// decides the error.
pub open spec fn scan_digits(s: Seq<char>) -> Result<nat, PortParseError>
    decreases s.len(),
{
    if s.len() == 0 {
        Ok(0)
    } else {
        match scan_digits(s.drop_last()) {
            Err(e) => Err(e),
            Ok(v) => {
                let c = s.last();
                if !is_digit(c) {
                    Err(PortParseError::InvalidDigit)
                } else if v * 10 + digit_value(c) > u16::MAX {
                    Err(PortParseError::TooLarge)
                } else {
                    Ok(v * 10 + digit_value(c))
                }
            },
        }
    }
}

/// What `str::parse::<u16>` gives for a text: an optional leading `+`, then
/// at least one decimal digit (leading zeros allowed).
pub open spec fn parse_port_spec(s: Seq<char>) -> Result<u16, PortParseError> {
    if s.len() == 0 {
        Err(PortParseError::Empty)
    } else if s.len() == 1 && (s[0] == '+' || s[0] == '-') {
        Err(PortParseError::InvalidDigit)
    } else {
        let digits = if s[0] == '+' { s.skip(1) } else { s };
        match scan_digits(digits) {
            Ok(v) => Ok(v as u16),
            Err(e) => Err(e),
        }
    }
}

/// The decimal text of a number, without sign or leading zeros.
pub open spec fn decimal_text(n: nat) -> Seq<char>
    decreases n,
{
    if n < 10 {
        seq![digit_char(n)]
    } else {
        decimal_text(n / 10).push(digit_char(n % 10))
    }
}

/// Once the digits read so far give an error, reading more keeps that error.
proof fn lemma_scan_error_sticks(s: Seq<char>, k: int)
    requires
        0 <= k <= s.len(),
        scan_digits(s.take(k)) is Err,
    ensures
        scan_digits(s) == scan_digits(s.take(k)),
    decreases s.len(),
{
    if k == s.len() {
        assert(s.take(k) =~= s);
    } else {
        assert(s.drop_last().take(k) =~= s.take(k));
        lemma_scan_error_sticks(s.drop_last(), k);
    }
}

proof fn lemma_digit_char(d: nat)
    requires
        d < 10,
    ensures
        is_digit(digit_char(d)),
        digit_value(digit_char(d)) == d,
{
}

proof fn lemma_decimal_text_scans(n: nat)
    requires
        n <= u16::MAX,
    ensures
        scan_digits(decimal_text(n)) == Ok::<nat, PortParseError>(n),
        decimal_text(n).len() >= 1,
        is_digit(decimal_text(n)[0]),
    decreases n,
{
    lemma_digit_char(n % 10);
    if n < 10 {
        let t = decimal_text(n);
        assert(t.drop_last() =~= Seq::<char>::empty());
        assert(scan_digits(t.drop_last()) == Ok::<nat, PortParseError>(0));
        assert(t.last() == digit_char(n));
    } else {
        lemma_decimal_text_scans(n / 10);
        let t = decimal_text(n);
        assert(t.drop_last() =~= decimal_text(n / 10));
        assert(t.last() == digit_char(n % 10));
        assert((n / 10) * 10 + n % 10 == n);
        assert(t[0] == decimal_text(n / 10)[0]);
    }
}

/// Reading the text that a port is written as gives the port back.
pub proof fn lemma_port_text_parses_back(port: u16)
    ensures
        parse_port_spec(decimal_text(port as nat)) == Ok::<u16, PortParseError>(port),
{
    lemma_decimal_text_scans(port as nat);
}

impl PortParseError {
    /// The message that std's `ParseIntError` shows for the same kind of error.
    pub fn message(&self) -> (r: &'static str)
        ensures
            r@ == match *self {
                PortParseError::Empty => "cannot parse integer from empty string"@,
                PortParseError::InvalidDigit => "invalid digit found in string"@,
                PortParseError::TooLarge => "number too large to fit in target type"@,
            },
    {
        match self {
            PortParseError::Empty => "cannot parse integer from empty string",
            PortParseError::InvalidDigit => "invalid digit found in string",
            PortParseError::TooLarge => "number too large to fit in target type",
        }
    }
}

/// Reads a port number as `str::parse::<u16>` does.
pub fn parse_port(s: &str) -> (r: Result<u16, PortParseError>)
    ensures
        r == parse_port_spec(s@),
{
    let len = s.unicode_len();
    if len == 0 {
        return Err(PortParseError::Empty);
    }
    let first = s.get_char(0);
    if len == 1 && (first == '+' || first == '-') {
        return Err(PortParseError::InvalidDigit);
    }
    let start: usize = if first == '+' { 1 } else { 0 };
    let ghost digits = if first == '+' { s@.skip(1) } else { s@ };
    assert(digits =~= s@.subrange(start as int, len as int));
    let mut acc: u32 = 0;
    let mut i: usize = start;
    assert(s@.subrange(start as int, i as int) =~= Seq::<char>::empty());
    while i < len
        invariant
            start <= i <= len,
            len == s@.len(),
            digits =~= s@.subrange(start as int, len as int),
            digits == (if s@[0] == '+' { s@.skip(1) } else { s@ }),
            !(s@.len() == 1 && (s@[0] == '+' || s@[0] == '-')),
            acc <= u16::MAX,
            scan_digits(s@.subrange(start as int, i as int)) == Ok::<nat, PortParseError>(acc as nat),
        decreases len - i,
    {
        let c = s.get_char(i);
        let ghost prefix = s@.subrange(start as int, i + 1);
        assert(prefix.drop_last() =~= s@.subrange(start as int, i as int));
        assert(prefix =~= digits.take(i + 1 - start));
        assert(prefix.last() == c);
        if !(c >= '0' && c <= '9') {
            assert(scan_digits(prefix) == Err::<nat, PortParseError>(PortParseError::InvalidDigit));
            proof {
                lemma_scan_error_sticks(digits, i + 1 - start);
            }
            return Err(PortParseError::InvalidDigit);
        }
        let d: u32 = (c as u32) - ('0' as u32);
        let next: u32 = acc * 10 + d;
        if next > 65535 {
            assert(scan_digits(prefix) == Err::<nat, PortParseError>(PortParseError::TooLarge));
            proof {
                lemma_scan_error_sticks(digits, i + 1 - start);
            }
            return Err(PortParseError::TooLarge);
        }
        acc = next;
        i = i + 1;
    }
    Ok(acc as u16)
}

fn digit_to_char(d: u16) -> (c: char)
    requires
        d < 10,
    ensures
        c == digit_char(d as nat),
{
    if d == 0 { '0' }
    else if d == 1 { '1' }
    else if d == 2 { '2' }
    else if d == 3 { '3' }
    else if d == 4 { '4' }
    else if d == 5 { '5' }
    else if d == 6 { '6' }
    else if d == 7 { '7' }
    else if d == 8 { '8' }
    else { '9' }
}

/// `String::push`: appends one character.
#[verifier::external_body]
pub(crate) fn push_char(s: &mut String, c: char)
    ensures
        final(s)@ == old(s)@.push(c),
{
    s.push(c);
}

/// Writes a port as `{}` formats a `u16`.
pub fn port_text(port: u16) -> (r: String)
    ensures
        r@ == decimal_text(port as nat),
    decreases port,
{
    if port < 10 {
        let mut s = String::new();
        push_char(&mut s, digit_to_char(port));
        s
    } else {
        let mut s = port_text(port / 10);
        push_char(&mut s, digit_to_char(port % 10));
        s
    }
}

} // verus!
