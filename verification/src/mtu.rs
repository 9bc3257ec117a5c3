//! The MTU upper bound option: "safety" or a decimal number of bytes.

use vstd::prelude::*;
use vstd::string::*;
use crate::text::{opt_view, str_eq};

verus! {

/// The upper bound that "safety" stands for: the smallest MTU that QUIC
/// requires a path to carry (RFC 9000, section 14.1).
pub const SAFETY_MTU: u16 = 1200;

pub open spec fn is_digit(c: char) -> bool {
    '0' <= c && c <= '9'
}

pub open spec fn digit_value(c: char) -> int {
    c as int - '0' as int
}

pub open spec fn all_digits(s: Seq<char>) -> bool {
    forall|i: int| 0 <= i < s.len() ==> is_digit(#[trigger] s[i])
}

/// The number that a string of decimal digits denotes.
pub open spec fn digits_value(s: Seq<char>) -> int
    decreases s.len(),
{
    if s.len() == 0 {
        0
    } else {
        digits_value(s.drop_last()) * 10 + digit_value(s.last())
    }
}

/// The digits of a number's text: the text without one leading '+'.
pub open spec fn unsigned_digits(s: Seq<char>) -> Seq<char> {
    if s.len() > 0 && s[0] == '+' {
        s.drop_first()
    } else {
        s
    }
}

/// How std reads a `u16` from text: an optional '+', then one or more
/// decimal digits whose value fits in 16 bits.
pub open spec fn spec_parse_u16(s: Seq<char>) -> Option<u16> {
    let d = unsigned_digits(s);
    if d.len() > 0 && all_digits(d) && digits_value(d) <= u16::MAX {
        Some(digits_value(d) as u16)
    } else {
        None
    }
}

/// A prefix of a digit string denotes no more than the whole string.
proof fn lemma_digits_prefix(s: Seq<char>, k: int)
    requires
        all_digits(s),
        0 <= k <= s.len(),
    ensures
        digits_value(s.take(k)) <= digits_value(s),
    decreases s.len(),
{
    if k < s.len() {
        assert(all_digits(s.drop_last()));
        lemma_digits_prefix(s.drop_last(), k);
        assert(s.drop_last().take(k) =~= s.take(k));
        assert(digits_value(s.drop_last()) >= 0) by {
            lemma_digits_nonneg(s.drop_last());
        }
    } else {
        assert(s.take(k) =~= s);
    }
}

proof fn lemma_digits_nonneg(s: Seq<char>)
    requires
        all_digits(s),
    ensures
        digits_value(s) >= 0,
    decreases s.len(),
{
    if s.len() > 0 {
        assert(all_digits(s.drop_last()));
        lemma_digits_nonneg(s.drop_last());
    }
}

/// Reads a `u16` from decimal text as `str::parse::<u16>` does.
pub fn parse_u16(s: &str) -> (r: Option<u16>)
    ensures
        r == spec_parse_u16(s@),
{
    let len = s.unicode_len();
    let ghost d = unsigned_digits(s@);
    let mut start: usize = 0;
    if len > 0 && s.get_char(0) == '+' {
        start = 1;
    }
    assert(d =~= s@.subrange(start as int, len as int));
    if start == len {
        return None;
    }
    let mut i: usize = start;
    let mut value: u32 = 0;
    assert(s@.subrange(start as int, i as int) =~= Seq::<char>::empty());
    while i < len
        invariant
            start <= i <= len,
            start < len,
            len == s@.len(),
            d == s@.subrange(start as int, len as int),
            d == unsigned_digits(s@),
            value <= 65535,
            all_digits(s@.subrange(start as int, i as int)),
            value == digits_value(s@.subrange(start as int, i as int)),
        decreases len - i,
    {
        let c = s.get_char(i);
        let ghost pre = s@.subrange(start as int, i as int);
        let ghost next = s@.subrange(start as int, i + 1);
        assert(next.drop_last() =~= pre);
        assert(d[i - start] == c);
        if !('0' <= c && c <= '9') {
            assert(!all_digits(d));
            return None;
        }
        value = value * 10 + (c as u32 - '0' as u32);
        assert(all_digits(next));
        if value > 65535 {
            proof {
                if all_digits(d) {
                    assert(d.take(i + 1 - start) =~= next);
                    lemma_digits_prefix(d, i + 1 - start);
                }
            }
            return None;
        }
        i = i + 1;
    }
    assert(s@.subrange(start as int, len as int) =~= d);
    Some(value as u16)
}

/// The decimal digit character of `d`.
pub open spec fn digit_char(d: nat) -> char {
    if d == 0 { '0' }
    else if d == 1 { '1' }
    else if d == 2 { '2' }
    else if d == 3 { '3' }
    else if d == 4 { '4' }
    else if d == 5 { '5' }
    else if d == 6 { '6' }
    else if d == 7 { '7' }
    else if d == 8 { '8' }
    else { '9' }
}

/// The usual decimal text of `n`: no sign, no leading zeros.
pub open spec fn decimal(n: nat) -> Seq<char>
    decreases n,
{
    if n < 10 {
        seq![digit_char(n)]
    } else {
        decimal(n / 10).push(digit_char(n % 10))
    }
}

proof fn lemma_digit_char(d: nat)
    requires
        d < 10,
    ensures
        is_digit(digit_char(d)),
        digit_value(digit_char(d)) == d,
{
}

proof fn lemma_decimal(n: nat)
    ensures
        decimal(n).len() > 0,
        all_digits(decimal(n)),
        digits_value(decimal(n)) == n,
    decreases n,
{
    assert(digits_value(Seq::<char>::empty()) == 0);
    if n < 10 {
        lemma_digit_char(n);
        let s = seq![digit_char(n)];
        assert(s.drop_last() =~= Seq::<char>::empty());
        assert(s.last() == digit_char(n));
        assert(digits_value(s) == digits_value(s.drop_last()) * 10 + digit_value(s.last()));
    } else {
        lemma_decimal(n / 10);
        lemma_digit_char(n % 10);
        let s = decimal(n);
        assert(s.drop_last() =~= decimal(n / 10));
        assert(s.last() == digit_char(n % 10));
        assert(n == (n / 10) * 10 + n % 10);
        assert(all_digits(s)) by {
            assert forall|i: int| 0 <= i < s.len() implies is_digit(#[trigger] s[i]) by {
                if i < s.len() - 1 {
                    assert(s[i] == decimal(n / 10)[i]);
                }
            }
        }
    }
}

proof fn lemma_leading_zero(s: Seq<char>)
    ensures
        digits_value(seq!['0'] + s) == digits_value(s),
    decreases s.len(),
{
    let t = seq!['0'] + s;
    assert(digits_value(Seq::<char>::empty()) == 0);
    if s.len() == 0 {
        assert(t.drop_last() =~= Seq::<char>::empty());
        assert(t.last() == '0');
    } else {
        lemma_leading_zero(s.drop_last());
        assert(t.drop_last() =~= seq!['0'] + s.drop_last());
        assert(t.last() == s.last());
    }
}

proof fn lemma_zeros(zeros: nat, s: Seq<char>)
    requires
        all_digits(s),
    ensures
        all_digits(Seq::new(zeros, |i: int| '0') + s),
        digits_value(Seq::new(zeros, |i: int| '0') + s) == digits_value(s),
    decreases zeros,
{
    if zeros > 0 {
        let rest = Seq::new((zeros - 1) as nat, |i: int| '0') + s;
        lemma_zeros((zeros - 1) as nat, s);
        lemma_leading_zero(rest);
        assert(Seq::new(zeros, |i: int| '0') + s =~= seq!['0'] + rest);
    } else {
        assert(Seq::new(zeros, |i: int| '0') + s =~= s);
    }
}

/// Every 16-bit number written in decimal, with any number of leading zeros
/// and with or without a leading '+', is read back as itself.
pub proof fn lemma_parse_u16_decimal(n: u16, zeros: nat, plus: bool)
    ensures
        spec_parse_u16(
            (if plus { seq!['+'] } else { Seq::<char>::empty() }) + Seq::new(zeros, |i: int| '0')
                + decimal(n as nat),
        ) == Some(n),
{
    lemma_decimal(n as nat);
    lemma_zeros(zeros, decimal(n as nat));
    let body = Seq::new(zeros, |i: int| '0') + decimal(n as nat);
    let text = (if plus { seq!['+'] } else { Seq::<char>::empty() }) + body;
    assert(body.len() > 0);
    assert(body[0] != '+') by {
        if zeros > 0 {
            assert(body[0] == '0');
        } else {
            assert(is_digit(body[0]));
        }
    }
    if plus {
        assert(text[0] == '+');
        assert(text.drop_first() =~= body);
    } else {
        assert(text =~= body);
    }
    assert(unsigned_digits(text) == body);
    assert(digits_value(body) == n);
    assert((if plus { seq!['+'] } else { Seq::<char>::empty() }) + Seq::new(zeros, |i: int| '0')
        + decimal(n as nat) =~= text);
}

} // verus!

verus! {

/// Why an MTU upper bound option was refused.
#[derive(Clone, Copy, Debug, PartialEq, Eq, Structural)]
pub enum MtuError {
    /// Neither "safety" nor a decimal number of at most 65535.
    InvalidValue,
}

impl MtuError {
    /// The message that reports the error.
    pub fn message(&self) -> (m: &'static str)
        ensures
            m@ == "Invalid MTU value"@,
    {
        "Invalid MTU value"
    }
}

/// What the MTU upper bound option means: absent, no bound is set; "safety",
/// 1200 bytes; otherwise the decimal number it holds, or an error.
pub open spec fn spec_mtu_upper_bound(value: Option<Seq<char>>) -> Result<Option<u16>, MtuError> {
    match value {
        None => Ok(None),
        Some(s) => if s == "safety"@ {
            Ok(Some(SAFETY_MTU))
        } else {
            match spec_parse_u16(s) {
                Some(n) => Ok(Some(n)),
                None => Err(MtuError::InvalidValue),
            }
        },
    }
}

/// Reads the MTU upper bound option.
pub fn parse_mtu_upper_bound(value: &Option<String>) -> (r: Result<Option<u16>, MtuError>)
    ensures
        r == spec_mtu_upper_bound(opt_view(*value)),
{
    match value {
        None => Ok(None),
        Some(s) => {
            let s: &str = s.as_str();
            if str_eq(s, "safety") {
                Ok(Some(SAFETY_MTU))
            } else {
                match parse_u16(s) {
                    Some(n) => Ok(Some(n)),
                    None => Err(MtuError::InvalidValue),
                }
            }
        },
    }
}

/// Any 16-bit number given in decimal as the MTU upper bound becomes the bound.
pub proof fn lemma_mtu_decimal(n: u16)
    ensures
        spec_mtu_upper_bound(Some(decimal(n as nat))) == Ok::<Option<u16>, MtuError>(Some(n)),
{
    reveal_strlit("safety");
    lemma_parse_u16_decimal(n, 0, false);
    assert(Seq::<char>::empty() + Seq::new(0, |i: int| '0') + decimal(n as nat) =~= decimal(n as nat));
    lemma_decimal(n as nat);
    assert(is_digit(decimal(n as nat)[0]));
    assert(decimal(n as nat) != "safety"@) by {
        assert("safety"@[0] == 's');
    }
}

} // verus!
