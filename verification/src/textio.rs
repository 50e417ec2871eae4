use vstd::prelude::*;

use crate::instructions::{to_u16, TamInstruction};

verus! {

/// A byte of the whitespace that delimits input tokens.
pub open spec fn is_ws(b: u8) -> bool {
    b == 0x20 || b == 0x0a || b == 0x0d || b == 0x09
}

/// An ASCII decimal digit.
pub open spec fn is_digit(b: u8) -> bool {
    0x30 <= b <= 0x39
}

/// Every byte of `s` is an ASCII decimal digit.
pub open spec fn all_digits(s: Seq<u8>) -> bool {
    forall|i: int| 0 <= i < s.len() ==> is_digit(#[trigger] s[i])
}

/// The value of an ASCII digit string, most significant digit first.
pub open spec fn digits_value(s: Seq<u8>) -> int
    decreases s.len(),
{
    if s.len() == 0 {
        0
    } else {
        digits_value(s.drop_last()) * 10 + (s.last() - 0x30)
    }
}

/// Why an input token does not parse as a machine word.
#[derive(Copy, Clone, Debug, PartialEq, Eq, Structural)]
pub enum ParseFault {
    /// The token is not an optional minus sign followed by decimal digits.
    Malformed,
    /// The token's value does not fit in a signed machine word.
    OutOfRange,
}

/// The input protocol for one integer token: an optional minus sign, then one
/// or more decimal digits, read as a decimal number that must fit in a signed
/// machine word.
pub open spec fn spec_parse_int(tok: Seq<u8>) -> Result<i16, ParseFault> {
    let neg = tok.len() > 0 && tok[0] == 0x2d;
    let digits = if neg {
        tok.subrange(1, tok.len() as int)
    } else {
        tok
    };
    if digits.len() == 0 || !all_digits(digits) {
        Err(ParseFault::Malformed)
    } else {
        let value = digits_value(digits);
        if neg {
            if value > 32768 {
                Err(ParseFault::OutOfRange)
            } else {
                Ok((-value) as i16)
            }
        } else {
            if value > 32767 {
                Err(ParseFault::OutOfRange)
            } else {
                Ok(value as i16)
            }
        }
    }
}

/// A digit string's value is not negative.
proof fn lemma_digits_value_nonneg(s: Seq<u8>)
    requires
        all_digits(s),
    ensures
        digits_value(s) >= 0,
    decreases s.len(),
{
    if s.len() > 0 {
        assert forall|i: int| 0 <= i < s.drop_last().len() implies is_digit(
            #[trigger] s.drop_last()[i],
        ) by {
            assert(s.drop_last()[i] == s[i]);
        }
        lemma_digits_value_nonneg(s.drop_last());
    }
}

/// Extending a digit string on the right cannot shrink its value.
proof fn lemma_digits_value_prefix(s: Seq<u8>, k: int)
    requires
        all_digits(s),
        0 <= k <= s.len(),
    ensures
        digits_value(s.take(k)) <= digits_value(s),
    decreases s.len() - k,
{
    if k == s.len() {
        assert(s.take(k) =~= s);
    } else {
        assert forall|i: int| 0 <= i < s.take(k).len() implies is_digit(
            #[trigger] s.take(k)[i],
        ) by {
            assert(s.take(k)[i] == s[i]);
        }
        lemma_digits_value_nonneg(s.take(k));
        assert(s.take(k + 1).drop_last() =~= s.take(k));
        assert(digits_value(s.take(k + 1)) == digits_value(s.take(k)) * 10 + (s[k] - 0x30));
        lemma_digits_value_prefix(s, k + 1);
    }
}

/// Parses one input token per [`spec_parse_int`].
pub fn parse_int(tok: &[u8]) -> (r: Result<i16, ParseFault>)
    ensures
        r == spec_parse_int(tok@),
{
    let len = tok.len();
    let neg = len > 0 && tok[0] == 0x2d;
    let start: usize = if neg {
        1
    } else {
        0
    };
    let ghost digits = if neg {
        tok@.subrange(1, tok@.len() as int)
    } else {
        tok@
    };
    if len == start {
        return Err(ParseFault::Malformed);
    }
    let mut i: usize = start;
    while i < len
        invariant
            start <= i <= len,
            len == tok@.len(),
            neg == (tok@.len() > 0 && tok@[0] == 0x2d),
            start == (if neg { 1int } else { 0int }),
            digits == (if neg { tok@.subrange(1, tok@.len() as int) } else { tok@ }),
            forall|j: int| 0 <= j < i - start ==> is_digit(#[trigger] digits[j]),
        decreases len - i,
    {
        let b = tok[i];
        if b < 0x30 || b > 0x39 {
            proof {
                assert(digits[i - start] == tok@[i as int]);
                assert(!is_digit(digits[i - start]));
                assert(!all_digits(digits));
            }
            return Err(ParseFault::Malformed);
        }
        i += 1;
    }
    proof {
        assert(all_digits(digits));
    }
    let mut mag: u32 = 0;
    i = start;
    while i < len
        invariant
            start <= i <= len,
            len == tok@.len(),
            neg == (tok@.len() > 0 && tok@[0] == 0x2d),
            start == (if neg { 1int } else { 0int }),
            digits == (if neg { tok@.subrange(1, tok@.len() as int) } else { tok@ }),
            all_digits(digits),
            mag <= 32768,
            mag == digits_value(digits.take(i - start)),
        decreases len - i,
    {
        let b = tok[i];
        proof {
            assert(digits[i - start] == tok@[i as int]);
            assert(is_digit(digits[i - start]));
            assert(digits.take(i - start + 1).drop_last() =~= digits.take(i - start));
            assert(digits.take(i - start + 1).last() == digits[i - start]);
        }
        mag = mag * 10 + ((b - 0x30) as u32);
        proof {
            assert(mag == digits_value(digits.take(i - start + 1)));
        }
        if mag > 32768 {
            proof {
                lemma_digits_value_prefix(digits, i + 1 - start);
                assert(digits.take(digits.len() as int) =~= digits);
                assert(digits_value(digits) > 32768);
            }
            return Err(ParseFault::OutOfRange);
        }
        i += 1;
    }
    proof {
        assert(digits.take(digits.len() as int) =~= digits);
    }
    if neg {
        if mag == 32768 {
            Ok(i16::MIN)
        } else {
            Ok(0i16 - (mag as i16))
        }
    } else {
        if mag > 32767 {
            Err(ParseFault::OutOfRange)
        } else {
            Ok(mag as i16)
        }
    }
}

/// True when the byte is token-delimiting whitespace, per [`is_ws`].
pub(crate) fn is_whitespace_byte(b: u8) -> (r: bool)
    ensures
        r == is_ws(b),
{
    b == 0x20 || b == 0x0a || b == 0x0d || b == 0x09
}

/// True when the byte is an ASCII decimal digit, per [`is_digit`].
pub(crate) fn is_digit_byte(b: u8) -> (r: bool)
    ensures
        r == is_digit(b),
{
    b >= 0x30 && b <= 0x39
}

/// The low byte of a machine word's 16-bit pattern: what the character-output
/// primitive writes.
pub open spec fn low_byte_of(v: i16) -> u8 {
    (to_u16(v) % 256) as u8
}

/// The byte the character-output primitive writes for a word, per
/// [`low_byte_of`].
pub(crate) fn word_low_byte(v: i16) -> (b: u8)
    ensures
        b == low_byte_of(v),
{
    (TamInstruction::word_to_bits(v) % 256) as u8
}

/// The line-break text: the one byte the line-break primitive writes.
pub(crate) fn render_line_break() -> (out: Vec<u8>)
    ensures
        out@ == seq![0x0au8],
{
    let mut out: Vec<u8> = Vec::new();
    out.push(0x0a);
    proof {
        assert(out@ =~= seq![0x0au8]);
    }
    out
}

/// The truth word the end-of-line primitive pushes for a peeked byte: input
/// standing at a line break, or at its end, counts as at end of line.
pub open spec fn eol_flag_of(b: Option<u8>) -> i16 {
    match b {
        Some(c) => if c == 0x0a {
            1
        } else {
            0
        },
        None => 1,
    }
}

/// The truth word the end-of-input primitive pushes for a peeked byte.
pub open spec fn eof_flag_of(b: Option<u8>) -> i16 {
    match b {
        Some(_) => 0,
        None => 1,
    }
}

/// The end-of-line truth word, per [`eol_flag_of`].
pub(crate) fn eol_flag(b: Option<u8>) -> (f: i16)
    ensures
        f == eol_flag_of(b),
{
    match b {
        Some(c) => if c == 0x0a {
            1
        } else {
            0
        },
        None => 1,
    }
}

/// The end-of-input truth word, per [`eof_flag_of`].
pub(crate) fn eof_flag(b: Option<u8>) -> (f: i16)
    ensures
        f == eof_flag_of(b),
{
    match b {
        Some(_) => 0,
        None => 1,
    }
}

/// The line-skipping primitive stops at a line break or at the input's end:
/// `count` is how many bytes the read handed back, `b` the byte when one came.
pub open spec fn line_ended(count: usize, b: u8) -> bool {
    count == 0 || b == 0x0a
}

/// Whether the line-skipping primitive is done, per [`line_ended`].
pub(crate) fn line_end_reached(count: usize, b: u8) -> (r: bool)
    ensures
        r == line_ended(count, b),
{
    count == 0 || b == 0x0a
}

/// The ASCII decimal digits of `n`, most significant first.
pub open spec fn dec_digits(n: nat) -> Seq<u8>
    decreases n,
{
    if n < 10 {
        seq![(0x30 + n) as u8]
    } else {
        dec_digits(n / 10).push((0x30 + n % 10) as u8)
    }
}

/// The ASCII decimal text of a signed machine word: a minus sign for negative
/// values, then the digits of the magnitude.
pub open spec fn dec_i16(v: i16) -> Seq<u8> {
    if v < 0 {
        seq![0x2du8] + dec_digits((-v) as nat)
    } else {
        dec_digits(v as nat)
    }
}

/// Appends the decimal digits of `n` to `out`, most significant first.
pub fn push_dec_digits(out: &mut Vec<u8>, n: u32)
    ensures
        final(out)@ == old(out)@ + dec_digits(n as nat),
    decreases n,
{
    if n < 10 {
        out.push(0x30 + (n as u8));
        proof {
            assert(out@ =~= old(out)@ + dec_digits(n as nat));
        }
    } else {
        push_dec_digits(out, n / 10);
        out.push(0x30 + ((n % 10) as u8));
        proof {
            assert(out@ =~= old(out)@ + dec_digits(n as nat));
        }
    }
}

/// The decimal text of a signed machine word, as ASCII bytes.
pub fn render_i16(v: i16) -> (out: Vec<u8>)
    ensures
        out@ == dec_i16(v),
{
    let mut out: Vec<u8> = Vec::new();
    if v < 0 {
        out.push(0x2d);
        let mag = (-(v as i32)) as u32;
        push_dec_digits(&mut out, mag);
        proof {
            assert(out@ =~= seq![0x2du8] + dec_digits((-v) as nat));
        }
    } else {
        push_dec_digits(&mut out, v as u32);
        proof {
            assert(out@ =~= dec_digits(v as nat));
        }
    }
    out
}

} // verus!
