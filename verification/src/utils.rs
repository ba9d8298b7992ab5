//! Hexadecimal text helpers for front ends: parsing a 64-bit value out of
//! hexadecimal text, and stripping arbitrary text down to the characters a
//! hexadecimal register value may contain.

use crate::types::{append_hex_char, is_upper_hex};
use vstd::prelude::*;
use vstd::string::StrSliceExecFns;
use vstd::string::StringExecFns;

verus! {

// ---------------------------------------------------------------------------
// Parsing hexadecimal text
// ---------------------------------------------------------------------------
/// Why a string failed to parse as a 64-bit hexadecimal value.
#[derive(Clone, Copy, PartialEq, Eq, Structural, Debug)]
pub enum HexParseError {
    /// The input was empty.
    Empty,
    /// The scan met a character that is no hexadecimal digit.
    InvalidDigit,
    /// The value no longer fits in 64 bits.
    Overflow,
}

/// True of the characters `0`-`9`, `a`-`f` and `A`-`F`.
pub open spec fn is_hex_digit(c: char) -> bool {
    (('0' as u32) <= (c as u32) && (c as u32) <= ('9' as u32)) || (('a' as u32) <= (c as u32) && (
    c as u32) <= ('f' as u32)) || (('A' as u32) <= (c as u32) && (c as u32) <= ('F' as u32))
}

/// The numeric value of one hexadecimal digit character.
pub open spec fn hex_digit_value(c: char) -> u8
    recommends
        is_hex_digit(c),
{
    if ('0' as u32) <= (c as u32) && (c as u32) <= ('9' as u32) {
        ((c as u32) - ('0' as u32)) as u8
    } else if ('a' as u32) <= (c as u32) && (c as u32) <= ('f' as u32) {
        ((c as u32) - ('a' as u32) + 10) as u8
    } else if ('A' as u32) <= (c as u32) && (c as u32) <= ('F' as u32) {
        ((c as u32) - ('A' as u32) + 10) as u8
    } else {
        0
    }
}

/// The input after the optional single leading plus sign.
pub open spec fn hex_digits_of(s: Seq<char>) -> Seq<char> {
    if s.len() > 0 && s[0] == '+' {
        s.skip(1)
    } else {
        s
    }
}

/// Every character is a hexadecimal digit.
pub open spec fn all_hex_digits(s: Seq<char>) -> bool {
    forall|i: int| 0 <= i < s.len() ==> is_hex_digit(#[trigger] s[i])
}

/// The value of a string of hexadecimal digits, most significant first.
pub open spec fn hex_value(s: Seq<char>) -> int
    decreases s.len(),
{
    if s.len() == 0 {
        0
    } else {
        16 * hex_value(s.drop_last()) + hex_digit_value(s.last())
    }
}

/// The parse succeeds: at least one digit stands after the optional sign,
/// every character is a hexadecimal digit, and the value fits in 64 bits.
pub open spec fn parse_ok(s: Seq<char>) -> bool {
    hex_digits_of(s).len() > 0 && all_hex_digits(hex_digits_of(s)) && hex_value(hex_digits_of(s))
        <= 0xFFFF_FFFF_FFFF_FFFF
}

/// The left-to-right scan overflows at position `i`: the digits up to and
/// including `i` are valid, and the value accumulated before `i` cannot take
/// one more digit within 64 bits.
pub open spec fn overflow_at(d: Seq<char>, i: int) -> bool {
    0 <= i < d.len() && (forall|k: int| 0 <= k <= i ==> is_hex_digit(#[trigger] d[k])) && hex_value(
        d.take(i),
    ) >= 0x1000_0000_0000_0000
}

/// The left-to-right scan stops with an overflow.
pub open spec fn scan_overflows(d: Seq<char>) -> bool {
    exists|i: int| overflow_at(d, i)
}

/// The left-to-right scan stops at the invalid digit at position `j`,
/// having met no overflow before it.
pub open spec fn invalid_at(d: Seq<char>, j: int) -> bool {
    0 <= j < d.len() && !is_hex_digit(d[j]) && (forall|k: int|
        0 <= k < j ==> is_hex_digit(#[trigger] d[k])) && (forall|i: int|
        0 <= i < j ==> hex_value(#[trigger] d.take(i)) < 0x1000_0000_0000_0000)
}

/// The left-to-right scan stops at an invalid digit.
pub open spec fn scan_stops_invalid(d: Seq<char>) -> bool {
    exists|j: int| invalid_at(d, j)
}

/// Taking one more character multiplies the value by sixteen and adds the
/// character's digit value.
proof fn lemma_hex_value_step(d: Seq<char>, i: int)
    requires
        0 <= i < d.len(),
    ensures
        hex_value(d.take(i + 1)) == 16 * hex_value(d.take(i)) + hex_digit_value(d[i]),
{
    assert(d.take(i + 1).drop_last() =~= d.take(i));
    assert(d.take(i + 1).last() == d[i]);
}

/// The value of a digit string is never negative.
proof fn lemma_hex_value_nonneg(s: Seq<char>)
    ensures
        hex_value(s) >= 0,
    decreases s.len(),
{
    if s.len() > 0 {
        lemma_hex_value_nonneg(s.drop_last());
    }
}

/// The value of a prefix never exceeds the value of a longer prefix.
proof fn lemma_hex_value_prefix_le(d: Seq<char>, a: int, b: int)
    requires
        0 <= a <= b <= d.len(),
    ensures
        hex_value(d.take(a)) <= hex_value(d.take(b)),
    decreases b - a,
{
    if a < b {
        lemma_hex_value_prefix_le(d, a, b - 1);
        lemma_hex_value_step(d, b - 1);
        lemma_hex_value_nonneg(d.take(b - 1));
    }
}

/// The numeric value of one hexadecimal digit character, or nothing where
/// the character is no such digit.
pub fn hex_digit_of(c: char) -> (r: Option<u8>)
    ensures
        is_hex_digit(c) ==> r == Some(hex_digit_value(c)),
        !is_hex_digit(c) ==> r == None::<u8>,
{
    let u = c as u32;
    if ('0' as u32) <= u && u <= ('9' as u32) {
        Some((u - ('0' as u32)) as u8)
    } else if ('a' as u32) <= u && u <= ('f' as u32) {
        Some((u - ('a' as u32) + 10) as u8)
    } else if ('A' as u32) <= u && u <= ('F' as u32) {
        Some((u - ('A' as u32) + 10) as u8)
    } else {
        None
    }
}

/// Parses hexadecimal text into a 64-bit value, scanning left to right after
/// an optional single leading plus sign. Succeeds exactly on a non-empty
/// string of hexadecimal digits whose value fits in 64 bits; otherwise the
/// error names the first obstacle the scan met: an empty input, a character
/// that is no hexadecimal digit, or a value past 64 bits.
pub fn parse_hex(src: &str) -> (r: Result<u64, HexParseError>)
    ensures
        (r == Ok::<u64, HexParseError>(hex_value(hex_digits_of(src@)) as u64)) <==> parse_ok(src@),
        (r == Err::<u64, HexParseError>(HexParseError::Empty)) <==> src@.len() == 0,
        (r == Err::<u64, HexParseError>(HexParseError::Overflow)) <==> scan_overflows(
            hex_digits_of(src@),
        ),
        (r == Err::<u64, HexParseError>(HexParseError::InvalidDigit)) <==> (src@.len() > 0 && (
        hex_digits_of(src@).len() == 0 || scan_stops_invalid(hex_digits_of(src@)))),
{
    let ghost d = hex_digits_of(src@);
    let total = src.unicode_len();
    if total == 0 {
        proof {
            assert(d.len() == 0);
            assert(forall|i: int| !overflow_at(d, i));
            assert(!parse_ok(src@));
        }
        return Err(HexParseError::Empty);
    }
    let first = src.get_char(0);
    let start: usize = if first == '+' {
        1
    } else {
        0
    };
    proof {
        assert(d =~= src@.skip(start as int));
    }
    let n = total - start;
    if n == 0 {
        proof {
            assert(d.len() == 0);
            assert(forall|i: int| !overflow_at(d, i));
        }
        return Err(HexParseError::InvalidDigit);
    }
    let mut acc: u64 = 0;
    let mut i: usize = 0;
    while i < n
        invariant
            total == src@.len(),
            start <= 1,
            start + n == total,
            d == hex_digits_of(src@),
            d =~= src@.skip(start as int),
            n == d.len(),
            0 <= i <= n,
            acc == hex_value(d.take(i as int)),
            forall|k: int| 0 <= k < i ==> is_hex_digit(#[trigger] d[k]),
            forall|j: int| 0 <= j < i ==> hex_value(#[trigger] d.take(j)) < 0x1000_0000_0000_0000,
        decreases n - i,
    {
        let c = src.get_char(start + i);
        proof {
            assert(c == d[i as int]);
        }
        match hex_digit_of(c) {
            None => {
                proof {
                    assert(invalid_at(d, i as int));
                    assert forall|ii: int| !overflow_at(d, ii) by {
                        if overflow_at(d, ii) {
                            if ii >= i {
                                assert(is_hex_digit(d[i as int]));
                            } else {
                                assert(hex_value(d.take(ii)) < 0x1000_0000_0000_0000);
                            }
                        }
                    }
                    assert(!is_hex_digit(d[i as int]));
                    assert(!parse_ok(src@));
                }
                return Err(HexParseError::InvalidDigit);
            },
            Some(v) => {
                if acc >= 0x1000_0000_0000_0000 {
                    proof {
                        assert(overflow_at(d, i as int));
                        assert forall|jj: int| !invalid_at(d, jj) by {
                            if invalid_at(d, jj) {
                                if jj <= i {
                                    assert(is_hex_digit(d[jj]));
                                } else {
                                    assert(hex_value(d.take(i as int))
                                        < 0x1000_0000_0000_0000);
                                }
                            }
                        }
                        if parse_ok(src@) {
                            lemma_hex_value_step(d, i as int);
                            lemma_hex_value_nonneg(d.take(i as int));
                            lemma_hex_value_prefix_le(d, i + 1, d.len() as int);
                            assert(d.take(d.len() as int) =~= d);
                            assert(false);
                        }
                    }
                    return Err(HexParseError::Overflow);
                }
                proof {
                    lemma_hex_value_step(d, i as int);
                }
                acc = acc * 16 + (v as u64);
                i = i + 1;
            },
        }
    }
    proof {
        assert(d.take(n as int) =~= d);
        assert(parse_ok(src@));
        assert(hex_value(d) as u64 == acc);
        assert forall|ii: int| !overflow_at(d, ii) by {
            if overflow_at(d, ii) {
                assert(hex_value(d.take(ii)) < 0x1000_0000_0000_0000);
            }
        }
        assert forall|jj: int| !invalid_at(d, jj) by {
            if invalid_at(d, jj) {
                assert(is_hex_digit(d[jj]));
            }
        }
    }
    Ok(acc)
}

// ---------------------------------------------------------------------------
// Cleaning arbitrary text down to register characters
// ---------------------------------------------------------------------------
/// The Unicode uppercase mapping of a string, character for character as
/// `str::to_uppercase` yields it; determined by the characters alone.
pub uninterp spec fn upper_of(s: Seq<char>) -> Seq<char>;

/// Relies on str::to_uppercase for the Unicode uppercase mapping of the
/// input; the result depends on the input characters alone.
#[verifier::external_body]
fn to_uppercase_str(s: &str) -> (r: String)
    ensures
        r@ == upper_of(s@),
{
    s.to_uppercase()
}

/// Uppercases the input and keeps only the characters that may appear in a
/// rendered register: the digits and the uppercase letters `A` through `F`.
pub fn cleanup_hex_string(value: String) -> (r: String)
    ensures
        r@ == upper_of(value@).filter(|c: char| is_upper_hex(c)),
{
    let up = to_uppercase_str(value.as_str());
    let n = up.as_str().unicode_len();
    let mut out = String::new();
    let mut i: usize = 0;
    while i < n
        invariant
            n == up@.len(),
            0 <= i <= n,
            up@ == upper_of(value@),
            out@ == up@.take(i as int).filter(|c: char| is_upper_hex(c)),
        decreases n - i,
    {
        let c = up.as_str().get_char(i);
        let u = c as u32;
        if (('0' as u32) <= u && u <= ('9' as u32)) || (('A' as u32) <= u && u <= ('F' as u32)) {
            append_hex_char(&mut out, c);
        }
        proof {
            assert(up@.take(i + 1) =~= up@.take(i as int).push(up@[i as int]));
            up@.take(i as int).lemma_filter_push(up@[i as int], |cc: char| is_upper_hex(cc));
        }
        i = i + 1;
    }
    proof {
        assert(up@.take(n as int) =~= up@);
    }
    out
}

} // verus!
