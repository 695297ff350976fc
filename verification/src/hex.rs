use vstd::prelude::*;

use crate::text::chars_of;

verus! {

/// Why a text is not the hexadecimal notation of a byte.
#[derive(Debug, Clone, Copy, PartialEq, Eq, Structural)]
pub enum HexError {
    /// There is nothing to parse.
    Empty,
    /// A character is not a hexadecimal digit.
    InvalidDigit,
    /// The number does not fit in a byte.
    PosOverflow,
}

/// The value of a hexadecimal digit (either case), if `c` is one.
pub open spec fn hex_digit_value(c: char) -> Option<nat> {
    if '0' <= c <= '9' {
        Some((c as nat - '0' as nat) as nat)
    } else if 'a' <= c <= 'f' {
        Some((c as nat - 'a' as nat + 10) as nat)
    } else if 'A' <= c <= 'F' {
        Some((c as nat - 'A' as nat + 10) as nat)
    } else {
        None
    }
}

/// The digits `digits` appended to the value `acc`, digit by digit from the
/// left; the first digit that is not hexadecimal or that makes the value
/// exceed a byte ends the parse with the matching error.
pub open spec fn accumulate(digits: Seq<char>, acc: nat) -> Result<u8, HexError>
    decreases digits.len(),
{
    if digits.len() == 0 {
        Ok(acc as u8)
    } else {
        match hex_digit_value(digits[0]) {
            None => Err(HexError::InvalidDigit),
            Some(x) => if acc * 16 + x > 255 {
                Err(HexError::PosOverflow)
            } else {
                accumulate(digits.drop_first(), acc * 16 + x)
            },
        }
    }
}

/// The byte that `s` denotes in base 16, as `u8::from_str_radix(s, 16)`
/// reads it: an optional `+` sign followed by at least one hexadecimal digit.
pub open spec fn parse_radix16(s: Seq<char>) -> Result<u8, HexError> {
    if s.len() == 0 {
        Err(HexError::Empty)
    } else if s[0] == '+' {
        if s.len() == 1 {
            Err(HexError::InvalidDigit)
        } else {
            accumulate(s.drop_first(), 0)
        }
    } else {
        accumulate(s, 0)
    }
}

/// `s` without any number of leading `0x` prefixes.
pub open spec fn strip_all_prefixes(s: Seq<char>) -> Seq<char>
    decreases s.len(),
{
    if s.len() >= 2 && s[0] == '0' && s[1] == 'x' {
        strip_all_prefixes(s.subrange(2, s.len() as int))
    } else {
        s
    }
}

/// `s` without one leading `0x` prefix, if it has one.
pub open spec fn strip_one_prefix(s: Seq<char>) -> Seq<char> {
    if s.len() >= 2 && s[0] == '0' && s[1] == 'x' {
        s.subrange(2, s.len() as int)
    } else {
        s
    }
}

fn digit_value(c: char) -> (r: Option<u8>)
    ensures
        r matches Some(v) ==> hex_digit_value(c) == Some(v as nat) && v < 16,
        r is None <==> hex_digit_value(c) is None,
{
    if '0' <= c && c <= '9' {
        Some(((c as u32) - ('0' as u32)) as u8)
    } else if 'a' <= c && c <= 'f' {
        Some(((c as u32) - ('a' as u32) + 10) as u8)
    } else if 'A' <= c && c <= 'F' {
        Some(((c as u32) - ('A' as u32) + 10) as u8)
    } else {
        None
    }
}

/// Parses `chars[start..]` in base 16.
fn parse_radix16_from(chars: &Vec<char>, start: usize) -> (r: Result<u8, HexError>)
    requires
        start <= chars.len(),
    ensures
        r == parse_radix16(chars@.subrange(start as int, chars.len() as int)),
{
    let ghost s = chars@.subrange(start as int, chars.len() as int);
    if start == chars.len() {
        return Err(HexError::Empty);
    }
    let mut i = start;
    if chars[start] == '+' {
        if start + 1 == chars.len() {
            return Err(HexError::InvalidDigit);
        }
        i = start + 1;
        assert(s.drop_first() =~= chars@.subrange(i as int, chars.len() as int));
    } else {
        assert(s =~= chars@.subrange(i as int, chars.len() as int));
    }
    let mut acc: u8 = 0;
    while i < chars.len()
        invariant
            start <= i <= chars.len(),
            s == chars@.subrange(start as int, chars.len() as int),
            parse_radix16(s) == accumulate(chars@.subrange(i as int, chars.len() as int), acc as nat),
        decreases chars.len() - i,
    {
        let ghost rest = chars@.subrange(i as int, chars.len() as int);
        assert(rest[0] == chars@[i as int]);
        assert(rest.drop_first() =~= chars@.subrange(i + 1, chars.len() as int));
        match digit_value(chars[i]) {
            None => {
                return Err(HexError::InvalidDigit);
            },
            Some(x) => {
                if acc > 15 || acc * 16 > 255 - x {
                    return Err(HexError::PosOverflow);
                }
                acc = acc * 16 + x;
            },
        }
        i = i + 1;
    }
    assert(chars@.subrange(i as int, chars.len() as int).len() == 0);
    Ok(acc)
}

/// Parses a byte written in base 16, after removing every leading `0x`.
pub fn parse_hex_u8(src: &str) -> (r: Result<u8, HexError>)
    ensures
        r == parse_radix16(strip_all_prefixes(src@)),
{
    let chars = chars_of(src);
    let mut i: usize = 0;
    assert(chars@.subrange(0, chars.len() as int) =~= chars@);
    while chars.len() - i >= 2 && chars[i] == '0' && chars[i + 1] == 'x'
        invariant
            i <= chars.len(),
            strip_all_prefixes(src@) == strip_all_prefixes(chars@.subrange(i as int, chars.len() as int)),
            chars@ == src@,
        decreases chars.len() - i,
    {
        let ghost rest = chars@.subrange(i as int, chars.len() as int);
        assert(rest.subrange(2, rest.len() as int) =~= chars@.subrange(i + 2, chars.len() as int));
        i = i + 2;
    }
    proof {
        let rest = chars@.subrange(i as int, chars.len() as int);
        if rest.len() >= 2 {
            assert(rest[0] == chars@[i as int] && rest[1] == chars@[i + 1]);
        }
    }
    parse_radix16_from(&chars, i)
}

/// Parses a byte written in base 16, after removing one leading `0x`.
pub fn from_hex(src: &str) -> (r: Result<u8, HexError>)
    ensures
        r == parse_radix16(strip_one_prefix(src@)),
{
    let chars = chars_of(src);
    assert(chars@.subrange(0, chars.len() as int) =~= chars@);
    if chars.len() >= 2 && chars[0] == '0' && chars[1] == 'x' {
        parse_radix16_from(&chars, 2)
    } else {
        parse_radix16_from(&chars, 0)
    }
}

/// The lower case hexadecimal digit for a value below sixteen.
pub open spec fn hex_digit_char(v: nat) -> char {
    if v < 10 {
        ('0' as nat + v) as char
    } else {
        ('a' as nat + v - 10) as char
    }
}

/// The two digit lower case hexadecimal notation of a byte, with the `0x`
/// prefix.
pub open spec fn hex_notation(b: u8) -> Seq<char> {
    seq!['0', 'x', hex_digit_char(b as nat / 16), hex_digit_char(b as nat % 16)]
}

/// Every byte is read back from its `0x`-prefixed two digit notation, both
/// with one prefix removed and with all prefixes removed.
pub proof fn lemma_hex_round_trip(b: u8)
    ensures
        parse_radix16(strip_one_prefix(hex_notation(b))) == Ok::<u8, HexError>(b),
        parse_radix16(strip_all_prefixes(hex_notation(b))) == Ok::<u8, HexError>(b),
{
    let n = hex_notation(b);
    let digits = n.subrange(2, 4);
    let hi = b as nat / 16;
    let lo = b as nat % 16;
    assert(hex_digit_value(hex_digit_char(hi)) == Some(hi));
    assert(hex_digit_value(hex_digit_char(lo)) == Some(lo));
    assert(digits[0] == hex_digit_char(hi));
    assert(digits.drop_first() =~= seq![hex_digit_char(lo)]);
    assert(seq![hex_digit_char(lo)].drop_first() =~= Seq::<char>::empty());
    assert(accumulate(Seq::<char>::empty(), hi * 16 + lo) == Ok::<u8, HexError>(b));
    assert(accumulate(seq![hex_digit_char(lo)], hi) == Ok::<u8, HexError>(b));
    assert(accumulate(digits, 0) == Ok::<u8, HexError>(b));
    assert(strip_one_prefix(n) =~= digits);
    assert(digits[1] != 'x');
    assert(strip_all_prefixes(digits) == digits);
    assert(strip_all_prefixes(n) == strip_all_prefixes(digits));
}

} // verus!
