//! Percent-encoding of URL text.

use vstd::prelude::*;

verus! {

pub const PERCENT: u8 = 0x25;

/// Whether a byte stands for itself in escaped text: an ASCII letter, a digit,
/// or one of `-`, `.`, `_`, `~`.
pub open spec fn is_unreserved(b: u8) -> bool {
    ||| 0x30 <= b <= 0x39
    ||| 0x41 <= b <= 0x5a
    ||| 0x61 <= b <= 0x7a
    ||| b == 0x2d
    ||| b == 0x2e
    ||| b == 0x5f
    ||| b == 0x7e
}

/// The hexadecimal digit for a value below sixteen, in upper case.
pub open spec fn hex_digit(n: u8) -> u8
    recommends
        n < 16,
{
    if n < 10 {
        (0x30 + n) as u8
    } else {
        (0x37 + n) as u8
    }
}

/// Whether a byte is a hexadecimal digit, in either case.
pub open spec fn is_hex(c: u8) -> bool {
    ||| 0x30 <= c <= 0x39
    ||| 0x41 <= c <= 0x46
    ||| 0x61 <= c <= 0x66
}

/// The value of a hexadecimal digit.
pub open spec fn hex_value(c: u8) -> u8
    recommends
        is_hex(c),
{
    if c <= 0x39 {
        (c - 0x30) as u8
    } else if c <= 0x46 {
        (c - 0x37) as u8
    } else {
        (c - 0x57) as u8
    }
}

/// How one byte is written in escaped text: as itself if it is unreserved,
/// else as a percent sign and its two hexadecimal digits.
pub open spec fn escaped_byte(b: u8) -> Seq<u8> {
    if is_unreserved(b) {
        seq![b]
    } else {
        seq![PERCENT, hex_digit(b / 16), hex_digit(b % 16)]
    }
}

/// The escaped form of a text: the escaped forms of its bytes, in order.
pub open spec fn escaped(text: Seq<u8>) -> Seq<u8>
    decreases text.len(),
{
    if text.len() == 0 {
        Seq::empty()
    } else {
        escaped_byte(text[0]) + escaped(text.drop_first())
    }
}

/// Whether `text` begins with a percent sign and two hexadecimal digits.
pub open spec fn starts_with_escape(text: Seq<u8>) -> bool {
    text.len() >= 3 && text[0] == PERCENT && is_hex(text[1]) && is_hex(text[2])
}

/// The text that an escaped text stands for: a percent sign with two
/// hexadecimal digits behind it stands for the byte of that value, and every
/// other byte for itself.
pub open spec fn unescaped(text: Seq<u8>) -> Seq<u8>
    decreases text.len(),
{
    if text.len() == 0 {
        Seq::empty()
    } else if starts_with_escape(text) {
        seq![(hex_value(text[1]) * 16 + hex_value(text[2])) as u8] + unescaped(text.skip(3))
    } else {
        seq![text[0]] + unescaped(text.drop_first())
    }
}

/// Executable form of [`is_unreserved`].
pub fn unreserved(b: u8) -> (r: bool)
    ensures
        r == is_unreserved(b),
{
    (0x30 <= b && b <= 0x39) || (0x41 <= b && b <= 0x5a) || (0x61 <= b && b <= 0x7a) || b == 0x2d
        || b == 0x2e || b == 0x5f || b == 0x7e
}

/// Executable form of [`hex_digit`].
pub fn to_hex_digit(n: u8) -> (r: u8)
    requires
        n < 16,
    ensures
        r == hex_digit(n),
{
    if n < 10 {
        0x30 + n
    } else {
        0x37 + n
    }
}

/// The value of a hexadecimal digit, or nothing for any other byte.
pub fn from_hex_digit(c: u8) -> (r: Option<u8>)
    ensures
        match r {
            Some(v) => is_hex(c) && v == hex_value(c) && v < 16,
            None => !is_hex(c),
        },
{
    if 0x30 <= c && c <= 0x39 {
        Some(c - 0x30)
    } else if 0x41 <= c && c <= 0x46 {
        Some(c - 0x37)
    } else if 0x61 <= c && c <= 0x66 {
        Some(c - 0x57)
    } else {
        None
    }
}

/// Escapes `text` for use in a URL.
pub fn escape(text: &[u8]) -> (r: Vec<u8>)
    ensures
        r@ == escaped(text@),
{
    let mut out: Vec<u8> = Vec::new();
    let mut i: usize = 0;
    assert(text@.skip(0) =~= text@);
    assert(out@ + escaped(text@) =~= escaped(text@));
    while i < text.len()
        invariant
            0 <= i <= text@.len(),
            out@ + escaped(text@.skip(i as int)) == escaped(text@),
        decreases text@.len() - i,
    {
        let b = text[i];
        let ghost rest = text@.skip(i as int);
        let ghost before = out@;
        assert(rest[0] == b);
        assert(rest.drop_first() =~= text@.skip(i + 1));
        if unreserved(b) {
            out.push(b);
        } else {
            out.push(PERCENT);
            out.push(to_hex_digit(b / 16));
            out.push(to_hex_digit(b % 16));
        }
        assert(out@ =~= before + escaped_byte(b));
        assert(out@ + escaped(text@.skip(i + 1)) =~= before + escaped(rest));
        i += 1;
    }
    assert(escaped(text@.skip(i as int)) =~= Seq::<u8>::empty());
    assert(out@ + Seq::<u8>::empty() =~= out@);
    out
}

/// Reads escaped text back.
pub fn unescape(text: &[u8]) -> (r: Vec<u8>)
    ensures
        r@ == unescaped(text@),
{
    let mut out: Vec<u8> = Vec::new();
    let mut i: usize = 0;
    assert(text@.skip(0) =~= text@);
    assert(out@ + unescaped(text@) =~= unescaped(text@));
    while i < text.len()
        invariant
            0 <= i <= text@.len(),
            out@ + unescaped(text@.skip(i as int)) == unescaped(text@),
        decreases text@.len() - i,
    {
        let ghost rest = text@.skip(i as int);
        let ghost before = out@;
        assert(rest[0] == text@[i as int]);
        let mut taken: usize = 1;
        let mut byte: u8 = text[i];
        if text[i] == PERCENT && text.len() - i >= 3 {
            assert(rest[1] == text@[i + 1]);
            assert(rest[2] == text@[i + 2]);
            match (from_hex_digit(text[i + 1]), from_hex_digit(text[i + 2])) {
                (Some(high), Some(low)) => {
                    byte = high * 16 + low;
                    taken = 3;
                },
                _ => {},
            }
        }
        out.push(byte);
        proof {
            if taken == 3 {
                assert(starts_with_escape(rest));
                assert(rest.skip(3) =~= text@.skip(i + 3));
            } else {
                assert(!starts_with_escape(rest));
                assert(rest.drop_first() =~= text@.skip(i + 1));
            }
            assert(out@ + unescaped(text@.skip(i + taken)) =~= before + unescaped(rest));
        }
        i += taken;
    }
    assert(unescaped(text@.skip(i as int)) =~= Seq::<u8>::empty());
    assert(out@ + Seq::<u8>::empty() =~= out@);
    out
}

/// Escaped text keeps no byte but unreserved ones, percent signs and
/// hexadecimal digits.
pub proof fn law_escaped_is_plain(text: Seq<u8>, i: int)
    requires
        0 <= i < escaped(text).len(),
    ensures
        is_unreserved(escaped(text)[i]) || escaped(text)[i] == PERCENT,
    decreases text.len(),
{
    if text.len() > 0 {
        let head = escaped_byte(text[0]);
        if i >= head.len() {
            law_escaped_is_plain(text.drop_first(), i - head.len());
        }
    }
}

/// Reading back what was escaped gives the text that was escaped.
pub proof fn law_unescape_escape(text: Seq<u8>)
    ensures
        unescaped(escaped(text)) == text,
    decreases text.len(),
{
    if text.len() > 0 {
        let b = text[0];
        let rest = text.drop_first();
        let whole = escaped(text);
        law_unescape_escape(rest);
        if is_unreserved(b) {
            assert(whole[0] == b);
            assert(!starts_with_escape(whole));
            assert(whole.drop_first() =~= escaped(rest));
        } else {
            assert(whole[0] == PERCENT);
            assert(whole[1] == hex_digit(b / 16));
            assert(whole[2] == hex_digit(b % 16));
            assert(starts_with_escape(whole));
            assert(whole.skip(3) =~= escaped(rest));
            assert(hex_value(whole[1]) * 16 + hex_value(whole[2]) == b);
        }
        assert(unescaped(whole) =~= seq![b] + rest);
        assert(seq![b] + rest =~= text);
    }
}

} // verus!
