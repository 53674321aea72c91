//! Fixed-width lower-case hexadecimal text for identifiers.

use vstd::prelude::*;
use crate::text::push_char;

verus! {

/// Sixteen to the power `n`.
pub open spec fn pow16(n: nat) -> nat
    decreases n,
{
    if n == 0 {
        1
    } else {
        16 * pow16((n - 1) as nat)
    }
}

/// The lower-case digit that stands for `d`, for `d` below sixteen.
pub open spec fn digit_char(d: int) -> char {
    if d == 0 {
        '0'
    } else if d == 1 {
        '1'
    } else if d == 2 {
        '2'
    } else if d == 3 {
        '3'
    } else if d == 4 {
        '4'
    } else if d == 5 {
        '5'
    } else if d == 6 {
        '6'
    } else if d == 7 {
        '7'
    } else if d == 8 {
        '8'
    } else if d == 9 {
        '9'
    } else if d == 10 {
        'a'
    } else if d == 11 {
        'b'
    } else if d == 12 {
        'c'
    } else if d == 13 {
        'd'
    } else if d == 14 {
        'e'
    } else {
        'f'
    }
}

/// The value of a lower-case hexadecimal digit; `None` for any other
/// character, upper-case digits included.
pub open spec fn digit_value(c: char) -> Option<int> {
    if c == '0' {
        Some(0)
    } else if c == '1' {
        Some(1)
    } else if c == '2' {
        Some(2)
    } else if c == '3' {
        Some(3)
    } else if c == '4' {
        Some(4)
    } else if c == '5' {
        Some(5)
    } else if c == '6' {
        Some(6)
    } else if c == '7' {
        Some(7)
    } else if c == '8' {
        Some(8)
    } else if c == '9' {
        Some(9)
    } else if c == 'a' {
        Some(10)
    } else if c == 'b' {
        Some(11)
    } else if c == 'c' {
        Some(12)
    } else if c == 'd' {
        Some(13)
    } else if c == 'e' {
        Some(14)
    } else if c == 'f' {
        Some(15)
    } else {
        None
    }
}

/// `v` written with exactly `width` digits, most significant first; digits
/// beyond the width are cut off.
pub open spec fn encode(v: nat, width: nat) -> Seq<char>
    decreases width,
{
    if width == 0 {
        Seq::empty()
    } else {
        encode(v / 16, (width - 1) as nat).push(digit_char((v % 16) as int))
    }
}

/// The number that a text of lower-case hexadecimal digits stands for;
/// `None` when any character is not such a digit.
pub open spec fn decode(s: Seq<char>) -> Option<nat>
    decreases s.len(),
{
    if s.len() == 0 {
        Some(0)
    } else {
        match (decode(s.drop_last()), digit_value(s.last())) {
            (Some(high), Some(d)) => Some((high * 16 + d) as nat),
            _ => None,
        }
    }
}

/// The number that a text of exactly `width` digits stands for.
pub open spec fn decode_fixed(s: Seq<char>, width: nat) -> Option<nat> {
    if s.len() == width {
        decode(s)
    } else {
        None
    }
}

/// An encoded number has the requested number of digits.
pub proof fn lemma_encode_len(v: nat, width: nat)
    ensures
        encode(v, width).len() == width,
    decreases width,
{
    if width > 0 {
        lemma_encode_len(v / 16, (width - 1) as nat);
    }
}

/// Decoding what was encoded gives the number back, as long as the number
/// fits in the width.
pub proof fn lemma_decode_encode(v: nat, width: nat)
    requires
        v < pow16(width),
    ensures
        decode(encode(v, width)) == Some(v),
        decode_fixed(encode(v, width), width) == Some(v),
    decreases width,
{
    lemma_encode_len(v, width);
    if width > 0 {
        let rest = encode(v / 16, (width - 1) as nat);
        let d = (v % 16) as int;
        lemma_decode_encode(v / 16, (width - 1) as nat);
        assert(encode(v, width).drop_last() =~= rest);
        assert(encode(v, width).last() == digit_char(d));
        assert(digit_value(digit_char(d)) == Some(d));
    }
}

/// A decoded number is below sixteen to the number of its digits.
pub proof fn lemma_decode_bound(s: Seq<char>)
    requires
        decode(s) is Some,
    ensures
        decode(s)->0 < pow16(s.len()),
    decreases s.len(),
{
    if s.len() > 0 {
        lemma_decode_bound(s.drop_last());
    }
}

/// Sixteen to the sixteenth and to the thirty-second power are the number
/// of values of a 64-bit and of a 128-bit word.
pub proof fn lemma_pow16_words()
    ensures
        pow16(16) == 0x1_0000_0000_0000_0000,
        pow16(32) == 0x1_0000_0000_0000_0000_0000_0000_0000_0000,
{
    reveal_with_fuel(pow16, 9);
    assert(pow16(8) == 0x1_0000_0000);
    assert(pow16(16) == 0x1_0000_0000 * pow16(8));
    assert(pow16(24) == 0x1_0000_0000 * pow16(16));
    assert(pow16(32) == 0x1_0000_0000 * pow16(24));
}

/// The powers of sixteen grow with the exponent.
pub proof fn lemma_pow16_monotonic(a: nat, b: nat)
    requires
        a <= b,
    ensures
        pow16(a) <= pow16(b),
        pow16(a) >= 1,
    decreases b,
{
    if b > 0 {
        if a < b {
            lemma_pow16_monotonic(a, (b - 1) as nat);
        } else {
            lemma_pow16_monotonic((a - 1) as nat, (b - 1) as nat);
        }
    }
}

fn digit_of(d: u8) -> (c: char)
    requires
        d < 16,
    ensures
        c == digit_char(d as int),
{
    match d {
        0 => '0',
        1 => '1',
        2 => '2',
        3 => '3',
        4 => '4',
        5 => '5',
        6 => '6',
        7 => '7',
        8 => '8',
        9 => '9',
        10 => 'a',
        11 => 'b',
        12 => 'c',
        13 => 'd',
        14 => 'e',
        _ => 'f',
    }
}

fn value_of(c: char) -> (r: Option<u8>)
    ensures
        match r {
            Some(d) => digit_value(c) == Some(d as int) && d < 16,
            None => digit_value(c) is None,
        },
{
    match c {
        '0' => Some(0),
        '1' => Some(1),
        '2' => Some(2),
        '3' => Some(3),
        '4' => Some(4),
        '5' => Some(5),
        '6' => Some(6),
        '7' => Some(7),
        '8' => Some(8),
        '9' => Some(9),
        'a' => Some(10),
        'b' => Some(11),
        'c' => Some(12),
        'd' => Some(13),
        'e' => Some(14),
        'f' => Some(15),
        _ => None,
    }
}

/// Appends to `out` the `width` lowest hexadecimal digits of `v`, most
/// significant first.
pub fn write_hex(out: &mut String, v: u128, width: u8)
    ensures
        final(out)@ == old(out)@ + encode(v as nat, width as nat),
    decreases width,
{
    if width > 0 {
        write_hex(out, v / 16, width - 1);
        let d: u8 = (v % 16) as u8;
        push_char(out, digit_of(d));
        assert(final(out)@ =~= old(out)@ + encode(v as nat, width as nat));
    } else {
        assert(out@ =~= old(out)@ + encode(v as nat, 0));
    }
}

/// Reads `s` as a number written with exactly `width` lower-case
/// hexadecimal digits. A text of another length, or with any other
/// character in it, gives `None`.
pub fn parse_hex(s: &str, width: u8) -> (r: Option<u128>)
    requires
        width <= 32,
    ensures
        match r {
            Some(v) => decode_fixed(s@, width as nat) == Some(v as nat),
            None => decode_fixed(s@, width as nat) is None,
        },
{
    let n = s.unicode_len();
    if n != width as usize {
        return None;
    }
    let mut acc: u128 = 0;
    let mut i: usize = 0;
    while i < n
        invariant
            i <= n,
            n == s@.len(),
            n <= 32,
            decode(s@.take(i as int)) == Some(acc as nat),
        decreases n - i,
    {
        let c = s.get_char(i);
        proof {
            let next = s@.take(i + 1);
            assert(next.drop_last() =~= s@.take(i as int));
            assert(next.last() == c);
            lemma_decode_bound(s@.take(i as int));
            lemma_pow16_monotonic(i as nat, 31);
            lemma_pow16_monotonic(31, 31);
            lemma_pow16_words();
            assert(pow16(32) == 16 * pow16(31));
        }
        match value_of(c) {
            Some(d) => {
                acc = acc * 16 + d as u128;
            },
            None => {
                proof {
                    lemma_decode_none_extends(s@, i + 1);
                }
                return None;
            },
        }
        i += 1;
    }
    assert(s@.take(n as int) =~= s@);
    Some(acc)
}

/// A text with a prefix that does not decode does not decode either.
pub proof fn lemma_decode_none_extends(s: Seq<char>, k: int)
    requires
        0 <= k <= s.len(),
        decode(s.take(k)) is None,
    ensures
        decode(s) is None,
    decreases s.len() - k,
{
    if k < s.len() {
        assert(s.take(k + 1).drop_last() =~= s.take(k));
        lemma_decode_none_extends(s, k + 1);
    } else {
        assert(s.take(k) =~= s);
    }
}

} // verus!
