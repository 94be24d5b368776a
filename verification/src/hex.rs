//! Hex color strings: six hex digits encoding the red, green and blue
//! channels as byte pairs.

use vstd::prelude::*;

verus! {

/// A character is a hex digit: `0-9`, `a-f` or `A-F`.
pub open spec fn is_hex_digit(c: char) -> bool {
    (48 <= c as u32 && c as u32 <= 57)  // '0' ..= '9'
    || (97 <= c as u32 && c as u32 <= 102)  // 'a' ..= 'f'
    || (65 <= c as u32 && c as u32 <= 70)  // 'A' ..= 'F'
}

/// The numeric value of a hex digit.
pub open spec fn hex_digit_value(c: char) -> int
    recommends
        is_hex_digit(c),
{
    if 48 <= c as u32 && c as u32 <= 57 {
        c as u32 - 48
    } else if 97 <= c as u32 && c as u32 <= 102 {
        c as u32 - 97 + 10
    } else {
        c as u32 - 65 + 10
    }
}

/// A valid hex color string: exactly six hex digits.
pub open spec fn valid_hex_color(s: Seq<char>) -> bool {
    s.len() == 6 && forall|i: int| 0 <= i < 6 ==> is_hex_digit(#[trigger] s[i])
}

/// The byte encoded by a pair of hex digits, high digit first.
pub open spec fn hex_pair_value(hi: char, lo: char) -> u8
    recommends
        is_hex_digit(hi),
        is_hex_digit(lo),
{
    (hex_digit_value(hi) * 16 + hex_digit_value(lo)) as u8
}

/// The red channel of a valid hex color string.
pub open spec fn hex_red(s: Seq<char>) -> u8 {
    hex_pair_value(s[0], s[1])
}

/// The green channel of a valid hex color string.
pub open spec fn hex_green(s: Seq<char>) -> u8 {
    hex_pair_value(s[2], s[3])
}

/// The blue channel of a valid hex color string.
pub open spec fn hex_blue(s: Seq<char>) -> u8 {
    hex_pair_value(s[4], s[5])
}

/// The character that writes a digit value below 16, upper case beyond 9.
pub open spec fn digit_char(d: int) -> char
    recommends
        0 <= d < 16,
{
    if d == 0 {
        '0'
    } else if d == 1 {
        '1'
    } else if d == 2 {
        '2'
    } else if d == 3 {
        '3'
    } else if d == 4 {
        '4'
    } else if d == 5 {
        '5'
    } else if d == 6 {
        '6'
    } else if d == 7 {
        '7'
    } else if d == 8 {
        '8'
    } else if d == 9 {
        '9'
    } else if d == 10 {
        'A'
    } else if d == 11 {
        'B'
    } else if d == 12 {
        'C'
    } else if d == 13 {
        'D'
    } else if d == 14 {
        'E'
    } else {
        'F'
    }
}

/// The six-digit hex string that encodes an RGB triple.
pub open spec fn hex_encoding(r: u8, g: u8, b: u8) -> Seq<char> {
    seq![
        digit_char(r as int / 16),
        digit_char(r as int % 16),
        digit_char(g as int / 16),
        digit_char(g as int % 16),
        digit_char(b as int / 16),
        digit_char(b as int % 16),
    ]
}

/// Writing a digit value and reading the character back returns the value.
pub proof fn lemma_digit_char_value(d: int)
    requires
        0 <= d < 16,
    ensures
        is_hex_digit(digit_char(d)),
        hex_digit_value(digit_char(d)) == d,
{
}

/// Law: hex parsing round-trips. The hex encoding of any RGB triple is a
/// valid hex color string, and its three channels read back as the triple
/// itself, so the string and the triple classify alike.
pub proof fn lemma_hex_round_trip(r: u8, g: u8, b: u8)
    ensures
        valid_hex_color(hex_encoding(r, g, b)),
        hex_red(hex_encoding(r, g, b)) == r,
        hex_green(hex_encoding(r, g, b)) == g,
        hex_blue(hex_encoding(r, g, b)) == b,
{
    let s = hex_encoding(r, g, b);
    lemma_digit_char_value(r as int / 16);
    lemma_digit_char_value(r as int % 16);
    lemma_digit_char_value(g as int / 16);
    lemma_digit_char_value(g as int % 16);
    lemma_digit_char_value(b as int / 16);
    lemma_digit_char_value(b as int % 16);
    assert(hex_pair_value(s[0], s[1]) == r);
    assert(hex_pair_value(s[2], s[3]) == g);
    assert(hex_pair_value(s[4], s[5]) == b);
}

/// Whether `c` is a hex digit, decided in executable code.
pub fn hex_digit(c: char) -> (r: bool)
    ensures
        r == is_hex_digit(c),
{
    let v: u32 = c as u32;
    (48 <= v && v <= 57) || (97 <= v && v <= 102) || (65 <= v && v <= 70)
}

/// Whether `s` is a valid hex color string: six hex digits.
pub fn valid_hex(s: &str) -> (r: bool)
    ensures
        r == valid_hex_color(s@),
{
    let n = s.unicode_len();
    if n != 6 {
        return false;
    }
    let mut i: usize = 0;
    while i < 6
        invariant
            0 <= i <= 6,
            s@.len() == 6,
            forall|j: int| 0 <= j < i ==> is_hex_digit(#[trigger] s@[j]),
        decreases 6 - i,
    {
        if !hex_digit(s.get_char(i)) {
            return false;
        }
        i = i + 1;
    }
    true
}

} // verus!
