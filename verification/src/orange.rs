//! The color classifier: an RGB triple, or a six-digit hex color string, is
//! judged "orange" by a fixed threshold rule over the three channels.

use crate::hex::{
    hex_blue, hex_green, hex_red, is_hex_digit, valid_hex, valid_hex_color,
};
use vstd::prelude::*;

verus! {

/// Response data: the echoed input and the classifier's verdict.
#[derive(Debug)]
pub struct ColorResult {
    pub color: String,
    pub is_orange: bool,
}

/// Request data: an RGB triple, one byte per channel.
#[derive(Clone, Copy, Debug, PartialEq, Eq, Structural)]
pub struct RgbColor {
    pub r: u8,
    pub g: u8,
    pub b: u8,
}

/// The threshold rule: a triple is orange when red is above 150 while green
/// stays below 170 and blue below 100.
pub open spec fn is_orange(r: u8, g: u8, b: u8) -> bool {
    r > 150 && g < 170 && b < 100
}

/// Check if orange.
pub fn determine_orange(r: u8, g: u8, b: u8) -> (res: bool)
    ensures
        res == is_orange(r, g, b),
{
    if r > 150 && g < 170 && b < 100 {
        return true;
    }
    return false;
}

/// Law: the classifier is a pure function. Any two results that meet
/// `determine_orange`'s contract on one and the same triple are equal, so
/// repeated calls with identical input yield identical output.
pub proof fn lemma_classifier_deterministic(r: u8, g: u8, b: u8, first: bool, second: bool)
    requires
        first == is_orange(r, g, b),
        second == is_orange(r, g, b),
    ensures
        first == second,
{
}

/// Law: a hex color string and the triple it encodes classify alike.
pub proof fn lemma_hex_rgb_classify_alike(r: u8, g: u8, b: u8)
    ensures
        is_orange(
            hex_red(crate::hex::hex_encoding(r, g, b)),
            hex_green(crate::hex::hex_encoding(r, g, b)),
            hex_blue(crate::hex::hex_encoding(r, g, b)),
        ) == is_orange(r, g, b),
{
    crate::hex::lemma_hex_round_trip(r, g, b);
}

/// The decimal digits of a byte value, without leading zeros.
pub open spec fn decimal_of(n: u8) -> Seq<char> {
    if n < 10 {
        seq![crate::hex::digit_char(n as int)]
    } else if n < 100 {
        seq![crate::hex::digit_char(n as int / 10), crate::hex::digit_char(n as int % 10)]
    } else {
        seq![
            crate::hex::digit_char(n as int / 100),
            crate::hex::digit_char((n as int / 10) % 10),
            crate::hex::digit_char(n as int % 10),
        ]
    }
}

/// The display string of an RGB triple: `r{r} g{g} b{b}` in decimal.
pub open spec fn rgb_display(r: u8, g: u8, b: u8) -> Seq<char> {
    "r"@ + decimal_of(r) + " g"@ + decimal_of(g) + " b"@ + decimal_of(b)
}

/// The one-character string that writes a decimal digit.
fn digit_str(d: u8) -> (r: &'static str)
    requires
        d < 10,
    ensures
        r@ == seq![crate::hex::digit_char(d as int)],
{
    proof {
        reveal_strlit("0");
        reveal_strlit("1");
        reveal_strlit("2");
        reveal_strlit("3");
        reveal_strlit("4");
        reveal_strlit("5");
        reveal_strlit("6");
        reveal_strlit("7");
        reveal_strlit("8");
        reveal_strlit("9");
    }
    match d {
        0 => "0",
        1 => "1",
        2 => "2",
        3 => "3",
        4 => "4",
        5 => "5",
        6 => "6",
        7 => "7",
        8 => "8",
        _ => "9",
    }
}

/// Appends the decimal digits of `n` to `s`.
fn push_decimal(s: &mut String, n: u8)
    ensures
        final(s)@ == old(s)@ + decimal_of(n),
{
    if n < 10 {
        s.append(digit_str(n));
    } else if n < 100 {
        s.append(digit_str(n / 10));
        s.append(digit_str(n % 10));
    } else {
        s.append(digit_str(n / 100));
        s.append(digit_str((n / 10) % 10));
        s.append(digit_str(n % 10));
    }
    assert(final(s)@ =~= old(s)@ + decimal_of(n));
}

/// Determine if an RGB triple is orange; the echoed input reads
/// `r{r} g{g} b{b}`.
pub fn orange_rgb(r: u8, g: u8, b: u8) -> (res: ColorResult)
    ensures
        res.color@ == rgb_display(r, g, b),
        res.is_orange == is_orange(r, g, b),
{
    let mut text: String = String::from_str("r");
    push_decimal(&mut text, r);
    text.append(" g");
    push_decimal(&mut text, g);
    text.append(" b");
    push_decimal(&mut text, b);
    assert(text@ =~= rgb_display(r, g, b));
    ColorResult { color: text, is_orange: determine_orange(r, g, b) }
}

impl ColorResult {
    /// The display string: `color {color} is_orange {verdict}`.
    pub open spec fn display_seq(self) -> Seq<char> {
        "color "@ + self.color@ + " is_orange "@ + (if self.is_orange {
            "true"@
        } else {
            "false"@
        })
    }

    /// Writes the result as one line of text.
    pub fn display(&self) -> (r: String)
        ensures
            r@ == self.display_seq(),
    {
        let mut text: String = String::from_str("color ");
        text.append(self.color.as_str());
        text.append(" is_orange ");
        if self.is_orange {
            text.append("true");
        } else {
            text.append("false");
        }
        assert(text@ =~= self.display_seq());
        text
    }
}

/// Relies on raster::Color::hex: a '#' followed by six hex digits parses to
/// the color whose r, g and b fields hold the three byte pairs, high digit
/// first; on such input the parse succeeds.
#[verifier::external_body]
fn parse_hex_color(s: &str) -> (rgb: (u8, u8, u8))
    requires
        s@.len() == 7,
        s@[0] == '#',
        forall|i: int| 1 <= i < 7 ==> is_hex_digit(#[trigger] s@[i]),
    ensures
        rgb.0 == crate::hex::hex_pair_value(s@[1], s@[2]),
        rgb.1 == crate::hex::hex_pair_value(s@[3], s@[4]),
        rgb.2 == crate::hex::hex_pair_value(s@[5], s@[6]),
{
    let c = raster::Color::hex(s).unwrap();
    (c.r, c.g, c.b)
}

/// Determine if a hex code is orange. A malformed string (wrong length or a
/// character that is no hex digit) is rejected.
pub fn orange_hex(color_string: String) -> (res: Result<ColorResult, &'static str>)
    ensures
        valid_hex_color(color_string@) ==> (res matches Ok(cr)
            && cr.color@ == "#"@ + color_string@
            && cr.is_orange == is_orange(
            hex_red(color_string@),
            hex_green(color_string@),
            hex_blue(color_string@),
        )),
        !valid_hex_color(color_string@) ==> (res matches Err(m) && m@ == "invalid input hex"@),
{
    if !valid_hex(color_string.as_str()) {
        return Err("invalid input hex");
    }
    let mut hex: String = String::from_str("#");
    hex.append(color_string.as_str());
    proof {
        reveal_strlit("#");
        assert(forall|i: int| 1 <= i < 7 ==> hex@[i] == color_string@[i - 1]);
    }
    let (r, g, b) = parse_hex_color(hex.as_str());
    let verdict = determine_orange(r, g, b);
    Ok(ColorResult { color: hex, is_orange: verdict })
}

} // verus!
