//! Colours as the configuration file writes them: `#RRGGBB`, or `#RRGGBBAA`
//! where the colour is not opaque.

use crate::text::{chars_of, string_of};
use vstd::prelude::*;

verus! {

/// A colour: red, green, blue and how opaque it is, each from 0 to 255.
#[derive(Clone, Copy, Debug, PartialEq, Eq, Structural)]
pub struct Rgba {
    pub r: u8,
    pub g: u8,
    pub b: u8,
    pub a: u8,
}

/// The worth of a hexadecimal digit; none for any other character.
pub open spec fn digit_of(c: char) -> Option<int> {
    let code = c as u32 as int;
    if 48 <= code <= 57 {
        Some(code - 48)
    } else if 65 <= code <= 70 {
        Some(code - 55)
    } else if 97 <= code <= 102 {
        Some(code - 87)
    } else {
        None
    }
}

/// The number that two characters write in hexadecimal. A plus sign may
/// stand in place of the first digit.
pub open spec fn pair_of(high: char, low: char) -> Option<int> {
    match digit_of(low) {
        None => None,
        Some(l) => if high == '+' {
            Some(l)
        } else {
            match digit_of(high) {
                Some(h) => Some(16 * h + l),
                None => None,
            }
        },
    }
}

/// The colour that a text writes: a `#`, then red, green and blue, then,
/// in a text of nine characters, how opaque the colour is. An opacity that
/// cannot be read counts as full.
pub open spec fn color_of(hex: Seq<char>) -> Option<Rgba> {
    if (hex.len() == 7 || hex.len() == 9) && hex[0] == '#' {
        match (pair_of(hex[1], hex[2]), pair_of(hex[3], hex[4]), pair_of(hex[5], hex[6])) {
            (Some(r), Some(g), Some(b)) => Some(
                Rgba {
                    r: r as u8,
                    g: g as u8,
                    b: b as u8,
                    a: if hex.len() == 9 {
                        match pair_of(hex[7], hex[8]) {
                            Some(a) => a as u8,
                            None => 255u8,
                        }
                    } else {
                        255u8
                    },
                },
            ),
            _ => None,
        }
    } else {
        None
    }
}

/// The capital hexadecimal digit of a worth below sixteen.
pub open spec fn digit_char(worth: int) -> char {
    if worth < 10 {
        (worth + 48) as u8 as char
    } else {
        (worth + 55) as u8 as char
    }
}

/// The text that writes a colour.
pub open spec fn hex_of(color: Rgba) -> Seq<char> {
    let head = seq![
        '#',
        digit_char(color.r as int / 16),
        digit_char(color.r as int % 16),
        digit_char(color.g as int / 16),
        digit_char(color.g as int % 16),
        digit_char(color.b as int / 16),
        digit_char(color.b as int % 16),
    ];
    if color.a < 255 {
        head + seq![digit_char(color.a as int / 16), digit_char(color.a as int % 16)]
    } else {
        head
    }
}

fn digit(c: char) -> (worth: Option<u8>)
    ensures
        match digit_of(c) {
            Some(w) => worth == Some(w as u8) && 0 <= w < 16,
            None => worth is None,
        },
{
    let code: u32 = c as u32;
    if 48 <= code && code <= 57 {
        Some((code - 48) as u8)
    } else if 65 <= code && code <= 70 {
        Some((code - 55) as u8)
    } else if 97 <= code && code <= 102 {
        Some((code - 87) as u8)
    } else {
        None
    }
}

fn pair(high: char, low: char) -> (worth: Option<u8>)
    ensures
        match pair_of(high, low) {
            Some(w) => worth == Some(w as u8) && 0 <= w < 256,
            None => worth is None,
        },
{
    match digit(low) {
        None => None,
        Some(l) => {
            if high == '+' {
                Some(l)
            } else {
                match digit(high) {
                    Some(h) => Some(16 * h + l),
                    None => None,
                }
            }
        },
    }
}

/// Reads a colour from its text.
pub fn hex_to_color(hex: &str) -> (color: Option<Rgba>)
    ensures
        color == color_of(hex@),
{
    let chars = chars_of(hex);
    if !(chars.len() == 7 || chars.len() == 9) || chars[0] != '#' {
        return None;
    }
    let r = pair(chars[1], chars[2]);
    let g = pair(chars[3], chars[4]);
    let b = pair(chars[5], chars[6]);
    let a = if chars.len() == 9 {
        pair(chars[7], chars[8])
    } else {
        None
    };
    match (r, g, b) {
        (Some(r), Some(g), Some(b)) => Some(
            Rgba {
                r,
                g,
                b,
                a: match a {
                    Some(a) => a,
                    None => 255,
                },
            },
        ),
        _ => None,
    }
}

fn digit_for(worth: u8) -> (c: char)
    requires
        worth < 16,
    ensures
        c == digit_char(worth as int),
        digit_of(c) == Some(worth as int),
{
    if worth < 10 {
        (worth + 48) as char
    } else {
        (worth + 55) as char
    }
}

/// Writes a colour as text.
pub fn color_to_hex(color: Rgba) -> (hex: String)
    ensures
        hex@ == hex_of(color),
{
    let mut out: Vec<char> = Vec::new();
    out.push('#');
    out.push(digit_for(color.r / 16));
    out.push(digit_for(color.r % 16));
    out.push(digit_for(color.g / 16));
    out.push(digit_for(color.g % 16));
    out.push(digit_for(color.b / 16));
    out.push(digit_for(color.b % 16));
    if color.a < 255 {
        out.push(digit_for(color.a / 16));
        out.push(digit_for(color.a % 16));
    }
    assert(out@ =~= hex_of(color));
    string_of(&out)
}

/// A digit written for a worth is read as that worth.
proof fn lemma_digit(worth: int)
    requires
        0 <= worth < 16,
    ensures
        digit_of(digit_char(worth)) == Some(worth),
        digit_char(worth) != '+',
{
}

/// A colour that was written is read as the same colour.
pub proof fn lemma_written_is_read(color: Rgba)
    ensures
        color_of(hex_of(color)) == Some(color),
{
    lemma_digit(color.r as int / 16);
    lemma_digit(color.r as int % 16);
    lemma_digit(color.g as int / 16);
    lemma_digit(color.g as int % 16);
    lemma_digit(color.b as int / 16);
    lemma_digit(color.b as int % 16);
    lemma_digit(color.a as int / 16);
    lemma_digit(color.a as int % 16);
}

} // verus!
