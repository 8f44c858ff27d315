//! A minimal color parser for the background fill: five case-sensitive
//! named colors and `#rgb` / `#rrggbb` hex forms, always fully opaque.
//! Anything else is "no color", never an error.

use vstd::prelude::*;
use vstd::string::StrSliceExecFns;

verus! {

/// A color as four 8-bit channels. Every color this library produces is
/// fully opaque (`a == 255`).
#[derive(PartialEq, Eq, Structural, Clone, Copy, Debug)]
pub struct Rgba8 {
    pub r: u8,
    pub g: u8,
    pub b: u8,
    pub a: u8,
}

/// A fully opaque color from its three channels.
pub open spec fn opaque(r: u8, g: u8, b: u8) -> Rgba8 {
    Rgba8 { r, g, b, a: 255 }
}

/// `c` is an ASCII hex digit, in either case.
pub open spec fn is_hex_digit(c: char) -> bool {
    (48 <= c as u32 && c as u32 <= 57)  // '0' ..= '9'
    || (97 <= c as u32 && c as u32 <= 102)  // 'a' ..= 'f'
    || (65 <= c as u32 && c as u32 <= 70)  // 'A' ..= 'F'

}

/// The value of the hex digit `c`, between 0 and 15.
pub open spec fn hex_digit_value(c: char) -> int
    recommends
        is_hex_digit(c),
{
    if 48 <= c as u32 && c as u32 <= 57 {
        c as u32 - 48
    } else if 97 <= c as u32 && c as u32 <= 102 {
        c as u32 - 87
    } else {
        c as u32 - 55
    }
}

/// `s` spells the three given characters.
pub open spec fn spells3(s: Seq<char>, a: char, b: char, c: char) -> bool {
    s.len() == 3 && s[0] == a && s[1] == b && s[2] == c
}

/// `s` spells the four given characters.
pub open spec fn spells4(s: Seq<char>, a: char, b: char, c: char, d: char) -> bool {
    s.len() == 4 && s[0] == a && s[1] == b && s[2] == c && s[3] == d
}

/// `s` spells the five given characters.
pub open spec fn spells5(s: Seq<char>, a: char, b: char, c: char, d: char, e: char) -> bool {
    s.len() == 5 && s[0] == a && s[1] == b && s[2] == c && s[3] == d && s[4] == e
}

/// The color named by `s`, for the five recognized names, matched exactly
/// and case-sensitively.
pub open spec fn spec_named_color(s: Seq<char>) -> Option<Rgba8> {
    if spells3(s, 'r', 'e', 'd') {
        Some(opaque(255, 0, 0))
    } else if spells5(s, 'g', 'r', 'e', 'e', 'n') {
        Some(opaque(0, 255, 0))
    } else if spells4(s, 'b', 'l', 'u', 'e') {
        Some(opaque(0, 0, 255))
    } else if spells5(s, 'w', 'h', 'i', 't', 'e') {
        Some(opaque(255, 255, 255))
    } else if spells5(s, 'b', 'l', 'a', 'c', 'k') {
        Some(opaque(0, 0, 0))
    } else {
        None
    }
}

/// `s` is `#` followed by exactly three hex digits.
pub open spec fn is_short_hex(s: Seq<char>) -> bool {
    s.len() == 4 && s[0] == '#' && is_hex_digit(s[1]) && is_hex_digit(s[2]) && is_hex_digit(s[3])
}

/// `s` is `#` followed by exactly six hex digits.
pub open spec fn is_long_hex(s: Seq<char>) -> bool {
    s.len() == 7 && s[0] == '#' && is_hex_digit(s[1]) && is_hex_digit(s[2]) && is_hex_digit(s[3])
        && is_hex_digit(s[4]) && is_hex_digit(s[5]) && is_hex_digit(s[6])
}

/// The color `s` denotes: a recognized name, or `#` with exactly three
/// hex digits (each nibble `d` widened to the byte `d * 17`), or `#` with
/// exactly six hex digits (two per channel, in R, G, B order). Every
/// other string denotes no color.
pub open spec fn spec_parse_color(s: Seq<char>) -> Option<Rgba8> {
    if spec_named_color(s) is Some {
        spec_named_color(s)
    } else if is_short_hex(s) {
        Some(
            opaque(
                (hex_digit_value(s[1]) * 17) as u8,
                (hex_digit_value(s[2]) * 17) as u8,
                (hex_digit_value(s[3]) * 17) as u8,
            ),
        )
    } else if is_long_hex(s) {
        Some(
            opaque(
                (hex_digit_value(s[1]) * 16 + hex_digit_value(s[2])) as u8,
                (hex_digit_value(s[3]) * 16 + hex_digit_value(s[4])) as u8,
                (hex_digit_value(s[5]) * 16 + hex_digit_value(s[6])) as u8,
            ),
        )
    } else {
        None
    }
}

/// Every color the parser recognizes is fully opaque: whatever the
/// input, a recognized form always carries an alpha of 255.
pub proof fn lemma_parsed_color_is_opaque(s: Seq<char>)
    ensures
        spec_parse_color(s) matches Some(c) ==> c.a == 255,
{
}

/// The value of one hex digit, or `None` for any other character.
fn hex_digit(c: char) -> (r: Option<u8>)
    ensures
        r is Some <==> is_hex_digit(c),
        r matches Some(v) ==> v == hex_digit_value(c) && v <= 15,
{
    let u = c as u32;
    if 48 <= u && u <= 57 {
        Some((u - 48) as u8)
    } else if 97 <= u && u <= 102 {
        Some((u - 87) as u8)
    } else if 65 <= u && u <= 70 {
        Some((u - 55) as u8)
    } else {
        None
    }
}

/// Parses `s` as a background color, exactly as `spec_parse_color`
/// states it: five named colors, `#rgb`, and `#rrggbb`, all fully
/// opaque; any other input yields `None`.
pub fn parse_color(s: &str) -> (r: Option<Rgba8>)
    ensures
        r == spec_parse_color(s@),
{
    let n = s.unicode_len();
    if n == 3 && s.get_char(0) == 'r' && s.get_char(1) == 'e' && s.get_char(2) == 'd' {
        return Some(Rgba8 { r: 255, g: 0, b: 0, a: 255 });
    }
    if n == 5 && s.get_char(0) == 'g' && s.get_char(1) == 'r' && s.get_char(2) == 'e'
        && s.get_char(3) == 'e' && s.get_char(4) == 'n' {
        return Some(Rgba8 { r: 0, g: 255, b: 0, a: 255 });
    }
    if n == 4 && s.get_char(0) == 'b' && s.get_char(1) == 'l' && s.get_char(2) == 'u'
        && s.get_char(3) == 'e' {
        return Some(Rgba8 { r: 0, g: 0, b: 255, a: 255 });
    }
    if n == 5 && s.get_char(0) == 'w' && s.get_char(1) == 'h' && s.get_char(2) == 'i'
        && s.get_char(3) == 't' && s.get_char(4) == 'e' {
        return Some(Rgba8 { r: 255, g: 255, b: 255, a: 255 });
    }
    if n == 5 && s.get_char(0) == 'b' && s.get_char(1) == 'l' && s.get_char(2) == 'a'
        && s.get_char(3) == 'c' && s.get_char(4) == 'k' {
        return Some(Rgba8 { r: 0, g: 0, b: 0, a: 255 });
    }
    if n == 4 && s.get_char(0) == '#' {
        if let (Some(d1), Some(d2), Some(d3)) = (
            hex_digit(s.get_char(1)),
            hex_digit(s.get_char(2)),
            hex_digit(s.get_char(3)),
        ) {
            return Some(Rgba8 { r: d1 * 17, g: d2 * 17, b: d3 * 17, a: 255 });
        }
    }
    if n == 7 && s.get_char(0) == '#' {
        if let (Some(d1), Some(d2), Some(d3), Some(d4), Some(d5), Some(d6)) = (
            hex_digit(s.get_char(1)),
            hex_digit(s.get_char(2)),
            hex_digit(s.get_char(3)),
            hex_digit(s.get_char(4)),
            hex_digit(s.get_char(5)),
            hex_digit(s.get_char(6)),
        ) {
            return Some(
                Rgba8 { r: d1 * 16 + d2, g: d3 * 16 + d4, b: d5 * 16 + d6, a: 255 },
            );
        }
    }
    None
}

} // verus!
