//! Colors, download periods and badge styles.

use vstd::prelude::*;

use crate::text::{chars_eq_str, chars_of};

verus! {

/// A badge color: one of the named palette colors, or any RGB value.
#[derive(Clone, Copy, Debug, PartialEq, Eq, Structural)]
pub enum Color {
    Black,
    White,
    Gray,
    Red,
    Orange,
    Yellow,
    Lime,
    Green,
    Cyan,
    Blue,
    Purple,
    Pink,
    Rgb(u8, u8, u8),
}

/// The red, green and blue channels of a color.
pub open spec fn spec_rgb(c: Color) -> (u8, u8, u8) {
    match c {
        Color::Black => (0x00, 0x00, 0x00),
        Color::White => (0xff, 0xff, 0xff),
        Color::Gray => (0x6b, 0x72, 0x80),
        Color::Red => (0xef, 0x44, 0x44),
        Color::Orange => (0xf9, 0x73, 0x16),
        Color::Yellow => (0xea, 0xb3, 0x08),
        Color::Lime => (0x84, 0xcc, 0x16),
        Color::Green => (0x22, 0xc5, 0x5e),
        Color::Cyan => (0x06, 0xb6, 0xd4),
        Color::Blue => (0x3b, 0x82, 0xf6),
        Color::Purple => (0xa8, 0x55, 0xf7),
        Color::Pink => (0xec, 0x48, 0x99),
        Color::Rgb(r, g, b) => (r, g, b),
    }
}

/// The lowercase hexadecimal digit for `n` (below 16).
pub open spec fn hex_digit(n: int) -> char {
    if n < 10 {
        (n + 48) as char
    } else {
        (n + 87) as char
    }
}

/// Two lowercase hexadecimal digits for a byte.
pub open spec fn hex_byte(b: u8) -> Seq<char> {
    seq![hex_digit((b / 16) as int), hex_digit((b % 16) as int)]
}

/// Six lowercase hexadecimal digits `rrggbb`: the serialized form of a color.
pub open spec fn spec_hex(c: Color) -> Seq<char> {
    let (r, g, b) = spec_rgb(c);
    hex_byte(r) + hex_byte(g) + hex_byte(b)
}

/// The CSS form `#rrggbb` of a color.
pub open spec fn spec_css(c: Color) -> Seq<char> {
    seq!['#'] + spec_hex(c)
}

/// The perceived brightness of a color, scaled by 1000
/// (weights 299, 587 and 114 for red, green and blue).
pub open spec fn brightness(c: Color) -> int {
    let (r, g, b) = spec_rgb(c);
    299 * r + 587 * g + 114 * b
}

/// The text color that stays readable on a background: black on bright
/// backgrounds, white on dark ones.
pub open spec fn spec_text_color(background: Color) -> Color {
    if brightness(background) >= 128_000 {
        Color::Black
    } else {
        Color::White
    }
}

fn push_hex_byte(out: &mut String, b: u8)
    ensures
        final(out)@ == old(out)@ + hex_byte(b),
{
    let hi = b / 16;
    let lo = b % 16;
    let c1 = if hi < 10 { (hi + 48) as char } else { (hi + 87) as char };
    let c2 = if lo < 10 { (lo + 48) as char } else { (lo + 87) as char };
    out.push(c1);
    out.push(c2);
}

impl Color {
    /// The red, green and blue channels of the color.
    pub fn rgb(&self) -> (r: (u8, u8, u8))
        ensures
            r == spec_rgb(*self),
    {
        match *self {
            Color::Black => (0x00, 0x00, 0x00),
            Color::White => (0xff, 0xff, 0xff),
            Color::Gray => (0x6b, 0x72, 0x80),
            Color::Red => (0xef, 0x44, 0x44),
            Color::Orange => (0xf9, 0x73, 0x16),
            Color::Yellow => (0xea, 0xb3, 0x08),
            Color::Lime => (0x84, 0xcc, 0x16),
            Color::Green => (0x22, 0xc5, 0x5e),
            Color::Cyan => (0x06, 0xb6, 0xd4),
            Color::Blue => (0x3b, 0x82, 0xf6),
            Color::Purple => (0xa8, 0x55, 0xf7),
            Color::Pink => (0xec, 0x48, 0x99),
            Color::Rgb(r, g, b) => (r, g, b),
        }
    }

    /// The six lowercase hexadecimal digits `rrggbb` of the color.
    pub fn to_hex(&self) -> (r: String)
        ensures
            r@ == spec_hex(*self),
    {
        let (r, g, b) = self.rgb();
        let mut out = String::new();
        push_hex_byte(&mut out, r);
        push_hex_byte(&mut out, g);
        push_hex_byte(&mut out, b);
        out
    }

    /// The color a string names: six hexadecimal digits, optionally after
    /// `#`, or the lowercase name of a palette color; `None` otherwise.
    pub fn parse(s: &str) -> (r: Option<Color>)
        ensures
            r == spec_parse_color(s@),
    {
        let v = chars_of(s);
        let from: usize = if v.len() > 0 && v[0] == '#' { 1 } else { 0 };
        proof {
            if from == 1 {
                assert(v@.subrange(1, v@.len() as int) =~= v@.drop_first());
            } else {
                assert(v@.subrange(0, v@.len() as int) =~= v@);
            }
        }
        match parse_hex6_exec(&v, from) {
            Some(c) => Some(c),
            None => named_color_exec(&v),
        }
    }

    /// The CSS form `#rrggbb` of the color.
    pub fn to_css(&self) -> (r: String)
        ensures
            r@ == spec_css(*self),
    {
        let mut out = String::new();
        out.push('#');
        let hex = self.to_hex();
        out.append(hex.as_str());
        out
    }
}

/// The readable text color on the given background.
pub fn text_color(background: &Color) -> (r: Color)
    ensures
        r == spec_text_color(*background),
{
    let (r, g, b) = background.rgb();
    let lum: u32 = 299 * (r as u32) + 587 * (g as u32) + 114 * (b as u32);
    if lum >= 128_000 {
        Color::Black
    } else {
        Color::White
    }
}

/// The value of a hexadecimal digit of either case.
pub open spec fn hex_value(c: char) -> Option<u8> {
    let x = c as u32;
    if 48 <= x && x <= 57 {
        Some((x - 48) as u8)
    } else if 97 <= x && x <= 102 {
        Some((x - 87) as u8)
    } else if 65 <= x && x <= 70 {
        Some((x - 55) as u8)
    } else {
        None
    }
}

/// The byte spelled by two hexadecimal digits.
pub open spec fn hex_pair(hi: char, lo: char) -> Option<u8> {
    match (hex_value(hi), hex_value(lo)) {
        (Some(h), Some(l)) => Some((h * 16 + l) as u8),
        _ => None,
    }
}

/// The color spelled by six hexadecimal digits `rrggbb`, of either case.
pub open spec fn parse_hex6(s: Seq<char>) -> Option<Color> {
    if s.len() != 6 {
        None
    } else {
        match (hex_pair(s[0], s[1]), hex_pair(s[2], s[3]), hex_pair(s[4], s[5])) {
            (Some(r), Some(g), Some(b)) => Some(Color::Rgb(r, g, b)),
            _ => None,
        }
    }
}

/// The palette color with the given lowercase name.
pub open spec fn named_color(s: Seq<char>) -> Option<Color> {
    if s == "black"@ {
        Some(Color::Black)
    } else if s == "white"@ {
        Some(Color::White)
    } else if s == "gray"@ {
        Some(Color::Gray)
    } else if s == "red"@ {
        Some(Color::Red)
    } else if s == "orange"@ {
        Some(Color::Orange)
    } else if s == "yellow"@ {
        Some(Color::Yellow)
    } else if s == "lime"@ {
        Some(Color::Lime)
    } else if s == "green"@ {
        Some(Color::Green)
    } else if s == "cyan"@ {
        Some(Color::Cyan)
    } else if s == "blue"@ {
        Some(Color::Blue)
    } else if s == "purple"@ {
        Some(Color::Purple)
    } else if s == "pink"@ {
        Some(Color::Pink)
    } else {
        None
    }
}

/// The color a string names: six hexadecimal digits, optionally after `#`,
/// or the lowercase name of a palette color.
pub open spec fn spec_parse_color(s: Seq<char>) -> Option<Color> {
    let digits = if s.len() > 0 && s[0] == '#' {
        s.drop_first()
    } else {
        s
    };
    match parse_hex6(digits) {
        Some(c) => Some(c),
        None => named_color(s),
    }
}

fn hex_value_exec(c: char) -> (r: Option<u8>)
    ensures
        r == hex_value(c),
{
    let x = c as u32;
    if 48 <= x && x <= 57 {
        Some((x - 48) as u8)
    } else if 97 <= x && x <= 102 {
        Some((x - 87) as u8)
    } else if 65 <= x && x <= 70 {
        Some((x - 55) as u8)
    } else {
        None
    }
}

fn hex_pair_exec(hi: char, lo: char) -> (r: Option<u8>)
    ensures
        r == hex_pair(hi, lo),
{
    match (hex_value_exec(hi), hex_value_exec(lo)) {
        (Some(h), Some(l)) => Some(h * 16 + l),
        _ => None,
    }
}

fn parse_hex6_exec(s: &Vec<char>, from: usize) -> (r: Option<Color>)
    requires
        from <= s@.len(),
    ensures
        r == parse_hex6(s@.subrange(from as int, s@.len() as int)),
{
    let ghost t = s@.subrange(from as int, s@.len() as int);
    if s.len() - from != 6 {
        return None;
    }
    let r = hex_pair_exec(s[from], s[from + 1]);
    let g = hex_pair_exec(s[from + 2], s[from + 3]);
    let b = hex_pair_exec(s[from + 4], s[from + 5]);
    assert(t[0] == s@[from as int] && t[1] == s@[from + 1] && t[2] == s@[from + 2]);
    assert(t[3] == s@[from + 3] && t[4] == s@[from + 4] && t[5] == s@[from + 5]);
    match (r, g, b) {
        (Some(r), Some(g), Some(b)) => Some(Color::Rgb(r, g, b)),
        _ => None,
    }
}

fn named_color_exec(v: &Vec<char>) -> (r: Option<Color>)
    ensures
        r == named_color(v@),
{
    if chars_eq_str(v, "black") {
        Some(Color::Black)
    } else if chars_eq_str(v, "white") {
        Some(Color::White)
    } else if chars_eq_str(v, "gray") {
        Some(Color::Gray)
    } else if chars_eq_str(v, "red") {
        Some(Color::Red)
    } else if chars_eq_str(v, "orange") {
        Some(Color::Orange)
    } else if chars_eq_str(v, "yellow") {
        Some(Color::Yellow)
    } else if chars_eq_str(v, "lime") {
        Some(Color::Lime)
    } else if chars_eq_str(v, "green") {
        Some(Color::Green)
    } else if chars_eq_str(v, "cyan") {
        Some(Color::Cyan)
    } else if chars_eq_str(v, "blue") {
        Some(Color::Blue)
    } else if chars_eq_str(v, "purple") {
        Some(Color::Purple)
    } else if chars_eq_str(v, "pink") {
        Some(Color::Pink)
    } else {
        None
    }
}

/// Proves that hexadecimal digits read back as the value they were written for.
pub proof fn lemma_hex_digit_value(n: int)
    requires
        0 <= n < 16,
    ensures
        hex_value(hex_digit(n)) == Some(n as u8),
{
}

/// Proves that the two digits written for a byte read back as that byte.
pub proof fn lemma_hex_byte_roundtrip(b: u8)
    ensures
        hex_pair(hex_byte(b)[0], hex_byte(b)[1]) == Some(b),
{
    lemma_hex_digit_value((b / 16) as int);
    lemma_hex_digit_value((b % 16) as int);
}

/// A color written as `rrggbb` (its serialized form) reads back as a color
/// with the same red, green and blue channels.
pub proof fn law_hex_roundtrip(c: Color)
    ensures
        spec_parse_color(spec_hex(c)) matches Some(d) && spec_rgb(d) == spec_rgb(c),
{
    let (r, g, b) = spec_rgb(c);
    let s = spec_hex(c);
    lemma_hex_byte_roundtrip(r);
    lemma_hex_byte_roundtrip(g);
    lemma_hex_byte_roundtrip(b);
    assert(s[0] == hex_byte(r)[0] && s[1] == hex_byte(r)[1]);
    assert(s[2] == hex_byte(g)[0] && s[3] == hex_byte(g)[1]);
    assert(s[4] == hex_byte(b)[0] && s[5] == hex_byte(b)[1]);
    assert(s[0] != '#');
    assert(parse_hex6(s) == Some(Color::Rgb(r, g, b)));
}

/// The period over which downloads are counted.
#[derive(Clone, Copy, Debug, PartialEq, Eq, Structural)]
pub enum Period {
    Week,
    Month,
    Year,
    Total,
}

/// The badge style: `Flat` has rounded corners by default and a light gloss,
/// `Square` has sharp corners and no gloss.
#[derive(Clone, Copy, Debug, PartialEq, Eq, Structural)]
pub enum Style {
    Flat,
    Square,
}

/// `String::push` appends one character.
pub assume_specification[ String::push ](s: &mut String, ch: char)
    ensures
        final(s)@ == old(s)@.push(ch),
;

} // verus!
