//! A four-channel 8-bit color and its parsing from hexadecimal codes.
use vstd::prelude::*;
use vstd::string::StringSliceAdditionalSpecFns;

verus! {

/// An RGBA color with one byte per channel.
#[derive(Clone, Copy, Debug, PartialEq, Eq, Structural)]
pub struct Color {
    pub r: u8,
    pub g: u8,
    pub b: u8,
    pub a: u8,
}

/// Why a hexadecimal color code was rejected.
#[derive(Clone, Copy, Debug, PartialEq, Eq, Structural)]
pub enum ColorParseError {
    InvalidLength,
    InvalidHex,
}

/// The value of one ASCII hexadecimal digit, if `c` is one.
pub open spec fn hex_digit(c: u8) -> Option<u8> {
    if 48 <= c <= 57 {
        Some((c - 48) as u8)
    } else if 97 <= c <= 102 {
        Some((c - 87) as u8)
    } else if 65 <= c <= 70 {
        Some((c - 55) as u8)
    } else {
        None
    }
}

/// The byte written by two characters in base 16, as the standard library reads
/// an unsigned integer: an optional leading `+` and then hexadecimal digits.
pub open spec fn hex_pair(hi: u8, lo: u8) -> Option<u8> {
    match (hex_digit(hi), hex_digit(lo)) {
        (Some(h), Some(l)) => Some((h * 16 + l) as u8),
        (None, Some(l)) => if hi == 43 { Some(l) } else { None },
        _ => None,
    }
}

/// The channel written at `i` in a code of one digit per channel (the digit doubled),
/// or of two digits per channel.
pub open spec fn hex_channel(s: Seq<u8>, i: int, short: bool) -> Option<u8> {
    if short {
        hex_pair(s[i], s[i])
    } else {
        hex_pair(s[2 * i], s[2 * i + 1])
    }
}

/// The code without one leading `#`.
pub open spec fn strip_hash(s: Seq<u8>) -> Seq<u8> {
    if s.len() > 0 && s[0] == 35 {
        s.subrange(1, s.len() as int)
    } else {
        s
    }
}

/// What a hexadecimal color code denotes: `RGB`, `RGBA`, `RRGGBB` or `RRGGBBAA`,
/// with an optional leading `#`; alpha is opaque where the code gives none.
pub open spec fn parse_hex(code: Seq<u8>) -> Result<Color, ColorParseError> {
    let s = strip_hash(code);
    let n = s.len();
    if !(n == 3 || n == 4 || n == 6 || n == 8) {
        Err(ColorParseError::InvalidLength)
    } else {
        let short = n == 3 || n == 4;
        let has_alpha = n == 4 || n == 8;
        let r = hex_channel(s, 0, short);
        let g = hex_channel(s, 1, short);
        let b = hex_channel(s, 2, short);
        let a = if has_alpha { hex_channel(s, 3, short) } else { Some(255u8) };
        if r.is_some() && g.is_some() && b.is_some() && a.is_some() {
            Ok(Color { r: r.unwrap(), g: g.unwrap(), b: b.unwrap(), a: a.unwrap() })
        } else {
            Err(ColorParseError::InvalidHex)
        }
    }
}

fn hex_digit_value(c: u8) -> (r: Option<u8>)
    ensures
        r == hex_digit(c),
{
    if 48 <= c && c <= 57 {
        Some(c - 48)
    } else if 97 <= c && c <= 102 {
        Some(c - 87)
    } else if 65 <= c && c <= 70 {
        Some(c - 55)
    } else {
        None
    }
}

fn hex_pair_value(hi: u8, lo: u8) -> (r: Option<u8>)
    ensures
        r == hex_pair(hi, lo),
{
    match (hex_digit_value(hi), hex_digit_value(lo)) {
        (Some(h), Some(l)) => Some(h * 16 + l),
        (None, Some(l)) => if hi == 43 { Some(l) } else { None },
        _ => None,
    }
}

fn hex_channel_value(s: &[u8], i: usize, short: bool) -> (r: Option<u8>)
    requires
        i < 4,
        if short { i < s@.len() } else { 2 * i + 1 < s@.len() },
    ensures
        r == hex_channel(s@, i as int, short),
{
    if short {
        hex_pair_value(s[i], s[i])
    } else {
        hex_pair_value(s[2 * i], s[2 * i + 1])
    }
}

impl Color {
    /// The channels in the order red, green, blue, alpha.
    pub open spec fn channels(self) -> Seq<u8> {
        seq![self.r, self.g, self.b, self.a]
    }

    pub open spec fn rgba(r: u8, g: u8, b: u8, a: u8) -> Color {
        Color { r, g, b, a }
    }

    /// Opaque black, also the color given where a palette has no entry.
    pub fn black() -> (c: Self)
        ensures
            c == Color::rgba(0, 0, 0, 255),
    {
        Color { r: 0, g: 0, b: 0, a: 255 }
    }

    pub fn white() -> (c: Self)
        ensures
            c == Color::rgba(255, 255, 255, 255),
    {
        Color { r: 255, g: 255, b: 255, a: 255 }
    }

    pub fn red_color() -> (c: Self)
        ensures
            c == Color::rgba(255, 0, 0, 255),
    {
        Color { r: 255, g: 0, b: 0, a: 255 }
    }

    pub fn green_color() -> (c: Self)
        ensures
            c == Color::rgba(0, 255, 0, 255),
    {
        Color { r: 0, g: 255, b: 0, a: 255 }
    }

    pub fn blue_color() -> (c: Self)
        ensures
            c == Color::rgba(0, 0, 255, 255),
    {
        Color { r: 0, g: 0, b: 255, a: 255 }
    }

    pub fn new(r: u8, g: u8, b: u8, a: u8) -> (c: Self)
        ensures
            c == Color::rgba(r, g, b, a),
    {
        Color { r, g, b, a }
    }

    /// An opaque color.
    pub fn from_rgb(r: u8, g: u8, b: u8) -> (c: Self)
        ensures
            c == Color::rgba(r, g, b, 255),
    {
        Color { r, g, b, a: 255 }
    }

    /// Parses `RGB`, `RGBA`, `RRGGBB` or `RRGGBBAA` in base 16, after an optional `#`.
    pub fn from_hex(code: &str) -> (res: Result<Self, ColorParseError>)
        ensures
            res == parse_hex(code.spec_bytes()),
    {
        let bytes = code.as_bytes();
        let s: &[u8] = if bytes.len() > 0 && bytes[0] == 35 {
            vstd::slice::slice_subrange(bytes, 1, bytes.len())
        } else {
            bytes
        };
        assert(s@ == strip_hash(code.spec_bytes()));
        let n = s.len();
        if !(n == 3 || n == 4 || n == 6 || n == 8) {
            return Err(ColorParseError::InvalidLength);
        }
        let short = n == 3 || n == 4;
        let r = hex_channel_value(s, 0, short);
        let g = hex_channel_value(s, 1, short);
        let b = hex_channel_value(s, 2, short);
        let a = if n == 4 || n == 8 {
            hex_channel_value(s, 3, short)
        } else {
            Some(255u8)
        };
        match (r, g, b, a) {
            (Some(r), Some(g), Some(b), Some(a)) => Ok(Color { r, g, b, a }),
            _ => Err(ColorParseError::InvalidHex),
        }
    }

    pub fn get_r(&self) -> (v: u8)
        ensures
            v == self.r,
    {
        self.r
    }

    pub fn get_g(&self) -> (v: u8)
        ensures
            v == self.g,
    {
        self.g
    }

    pub fn get_b(&self) -> (v: u8)
        ensures
            v == self.b,
    {
        self.b
    }

    pub fn get_a(&self) -> (v: u8)
        ensures
            v == self.a,
    {
        self.a
    }

    pub fn set_r(&mut self, v: u8)
        ensures
            *final(self) == (Color { r: v, ..*old(self) }),
    {
        self.r = v;
    }

    pub fn set_g(&mut self, v: u8)
        ensures
            *final(self) == (Color { g: v, ..*old(self) }),
    {
        self.g = v;
    }

    pub fn set_b(&mut self, v: u8)
        ensures
            *final(self) == (Color { b: v, ..*old(self) }),
    {
        self.b = v;
    }

    pub fn set_a(&mut self, v: u8)
        ensures
            *final(self) == (Color { a: v, ..*old(self) }),
    {
        self.a = v;
    }

    /// The four channel bytes, red first.
    pub fn as_rgba(&self) -> (bytes: [u8; 4])
        ensures
            bytes@ == self.channels(),
    {
        let bytes = [self.r, self.g, self.b, self.a];
        assert(bytes@ =~= self.channels());
        bytes
    }
}

} // verus!
