//! Colours written as hexadecimal digits.

use vstd::prelude::*;
use vstd::string::StrSliceExecFns;
use vstd::string::StringSliceAdditionalSpecFns;

verus! {

/// The value of a hexadecimal digit.
pub open spec fn spec_hex_char_value(c: char) -> Option<u8> {
    if '0' <= c <= '9' {
        Some((c as u32 - 48) as u8)
    } else if 'A' <= c <= 'F' {
        Some((c as u32 - 55) as u8)
    } else if 'a' <= c <= 'f' {
        Some((c as u32 - 87) as u8)
    } else {
        None
    }
}

/// The byte whose two hexadecimal digits are both the digit at place
/// `pos`.
pub open spec fn spec_hex_single(from: Seq<char>, pos: int) -> Option<u8> {
    if 0 <= pos < from.len() {
        match spec_hex_char_value(from[pos]) {
            Some(a) => Some((a * 17) as u8),
            None => None,
        }
    } else {
        None
    }
}

/// The byte whose two hexadecimal digits are the digits at the places
/// `pos` and `pos + 1`.
pub open spec fn spec_hex_pair(from: Seq<char>, pos: int) -> Option<u8> {
    if 0 <= pos && pos + 1 < from.len() {
        match (spec_hex_char_value(from[pos]), spec_hex_char_value(from[pos + 1])) {
            (Some(a), Some(b)) => Some((a * 16 + b) as u8),
            _ => None,
        }
    } else {
        None
    }
}

/// The four bytes that all are there.
pub open spec fn spec_rgba(r: Option<u8>, g: Option<u8>, b: Option<u8>, a: Option<u8>) -> Option<[u8; 4]> {
    match (r, g, b, a) {
        (Some(r), Some(g), Some(b), Some(a)) => Some([r, g, b, a]),
        _ => None,
    }
}

/// Red, green, blue and alpha of the colour that `len` bytes of digits
/// stand for: three digits are one digit per channel, six are two per
/// channel, both with full alpha, and eight give the alpha too. Of four
/// digits the alpha is read from the fifth place, which such a string does
/// not have, so that they stand for no colour.
pub open spec fn spec_parse_hex_str(v: Seq<char>, len: int) -> Option<[u8; 4]> {
    if len == 3 {
        spec_rgba(spec_hex_single(v, 0), spec_hex_single(v, 1), spec_hex_single(v, 2), Some(255u8))
    } else if len == 4 {
        spec_rgba(
            spec_hex_single(v, 0),
            spec_hex_single(v, 1),
            spec_hex_single(v, 2),
            spec_hex_single(v, 4),
        )
    } else if len == 6 {
        spec_rgba(spec_hex_pair(v, 0), spec_hex_pair(v, 2), spec_hex_pair(v, 4), Some(255u8))
    } else if len == 8 {
        spec_rgba(spec_hex_pair(v, 0), spec_hex_pair(v, 2), spec_hex_pair(v, 4), spec_hex_pair(v, 6))
    } else {
        None
    }
}

pub fn hex_char_value(c: char) -> (r: Option<u8>)
    ensures
        r == spec_hex_char_value(c),
        r matches Some(a) ==> a < 16,
{
    if c >= '0' && c <= '9' {
        Some((c as u32 - 48) as u8)
    } else if c >= 'A' && c <= 'F' {
        Some((c as u32 - 55) as u8)
    } else if c >= 'a' && c <= 'f' {
        Some((c as u32 - 87) as u8)
    } else {
        None
    }
}

/// The character at place `pos`, if the string has one there.
fn char_at(from: &str, pos: usize) -> (r: Option<char>)
    ensures
        r == (if pos < from@.len() {
            Some(from@[pos as int])
        } else {
            None
        }),
{
    if pos < from.unicode_len() {
        Some(from.get_char(pos))
    } else {
        None
    }
}

pub fn parse_hex_single(from: &str, pos: usize) -> (r: Option<u8>)
    ensures
        r == spec_hex_single(from@, pos as int),
{
    let c = match char_at(from, pos) {
        Some(c) => c,
        None => {
            return None;
        },
    };
    let a = match hex_char_value(c) {
        Some(a) => a,
        None => {
            return None;
        },
    };
    assert((a << 4 | a) == a * 17) by (bit_vector)
        requires
            a < 16,
    ;
    Some(a << 4 | a)
}

pub fn parse_hex_pair(from: &str, pos: usize) -> (r: Option<u8>)
    ensures
        r == spec_hex_pair(from@, pos as int),
{
    if pos == usize::MAX {
        let _ = from.unicode_len();
        return None;
    }
    let c = match char_at(from, pos) {
        Some(c) => c,
        None => {
            return None;
        },
    };
    let a = match hex_char_value(c) {
        Some(a) => a,
        None => {
            let _ = char_at(from, pos + 1);
            return None;
        },
    };
    let d = match char_at(from, pos + 1) {
        Some(d) => d,
        None => {
            return None;
        },
    };
    let b = match hex_char_value(d) {
        Some(b) => b,
        None => {
            return None;
        },
    };
    assert((a << 4 | b) == a * 16 + b) by (bit_vector)
        requires
            a < 16,
            b < 16,
    ;
    Some(a << 4 | b)
}

fn rgba(r: Option<u8>, g: Option<u8>, b: Option<u8>, a: Option<u8>) -> (res: Option<[u8; 4]>)
    ensures
        res == spec_rgba(r, g, b, a),
{
    match (r, g, b, a) {
        (Some(r), Some(g), Some(b), Some(a)) => Some([r, g, b, a]),
        _ => None,
    }
}

/// Reads a colour from hexadecimal digits. The number of digits is taken
/// to be the length of the string in bytes.
pub fn parse_hex_str(v: &str) -> (r: Option<[u8; 4]>)
    ensures
        r == spec_parse_hex_str(v@, v.spec_bytes().len() as int),
{
    let len = v.as_bytes().len();
    if len == 3 {
        rgba(parse_hex_single(v, 0), parse_hex_single(v, 1), parse_hex_single(v, 2), Some(255))
    } else if len == 4 {
        rgba(parse_hex_single(v, 0), parse_hex_single(v, 1), parse_hex_single(v, 2), parse_hex_single(v, 4))
    } else if len == 6 {
        rgba(parse_hex_pair(v, 0), parse_hex_pair(v, 2), parse_hex_pair(v, 4), Some(255))
    } else if len == 8 {
        rgba(parse_hex_pair(v, 0), parse_hex_pair(v, 2), parse_hex_pair(v, 4), parse_hex_pair(v, 6))
    } else {
        None
    }
}

/// Why a string is no hexadecimal colour.
#[derive(Clone, Copy, Debug, PartialEq, Eq, Structural)]
pub enum HexColorError {
    /// The string does not start with `#`.
    MissingHash,
    /// What follows the `#` stands for no colour.
    InvalidValue,
}

impl HexColorError {
    /// The message of the error.
    pub fn message(&self) -> (r: &'static str)
        ensures
            r@ == match *self {
                HexColorError::MissingHash => "hex color must start with a '#' char"@,
                HexColorError::InvalidValue => "invalid hex color value"@,
            },
    {
        match self {
            HexColorError::MissingHash => "hex color must start with a '#' char",
            HexColorError::InvalidValue => "invalid hex color value",
        }
    }
}

/// What `str::trim` leaves of a string.
pub uninterp spec fn spec_trim(s: Seq<char>) -> Seq<char>;

/// `str::trim`: the string without the white space at its start and end.
#[verifier::external_body]
fn trim(s: &str) -> (r: &str)
    ensures
        r@ == spec_trim(s@),
{
    s.trim()
}

/// The colour that a string stands for which has no white space around
/// it: the string must start with `#`, and the digits after it, which must
/// all be ASCII, must stand for a colour.
pub open spec fn spec_hex_color(v: Seq<char>) -> Result<[u8; 4], HexColorError> {
    if v.len() == 0 || v[0] != '#' {
        Err(HexColorError::MissingHash)
    } else if !vstd::utf8::is_ascii_chars(v) {
        Err(HexColorError::InvalidValue)
    } else {
        match spec_parse_hex_str(v.subrange(1, v.len() as int), v.len() - 1) {
            Some(c) => Ok(c),
            None => Err(HexColorError::InvalidValue),
        }
    }
}

/// Reads a colour from a string that has no white space around it.
pub fn parse_trimmed_hex_color(v: &str) -> (r: Result<[u8; 4], HexColorError>)
    ensures
        r == spec_hex_color(v@),
{
    match char_at(v, 0) {
        Some(c) => {
            if c != '#' {
                return Err(HexColorError::MissingHash);
            }
        },
        None => {
            return Err(HexColorError::MissingHash);
        },
    }
    if !v.is_ascii() {
        return Err(HexColorError::InvalidValue);
    }
    let n = v.unicode_len();
    let rest = v.substring_ascii(1, n);
    proof {
        vstd::string::is_ascii_spec_bytes(rest);
    }
    match parse_hex_str(rest) {
        Some(c) => Ok(c),
        None => Err(HexColorError::InvalidValue),
    }
}

/// Reads a colour from a string: `#` and three, six or eight hexadecimal
/// digits, with white space around them left out of account.
pub fn parse_hex_color(v: &str) -> (r: Result<[u8; 4], HexColorError>)
    ensures
        r == spec_hex_color(spec_trim(v@)),
{
    parse_trimmed_hex_color(trim(v))
}

/// A colour packed into 32 bits: alpha in the highest byte, then blue,
/// green, and red in the lowest.
#[derive(Clone, Copy, Debug, PartialEq, Eq, Structural)]
pub struct DecimalColor(pub u32);

impl DecimalColor {
    /// Red, green, blue and alpha of the colour.
    pub fn to_rgba(self) -> (r: [u8; 4])
        ensures
            r[0] == self.0 % 256,
            r[1] == (self.0 / 256) % 256,
            r[2] == (self.0 / 65536) % 256,
            r[3] == self.0 / 16777216,
    {
        let v = self.0;
        [(v % 256) as u8, ((v / 256) % 256) as u8, ((v / 65536) % 256) as u8, (v / 16777216) as u8]
    }
}

} // verus!
