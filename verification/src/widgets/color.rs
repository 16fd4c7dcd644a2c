//! Color specifiers and the colors they stand for.
//!
//! A specifier is either one of the color names `red` and `black`, or a `#`
//! followed by exactly six hexadecimal digits, read as `#RRGGBB`.

use vstd::prelude::*;
use vstd::string::*;

verus! {

/// An opaque color. Each channel is the numerator of a fraction over 255:
/// `255` is full intensity (`1.0`), `0` is none.
#[derive(Clone, Copy, Debug, PartialEq, Eq, Structural)]
pub struct Rgb {
    pub r: u8,
    pub g: u8,
    pub b: u8,
}

/// Why a color specifier was rejected.
#[derive(Clone, Copy, Debug, PartialEq, Eq, Structural)]
pub enum ColorError {
    /// The specifier is neither a known color name nor of the form `#RRGGBB`.
    WrongColorCode,
}

/// Whether `c` is a hexadecimal digit, in either case.
pub open spec fn is_hex_digit(c: char) -> bool {
    ('0' <= c <= '9') || ('a' <= c <= 'f') || ('A' <= c <= 'F')
}

/// The value of the hexadecimal digit `c`.
pub open spec fn hex_digit_value(c: char) -> int
    recommends
        is_hex_digit(c),
{
    if '0' <= c <= '9' {
        c as int - '0' as int
    } else if 'a' <= c <= 'f' {
        c as int - 'a' as int + 10
    } else {
        c as int - 'A' as int + 10
    }
}

/// The number that two hexadecimal digits write, most significant first.
pub open spec fn hex_pair_value(high: char, low: char) -> int
    recommends
        is_hex_digit(high),
        is_hex_digit(low),
{
    16 * hex_digit_value(high) + hex_digit_value(low)
}

/// Two hexadecimal digits write a number from 0 to 255: each channel of a
/// color holds exactly what its two digits write.
pub proof fn lemma_hex_pair_fits_channel(high: char, low: char)
    requires
        is_hex_digit(high),
        is_hex_digit(low),
    ensures
        0 <= hex_pair_value(high, low) <= 255,
        hex_pair_value(high, low) as u8 == hex_pair_value(high, low),
{
}

/// Whether `code` has the form `#RRGGBB`: seven characters, a `#` and then
/// six hexadecimal digits.
pub open spec fn is_hex_color(code: Seq<char>) -> bool {
    &&& code.len() == 7
    &&& code[0] == '#'
    &&& forall|i: int| 1 <= i < 7 ==> is_hex_digit(#[trigger] code[i])
}

/// The color that a specifier of the form `#RRGGBB` stands for.
pub open spec fn hex_color(code: Seq<char>) -> Rgb
    recommends
        is_hex_color(code),
{
    Rgb {
        r: hex_pair_value(code[1], code[2]) as u8,
        g: hex_pair_value(code[3], code[4]) as u8,
        b: hex_pair_value(code[5], code[6]) as u8,
    }
}

/// The color that a color name stands for, if `code` is one.
pub open spec fn named_color(code: Seq<char>) -> Option<Rgb> {
    if code == "red"@ {
        Some(Rgb { r: 255, g: 0, b: 0 })
    } else if code == "black"@ {
        Some(Rgb { r: 0, g: 0, b: 0 })
    } else {
        None
    }
}

/// What a color specifier resolves to: the color of a name, the color of a
/// `#RRGGBB` form, and an error for every other string.
pub open spec fn parsed_color(code: Seq<char>) -> Result<Rgb, ColorError> {
    match named_color(code) {
        Some(color) => Ok(color),
        None => if is_hex_color(code) {
            Ok(hex_color(code))
        } else {
            Err(ColorError::WrongColorCode)
        },
    }
}

/// Whether two strings hold the same characters.
fn same_text(a: &str, b: &str) -> (same: bool)
    ensures
        same == (a@ == b@),
{
    let len: usize = a.unicode_len();
    if len != b.unicode_len() {
        return false;
    }
    let mut i: usize = 0;
    while i < len
        invariant
            i <= len,
            len == a@.len(),
            len == b@.len(),
            forall|j: int| 0 <= j < i ==> a@[j] == b@[j],
        decreases len - i,
    {
        if a.get_char(i) != b.get_char(i) {
            return false;
        }
        i = i + 1;
    }
    assert(a@ =~= b@);
    true
}

/// Reads one hexadecimal digit.
fn hex_digit(c: char) -> (digit: Option<u8>)
    ensures
        digit is Some <==> is_hex_digit(c),
        digit matches Some(v) ==> v == hex_digit_value(c) && v < 16,
{
    if '0' <= c && c <= '9' {
        Some((c as u32 - '0' as u32) as u8)
    } else if 'a' <= c && c <= 'f' {
        Some((c as u32 - 'a' as u32 + 10) as u8)
    } else if 'A' <= c && c <= 'F' {
        Some((c as u32 - 'A' as u32 + 10) as u8)
    } else {
        None
    }
}

/// Reads the two hexadecimal digits of `code` that start at index `at`.
fn hex_pair(code: &str, at: usize) -> (value: Option<u8>)
    requires
        at + 1 < code@.len() <= usize::MAX,
    ensures
        value is Some <==> is_hex_digit(code@[at as int]) && is_hex_digit(code@[at + 1]),
        value matches Some(v) ==> v == hex_pair_value(code@[at as int], code@[at + 1]),
{
    match (hex_digit(code.get_char(at)), hex_digit(code.get_char(at + 1))) {
        (Some(high), Some(low)) => Some(16 * high + low),
        _ => None,
    }
}

/// Resolves a color specifier.
///
/// `red` and `black` are the known names. Any other specifier must be a `#`
/// followed by exactly six hexadecimal digits, two for each of the red, green
/// and blue channels. Every other string is rejected.
pub fn parse_color(color_code: &str) -> (res: Result<Rgb, ColorError>)
    ensures
        res == parsed_color(color_code@),
        res is Ok <==> color_code@ == "red"@ || color_code@ == "black"@ || is_hex_color(
            color_code@,
        ),
{
    if same_text(color_code, "red") {
        return Ok(Rgb { r: 255, g: 0, b: 0 });
    }
    if same_text(color_code, "black") {
        return Ok(Rgb { r: 0, g: 0, b: 0 });
    }
    if color_code.unicode_len() != 7 || color_code.get_char(0) != '#' {
        return Err(ColorError::WrongColorCode);
    }
    match (hex_pair(color_code, 1), hex_pair(color_code, 3), hex_pair(color_code, 5)) {
        (Some(r), Some(g), Some(b)) => Ok(Rgb { r, g, b }),
        _ => Err(ColorError::WrongColorCode),
    }
}

} // verus!
