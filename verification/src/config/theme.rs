//! The colour theme: colours written as six hexadecimal digits, the sixteen
//! colours and four special ones that a theme defines, and which of them
//! each part of the screen uses.

use vstd::prelude::*;
use vstd::string::*;
use vstd::utf8::{encode_utf8, is_ascii_chars, is_ascii_chars_encode_utf8};
use std::num::ParseIntError;
use crate::config::v1;
use crate::config::yaml_theme::{
    YAMLTheme,
    YAMLThemeColors,
    YAMLThemeBright,
    YAMLThemeCursor,
    YAMLThemeNormal,
    YAMLThemePrimary,
};
use crate::text::{concat, decimal, decimal_text, int_error_text};

verus! {

/// `text` without the `#`s it begins with.
pub open spec fn trim_hashes(text: Seq<char>) -> Seq<char>
    decreases text.len(),
{
    if text.len() > 0 && text[0] == '#' {
        trim_hashes(text.drop_first())
    } else {
        text
    }
}

/// The value of one hexadecimal digit.
pub open spec fn hex_digit(c: char) -> Option<int> {
    if '0' <= c <= '9' {
        Some(c as int - '0' as int)
    } else if 'a' <= c <= 'f' {
        Some(c as int - 'a' as int + 10)
    } else if 'A' <= c <= 'F' {
        Some(c as int - 'A' as int + 10)
    } else {
        None
    }
}

/// The number that a row of hexadecimal digits writes; `None` for an empty
/// row and for one that holds anything but hexadecimal digits.
pub open spec fn hex_number(digits: Seq<char>) -> Option<int>
    decreases digits.len(),
{
    if digits.len() == 0 {
        None
    } else if digits.len() == 1 {
        hex_digit(digits[0])
    } else {
        match (hex_number(digits.drop_last()), hex_digit(digits.last())) {
            (Some(high), Some(low)) => Some(16 * high + low),
            _ => None,
        }
    }
}

/// The byte that `text` writes in base 16: an optional `+`, then one or more
/// hexadecimal digits whose number is at most 255.
pub open spec fn parse_hex_u8(text: Seq<char>) -> Option<u8> {
    match hex_number(
        if text.len() > 0 && text[0] == '+' {
            text.drop_first()
        } else {
            text
        },
    ) {
        Some(v) => if v <= 255 {
            Some(v as u8)
        } else {
            None
        },
        None => None,
    }
}

/// `u8::from_str_radix` with radix 16: the text is an optional `+` followed
/// by hexadecimal digits only, at least one, and their number fits a byte;
/// anything else is an error.
#[verifier::external_body]
fn hex_u8(text: &str) -> (r: Result<u8, ParseIntError>)
    ensures
        r is Ok <==> parse_hex_u8(text@) is Some,
        r matches Ok(v) ==> parse_hex_u8(text@) == Some(v),
{
    u8::from_str_radix(text, 16)
}

/// A pair of characters of which one is neither a hexadecimal digit nor a
/// sign writes no byte.
proof fn lemma_pair_needs_hex(pair: Seq<char>, k: int)
    requires
        pair.len() == 2,
        0 <= k < 2,
        hex_digit(pair[k]) is None,
        pair[k] != '+',
    ensures
        parse_hex_u8(pair) is None,
{
    reveal_with_fuel(hex_number, 3);
    assert(pair.drop_first().len() == 1);
    assert(pair.drop_first()[0] == pair[1]);
    assert(pair.drop_last().len() == 1);
    assert(pair.drop_last()[0] == pair[0]);
}

/// Two hexadecimal digits write the byte `16 * high + low`.
proof fn lemma_pair_value(pair: Seq<char>)
    requires
        pair.len() == 2,
        hex_digit(pair[0]) is Some,
        hex_digit(pair[1]) is Some,
    ensures
        parse_hex_u8(pair) == Some((16 * hex_digit(pair[0])->0 + hex_digit(pair[1])->0) as u8),
{
    reveal_with_fuel(hex_number, 3);
    assert(pair.drop_last().len() == 1);
    assert(pair.drop_last()[0] == pair[0]);
}

/// A colour as red, green and blue.
#[derive(Debug, Copy, Clone, PartialEq, Eq, Structural)]
pub struct ThemeColor {
    pub r: u8,
    pub g: u8,
    pub b: u8,
}

/// Why a text is not a colour.
#[derive(Debug, Clone, PartialEq)]
pub enum ThemeColorParseError {
    /// One of the three pairs of characters writes no byte in base 16.
    ParseIntError(ParseIntError),
    /// The text, without the `#`s it begins with, is this many bytes long
    /// and not 6.
    IncorrectLength(usize),
}

/// The colour that six characters write, two for each of red, green and
/// blue.
pub open spec fn parse_color(text: Seq<char>) -> Option<ThemeColor> {
    if text.len() == 6 {
        match (
            parse_hex_u8(text.subrange(0, 2)),
            parse_hex_u8(text.subrange(2, 4)),
            parse_hex_u8(text.subrange(4, 6)),
        ) {
            (Some(r), Some(g), Some(b)) => Some(ThemeColor { r, g, b }),
            _ => None,
        }
    } else {
        None
    }
}

/// The colour that `val` writes: any number of `#`, then six bytes of
/// text that [`parse_color`] takes.
pub open spec fn from_hex_spec(val: Seq<char>) -> Option<ThemeColor> {
    if encode_utf8(trim_hashes(val)).len() == 6 {
        parse_color(trim_hashes(val))
    } else {
        None
    }
}

/// The lower-case hexadecimal digit for `n`.
pub open spec fn hex_char(n: int) -> char {
    if n == 0 {
        '0'
    } else if n == 1 {
        '1'
    } else if n == 2 {
        '2'
    } else if n == 3 {
        '3'
    } else if n == 4 {
        '4'
    } else if n == 5 {
        '5'
    } else if n == 6 {
        '6'
    } else if n == 7 {
        '7'
    } else if n == 8 {
        '8'
    } else if n == 9 {
        '9'
    } else if n == 10 {
        'a'
    } else if n == 11 {
        'b'
    } else if n == 12 {
        'c'
    } else if n == 13 {
        'd'
    } else if n == 14 {
        'e'
    } else {
        'f'
    }
}

/// `#` and the six lower-case hexadecimal digits of a colour.
pub open spec fn hex_text(c: ThemeColor) -> Seq<char> {
    seq![
        '#',
        hex_char(c.r as int / 16),
        hex_char(c.r as int % 16),
        hex_char(c.g as int / 16),
        hex_char(c.g as int % 16),
        hex_char(c.b as int / 16),
        hex_char(c.b as int % 16),
    ]
}

/// The lower-case hexadecimal digit for `n`.
fn hex_char_exec(n: u8) -> (c: char)
    requires
        n < 16,
    ensures
        c == hex_char(n as int),
{
    if n == 0 {
        '0'
    } else if n == 1 {
        '1'
    } else if n == 2 {
        '2'
    } else if n == 3 {
        '3'
    } else if n == 4 {
        '4'
    } else if n == 5 {
        '5'
    } else if n == 6 {
        '6'
    } else if n == 7 {
        '7'
    } else if n == 8 {
        '8'
    } else if n == 9 {
        '9'
    } else if n == 10 {
        'a'
    } else if n == 11 {
        'b'
    } else if n == 12 {
        'c'
    } else if n == 13 {
        'd'
    } else if n == 14 {
        'e'
    } else {
        'f'
    }
}

/// `text` without the `#`s it begins with.
fn trim_start_hashes(text: &str) -> (r: &str)
    ensures
        r@ == trim_hashes(text@),
{
    let n: usize = text.unicode_len();
    let mut i: usize = 0;
    assert(text@.subrange(0, n as int) =~= text@);
    while i < n && text.get_char(i) == '#'
        invariant
            i <= n,
            n == text@.len(),
            trim_hashes(text@) == trim_hashes(text@.subrange(i as int, n as int)),
        decreases n - i,
    {
        assert(text@.subrange(i as int, n as int).drop_first() =~= text@.subrange(
            i as int + 1,
            n as int,
        ));
        i += 1;
    }
    text.substring_char(i, n)
}

/// What parsing the first character of `text` beyond the ASCII range
/// gives: an error.
fn parse_beyond_ascii(text: &str) -> (r: Result<u8, ParseIntError>)
    requires
        !is_ascii_chars(text@),
    ensures
        r is Err,
{
    let n: usize = text.unicode_len();
    let mut i: usize = 0;
    while i < n && text.get_char(i) <= '\u{7f}'
        invariant
            i <= n,
            n == text@.len(),
            forall|j: int| 0 <= j < i ==> '\0' <= #[trigger] text@[j] <= '\u{7f}',
        decreases n - i,
    {
        i += 1;
    }
    if i >= n {
        assert(is_ascii_chars(text@));
        return Ok(0);
    }
    let piece = text.substring_char(i, i + 1);
    proof {
        reveal_with_fuel(hex_number, 2);
        assert(piece@.len() == 1);
        assert(piece@[0] == text@[i as int]);
    }
    hex_u8(piece)
}

impl ThemeColor {
    /// Reads a colour from `val`: any number of `#`, then six characters,
    /// two for each of red, green and blue, each pair a byte in base 16.
    /// A text that is not 6 bytes long after its `#`s is refused with
    /// `IncorrectLength` and that length; one of 6 bytes in which a pair
    /// writes no byte is refused with `ParseIntError`.
    pub fn from_hex(val: &str) -> (r: Result<ThemeColor, ThemeColorParseError>)
        ensures
            r matches Ok(c) <==> from_hex_spec(val@) is Some,
            r matches Ok(c) ==> from_hex_spec(val@) == Some(c),
            r matches Err(ThemeColorParseError::IncorrectLength(n)) <==> encode_utf8(
                trim_hashes(val@),
            ).len() != 6,
            r matches Err(ThemeColorParseError::IncorrectLength(n)) ==> n == encode_utf8(
                trim_hashes(val@),
            ).len(),
            r matches Err(ThemeColorParseError::ParseIntError(_)) <==> encode_utf8(
                trim_hashes(val@),
            ).len() == 6 && parse_color(trim_hashes(val@)) is None,
    {
        let without_prefix = trim_start_hashes(val);
        let ghost text = without_prefix@;
        let n: usize = without_prefix.as_bytes().len();
        if n != 6 {
            return Err(ThemeColorParseError::IncorrectLength(n));
        }
        if !without_prefix.is_ascii() {
            proof {
                if text.len() == 6 {
                    let k = choose|k: int| 0 <= k < 6 && !('\0' <= #[trigger] text[k] <= '\u{7f}');
                    let pair = text.subrange(2 * (k / 2), 2 * (k / 2) + 2);
                    assert(pair[k % 2] == text[k]);
                    lemma_pair_needs_hex(pair, k % 2);
                }
            }
            return match parse_beyond_ascii(without_prefix) {
                Ok(v) => Ok(ThemeColor { r: v, g: v, b: v }),
                Err(e) => Err(ThemeColorParseError::ParseIntError(e)),
            };
        }
        proof {
            is_ascii_chars_encode_utf8(text);
        }
        let r: u8 = match hex_u8(without_prefix.substring_ascii(0, 2)) {
            Ok(v) => v,
            Err(e) => {
                return Err(ThemeColorParseError::ParseIntError(e));
            },
        };
        let g: u8 = match hex_u8(without_prefix.substring_ascii(2, 4)) {
            Ok(v) => v,
            Err(e) => {
                return Err(ThemeColorParseError::ParseIntError(e));
            },
        };
        let b: u8 = match hex_u8(without_prefix.substring_ascii(4, 6)) {
            Ok(v) => v,
            Err(e) => {
                return Err(ThemeColorParseError::ParseIntError(e));
            },
        };
        Ok(ThemeColor { r, g, b })
    }

    /// Writes the colour as `#` and six lower-case hexadecimal digits.
    pub fn to_hex(&self) -> (r: String)
        ensures
            r@ == hex_text(*self),
    {
        let mut r = String::new();
        r.push('#');
        r.push(hex_char_exec(self.r / 16));
        r.push(hex_char_exec(self.r % 16));
        r.push(hex_char_exec(self.g / 16));
        r.push(hex_char_exec(self.g % 16));
        r.push(hex_char_exec(self.b / 16));
        r.push(hex_char_exec(self.b % 16));
        assert(r@ =~= hex_text(*self));
        r
    }
}

/// A colour that was written is read back as the same colour.
pub proof fn lemma_hex_round_trip(c: ThemeColor)
    ensures
        from_hex_spec(hex_text(c)) == Some(c),
{
    let text = hex_text(c);
    let digits = text.drop_first();
    assert(digits.len() == 6);
    assert(trim_hashes(text) == trim_hashes(digits));
    assert(digits[0] == hex_char(c.r as int / 16));
    assert(trim_hashes(digits) == digits);
    assert(is_ascii_chars(digits)) by {
        assert forall|i: int| 0 <= i < digits.len() implies '\0' <= #[trigger] digits[i]
            <= '\u{7f}' by {
            assert(digits[i] == text[i + 1]);
        }
    }
    is_ascii_chars_encode_utf8(digits);
    lemma_hex_char_value(c.r as int / 16);
    lemma_hex_char_value(c.r as int % 16);
    lemma_hex_char_value(c.g as int / 16);
    lemma_hex_char_value(c.g as int % 16);
    lemma_hex_char_value(c.b as int / 16);
    lemma_hex_char_value(c.b as int % 16);
    let red = digits.subrange(0, 2);
    let green = digits.subrange(2, 4);
    let blue = digits.subrange(4, 6);
    assert(red[0] == text[1] && red[1] == text[2]);
    assert(green[0] == text[3] && green[1] == text[4]);
    assert(blue[0] == text[5] && blue[1] == text[6]);
    lemma_pair_value(red);
    lemma_pair_value(green);
    lemma_pair_value(blue);
}

/// The digit written for a number below 16 has that number as its value,
/// and is no `#`.
proof fn lemma_hex_char_value(n: int)
    requires
        0 <= n < 16,
    ensures
        hex_digit(hex_char(n)) == Some(n),
        hex_char(n) != '#',
        '\0' <= hex_char(n) <= '\u{7f}',
{
}

/// A colour of the terminal.
#[derive(Debug, Copy, Clone, PartialEq, Eq, Structural)]
pub enum Color {
    /// The terminal's own colour for the place.
    Reset,
    /// Red, green and blue.
    Rgb(u8, u8, u8),
}

impl From<ThemeColor> for Color {
    fn from(val: ThemeColor) -> (r: Color) {
        Color::Rgb(val.r, val.g, val.b)
    }
}

impl vstd::std_specs::convert::FromSpecImpl<ThemeColor> for Color {
    open spec fn obeys_from_spec() -> bool {
        true
    }

    open spec fn from_spec(val: ThemeColor) -> Color {
        Color::Rgb(val.r, val.g, val.b)
    }
}

impl From<ThemeColor> for String {
    fn from(val: ThemeColor) -> (r: String)
        ensures
            r@ == hex_text(val),
    {
        ThemeColor::to_hex(&val)
    }
}

impl vstd::std_specs::convert::FromSpecImpl<ThemeColor> for String {
    open spec fn obeys_from_spec() -> bool {
        false
    }

    open spec fn from_spec(val: ThemeColor) -> String {
        arbitrary()
    }
}

impl TryFrom<&str> for ThemeColor {
    type Error = ThemeColorParseError;

    fn try_from(value: &str) -> (r: Result<ThemeColor, ThemeColorParseError>)
        ensures
            r matches Ok(c) <==> from_hex_spec(value@) is Some,
            r matches Ok(c) ==> from_hex_spec(value@) == Some(c),
    {
        ThemeColor::from_hex(value)
    }
}

impl vstd::std_specs::convert::TryFromSpecImpl<&str> for ThemeColor {
    open spec fn obeys_try_from_spec() -> bool {
        false
    }

    open spec fn try_from_spec(value: &str) -> Result<ThemeColor, ThemeColorParseError> {
        arbitrary()
    }
}

/// Which colour of the theme to use.
#[derive(Copy, Clone, PartialEq, Eq, Debug, Structural)]
pub enum ColorTermusic {
    /// The terminal's own colour for the place.
    Reset,
    Foreground,
    Background,
    Black,
    Red,
    Green,
    Yellow,
    Blue,
    Magenta,
    Cyan,
    White,
    LightBlack,
    LightRed,
    LightGreen,
    LightYellow,
    LightBlue,
    LightMagenta,
    LightCyan,
    LightWhite,
}

impl ColorTermusic {
    /// The place of the colour in the list of all of them, from 0.
    pub open spec fn index(self) -> int {
        match self {
            ColorTermusic::Reset => 0,
            ColorTermusic::Foreground => 1,
            ColorTermusic::Background => 2,
            ColorTermusic::Black => 3,
            ColorTermusic::Red => 4,
            ColorTermusic::Green => 5,
            ColorTermusic::Yellow => 6,
            ColorTermusic::Blue => 7,
            ColorTermusic::Magenta => 8,
            ColorTermusic::Cyan => 9,
            ColorTermusic::White => 10,
            ColorTermusic::LightBlack => 11,
            ColorTermusic::LightRed => 12,
            ColorTermusic::LightGreen => 13,
            ColorTermusic::LightYellow => 14,
            ColorTermusic::LightBlue => 15,
            ColorTermusic::LightMagenta => 16,
            ColorTermusic::LightCyan => 17,
            ColorTermusic::LightWhite => 18,
        }
    }

    /// The name of the colour in a configuration file.
    pub open spec fn name(self) -> Seq<char> {
        match self {
            ColorTermusic::Reset => "reset"@,
            ColorTermusic::Foreground => "foreground"@,
            ColorTermusic::Background => "background"@,
            ColorTermusic::Black => "black"@,
            ColorTermusic::Red => "red"@,
            ColorTermusic::Green => "green"@,
            ColorTermusic::Yellow => "yellow"@,
            ColorTermusic::Blue => "blue"@,
            ColorTermusic::Magenta => "magenta"@,
            ColorTermusic::Cyan => "cyan"@,
            ColorTermusic::White => "white"@,
            ColorTermusic::LightBlack => "bright_black"@,
            ColorTermusic::LightRed => "bright_red"@,
            ColorTermusic::LightGreen => "bright_green"@,
            ColorTermusic::LightYellow => "bright_yellow"@,
            ColorTermusic::LightBlue => "bright_blue"@,
            ColorTermusic::LightMagenta => "bright_magenta"@,
            ColorTermusic::LightCyan => "bright_cyan"@,
            ColorTermusic::LightWhite => "bright_white"@,
        }
    }

    /// The colour that the earlier layout of the configuration calls `value`.
    pub open spec fn of_v1(value: v1::ColorTermusic) -> ColorTermusic {
        match value {
            v1::ColorTermusic::Reset => ColorTermusic::Reset,
            v1::ColorTermusic::Foreground => ColorTermusic::Foreground,
            v1::ColorTermusic::Background => ColorTermusic::Background,
            v1::ColorTermusic::Black => ColorTermusic::Black,
            v1::ColorTermusic::Red => ColorTermusic::Red,
            v1::ColorTermusic::Green => ColorTermusic::Green,
            v1::ColorTermusic::Yellow => ColorTermusic::Yellow,
            v1::ColorTermusic::Blue => ColorTermusic::Blue,
            v1::ColorTermusic::Magenta => ColorTermusic::Magenta,
            v1::ColorTermusic::Cyan => ColorTermusic::Cyan,
            v1::ColorTermusic::White => ColorTermusic::White,
            v1::ColorTermusic::LightBlack => ColorTermusic::LightBlack,
            v1::ColorTermusic::LightRed => ColorTermusic::LightRed,
            v1::ColorTermusic::LightGreen => ColorTermusic::LightGreen,
            v1::ColorTermusic::LightYellow => ColorTermusic::LightYellow,
            v1::ColorTermusic::LightBlue => ColorTermusic::LightBlue,
            v1::ColorTermusic::LightMagenta => ColorTermusic::LightMagenta,
            v1::ColorTermusic::LightCyan => ColorTermusic::LightCyan,
            v1::ColorTermusic::LightWhite => ColorTermusic::LightWhite,
        }
    }

    /// The place of the colour in the list of all of them, from 0.
    pub fn as_usize(self) -> (r: usize)
        ensures
            r == self.index(),
            r < 19,
    {
        match self {
            ColorTermusic::Reset => 0,
            ColorTermusic::Foreground => 1,
            ColorTermusic::Background => 2,
            ColorTermusic::Black => 3,
            ColorTermusic::Red => 4,
            ColorTermusic::Green => 5,
            ColorTermusic::Yellow => 6,
            ColorTermusic::Blue => 7,
            ColorTermusic::Magenta => 8,
            ColorTermusic::Cyan => 9,
            ColorTermusic::White => 10,
            ColorTermusic::LightBlack => 11,
            ColorTermusic::LightRed => 12,
            ColorTermusic::LightGreen => 13,
            ColorTermusic::LightYellow => 14,
            ColorTermusic::LightBlue => 15,
            ColorTermusic::LightMagenta => 16,
            ColorTermusic::LightCyan => 17,
            ColorTermusic::LightWhite => 18,
        }
    }

    /// The name of the colour in a configuration file.
    pub fn as_ref(&self) -> (r: &'static str)
        ensures
            r@ == self.name(),
    {
        match self {
            ColorTermusic::Reset => "reset",
            ColorTermusic::Foreground => "foreground",
            ColorTermusic::Background => "background",
            ColorTermusic::Black => "black",
            ColorTermusic::Red => "red",
            ColorTermusic::Green => "green",
            ColorTermusic::Yellow => "yellow",
            ColorTermusic::Blue => "blue",
            ColorTermusic::Magenta => "magenta",
            ColorTermusic::Cyan => "cyan",
            ColorTermusic::White => "white",
            ColorTermusic::LightBlack => "bright_black",
            ColorTermusic::LightRed => "bright_red",
            ColorTermusic::LightGreen => "bright_green",
            ColorTermusic::LightYellow => "bright_yellow",
            ColorTermusic::LightBlue => "bright_blue",
            ColorTermusic::LightMagenta => "bright_magenta",
            ColorTermusic::LightCyan => "bright_cyan",
            ColorTermusic::LightWhite => "bright_white",
        }
    }
}

impl From<v1::ColorTermusic> for ColorTermusic {
    fn from(value: v1::ColorTermusic) -> (r: ColorTermusic) {
        match value {
            v1::ColorTermusic::Reset => ColorTermusic::Reset,
            v1::ColorTermusic::Foreground => ColorTermusic::Foreground,
            v1::ColorTermusic::Background => ColorTermusic::Background,
            v1::ColorTermusic::Black => ColorTermusic::Black,
            v1::ColorTermusic::Red => ColorTermusic::Red,
            v1::ColorTermusic::Green => ColorTermusic::Green,
            v1::ColorTermusic::Yellow => ColorTermusic::Yellow,
            v1::ColorTermusic::Blue => ColorTermusic::Blue,
            v1::ColorTermusic::Magenta => ColorTermusic::Magenta,
            v1::ColorTermusic::Cyan => ColorTermusic::Cyan,
            v1::ColorTermusic::White => ColorTermusic::White,
            v1::ColorTermusic::LightBlack => ColorTermusic::LightBlack,
            v1::ColorTermusic::LightRed => ColorTermusic::LightRed,
            v1::ColorTermusic::LightGreen => ColorTermusic::LightGreen,
            v1::ColorTermusic::LightYellow => ColorTermusic::LightYellow,
            v1::ColorTermusic::LightBlue => ColorTermusic::LightBlue,
            v1::ColorTermusic::LightMagenta => ColorTermusic::LightMagenta,
            v1::ColorTermusic::LightCyan => ColorTermusic::LightCyan,
            v1::ColorTermusic::LightWhite => ColorTermusic::LightWhite,
        }
    }
}

impl vstd::std_specs::convert::FromSpecImpl<v1::ColorTermusic> for ColorTermusic {
    open spec fn obeys_from_spec() -> bool {
        true
    }

    open spec fn from_spec(value: v1::ColorTermusic) -> ColorTermusic {
        ColorTermusic::of_v1(value)
    }
}

/// Distinct colours have distinct places and distinct names' places: the
/// place tells the colour.
pub proof fn lemma_color_index_tells(a: ColorTermusic, b: ColorTermusic)
    ensures
        0 <= a.index() < 19,
        a.index() == b.index() ==> a == b,
{
}

/// Which colour of the theme each part of the screen uses.
#[derive(Debug, Clone, PartialEq, Eq)]
pub struct Colors {
    /// Music library: text.
    pub library_foreground: ColorTermusic,
    /// Music library: background.
    pub library_background: ColorTermusic,
    /// Music library: border while focused.
    pub library_border: ColorTermusic,
    /// Music library: the selected entry.
    pub library_highlight: ColorTermusic,
    /// Playlist: text.
    pub playlist_foreground: ColorTermusic,
    /// Playlist: background.
    pub playlist_background: ColorTermusic,
    /// Playlist: border while focused.
    pub playlist_border: ColorTermusic,
    /// Playlist: the selected entry.
    pub playlist_highlight: ColorTermusic,
    /// Lyrics: text.
    pub lyric_foreground: ColorTermusic,
    /// Lyrics: background.
    pub lyric_background: ColorTermusic,
    /// Lyrics: border while focused.
    pub lyric_border: ColorTermusic,
    /// Progress bar: text.
    pub progress_foreground: ColorTermusic,
    /// Progress bar: background.
    pub progress_background: ColorTermusic,
    /// Progress bar: border.
    pub progress_border: ColorTermusic,
    /// Error and delete popups: text.
    pub important_popup_foreground: ColorTermusic,
    /// Error and delete popups: background.
    pub important_popup_background: ColorTermusic,
    /// Error and delete popups: border.
    pub important_popup_border: ColorTermusic,
    /// Everything else: text.
    pub fallback_foreground: ColorTermusic,
    /// Everything else: background.
    pub fallback_background: ColorTermusic,
    /// Everything else: border.
    pub fallback_border: ColorTermusic,
    /// Everything else: the selected entry.
    pub fallback_highlight: ColorTermusic,
}

impl Colors {
    /// The choices that come with the program.
    pub open spec fn spec_default() -> Colors {
        Colors {
            library_foreground: ColorTermusic::Foreground,
            library_background: ColorTermusic::Reset,
            library_border: ColorTermusic::Blue,
            library_highlight: ColorTermusic::LightYellow,
            playlist_foreground: ColorTermusic::Foreground,
            playlist_background: ColorTermusic::Reset,
            playlist_border: ColorTermusic::Blue,
            playlist_highlight: ColorTermusic::LightYellow,
            lyric_foreground: ColorTermusic::Foreground,
            lyric_background: ColorTermusic::Reset,
            lyric_border: ColorTermusic::Blue,
            progress_foreground: ColorTermusic::LightBlack,
            progress_background: ColorTermusic::Reset,
            progress_border: ColorTermusic::Blue,
            important_popup_foreground: ColorTermusic::Red,
            important_popup_background: ColorTermusic::Reset,
            important_popup_border: ColorTermusic::Red,
            fallback_foreground: ColorTermusic::Foreground,
            fallback_background: ColorTermusic::Reset,
            fallback_border: ColorTermusic::Blue,
            fallback_highlight: ColorTermusic::LightYellow,
        }
    }

    /// The choices that the earlier layout of the configuration holds.
    pub open spec fn of_v1(value: v1::StyleColorSymbol) -> Colors {
        Colors {
            library_foreground: ColorTermusic::of_v1(value.library_foreground),
            library_background: ColorTermusic::of_v1(value.library_background),
            library_border: ColorTermusic::of_v1(value.library_border),
            library_highlight: ColorTermusic::of_v1(value.library_highlight),
            playlist_foreground: ColorTermusic::of_v1(value.playlist_foreground),
            playlist_background: ColorTermusic::of_v1(value.playlist_background),
            playlist_border: ColorTermusic::of_v1(value.playlist_border),
            playlist_highlight: ColorTermusic::of_v1(value.playlist_highlight),
            lyric_foreground: ColorTermusic::of_v1(value.lyric_foreground),
            lyric_background: ColorTermusic::of_v1(value.lyric_background),
            lyric_border: ColorTermusic::of_v1(value.lyric_border),
            progress_foreground: ColorTermusic::of_v1(value.progress_foreground),
            progress_background: ColorTermusic::of_v1(value.progress_background),
            progress_border: ColorTermusic::of_v1(value.progress_border),
            important_popup_foreground: ColorTermusic::of_v1(value.important_popup_foreground),
            important_popup_background: ColorTermusic::of_v1(value.important_popup_background),
            important_popup_border: ColorTermusic::of_v1(value.important_popup_border),
            fallback_foreground: ColorTermusic::of_v1(value.fallback_foreground),
            fallback_background: ColorTermusic::of_v1(value.fallback_background),
            fallback_border: ColorTermusic::of_v1(value.fallback_border),
            fallback_highlight: ColorTermusic::of_v1(value.fallback_highlight),
        }
    }

    /// The choices that the earlier layout of the configuration holds.
    fn convert(value: &v1::StyleColorSymbol) -> (r: Colors)
        ensures
            r == Colors::of_v1(*value),
    {
        Colors {
            library_foreground: value.library_foreground.into(),
            library_background: value.library_background.into(),
            library_border: value.library_border.into(),
            library_highlight: value.library_highlight.into(),
            playlist_foreground: value.playlist_foreground.into(),
            playlist_background: value.playlist_background.into(),
            playlist_border: value.playlist_border.into(),
            playlist_highlight: value.playlist_highlight.into(),
            lyric_foreground: value.lyric_foreground.into(),
            lyric_background: value.lyric_background.into(),
            lyric_border: value.lyric_border.into(),
            progress_foreground: value.progress_foreground.into(),
            progress_background: value.progress_background.into(),
            progress_border: value.progress_border.into(),
            important_popup_foreground: value.important_popup_foreground.into(),
            important_popup_background: value.important_popup_background.into(),
            important_popup_border: value.important_popup_border.into(),
            fallback_foreground: value.fallback_foreground.into(),
            fallback_background: value.fallback_background.into(),
            fallback_border: value.fallback_border.into(),
            fallback_highlight: value.fallback_highlight.into(),
        }
    }
}

impl Default for Colors {
    fn default() -> (r: Colors)
        ensures
            r == Colors::spec_default(),
    {
        Colors {
            library_foreground: ColorTermusic::Foreground,
            library_background: ColorTermusic::Reset,
            library_border: ColorTermusic::Blue,
            library_highlight: ColorTermusic::LightYellow,
            playlist_foreground: ColorTermusic::Foreground,
            playlist_background: ColorTermusic::Reset,
            playlist_border: ColorTermusic::Blue,
            playlist_highlight: ColorTermusic::LightYellow,
            lyric_foreground: ColorTermusic::Foreground,
            lyric_background: ColorTermusic::Reset,
            lyric_border: ColorTermusic::Blue,
            progress_foreground: ColorTermusic::LightBlack,
            progress_background: ColorTermusic::Reset,
            progress_border: ColorTermusic::Blue,
            important_popup_foreground: ColorTermusic::Red,
            important_popup_background: ColorTermusic::Reset,
            important_popup_border: ColorTermusic::Red,
            fallback_foreground: ColorTermusic::Foreground,
            fallback_background: ColorTermusic::Reset,
            fallback_border: ColorTermusic::Blue,
            fallback_highlight: ColorTermusic::LightYellow,
        }
    }
}

impl From<v1::StyleColorSymbol> for Colors {
    fn from(value: v1::StyleColorSymbol) -> (r: Colors) {
        Colors::convert(&value)
    }
}

impl vstd::std_specs::convert::FromSpecImpl<v1::StyleColorSymbol> for Colors {
    open spec fn obeys_from_spec() -> bool {
        true
    }

    open spec fn from_spec(value: v1::StyleColorSymbol) -> Colors {
        Colors::of_v1(value)
    }
}

impl ThemeColorParseError {
    /// Why the text is not a colour, in words.
    pub fn to_string(&self) -> (r: String)
        ensures
            self matches ThemeColorParseError::IncorrectLength(n) ==> r@
                == "Failed to parse color because of Incorrect length "@ + decimal_text(n as nat)
                + ", expected 6"@,
            self matches ThemeColorParseError::ParseIntError(_) ==> r@.len()
                >= "Failed to parse color because of "@.len() && r@.subrange(
                0,
                "Failed to parse color because of "@.len() as int,
            ) == "Failed to parse color because of "@,
    {
        match self {
            ThemeColorParseError::ParseIntError(v) => {
                let detail = int_error_text(v);
                let r = concat("Failed to parse color because of ", detail.as_str());
                assert(r@.subrange(0, "Failed to parse color because of "@.len() as int)
                    =~= "Failed to parse color because of "@);
                r
            },
            ThemeColorParseError::IncorrectLength(length) => {
                let number = decimal(*length);
                let mut r = concat("Failed to parse color because of Incorrect length ", number.as_str());
                r.append(", expected 6");
                r
            },
        }
    }
}

impl TryFrom<String> for ThemeColor {
    type Error = ThemeColorParseError;

    fn try_from(value: String) -> (r: Result<ThemeColor, ThemeColorParseError>)
        ensures
            r matches Ok(c) <==> from_hex_spec(value@) is Some,
            r matches Ok(c) ==> from_hex_spec(value@) == Some(c),
    {
        ThemeColor::from_hex(value.as_str())
    }
}

impl vstd::std_specs::convert::TryFromSpecImpl<String> for ThemeColor {
    open spec fn obeys_try_from_spec() -> bool {
        false
    }

    open spec fn try_from_spec(value: String) -> Result<ThemeColor, ThemeColorParseError> {
        arbitrary()
    }
}

impl ThemeColor {
    /// The colour that the earlier layout of the configuration holds.
    pub open spec fn of_v1(value: v1::AlacrittyColor) -> ThemeColor {
        ThemeColor { r: value.r, g: value.g, b: value.b }
    }
}

impl From<v1::AlacrittyColor> for ThemeColor {
    fn from(value: v1::AlacrittyColor) -> (r: ThemeColor) {
        ThemeColor { r: value.r, g: value.g, b: value.b }
    }
}

impl vstd::std_specs::convert::FromSpecImpl<v1::AlacrittyColor> for ThemeColor {
    open spec fn obeys_from_spec() -> bool {
        true
    }

    open spec fn from_spec(value: v1::AlacrittyColor) -> ThemeColor {
        ThemeColor::of_v1(value)
    }
}

/// Why a theme file is not a theme.
#[derive(Debug, Clone, PartialEq)]
pub enum ThemeColorsParseError {
    /// One of its colours is not a colour.
    ThemeColor(ThemeColorParseError),
}

impl ThemeColorsParseError {
    /// Why the theme file is not a theme, in words.
    pub fn to_string(&self) -> (r: String)
        ensures
            r@.len() >= "Failed to parse Theme because of "@.len(),
            r@.subrange(0, "Failed to parse Theme because of "@.len() as int)
                == "Failed to parse Theme because of "@,
            self matches ThemeColorsParseError::ThemeColor(
                ThemeColorParseError::IncorrectLength(n),
            ) ==> r@
                == "Failed to parse Theme because of Failed to parse color because of Incorrect length "@
                + decimal_text(n as nat) + ", expected 6"@,
    {
        match self {
            ThemeColorsParseError::ThemeColor(v) => {
                let detail = v.to_string();
                let r = concat("Failed to parse Theme because of ", detail.as_str());
                assert(r@.subrange(0, "Failed to parse Theme because of "@.len() as int)
                    =~= "Failed to parse Theme because of "@);
                proof {
                    if let ThemeColorParseError::IncorrectLength(n) = v {
                        reveal_strlit("Failed to parse Theme because of ");
                        reveal_strlit("Failed to parse color because of Incorrect length ");
                        reveal_strlit(
                            "Failed to parse Theme because of Failed to parse color because of Incorrect length ",
                        );
                        assert("Failed to parse Theme because of "@
                            + "Failed to parse color because of Incorrect length "@
                            =~= "Failed to parse Theme because of Failed to parse color because of Incorrect length "@);
                        assert(r@
                            =~= "Failed to parse Theme because of Failed to parse color because of Incorrect length "@
                            + decimal_text(*n as nat) + ", expected 6"@);
                    }
                }
                r
            },
        }
    }
}

impl From<ThemeColorParseError> for ThemeColorsParseError {
    fn from(value: ThemeColorParseError) -> (r: ThemeColorsParseError) {
        ThemeColorsParseError::ThemeColor(value)
    }
}

impl vstd::std_specs::convert::FromSpecImpl<ThemeColorParseError> for ThemeColorsParseError {
    open spec fn obeys_from_spec() -> bool {
        true
    }

    open spec fn from_spec(value: ThemeColorParseError) -> ThemeColorsParseError {
        ThemeColorsParseError::ThemeColor(value)
    }
}

/// What a list of texts holds, text by text.
pub open spec fn texts_of(texts: Seq<&str>) -> Seq<Seq<char>> {
    Seq::new(texts.len(), |i: int| texts[i]@)
}

/// Every one of `texts` writes a colour.
pub open spec fn all_readable(texts: Seq<Seq<char>>) -> bool {
    forall|i: int| 0 <= i < texts.len() ==> (#[trigger] from_hex_spec(texts[i])) is Some
}

/// The colours that `texts` write, for texts that all write one.
pub open spec fn read_all(texts: Seq<Seq<char>>) -> Seq<ThemeColor> {
    Seq::new(texts.len(), |i: int| from_hex_spec(texts[i])->0)
}

/// The text at `i` is the first of `texts` that writes no colour.
pub open spec fn first_unreadable(texts: Seq<Seq<char>>, i: int) -> bool {
    &&& 0 <= i < texts.len()
    &&& from_hex_spec(texts[i]) is None
    &&& forall|j: int| 0 <= j < i ==> (#[trigger] from_hex_spec(texts[j])) is Some
}

/// `error` is what reading `text` as a colour fails with.
pub open spec fn is_error_of(text: Seq<char>, error: ThemeColorParseError) -> bool {
    match error {
        ThemeColorParseError::IncorrectLength(n) => encode_utf8(trim_hashes(text)).len() != 6 && n
            == encode_utf8(trim_hashes(text)).len(),
        ThemeColorParseError::ParseIntError(_) => encode_utf8(trim_hashes(text)).len() == 6
            && parse_color(trim_hashes(text)) is None,
    }
}

/// Reads every one of `texts` as a colour, in order, and stops at the first
/// that is none.
fn read_colors(texts: &Vec<&str>) -> (r: Result<Vec<ThemeColor>, ThemeColorParseError>)
    ensures
        r matches Ok(colors) <==> all_readable(texts_of(texts@)),
        r matches Ok(colors) ==> colors@ == read_all(texts_of(texts@)),
        r matches Err(e) ==> exists|i: int| #[trigger]
            first_unreadable(texts_of(texts@), i) && is_error_of(texts_of(texts@)[i], e),
{
    let ghost all = texts_of(texts@);
    let mut colors: Vec<ThemeColor> = Vec::new();
    let mut k: usize = 0;
    while k < texts.len()
        invariant
            k <= texts.len(),
            all == texts_of(texts@),
            colors@.len() == k,
            forall|j: int| 0 <= j < k ==> #[trigger] from_hex_spec(all[j]) == Some(colors@[j]),
        decreases texts.len() - k,
    {
        match ThemeColor::from_hex(texts[k]) {
            Ok(c) => {
                colors.push(c);
            },
            Err(e) => {
                assert(first_unreadable(all, k as int));
                assert(is_error_of(all[k as int], e));
                assert(!all_readable(all));
                return Err(e);
            },
        }
        k += 1;
    }
    assert(colors@ =~= read_all(all));
    Ok(colors)
}

/// What reading a group of colours gives: all of them, where every text
/// writes a colour, and else the failure of the first text that writes none.
pub open spec fn reads_as(
    texts: Seq<Seq<char>>,
    colors: Option<Seq<ThemeColor>>,
    error: Option<ThemeColorsParseError>,
) -> bool {
    &&& colors is Some <==> all_readable(texts)
    &&& colors is Some <==> error is None
    &&& colors matches Some(c) ==> c == read_all(texts)
    &&& error matches Some(ThemeColorsParseError::ThemeColor(e)) ==> exists|i: int| #[trigger]
        first_unreadable(texts, i) && is_error_of(texts[i], e)
}

/// The colours of text and background.
#[derive(Debug, Clone, PartialEq, Eq)]
pub struct ThemePrimary {
    pub background: ThemeColor,
    pub foreground: ThemeColor,
}

impl ThemePrimary {
    /// The colours in the order of the fields.
    pub open spec fn colors(self) -> Seq<ThemeColor> {
        seq![self.background, self.foreground]
    }

    /// The colours that stand in for a theme that gives none.
    pub open spec fn spec_default() -> ThemePrimary {
        ThemePrimary {
            background: ThemeColor { r: 0, g: 0, b: 0 },
            foreground: ThemeColor { r: 255, g: 255, b: 255 },
        }
    }
}

impl Default for ThemePrimary {
    fn default() -> (r: ThemePrimary)
        ensures
            r == ThemePrimary::spec_default(),
    {
        ThemePrimary {
            background: ThemeColor { r: 0, g: 0, b: 0 },
            foreground: ThemeColor { r: 255, g: 255, b: 255 },
        }
    }
}

impl TryFrom<YAMLThemePrimary> for ThemePrimary {
    type Error = ThemeColorsParseError;

    /// Reads the colours in the order of the fields. The first text that
    /// writes no colour makes the whole fail, with its failure.
    fn try_from(value: YAMLThemePrimary) -> (r: Result<ThemePrimary, ThemeColorsParseError>)
        ensures
            reads_as(
                value.texts(),
                match r {
                    Ok(t) => Some(t.colors()),
                    Err(_) => None,
                },
                match r {
                    Ok(_) => None,
                    Err(e) => Some(e),
                },
            ),
    {
        let texts: Vec<&str> = vec![value.background.as_str(), value.foreground.as_str()];
        assert(texts_of(texts@) =~= value.texts());
        match read_colors(&texts) {
            Ok(c) => {
                let t = ThemePrimary { background: c[0], foreground: c[1] };
                assert(t.colors() =~= read_all(value.texts()));
                Ok(t)
            },
            Err(e) => Err(ThemeColorsParseError::ThemeColor(e)),
        }
    }
}

impl vstd::std_specs::convert::TryFromSpecImpl<YAMLThemePrimary> for ThemePrimary {
    open spec fn obeys_try_from_spec() -> bool {
        false
    }

    open spec fn try_from_spec(value: YAMLThemePrimary) -> Result<ThemePrimary, ThemeColorsParseError> {
        arbitrary()
    }
}

/// The colours of the cursor and the text under it.
#[derive(Debug, Clone, PartialEq, Eq)]
pub struct ThemeCursor {
    pub text: ThemeColor,
    pub cursor: ThemeColor,
}

impl ThemeCursor {
    /// The colours in the order of the fields.
    pub open spec fn colors(self) -> Seq<ThemeColor> {
        seq![self.text, self.cursor]
    }

    /// The colours that stand in for a theme that gives none.
    pub open spec fn spec_default() -> ThemeCursor {
        ThemeCursor {
            text: ThemeColor { r: 255, g: 255, b: 255 },
            cursor: ThemeColor { r: 255, g: 255, b: 255 },
        }
    }
}

impl Default for ThemeCursor {
    fn default() -> (r: ThemeCursor)
        ensures
            r == ThemeCursor::spec_default(),
    {
        ThemeCursor {
            text: ThemeColor { r: 255, g: 255, b: 255 },
            cursor: ThemeColor { r: 255, g: 255, b: 255 },
        }
    }
}

impl TryFrom<YAMLThemeCursor> for ThemeCursor {
    type Error = ThemeColorsParseError;

    /// Reads the colours in the order of the fields. The first text that
    /// writes no colour makes the whole fail, with its failure.
    fn try_from(value: YAMLThemeCursor) -> (r: Result<ThemeCursor, ThemeColorsParseError>)
        ensures
            reads_as(
                value.texts(),
                match r {
                    Ok(t) => Some(t.colors()),
                    Err(_) => None,
                },
                match r {
                    Ok(_) => None,
                    Err(e) => Some(e),
                },
            ),
    {
        let texts: Vec<&str> = vec![value.text.as_str(), value.cursor.as_str()];
        assert(texts_of(texts@) =~= value.texts());
        match read_colors(&texts) {
            Ok(c) => {
                let t = ThemeCursor { text: c[0], cursor: c[1] };
                assert(t.colors() =~= read_all(value.texts()));
                Ok(t)
            },
            Err(e) => Err(ThemeColorsParseError::ThemeColor(e)),
        }
    }
}

impl vstd::std_specs::convert::TryFromSpecImpl<YAMLThemeCursor> for ThemeCursor {
    open spec fn obeys_try_from_spec() -> bool {
        false
    }

    open spec fn try_from_spec(value: YAMLThemeCursor) -> Result<ThemeCursor, ThemeColorsParseError> {
        arbitrary()
    }
}

/// The eight normal colours.
#[derive(Debug, Clone, PartialEq, Eq)]
pub struct ThemeNormal {
    pub black: ThemeColor,
    pub red: ThemeColor,
    pub green: ThemeColor,
    pub yellow: ThemeColor,
    pub blue: ThemeColor,
    pub magenta: ThemeColor,
    pub cyan: ThemeColor,
    pub white: ThemeColor,
}

impl ThemeNormal {
    /// The colours in the order of the fields.
    pub open spec fn colors(self) -> Seq<ThemeColor> {
        seq![self.black, self.red, self.green, self.yellow, self.blue, self.magenta, self.cyan, self.white]
    }

    /// The colours that stand in for a theme that gives none.
    pub open spec fn spec_default() -> ThemeNormal {
        ThemeNormal {
            black: ThemeColor { r: 0, g: 0, b: 0 },
            red: ThemeColor { r: 255, g: 0, b: 0 },
            green: ThemeColor { r: 0, g: 255, b: 0 },
            yellow: ThemeColor { r: 255, g: 255, b: 0 },
            blue: ThemeColor { r: 0, g: 0, b: 255 },
            magenta: ThemeColor { r: 255, g: 0, b: 255 },
            cyan: ThemeColor { r: 0, g: 255, b: 255 },
            white: ThemeColor { r: 255, g: 255, b: 255 },
        }
    }
}

impl Default for ThemeNormal {
    fn default() -> (r: ThemeNormal)
        ensures
            r == ThemeNormal::spec_default(),
    {
        ThemeNormal {
            black: ThemeColor { r: 0, g: 0, b: 0 },
            red: ThemeColor { r: 255, g: 0, b: 0 },
            green: ThemeColor { r: 0, g: 255, b: 0 },
            yellow: ThemeColor { r: 255, g: 255, b: 0 },
            blue: ThemeColor { r: 0, g: 0, b: 255 },
            magenta: ThemeColor { r: 255, g: 0, b: 255 },
            cyan: ThemeColor { r: 0, g: 255, b: 255 },
            white: ThemeColor { r: 255, g: 255, b: 255 },
        }
    }
}

impl TryFrom<YAMLThemeNormal> for ThemeNormal {
    type Error = ThemeColorsParseError;

    /// Reads the colours in the order of the fields. The first text that
    /// writes no colour makes the whole fail, with its failure.
    fn try_from(value: YAMLThemeNormal) -> (r: Result<ThemeNormal, ThemeColorsParseError>)
        ensures
            reads_as(
                value.texts(),
                match r {
                    Ok(t) => Some(t.colors()),
                    Err(_) => None,
                },
                match r {
                    Ok(_) => None,
                    Err(e) => Some(e),
                },
            ),
    {
        let texts: Vec<&str> = vec![value.black.as_str(), value.red.as_str(), value.green.as_str(), value.yellow.as_str(), value.blue.as_str(), value.magenta.as_str(), value.cyan.as_str(), value.white.as_str()];
        assert(texts_of(texts@) =~= value.texts());
        match read_colors(&texts) {
            Ok(c) => {
                let t = ThemeNormal { black: c[0], red: c[1], green: c[2], yellow: c[3], blue: c[4], magenta: c[5], cyan: c[6], white: c[7] };
                assert(t.colors() =~= read_all(value.texts()));
                Ok(t)
            },
            Err(e) => Err(ThemeColorsParseError::ThemeColor(e)),
        }
    }
}

impl vstd::std_specs::convert::TryFromSpecImpl<YAMLThemeNormal> for ThemeNormal {
    open spec fn obeys_try_from_spec() -> bool {
        false
    }

    open spec fn try_from_spec(value: YAMLThemeNormal) -> Result<ThemeNormal, ThemeColorsParseError> {
        arbitrary()
    }
}

/// The eight bright colours.
#[derive(Debug, Clone, PartialEq, Eq)]
pub struct ThemeBright {
    pub black: ThemeColor,
    pub red: ThemeColor,
    pub green: ThemeColor,
    pub yellow: ThemeColor,
    pub blue: ThemeColor,
    pub magenta: ThemeColor,
    pub cyan: ThemeColor,
    pub white: ThemeColor,
}

impl ThemeBright {
    /// The colours in the order of the fields.
    pub open spec fn colors(self) -> Seq<ThemeColor> {
        seq![self.black, self.red, self.green, self.yellow, self.blue, self.magenta, self.cyan, self.white]
    }

    /// The colours that stand in for a theme that gives none.
    pub open spec fn spec_default() -> ThemeBright {
        ThemeBright {
            black: ThemeColor { r: 119, g: 119, b: 119 },
            red: ThemeColor { r: 0, g: 0, b: 0 },
            green: ThemeColor { r: 0, g: 0, b: 0 },
            yellow: ThemeColor { r: 0, g: 0, b: 0 },
            blue: ThemeColor { r: 0, g: 0, b: 0 },
            magenta: ThemeColor { r: 0, g: 0, b: 0 },
            cyan: ThemeColor { r: 0, g: 0, b: 0 },
            white: ThemeColor { r: 0, g: 0, b: 0 },
        }
    }
}

impl Default for ThemeBright {
    fn default() -> (r: ThemeBright)
        ensures
            r == ThemeBright::spec_default(),
    {
        ThemeBright {
            black: ThemeColor { r: 119, g: 119, b: 119 },
            red: ThemeColor { r: 0, g: 0, b: 0 },
            green: ThemeColor { r: 0, g: 0, b: 0 },
            yellow: ThemeColor { r: 0, g: 0, b: 0 },
            blue: ThemeColor { r: 0, g: 0, b: 0 },
            magenta: ThemeColor { r: 0, g: 0, b: 0 },
            cyan: ThemeColor { r: 0, g: 0, b: 0 },
            white: ThemeColor { r: 0, g: 0, b: 0 },
        }
    }
}

impl TryFrom<YAMLThemeBright> for ThemeBright {
    type Error = ThemeColorsParseError;

    /// Reads the colours in the order of the fields. The first text that
    /// writes no colour makes the whole fail, with its failure.
    fn try_from(value: YAMLThemeBright) -> (r: Result<ThemeBright, ThemeColorsParseError>)
        ensures
            reads_as(
                value.texts(),
                match r {
                    Ok(t) => Some(t.colors()),
                    Err(_) => None,
                },
                match r {
                    Ok(_) => None,
                    Err(e) => Some(e),
                },
            ),
    {
        let texts: Vec<&str> = vec![value.black.as_str(), value.red.as_str(), value.green.as_str(), value.yellow.as_str(), value.blue.as_str(), value.magenta.as_str(), value.cyan.as_str(), value.white.as_str()];
        assert(texts_of(texts@) =~= value.texts());
        match read_colors(&texts) {
            Ok(c) => {
                let t = ThemeBright { black: c[0], red: c[1], green: c[2], yellow: c[3], blue: c[4], magenta: c[5], cyan: c[6], white: c[7] };
                assert(t.colors() =~= read_all(value.texts()));
                Ok(t)
            },
            Err(e) => Err(ThemeColorsParseError::ThemeColor(e)),
        }
    }
}

impl vstd::std_specs::convert::TryFromSpecImpl<YAMLThemeBright> for ThemeBright {
    open spec fn obeys_try_from_spec() -> bool {
        false
    }

    open spec fn try_from_spec(value: YAMLThemeBright) -> Result<ThemeBright, ThemeColorsParseError> {
        arbitrary()
    }
}

/// A theme: twenty colours with a name and an author.
#[derive(Debug, Clone, PartialEq, Eq)]
pub struct ThemeColors {
    pub name: String,
    pub author: String,
    pub primary: ThemePrimary,
    pub cursor: ThemeCursor,
    pub normal: ThemeNormal,
    pub bright: ThemeBright,
}

impl ThemeColors {
    /// All twenty colours: primary, cursor, normal, bright.
    pub open spec fn colors(self) -> Seq<ThemeColor> {
        seq![
            self.primary.background,
            self.primary.foreground,
            self.cursor.text,
            self.cursor.cursor,
            self.normal.black,
            self.normal.red,
            self.normal.green,
            self.normal.yellow,
            self.normal.blue,
            self.normal.magenta,
            self.normal.cyan,
            self.normal.white,
            self.bright.black,
            self.bright.red,
            self.bright.green,
            self.bright.yellow,
            self.bright.blue,
            self.bright.magenta,
            self.bright.cyan,
            self.bright.white,
        ]
    }

    /// The theme that the earlier layout of the configuration holds.
    pub open spec fn of_v1(value: v1::Alacritty) -> ThemeColors {
        ThemeColors {
            name: value.name,
            author: value.author,
            primary: ThemePrimary {
                background: ThemeColor::of_v1(value.background),
                foreground: ThemeColor::of_v1(value.foreground),
            },
            cursor: ThemeCursor {
                text: ThemeColor::of_v1(value.text),
                cursor: ThemeColor::of_v1(value.cursor),
            },
            normal: ThemeNormal {
                black: ThemeColor::of_v1(value.black),
                red: ThemeColor::of_v1(value.red),
                green: ThemeColor::of_v1(value.green),
                yellow: ThemeColor::of_v1(value.yellow),
                blue: ThemeColor::of_v1(value.blue),
                magenta: ThemeColor::of_v1(value.magenta),
                cyan: ThemeColor::of_v1(value.cyan),
                white: ThemeColor::of_v1(value.white),
            },
            bright: ThemeBright {
                black: ThemeColor::of_v1(value.light_black),
                red: ThemeColor::of_v1(value.light_red),
                green: ThemeColor::of_v1(value.light_green),
                yellow: ThemeColor::of_v1(value.light_yellow),
                blue: ThemeColor::of_v1(value.light_blue),
                magenta: ThemeColor::of_v1(value.light_magenta),
                cyan: ThemeColor::of_v1(value.light_cyan),
                white: ThemeColor::of_v1(value.light_white),
            },
        }
    }
}

impl Default for ThemeColors {
    fn default() -> (r: ThemeColors)
        ensures
            r.name@ == "empty name"@,
            r.author@ == "empty author"@,
            r.primary == ThemePrimary::spec_default(),
            r.cursor == ThemeCursor::spec_default(),
            r.normal == ThemeNormal::spec_default(),
            r.bright == ThemeBright::spec_default(),
    {
        ThemeColors {
            name: default_name(),
            author: default_author(),
            primary: ThemePrimary::default(),
            cursor: ThemeCursor::default(),
            normal: ThemeNormal::default(),
            bright: ThemeBright::default(),
        }
    }
}

impl TryFrom<YAMLTheme> for ThemeColors {
    type Error = ThemeColorsParseError;

    /// Takes name and author over and reads the twenty colours: primary,
    /// cursor, normal, bright, each in the order of its fields. The first
    /// text that writes no colour makes the whole fail, with its failure.
    fn try_from(value: YAMLTheme) -> (r: Result<ThemeColors, ThemeColorsParseError>)
        ensures
            reads_as(
                value.colors.texts(),
                match r {
                    Ok(t) => Some(t.colors()),
                    Err(_) => None,
                },
                match r {
                    Ok(_) => None,
                    Err(e) => Some(e),
                },
            ),
            r matches Ok(t) ==> t.name == value.colors.name && t.author == value.colors.author,
    {
        let colors = value.colors;
        match read_theme_colors(&colors) {
            Ok(c) => Ok(assemble_theme(colors.name, colors.author, &c)),
            Err(e) => Err(ThemeColorsParseError::ThemeColor(e)),
        }
    }
}

/// Reads the twenty colours of a theme file.
fn read_theme_colors(colors: &YAMLThemeColors) -> (r: Result<Vec<ThemeColor>, ThemeColorParseError>)
    ensures
        r matches Ok(c) <==> all_readable(colors.texts()),
        r matches Ok(c) ==> c@ == read_all(colors.texts()) && c@.len() == 20,
        r matches Err(e) ==> exists|i: int| #[trigger]
            first_unreadable(colors.texts(), i) && is_error_of(colors.texts()[i], e),
{
    let texts: Vec<&str> = vec![
        colors.primary.background.as_str(),
        colors.primary.foreground.as_str(),
        colors.cursor.text.as_str(),
        colors.cursor.cursor.as_str(),
        colors.normal.black.as_str(),
        colors.normal.red.as_str(),
        colors.normal.green.as_str(),
        colors.normal.yellow.as_str(),
        colors.normal.blue.as_str(),
        colors.normal.magenta.as_str(),
        colors.normal.cyan.as_str(),
        colors.normal.white.as_str(),
        colors.bright.black.as_str(),
        colors.bright.red.as_str(),
        colors.bright.green.as_str(),
        colors.bright.yellow.as_str(),
        colors.bright.blue.as_str(),
        colors.bright.magenta.as_str(),
        colors.bright.cyan.as_str(),
        colors.bright.white.as_str(),
    ];
    assert(texts_of(texts@) =~= colors.texts());
    read_colors(&texts)
}

/// Puts twenty colours together as a theme.
fn assemble_theme(name: String, author: String, c: &Vec<ThemeColor>) -> (t: ThemeColors)
    requires
        c@.len() == 20,
    ensures
        t.colors() == c@,
        t.name == name,
        t.author == author,
{
    let t = ThemeColors {
        name,
        author,
        primary: ThemePrimary { background: c[0], foreground: c[1] },
        cursor: ThemeCursor { text: c[2], cursor: c[3] },
        normal: ThemeNormal {
            black: c[4],
            red: c[5],
            green: c[6],
            yellow: c[7],
            blue: c[8],
            magenta: c[9],
            cyan: c[10],
            white: c[11],
        },
        bright: ThemeBright {
            black: c[12],
            red: c[13],
            green: c[14],
            yellow: c[15],
            blue: c[16],
            magenta: c[17],
            cyan: c[18],
            white: c[19],
        },
    };
    assert(t.colors() =~= c@);
    t
}

impl vstd::std_specs::convert::TryFromSpecImpl<YAMLTheme> for ThemeColors {
    open spec fn obeys_try_from_spec() -> bool {
        false
    }

    open spec fn try_from_spec(value: YAMLTheme) -> Result<ThemeColors, ThemeColorsParseError> {
        arbitrary()
    }
}

impl From<v1::Alacritty> for ThemeColors {
    fn from(value: v1::Alacritty) -> (r: ThemeColors) {
        ThemeColors {
            name: value.name,
            author: value.author,
            primary: ThemePrimary {
                background: value.background.into(),
                foreground: value.foreground.into(),
            },
            cursor: ThemeCursor { text: value.text.into(), cursor: value.cursor.into() },
            normal: ThemeNormal {
                black: value.black.into(),
                red: value.red.into(),
                green: value.green.into(),
                yellow: value.yellow.into(),
                blue: value.blue.into(),
                magenta: value.magenta.into(),
                cyan: value.cyan.into(),
                white: value.white.into(),
            },
            bright: ThemeBright {
                black: value.light_black.into(),
                red: value.light_red.into(),
                green: value.light_green.into(),
                yellow: value.light_yellow.into(),
                blue: value.light_blue.into(),
                magenta: value.light_magenta.into(),
                cyan: value.light_cyan.into(),
                white: value.light_white.into(),
            },
        }
    }
}

impl vstd::std_specs::convert::FromSpecImpl<v1::Alacritty> for ThemeColors {
    open spec fn obeys_from_spec() -> bool {
        true
    }

    open spec fn from_spec(value: v1::Alacritty) -> ThemeColors {
        ThemeColors::of_v1(value)
    }
}

/// The choices and the theme they choose from.
#[derive(Debug, Clone)]
pub struct ThemeColorWrap {
    pub colors: Colors,
    pub theme: ThemeColors,
}

impl Default for ThemeColorWrap {
    fn default() -> (r: ThemeColorWrap)
        ensures
            r.colors == Colors::spec_default(),
            r.theme.name@ == "empty name"@,
            r.theme.author@ == "empty author"@,
            r.theme.primary == ThemePrimary::spec_default(),
            r.theme.cursor == ThemeCursor::spec_default(),
            r.theme.normal == ThemeNormal::spec_default(),
            r.theme.bright == ThemeBright::spec_default(),
    {
        ThemeColorWrap { colors: Colors::default(), theme: ThemeColors::default() }
    }
}

impl From<v1::StyleColorSymbol> for ThemeColorWrap {
    fn from(value: v1::StyleColorSymbol) -> (r: ThemeColorWrap) {
        let colors = Colors::convert(&value);
        ThemeColorWrap { theme: value.alacritty_theme.into(), colors }
    }
}

impl vstd::std_specs::convert::FromSpecImpl<v1::StyleColorSymbol> for ThemeColorWrap {
    open spec fn obeys_from_spec() -> bool {
        true
    }

    open spec fn from_spec(value: v1::StyleColorSymbol) -> ThemeColorWrap {
        ThemeColorWrap {
            theme: ThemeColors::of_v1(value.alacritty_theme),
            colors: Colors::of_v1(value),
        }
    }
}

impl ThemeColorWrap {
    /// The colour of the terminal that `color` stands for in this theme.
    pub open spec fn resolve(self, color: ColorTermusic) -> Color {
        match color {
            ColorTermusic::Reset => Color::Reset,
            ColorTermusic::Foreground => Color::Rgb(self.theme.primary.foreground.r, self.theme.primary.foreground.g, self.theme.primary.foreground.b),
            ColorTermusic::Background => Color::Rgb(self.theme.primary.background.r, self.theme.primary.background.g, self.theme.primary.background.b),
            ColorTermusic::Black => Color::Rgb(self.theme.normal.black.r, self.theme.normal.black.g, self.theme.normal.black.b),
            ColorTermusic::Red => Color::Rgb(self.theme.normal.red.r, self.theme.normal.red.g, self.theme.normal.red.b),
            ColorTermusic::Green => Color::Rgb(self.theme.normal.green.r, self.theme.normal.green.g, self.theme.normal.green.b),
            ColorTermusic::Yellow => Color::Rgb(self.theme.normal.yellow.r, self.theme.normal.yellow.g, self.theme.normal.yellow.b),
            ColorTermusic::Blue => Color::Rgb(self.theme.normal.blue.r, self.theme.normal.blue.g, self.theme.normal.blue.b),
            ColorTermusic::Magenta => Color::Rgb(self.theme.normal.magenta.r, self.theme.normal.magenta.g, self.theme.normal.magenta.b),
            ColorTermusic::Cyan => Color::Rgb(self.theme.normal.cyan.r, self.theme.normal.cyan.g, self.theme.normal.cyan.b),
            ColorTermusic::White => Color::Rgb(self.theme.normal.white.r, self.theme.normal.white.g, self.theme.normal.white.b),
            ColorTermusic::LightBlack => Color::Rgb(self.theme.bright.black.r, self.theme.bright.black.g, self.theme.bright.black.b),
            ColorTermusic::LightRed => Color::Rgb(self.theme.bright.red.r, self.theme.bright.red.g, self.theme.bright.red.b),
            ColorTermusic::LightGreen => Color::Rgb(self.theme.bright.green.r, self.theme.bright.green.g, self.theme.bright.green.b),
            ColorTermusic::LightYellow => Color::Rgb(self.theme.bright.yellow.r, self.theme.bright.yellow.g, self.theme.bright.yellow.b),
            ColorTermusic::LightBlue => Color::Rgb(self.theme.bright.blue.r, self.theme.bright.blue.g, self.theme.bright.blue.b),
            ColorTermusic::LightMagenta => Color::Rgb(self.theme.bright.magenta.r, self.theme.bright.magenta.g, self.theme.bright.magenta.b),
            ColorTermusic::LightCyan => Color::Rgb(self.theme.bright.cyan.r, self.theme.bright.cyan.g, self.theme.bright.cyan.b),
            ColorTermusic::LightWhite => Color::Rgb(self.theme.bright.white.r, self.theme.bright.white.g, self.theme.bright.white.b),
        }
    }

    /// The colour of the terminal that `color` stands for in this theme.
    fn get_color_from_theme(&self, color: ColorTermusic) -> (r: Color)
        ensures
            r == self.resolve(color),
    {
        match color {
            ColorTermusic::Reset => Color::Reset,
            ColorTermusic::Foreground => self.theme.primary.foreground.into(),
            ColorTermusic::Background => self.theme.primary.background.into(),
            ColorTermusic::Black => self.theme.normal.black.into(),
            ColorTermusic::Red => self.theme.normal.red.into(),
            ColorTermusic::Green => self.theme.normal.green.into(),
            ColorTermusic::Yellow => self.theme.normal.yellow.into(),
            ColorTermusic::Blue => self.theme.normal.blue.into(),
            ColorTermusic::Magenta => self.theme.normal.magenta.into(),
            ColorTermusic::Cyan => self.theme.normal.cyan.into(),
            ColorTermusic::White => self.theme.normal.white.into(),
            ColorTermusic::LightBlack => self.theme.bright.black.into(),
            ColorTermusic::LightRed => self.theme.bright.red.into(),
            ColorTermusic::LightGreen => self.theme.bright.green.into(),
            ColorTermusic::LightYellow => self.theme.bright.yellow.into(),
            ColorTermusic::LightBlue => self.theme.bright.blue.into(),
            ColorTermusic::LightMagenta => self.theme.bright.magenta.into(),
            ColorTermusic::LightCyan => self.theme.bright.cyan.into(),
            ColorTermusic::LightWhite => self.theme.bright.white.into(),
        }
    }

    /// Music library: text.
    #[inline]
    pub fn library_foreground(&self) -> (r: Color)
        ensures
            r == self.resolve(self.colors.library_foreground),
    {
        self.get_color_from_theme(self.colors.library_foreground)
    }

    /// Music library: background.
    #[inline]
    pub fn library_background(&self) -> (r: Color)
        ensures
            r == self.resolve(self.colors.library_background),
    {
        self.get_color_from_theme(self.colors.library_background)
    }

    /// Music library: border while focused.
    #[inline]
    pub fn library_border(&self) -> (r: Color)
        ensures
            r == self.resolve(self.colors.library_border),
    {
        self.get_color_from_theme(self.colors.library_border)
    }

    /// Music library: the selected entry.
    #[inline]
    pub fn library_highlight(&self) -> (r: Color)
        ensures
            r == self.resolve(self.colors.library_highlight),
    {
        self.get_color_from_theme(self.colors.library_highlight)
    }

    /// Playlist: text.
    #[inline]
    pub fn playlist_foreground(&self) -> (r: Color)
        ensures
            r == self.resolve(self.colors.playlist_foreground),
    {
        self.get_color_from_theme(self.colors.playlist_foreground)
    }

    /// Playlist: background.
    #[inline]
    pub fn playlist_background(&self) -> (r: Color)
        ensures
            r == self.resolve(self.colors.playlist_background),
    {
        self.get_color_from_theme(self.colors.playlist_background)
    }

    /// Playlist: border while focused.
    #[inline]
    pub fn playlist_border(&self) -> (r: Color)
        ensures
            r == self.resolve(self.colors.playlist_border),
    {
        self.get_color_from_theme(self.colors.playlist_border)
    }

    /// Playlist: the selected entry.
    #[inline]
    pub fn playlist_highlight(&self) -> (r: Color)
        ensures
            r == self.resolve(self.colors.playlist_highlight),
    {
        self.get_color_from_theme(self.colors.playlist_highlight)
    }

    /// Lyrics: text.
    #[inline]
    pub fn lyric_foreground(&self) -> (r: Color)
        ensures
            r == self.resolve(self.colors.lyric_foreground),
    {
        self.get_color_from_theme(self.colors.lyric_foreground)
    }

    /// Lyrics: background.
    #[inline]
    pub fn lyric_background(&self) -> (r: Color)
        ensures
            r == self.resolve(self.colors.lyric_background),
    {
        self.get_color_from_theme(self.colors.lyric_background)
    }

    /// Lyrics: border while focused.
    #[inline]
    pub fn lyric_border(&self) -> (r: Color)
        ensures
            r == self.resolve(self.colors.lyric_border),
    {
        self.get_color_from_theme(self.colors.lyric_border)
    }

    /// Progress bar: text.
    #[inline]
    pub fn progress_foreground(&self) -> (r: Color)
        ensures
            r == self.resolve(self.colors.progress_foreground),
    {
        self.get_color_from_theme(self.colors.progress_foreground)
    }

    /// Progress bar: background.
    #[inline]
    pub fn progress_background(&self) -> (r: Color)
        ensures
            r == self.resolve(self.colors.progress_background),
    {
        self.get_color_from_theme(self.colors.progress_background)
    }

    /// Progress bar: border.
    #[inline]
    pub fn progress_border(&self) -> (r: Color)
        ensures
            r == self.resolve(self.colors.progress_border),
    {
        self.get_color_from_theme(self.colors.progress_border)
    }

    /// Error and delete popups: text.
    #[inline]
    pub fn important_popup_foreground(&self) -> (r: Color)
        ensures
            r == self.resolve(self.colors.important_popup_foreground),
    {
        self.get_color_from_theme(self.colors.important_popup_foreground)
    }

    /// Error and delete popups: background.
    #[inline]
    pub fn important_popup_background(&self) -> (r: Color)
        ensures
            r == self.resolve(self.colors.important_popup_background),
    {
        self.get_color_from_theme(self.colors.important_popup_background)
    }

    /// Error and delete popups: border.
    #[inline]
    pub fn important_popup_border(&self) -> (r: Color)
        ensures
            r == self.resolve(self.colors.important_popup_border),
    {
        self.get_color_from_theme(self.colors.important_popup_border)
    }

    /// Everything else: text.
    #[inline]
    pub fn fallback_foreground(&self) -> (r: Color)
        ensures
            r == self.resolve(self.colors.fallback_foreground),
    {
        self.get_color_from_theme(self.colors.fallback_foreground)
    }

    /// Everything else: background.
    #[inline]
    pub fn fallback_background(&self) -> (r: Color)
        ensures
            r == self.resolve(self.colors.fallback_background),
    {
        self.get_color_from_theme(self.colors.fallback_background)
    }

    /// Everything else: border.
    #[inline]
    pub fn fallback_border(&self) -> (r: Color)
        ensures
            r == self.resolve(self.colors.fallback_border),
    {
        self.get_color_from_theme(self.colors.fallback_border)
    }

    /// Everything else: the selected entry.
    #[inline]
    pub fn fallback_highlight(&self) -> (r: Color)
        ensures
            r == self.resolve(self.colors.fallback_highlight),
    {
        self.get_color_from_theme(self.colors.fallback_highlight)
    }

}

/// `Reset` is the terminal's own colour in every theme, and every other
/// choice is a colour of the theme itself.
pub proof fn lemma_resolve(wrap: ThemeColorWrap, color: ColorTermusic)
    ensures
        color == ColorTermusic::Reset <==> wrap.resolve(color) == Color::Reset,
        color != ColorTermusic::Reset ==> exists|i: int|
            0 <= i < 20 && i != 2 && i != 3 && wrap.resolve(color) == Color::Rgb(
                (#[trigger] wrap.theme.colors()[i]).r,
                wrap.theme.colors()[i].g,
                wrap.theme.colors()[i].b,
            ),
{
    let all = wrap.theme.colors();
    match color {
        ColorTermusic::Reset => {},
        ColorTermusic::Background => {
            assert(all[0] == wrap.theme.primary.background);
        },
        ColorTermusic::Foreground => {
            assert(all[1] == wrap.theme.primary.foreground);
        },
        ColorTermusic::Black => {
            assert(all[4] == wrap.theme.normal.black);
        },
        ColorTermusic::Red => {
            assert(all[5] == wrap.theme.normal.red);
        },
        ColorTermusic::Green => {
            assert(all[6] == wrap.theme.normal.green);
        },
        ColorTermusic::Yellow => {
            assert(all[7] == wrap.theme.normal.yellow);
        },
        ColorTermusic::Blue => {
            assert(all[8] == wrap.theme.normal.blue);
        },
        ColorTermusic::Magenta => {
            assert(all[9] == wrap.theme.normal.magenta);
        },
        ColorTermusic::Cyan => {
            assert(all[10] == wrap.theme.normal.cyan);
        },
        ColorTermusic::White => {
            assert(all[11] == wrap.theme.normal.white);
        },
        ColorTermusic::LightBlack => {
            assert(all[12] == wrap.theme.bright.black);
        },
        ColorTermusic::LightRed => {
            assert(all[13] == wrap.theme.bright.red);
        },
        ColorTermusic::LightGreen => {
            assert(all[14] == wrap.theme.bright.green);
        },
        ColorTermusic::LightYellow => {
            assert(all[15] == wrap.theme.bright.yellow);
        },
        ColorTermusic::LightBlue => {
            assert(all[16] == wrap.theme.bright.blue);
        },
        ColorTermusic::LightMagenta => {
            assert(all[17] == wrap.theme.bright.magenta);
        },
        ColorTermusic::LightCyan => {
            assert(all[18] == wrap.theme.bright.cyan);
        },
        ColorTermusic::LightWhite => {
            assert(all[19] == wrap.theme.bright.white);
        },
    }
}

/// The name of a theme that gives none.
#[inline]
pub fn default_name() -> (r: String)
    ensures
        r@ == "empty name"@,
{
    String::from_str("empty name")
}

/// The author of a theme that gives none.
#[inline]
pub fn default_author() -> (r: String)
    ensures
        r@ == "empty author"@,
{
    String::from_str("empty author")
}

/// Black.
#[inline]
pub fn default_000() -> (r: ThemeColor)
    ensures
        r == (ThemeColor { r: 0, g: 0, b: 0 }),
{
    ThemeColor { r: 0, g: 0, b: 0 }
}

/// White.
#[inline]
pub fn default_fff() -> (r: ThemeColor)
    ensures
        r == (ThemeColor { r: 255, g: 255, b: 255 }),
{
    ThemeColor { r: 255, g: 255, b: 255 }
}

} // verus!
