//! The colour notations of HTML: the hexadecimal code `#rrggbb` or
//! `#rrggbbaa`, and the functions `rgb(r, g, b)` and `rgba(r, g, b, a)`. Each
//! is read into the four channels red, green, blue and alpha, 0 to 255.

use vstd::prelude::*;
use crate::color::{hex_body, hex_code_color, RGBColor, RGBParseError};
use crate::cssnumeric::{digits_in, is_unsigned_text, unsigned_text_value, without_plus};
use crate::text::{
    all_hex_digits,
    hex_digits_in,
    hex_pair_of,
    hex_pair_value,
    is_digit,
    is_digit_char,
    is_hex_digit,
    parse_decimal,
    to_chars,
};

verus! {

/// What can be wrong with a colour in HTML notation.
#[derive(Debug, Copy, Clone, Hash, PartialEq, Eq, Structural)]
pub enum ColorParseError {
    /// The text is no hexadecimal code of six or eight digits behind a `#`.
    InvalidHTMLHex,
    /// The text is no call of `rgb` or `rgba` on three or four numbers.
    InvalidRGBAFunction,
    /// A channel of `rgb` or `rgba` is above 255.
    OutOfRangeRGBA,
    /// A component of `hsl` or `hsla` is outside its range.
    OutOfRangeHSLA,
    /// The text is no call of `hsl` or `hsla`.
    InvalidHSLAFunction,
}

/// A hexadecimal colour code: a `#`, then six or eight hexadecimal digits.
pub open spec fn is_html_hex(s: Seq<char>) -> bool {
    &&& (s.len() == 7 || s.len() == 9)
    &&& s[0] == '#'
    &&& all_hex_digits(s.skip(1))
}

/// The four channels that a hexadecimal colour code writes: two digits each
/// for red, green and blue, and two for alpha where there are eight; a code
/// of six digits is opaque.
pub open spec fn html_hex_rgba(s: Seq<char>) -> Seq<u8> {
    seq![
        hex_pair_value(s[1], s[2]) as u8,
        hex_pair_value(s[3], s[4]) as u8,
        hex_pair_value(s[5], s[6]) as u8,
        if s.len() == 9 {
            hex_pair_value(s[7], s[8]) as u8
        } else {
            255u8
        },
    ]
}

/// Reads a hexadecimal colour code such as `#23334412` or `#aabbcc` into the
/// channels red, green, blue and alpha. Without alpha digits, alpha is 255.
pub fn hex_to_rgba(hex: &str) -> (r: Result<Vec<u8>, ColorParseError>)
    ensures
        match r {
            Ok(v) => is_html_hex(hex@) && v@ == html_hex_rgba(hex@),
            Err(e) => !is_html_hex(hex@) && e == ColorParseError::InvalidHTMLHex,
        },
{
    let chars = to_chars(hex);
    let count = chars.len();
    if count == 0 || chars[0] != '#' {
        return Err(ColorParseError::InvalidHTMLHex);
    }
    if count != 7 && count != 9 {
        return Err(ColorParseError::InvalidHTMLHex);
    }
    assert(chars@.subrange(1, count as int) =~= hex@.skip(1));
    if !hex_digits_in(&chars, 1, count) {
        return Err(ColorParseError::InvalidHTMLHex);
    }
    assert forall|i: int| 1 <= i < count implies is_hex_digit(#[trigger] chars@[i]) by {
        assert(chars@[i] == hex@.skip(1)[i - 1]);
    }
    let red = hex_pair_of(chars[1], chars[2]);
    let green = hex_pair_of(chars[3], chars[4]);
    let blue = hex_pair_of(chars[5], chars[6]);
    let alpha = if count == 9 {
        hex_pair_of(chars[7], chars[8])
    } else {
        255u8
    };
    let mut v: Vec<u8> = Vec::new();
    v.push(red);
    v.push(green);
    v.push(blue);
    v.push(alpha);
    assert(v@ =~= html_hex_rgba(hex@));
    Ok(v)
}


/// A hexadecimal code of six digits behind a `#` denotes in HTML the colour
/// that it denotes as the code of a colour of 24 bits, and that colour is
/// opaque.
pub proof fn lemma_html_hex_is_hex_code(s: Seq<char>)
    requires
        is_html_hex(s),
        s.len() == 7,
    ensures
        hex_code_color(s) == Ok::<RGBColor, RGBParseError>(
            RGBColor { r: html_hex_rgba(s)[0], g: html_hex_rgba(s)[1], b: html_hex_rgba(s)[2] },
        ),
        html_hex_rgba(s)[3] == 255,
{
    assert(hex_body(s) =~= s.skip(1));
}

/// The pattern of `rgba(r, g, b, a)`: four numbers of one to three digits,
/// with spaces around them at will, each in a group of its own.
pub const RGBA_PATTERN: &'static str =
    "^rgba\\( *([0-9]{1,3}) *, *([0-9]{1,3}) *, *([0-9]{1,3}) *, *([0-9]{1,3}) *\\)$";

/// The pattern of `rgb(r, g, b)`: three numbers of one to three digits, with
/// spaces around them at will, each in a group of its own.
pub const RGB_PATTERN: &'static str =
    "^rgb\\( *([0-9]{1,3}) *, *([0-9]{1,3}) *, *([0-9]{1,3}) *\\)$";

/// What the regular expression `pattern` captures in `input`: nothing where
/// the pattern is no regular expression or does not match; otherwise the text
/// of each group, the whole match first, and nothing for a group that took no
/// part in the match.
pub uninterp spec fn regex_captures(pattern: Seq<char>, input: Seq<char>) -> Option<
    Seq<Option<Seq<char>>>,
>;

/// The groups of a match as plain values.
pub open spec fn groups_view(groups: Option<Vec<Option<String>>>) -> Option<
    Seq<Option<Seq<char>>>,
> {
    match groups {
        None => None,
        Some(v) => Some(
            Seq::new(
                v@.len(),
                |i: int|
                    match v@[i] {
                        None => None,
                        Some(s) => Some(s@),
                    },
            ),
        ),
    }
}

/// `regex::Regex::new` and `regex::Regex::captures`: the pattern is compiled
/// and matched against the input, and the text of each group is handed out.
/// Of what matches, nothing is claimed but that it depends on the pattern and
/// the input alone.
#[verifier::external_body]
fn capture_groups(pattern: &str, input: &str) -> (groups: Option<Vec<Option<String>>>)
    ensures
        groups_view(groups) == regex_captures(pattern@, input@),
{
    let re = regex::Regex::new(pattern).ok()?;
    let caps = re.captures(input)?;
    Some(caps.iter().map(|m| m.map(|m| m.as_str().to_string())).collect())
}

/// A character that may stand in a call of `rgb` or `rgba`.
pub open spec fn is_func_char(c: char) -> bool {
    is_digit(c) || c == ' ' || c == '(' || c == ')' || c == 'r' || c == 'g' || c == 'b' || c
        == 'a' || c == ','
}

/// Every character of `s` may stand in a call of `rgb` or `rgba`.
pub open spec fn all_func_chars(s: Seq<char>) -> bool {
    forall|i: int| 0 <= i < s.len() ==> is_func_char(#[trigger] s[i])
}

/// The channel that a captured text writes: the text is an unsigned integer
/// of at most 255. No text, a text that is no number and a number above 255
/// write no channel.
pub open spec fn channel_of_group(group: Option<Seq<char>>) -> Option<u8> {
    match group {
        Some(t) => if is_unsigned_text(t) && unsigned_text_value(t) <= 255 {
            Some(unsigned_text_value(t) as u8)
        } else {
            None
        },
        None => None,
    }
}

/// The four channels that the groups of a match write. Behind the whole
/// match, three groups are red, green and blue, and alpha is 255; four groups
/// are red, green, blue and alpha. A group that writes no channel is
/// `OutOfRangeRGBA`; no match, or another number of groups, is
/// `InvalidRGBAFunction`.
pub open spec fn rgba_of_groups(groups: Option<Seq<Option<Seq<char>>>>) -> Result<
    Seq<u8>,
    ColorParseError,
> {
    match groups {
        None => Err(ColorParseError::InvalidRGBAFunction),
        Some(g) => if g.len() == 4 || g.len() == 5 {
            if channel_of_group(g[1]) is Some && channel_of_group(g[2]) is Some
                && channel_of_group(g[3]) is Some && (g.len() == 5 ==> channel_of_group(
                g[4],
            ) is Some) {
                Ok(
                    seq![
                        channel_of_group(g[1])->0,
                        channel_of_group(g[2])->0,
                        channel_of_group(g[3])->0,
                        if g.len() == 5 {
                            channel_of_group(g[4])->0
                        } else {
                            255u8
                        },
                    ],
                )
            } else {
                Err(ColorParseError::OutOfRangeRGBA)
            }
        } else {
            Err(ColorParseError::InvalidRGBAFunction)
        },
    }
}

/// What [`func_to_rgba`] returns on a text: the channels of what the pattern
/// of `rgba` captures or, where that captures nothing, of what the pattern of
/// `rgb` captures. A text with a character that no call holds is
/// `InvalidRGBAFunction`.
pub open spec fn func_rgba(s: Seq<char>) -> Result<Seq<u8>, ColorParseError> {
    if !all_func_chars(s) {
        Err(ColorParseError::InvalidRGBAFunction)
    } else {
        rgba_of_groups(
            match regex_captures(RGBA_PATTERN@, s) {
                Some(g) => Some(g),
                None => regex_captures(RGB_PATTERN@, s),
            },
        )
    }
}

/// The channel that a captured text writes.
fn channel_of(group: &Option<String>) -> (r: Option<u8>)
    ensures
        r == channel_of_group(
            match *group {
                None => None,
                Some(s) => Some(s@),
            },
        ),
{
    match group {
        None => None,
        Some(text) => {
            let chars = to_chars(text.as_str());
            let start: usize = if chars.len() > 0 && chars[0] == '+' {
                1
            } else {
                0
            };
            assert(chars@.subrange(start as int, chars.len() as int) =~= without_plus(text@));
            if start == chars.len() || !digits_in(&chars, start, chars.len()) {
                return None;
            }
            match parse_decimal(&chars, start, chars.len(), 255) {
                Some(v) => Some(v as u8),
                None => None,
            }
        },
    }
}

/// The four channels that the groups of a match write.
pub fn rgba_from_groups(groups: &Option<Vec<Option<String>>>) -> (r: Result<
    Vec<u8>,
    ColorParseError,
>)
    ensures
        match r {
            Ok(v) => rgba_of_groups(groups_view(*groups)) == Ok::<Seq<u8>, ColorParseError>(v@),
            Err(e) => rgba_of_groups(groups_view(*groups)) == Err::<Seq<u8>, ColorParseError>(e),
        },
{
    match groups {
        None => Err(ColorParseError::InvalidRGBAFunction),
        Some(g) => {
            let n = g.len();
            if n != 4 && n != 5 {
                return Err(ColorParseError::InvalidRGBAFunction);
            }
            let ghost view = groups_view(*groups)->0;
            assert(view.len() == n);
            assert(view[1] == match g@[1] {
                None => None,
                Some(s) => Some(s@),
            });
            assert(view[2] == match g@[2] {
                None => None,
                Some(s) => Some(s@),
            });
            assert(view[3] == match g@[3] {
                None => None,
                Some(s) => Some(s@),
            });
            let red = channel_of(&g[1]);
            let green = channel_of(&g[2]);
            let blue = channel_of(&g[3]);
            let alpha = if n == 5 {
                assert(view[4] == match g@[4] {
                    None => None,
                    Some(s) => Some(s@),
                });
                channel_of(&g[4])
            } else {
                Some(255u8)
            };
            match (red, green, blue, alpha) {
                (Some(r), Some(g), Some(b), Some(a)) => {
                    let mut v: Vec<u8> = Vec::new();
                    v.push(r);
                    v.push(g);
                    v.push(b);
                    v.push(a);
                    assert(v@ =~= rgba_of_groups(groups_view(*groups))->Ok_0);
                    Ok(v)
                },
                _ => Err(ColorParseError::OutOfRangeRGBA),
            }
        },
    }
}

/// Whether every character may stand in a call of `rgb` or `rgba`.
fn func_chars_only(chars: &Vec<char>) -> (r: bool)
    ensures
        r == all_func_chars(chars@),
{
    let mut i: usize = 0;
    while i < chars.len()
        invariant
            i <= chars.len(),
            forall|j: int| 0 <= j < i ==> is_func_char(#[trigger] chars@[j]),
        decreases chars.len() - i,
    {
        let c = chars[i];
        if !(is_digit_char(c) || c == ' ' || c == '(' || c == ')' || c == 'r' || c == 'g' || c
            == 'b' || c == 'a' || c == ',') {
            assert(!is_func_char(chars@[i as int]));
            return false;
        }
        i += 1;
    }
    true
}

/// Reads a call such as `rgb(24, 33, 235)` or `rgba(255, 0, 128, 56)` into
/// the channels red, green, blue and alpha. Without an alpha, alpha is 255.
pub fn func_to_rgba(input: &str) -> (r: Result<Vec<u8>, ColorParseError>)
    ensures
        match r {
            Ok(v) => func_rgba(input@) == Ok::<Seq<u8>, ColorParseError>(v@),
            Err(e) => func_rgba(input@) == Err::<Seq<u8>, ColorParseError>(e),
        },
{
    let chars = to_chars(input);
    if !func_chars_only(&chars) {
        return Err(ColorParseError::InvalidRGBAFunction);
    }
    let groups = match capture_groups(RGBA_PATTERN, input) {
        Some(g) => Some(g),
        None => capture_groups(RGB_PATTERN, input),
    };
    rgba_from_groups(&groups)
}

} // verus!
