//! The colour that a display device stores: three channels, red, green and
//! blue, of eight bits each. Hexadecimal codes, colour names and palettes
//! denote such colours exactly, and a colour of any other representation is
//! shown by converting it to one.

use vstd::prelude::*;
use crate::consts::{X11_COLORS, X11_NAME_COUNT};
use crate::text::{
    all_hex_digits,
    hex_digit_of,
    hex_digit_value,
    hex_digits_in,
    hex_pair_of,
    hex_pair_value,
    is_hex_digit,
    to_chars,
};

verus! {

/// A colour of 24 bits: red, green and blue, each from 0 to 255.
#[derive(Debug, Copy, Clone, Hash, PartialEq, Eq, Structural)]
pub struct RGBColor {
    /// The red channel.
    pub r: u8,
    /// The green channel.
    pub g: u8,
    /// The blue channel.
    pub b: u8,
}

/// What can be wrong with the text of an RGB colour.
#[derive(Debug, Copy, Clone, Hash, PartialEq, Eq, Structural)]
pub enum RGBParseError {
    /// A channel lies outside 0..=255.
    OutOfRange,
    /// The text is no hexadecimal code of three or six digits.
    InvalidHexSyntax,
    /// The text is no call of `rgb` on three numbers.
    InvalidFuncSyntax,
    /// The text is no colour name of the table.
    InvalidX11Name,
}

impl RGBParseError {
    /// A short description of the kind of error.
    pub fn description(&self) -> (s: &'static str)
        ensures
            s@ == match *self {
                RGBParseError::OutOfRange => "RGB coordinates out of range"@,
                RGBParseError::InvalidHexSyntax => "Invalid hex code syntax"@,
                RGBParseError::InvalidFuncSyntax => "Invalid \"rgb(\" function call syntax"@,
                RGBParseError::InvalidX11Name => "Invalid X11 color name"@,
            },
    {
        match *self {
            RGBParseError::OutOfRange => "RGB coordinates out of range",
            RGBParseError::InvalidHexSyntax => "Invalid hex code syntax",
            RGBParseError::InvalidFuncSyntax => "Invalid \"rgb(\" function call syntax",
            RGBParseError::InvalidX11Name => "Invalid X11 color name",
        }
    }

    /// The text under which every error of this type is displayed.
    pub fn to_string(&self) -> (s: String)
        ensures
            s@ == "RGB parsing error"@,
    {
        "RGB parsing error".to_owned()
    }
}

/// A hexadecimal code without its leading `#`, where it has one.
pub open spec fn hex_body(s: Seq<char>) -> Seq<char> {
    if s.len() > 0 && s[0] == '#' {
        s.skip(1)
    } else {
        s
    }
}

/// A hexadecimal code of a colour: an optional `#`, then three or six
/// hexadecimal digits.
pub open spec fn is_hex_code(s: Seq<char>) -> bool {
    &&& (hex_body(s).len() == 3 || hex_body(s).len() == 6)
    &&& all_hex_digits(hex_body(s))
}

/// The colour that a hexadecimal code writes. Six digits are two for each
/// channel; three digits are one for each channel, which stands twice.
pub open spec fn hex_code_rgb(s: Seq<char>) -> RGBColor {
    let b = hex_body(s);
    if b.len() == 6 {
        RGBColor {
            r: hex_pair_value(b[0], b[1]) as u8,
            g: hex_pair_value(b[2], b[3]) as u8,
            b: hex_pair_value(b[4], b[5]) as u8,
        }
    } else {
        RGBColor {
            r: hex_pair_value(b[0], b[0]) as u8,
            g: hex_pair_value(b[1], b[1]) as u8,
            b: hex_pair_value(b[2], b[2]) as u8,
        }
    }
}

/// The colour of a hexadecimal code, or `InvalidHexSyntax` for a text that is
/// none.
pub open spec fn hex_code_color(s: Seq<char>) -> Result<RGBColor, RGBParseError> {
    if is_hex_code(s) {
        Ok(hex_code_rgb(s))
    } else {
        Err(RGBParseError::InvalidHexSyntax)
    }
}

/// The hexadecimal digit, in upper case, of a number from 0 to 15.
pub open spec fn upper_hex_digit(n: nat) -> char {
    if n < 10 {
        (n + 48) as char
    } else {
        (n + 55) as char
    }
}

/// The code `#RRGGBB` of a colour, with its digits in upper case.
pub open spec fn hex_text(c: RGBColor) -> Seq<char> {
    seq![
        '#',
        upper_hex_digit((c.r / 16) as nat),
        upper_hex_digit((c.r % 16) as nat),
        upper_hex_digit((c.g / 16) as nat),
        upper_hex_digit((c.g % 16) as nat),
        upper_hex_digit((c.b / 16) as nat),
        upper_hex_digit((c.b % 16) as nat),
    ]
}

/// The first place from `from` on at which `name` stands in the table of
/// names, or the length of the table.
pub open spec fn name_index_from(name: Seq<char>, from: int) -> int
    decreases X11_NAME_COUNT - from,
{
    if from < 0 || from >= X11_NAME_COUNT {
        X11_NAME_COUNT as int
    } else if X11_COLORS[from].0@ == name {
        from
    } else {
        name_index_from(name, from + 1)
    }
}

/// The colour of a name in lower case: the code that stands in the table at
/// the place of the name is read as a hexadecimal code. A name that the
/// table lacks is `InvalidX11Name`.
pub open spec fn lowercase_name_color(name: Seq<char>) -> Result<RGBColor, RGBParseError> {
    let i = name_index_from(name, 0);
    if 0 <= i < X11_NAME_COUNT {
        hex_code_color(X11_COLORS[i].1@)
    } else {
        Err(RGBParseError::InvalidX11Name)
    }
}

/// What the standard library's `str::to_lowercase` returns on a text.
pub uninterp spec fn lowercase_of(s: Seq<char>) -> Seq<char>;

/// `str::to_lowercase`: the text with each character replaced by its lower
/// case according to Unicode. Nothing more is claimed of it than that the
/// result depends on the text alone.
#[verifier::external_body]
fn to_lowercase(s: &str) -> (r: String)
    ensures
        r@ == lowercase_of(s@),
{
    s.to_lowercase()
}

/// The hexadecimal digit, in upper case, of a number from 0 to 15.
fn upper_hex_digit_of(n: u8) -> (c: char)
    requires
        n < 16,
    ensures
        c == upper_hex_digit(n as nat),
{
    if n < 10 {
        (n + 48) as char
    } else {
        (n + 55) as char
    }
}

/// Whether two texts are the same.
fn same_text(a: &Vec<char>, b: &str) -> (r: bool)
    ensures
        r == (a@ == b@),
{
    let other = to_chars(b);
    if a.len() != other.len() {
        return false;
    }
    let mut i: usize = 0;
    while i < a.len()
        invariant
            i <= a.len(),
            a.len() == other.len(),
            other@ == b@,
            forall|j: int| 0 <= j < i ==> a@[j] == other@[j],
        decreases a.len() - i,
    {
        if a[i] != other[i] {
            return false;
        }
        i += 1;
    }
    assert(a@ =~= other@);
    true
}

/// The colour of a hexadecimal code given by its characters.
fn hex_chars_color(chars: &Vec<char>) -> (r: Result<RGBColor, RGBParseError>)
    ensures
        r == hex_code_color(chars@),
{
    let n = chars.len();
    let start: usize = if n > 0 && chars[0] == '#' {
        1
    } else {
        0
    };
    let ghost body = hex_body(chars@);
    assert(chars@.subrange(start as int, n as int) =~= body);
    if n - start != 3 && n - start != 6 {
        return Err(RGBParseError::InvalidHexSyntax);
    }
    if !hex_digits_in(chars, start, n) {
        return Err(RGBParseError::InvalidHexSyntax);
    }
    assert forall|i: int| start <= i < n implies is_hex_digit(#[trigger] chars@[i]) by {
        assert(chars@[i] == body[i - start]);
    }
    if n - start == 6 {
        Ok(
            RGBColor {
                r: hex_pair_of(chars[start], chars[start + 1]),
                g: hex_pair_of(chars[start + 2], chars[start + 3]),
                b: hex_pair_of(chars[start + 4], chars[start + 5]),
            },
        )
    } else {
        Ok(
            RGBColor {
                r: hex_pair_of(chars[start], chars[start]),
                g: hex_pair_of(chars[start + 1], chars[start + 1]),
                b: hex_pair_of(chars[start + 2], chars[start + 2]),
            },
        )
    }
}

impl RGBColor {
    /// The red channel, from 0 to 255.
    pub fn int_r(&self) -> (v: u8)
        ensures
            v == self.r,
    {
        self.r
    }

    /// The green channel, from 0 to 255.
    pub fn int_g(&self) -> (v: u8)
        ensures
            v == self.g,
    {
        self.g
    }

    /// The blue channel, from 0 to 255.
    pub fn int_b(&self) -> (v: u8)
        ensures
            v == self.b,
    {
        self.b
    }

    /// The three channels, red first.
    pub fn int_rgb_tup(&self) -> (t: (u8, u8, u8))
        ensures
            t == (self.r, self.g, self.b),
    {
        (self.r, self.g, self.b)
    }

    /// Reads a hexadecimal code such as `#172844`, `a1F1dB` or `#fa0`: an
    /// optional `#`, then six digits, or three that stand twice each.
    pub fn from_hex_code(hex: &str) -> (r: Result<RGBColor, RGBParseError>)
        requires
            hex@.len() > 0,
        ensures
            r == hex_code_color(hex@),
    {
        let chars = to_chars(hex);
        hex_chars_color(&chars)
    }

    /// The colour of a name that is already in lower case.
    pub fn from_lowercase_name(name: &str) -> (r: Result<RGBColor, RGBParseError>)
        ensures
            r == lowercase_name_color(name@),
    {
        let chars = to_chars(name);
        let mut i: usize = 0;
        while i < X11_NAME_COUNT
            invariant
                i <= X11_NAME_COUNT,
                chars@ == name@,
                name_index_from(name@, 0) == name_index_from(name@, i as int),
            decreases X11_NAME_COUNT - i,
        {
            if same_text(&chars, X11_COLORS[i].0) {
                let code = to_chars(X11_COLORS[i].1);
                return hex_chars_color(&code);
            }
            i += 1;
        }
        Err(RGBParseError::InvalidX11Name)
    }

    /// The colour of a name, in whatever case it is written: the name is
    /// brought to lower case and looked up.
    pub fn from_color_name(name: &str) -> (r: Result<RGBColor, RGBParseError>)
        ensures
            r == lowercase_name_color(lowercase_of(name@)),
    {
        let lower = to_lowercase(name);
        RGBColor::from_lowercase_name(lower.as_str())
    }

    /// Reads a colour from a hexadecimal code or, where the text is none,
    /// from a name.
    pub fn from_str(s: &str) -> (r: Result<RGBColor, RGBParseError>)
        requires
            s@.len() > 0,
        ensures
            r == match hex_code_color(s@) {
                Ok(c) => Ok::<RGBColor, RGBParseError>(c),
                Err(_) => lowercase_name_color(lowercase_of(s@)),
            },
    {
        match RGBColor::from_hex_code(s) {
            Err(_e) => RGBColor::from_color_name(s),
            Ok(rgb) => Ok(rgb),
        }
    }

    /// The code `#RRGGBB` of the colour, with its digits in upper case.
    pub fn to_string(&self) -> (s: String)
        ensures
            s@ == hex_text(*self),
    {
        let mut s = String::new();
        s.push('#');
        s.push(upper_hex_digit_of(self.r / 16));
        s.push(upper_hex_digit_of(self.r % 16));
        s.push(upper_hex_digit_of(self.g / 16));
        s.push(upper_hex_digit_of(self.g % 16));
        s.push(upper_hex_digit_of(self.b / 16));
        s.push(upper_hex_digit_of(self.b % 16));
        assert(s@ =~= hex_text(*self));
        s
    }
}

impl From<(u8, u8, u8)> for RGBColor {
    fn from(rgb: (u8, u8, u8)) -> (c: RGBColor) {
        RGBColor { r: rgb.0, g: rgb.1, b: rgb.2 }
    }
}

impl vstd::std_specs::convert::FromSpecImpl<(u8, u8, u8)> for RGBColor {
    open spec fn obeys_from_spec() -> bool {
        true
    }

    open spec fn from_spec(rgb: (u8, u8, u8)) -> RGBColor {
        RGBColor { r: rgb.0, g: rgb.1, b: rgb.2 }
    }
}

/// The digit of a number from 0 to 15 stands for that number.
pub proof fn lemma_upper_hex_digit(n: nat)
    requires
        n < 16,
    ensures
        is_hex_digit(upper_hex_digit(n)),
        hex_digit_value(upper_hex_digit(n)) == n,
{
}

/// A colour is read back from its own code: `from_hex_code` on the text of
/// `to_string` gives the colour again.
pub proof fn lemma_hex_code_round_trip(c: RGBColor)
    ensures
        hex_code_color(hex_text(c)) == Ok::<RGBColor, RGBParseError>(c),
{
    let t = hex_text(c);
    let b = hex_body(t);
    assert(b =~= seq![t[1], t[2], t[3], t[4], t[5], t[6]]);
    lemma_upper_hex_digit((c.r / 16) as nat);
    lemma_upper_hex_digit((c.r % 16) as nat);
    lemma_upper_hex_digit((c.g / 16) as nat);
    lemma_upper_hex_digit((c.g % 16) as nat);
    lemma_upper_hex_digit((c.b / 16) as nat);
    lemma_upper_hex_digit((c.b % 16) as nat);
    assert(all_hex_digits(b));
    assert(hex_code_rgb(t) == c);
}

/// A letter from `a` to `z` in upper case, and any other character as it is.
pub open spec fn ascii_upper(c: char) -> char {
    if 'a' <= c && c <= 'z' {
        ((c as u32 - 32) as u8) as char
    } else {
        c
    }
}

/// A hexadecimal digit stands for the number whose digit in upper case it is.
pub proof fn lemma_upper_hex_digit_of_value(c: char)
    requires
        is_hex_digit(c),
    ensures
        hex_digit_value(c) < 16,
        upper_hex_digit(hex_digit_value(c)) == ascii_upper(c),
{
}

/// The code of the colour that a code `#rrggbb` denotes is that code in upper
/// case: `to_string` on the colour of `from_hex_code` spells the digits anew.
pub proof fn lemma_hex_text_of_hex_code(s: Seq<char>)
    requires
        is_hex_code(s),
        s.len() == 7,
        s[0] == '#',
    ensures
        hex_text(hex_code_rgb(s)) == Seq::new(7, |i: int| ascii_upper(s[i])),
{
    let b = hex_body(s);
    assert(b =~= s.skip(1));
    assert forall|i: int| 0 <= i < 6 implies is_hex_digit(#[trigger] b[i]) by {}
    lemma_upper_hex_digit_of_value(b[0]);
    lemma_upper_hex_digit_of_value(b[1]);
    lemma_upper_hex_digit_of_value(b[2]);
    lemma_upper_hex_digit_of_value(b[3]);
    lemma_upper_hex_digit_of_value(b[4]);
    lemma_upper_hex_digit_of_value(b[5]);
    let c = hex_code_rgb(s);
    assert(c.r / 16 == hex_digit_value(b[0]) && c.r % 16 == hex_digit_value(b[1]));
    assert(c.g / 16 == hex_digit_value(b[2]) && c.g % 16 == hex_digit_value(b[3]));
    assert(c.b / 16 == hex_digit_value(b[4]) && c.b % 16 == hex_digit_value(b[5]));
    assert(hex_text(c) =~= Seq::new(7, |i: int| ascii_upper(s[i])));
}

/// A code of three digits denotes the colour of the code of six digits in
/// which each of the three stands twice.
pub proof fn lemma_short_hex_code(r: char, g: char, b: char)
    requires
        is_hex_digit(r),
        is_hex_digit(g),
        is_hex_digit(b),
    ensures
        hex_code_color(seq!['#', r, g, b]) == hex_code_color(seq!['#', r, r, g, g, b, b]),
{
    let short = seq!['#', r, g, b];
    let long = seq!['#', r, r, g, g, b, b];
    assert(hex_body(short) =~= seq![r, g, b]);
    assert(hex_body(long) =~= seq![r, r, g, g, b, b]);
    assert(all_hex_digits(hex_body(short)));
    assert(all_hex_digits(hex_body(long)));
}

} // verus!
