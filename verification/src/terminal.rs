//! Colours on a terminal. A terminal that knows 24-bit colour takes an escape
//! sequence that sets the colour of the text or of its background; one that
//! does not shows the text in some other way.

use vstd::prelude::*;
use vstd::string::StringExecFns;
use crate::color::RGBColor;
use crate::text::decimal_text;

verus! {

/// The escape sequence that sets a colour of 24 bits: `ESC [`, the layer (`3`
/// for the text, `4` for the background), `8;2;`, the three channels in
/// decimal with `;` between them, and `m`.
pub open spec fn truecolor_escape(layer: char, c: RGBColor) -> Seq<char> {
    seq!['\u{1b}', '[', layer, '8', ';', '2', ';'] + decimal_text(c.r) + seq![';'] + decimal_text(
        c.g,
    ) + seq![';'] + decimal_text(c.b) + seq!['m']
}

/// The escape sequence that gives a layer its default colour again: `ESC [`,
/// the layer, `9m`.
pub open spec fn reset_escape(layer: char) -> Seq<char> {
    seq!['\u{1b}', '[', layer, '9', 'm']
}

/// A full block, the character that fills its cell.
pub open spec fn block_char() -> char {
    '\u{25a0}'
}

/// `text` in the colour `c`, with the default colour set again behind it.
pub open spec fn colored_text(c: RGBColor, text: Seq<char>) -> Seq<char> {
    truecolor_escape('3', c) + text + reset_escape('3')
}

/// A block in the colour `c` on a background of the same colour, with both
/// default colours set again behind it.
pub open spec fn colored_block(c: RGBColor) -> Seq<char> {
    truecolor_escape('4', c) + truecolor_escape('3', c) + seq![block_char()] + reset_escape('3')
        + reset_escape('4')
}

/// `termion::color::Rgb::fg_string`: the sequence that sets the colour of the
/// text to the three channels.
#[verifier::external_body]
fn rgb_fg_string(c: RGBColor) -> (s: String)
    ensures
        s@ == truecolor_escape('3', c),
{
    termion::color::Rgb(c.r, c.g, c.b).fg_string()
}

/// `termion::color::Rgb::bg_string`: the sequence that sets the colour of the
/// background to the three channels.
#[verifier::external_body]
fn rgb_bg_string(c: RGBColor) -> (s: String)
    ensures
        s@ == truecolor_escape('4', c),
{
    termion::color::Rgb(c.r, c.g, c.b).bg_string()
}

/// `termion::color::Reset::fg_str`: the sequence that gives the text its
/// default colour.
#[verifier::external_body]
fn reset_fg_str() -> (s: &'static str)
    ensures
        s@ == reset_escape('3'),
{
    termion::color::Reset.fg_str()
}

/// `termion::color::Reset::bg_str`: the sequence that gives the background
/// its default colour.
#[verifier::external_body]
fn reset_bg_str() -> (s: &'static str)
    ensures
        s@ == reset_escape('4'),
{
    termion::color::Reset.bg_str()
}

impl RGBColor {
    /// `text` wrapped in the escape sequences that show it in this colour.
    pub fn write_colored_str(&self, text: &str) -> (s: String)
        ensures
            s@ == colored_text(*self, text@),
    {
        let mut s = rgb_fg_string(*self);
        s.append(text);
        s.append(reset_fg_str());
        s
    }

    /// A block of this colour, wrapped in the escape sequences that show it.
    pub fn write_color(&self) -> (s: String)
        ensures
            s@ == colored_block(*self),
    {
        let mut s = rgb_bg_string(*self);
        let fg = rgb_fg_string(*self);
        s.append(fg.as_str());
        s.push('\u{25a0}');
        s.append(reset_fg_str());
        s.append(reset_bg_str());
        assert(s@ =~= colored_block(*self));
        s
    }
}

} // verus!
