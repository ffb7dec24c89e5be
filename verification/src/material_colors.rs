//! The colours of the Material Design palette. A colour is named by its hue
//! and its tone: one of ten neutral tones, from 50 to 900, or, for the hues
//! that have them, one of four accent tones.

use vstd::prelude::*;
use crate::color::RGBColor;

verus! {

/// A neutral tint or shade of a hue. The palette writes the tones as numbers;
/// a `W` stands before them here, since a name cannot begin with a digit.
#[derive(Debug, PartialEq, Eq, Hash, Copy, Clone, Structural)]
pub enum NeutralTone {
    W50,
    W100,
    W200,
    W300,
    W400,
    W500,
    W600,
    W700,
    W800,
    W900,
}

/// An accent tone, written with an `A` before its number.
#[derive(Debug, PartialEq, Eq, Hash, Copy, Clone, Structural)]
pub enum AccentTone {
    A100,
    A200,
    A400,
    A700,
}

/// A tone of either kind.
#[derive(Debug, PartialEq, Eq, Hash, Copy, Clone, Structural)]
pub enum MaterialTone {
    Neutral(NeutralTone),
    Accent(AccentTone),
}

/// A colour of the palette: a hue with its tone. Brown, grey and blue grey
/// have neutral tones only; black and white have no tones.
#[derive(Debug, Copy, Clone, Hash, Eq, PartialEq, Structural)]
pub enum MaterialPrimary {
    Red(MaterialTone),
    Pink(MaterialTone),
    Purple(MaterialTone),
    DeepPurple(MaterialTone),
    Indigo(MaterialTone),
    Blue(MaterialTone),
    LightBlue(MaterialTone),
    Cyan(MaterialTone),
    Teal(MaterialTone),
    Green(MaterialTone),
    LightGreen(MaterialTone),
    Lime(MaterialTone),
    Yellow(MaterialTone),
    Amber(MaterialTone),
    Orange(MaterialTone),
    DeepOrange(MaterialTone),
    Brown(NeutralTone),
    Grey(NeutralTone),
    BlueGrey(NeutralTone),
    Black,
    White,
}

// The table of each hue holds its colours as numbers of 24 bits, red in the
// highest byte: first the tone 500, which is the hue itself, then the other
// neutral tones from 50 to 900, then the accent tones.

pub const RED_COLORS: [u32; 14] = [
    0xf44336, 0xffebee, 0xffcdd2, 0xef9a9a, 0xe57373, 0xef5350, 0xe53935, 0xd32f2f, 0xc62828,
    0xb71c1c, 0xff8a80, 0xff5252, 0xff1744, 0xd50000,
];

pub const PINK_COLORS: [u32; 14] = [
    0xe91e63, 0xfce4ec, 0xf8bbd0, 0xf48fb1, 0xf06292, 0xec407a, 0xd81b60, 0xc2185b, 0xad1457,
    0x880e4f, 0xff80ab, 0xff4081, 0xf50057, 0xc51162,
];

pub const PURPLE_COLORS: [u32; 14] = [
    0x9c27b0, 0xf3e5f5, 0xe1bee7, 0xce93d8, 0xba68c8, 0xab47bc, 0x8e24aa, 0x7b1fa2, 0x6a1b9a,
    0x4a148c, 0xea80fc, 0xe040fb, 0xd500f9, 0xaa00ff,
];

pub const DEEP_PURPLE_COLORS: [u32; 14] = [
    0x673ab7, 0xede7f6, 0xd1c4e9, 0xb39ddb, 0x9575cd, 0x7e57c2, 0x5e35b1, 0x512da8, 0x4527a0,
    0x311b92, 0xb388ff, 0x7c4dff, 0x651fff, 0x6200ea,
];

pub const INDIGO_COLORS: [u32; 14] = [
    0x3f51b5, 0xe8eaf6, 0xc5cae9, 0x9fa8da, 0x7986cb, 0x5c6bc0, 0x3949ab, 0x303f9f, 0x283593,
    0x1a237e, 0x8c9eff, 0x536dfe, 0x3d5afe, 0x304ffe,
];

pub const BLUE_COLORS: [u32; 14] = [
    0x2196f3, 0xe3f2fd, 0xbbdefb, 0x90caf9, 0x64b5f6, 0x42a5f5, 0x1e88e5, 0x1976d2, 0x1565c0,
    0x0d47a1, 0x82b1ff, 0x448aff, 0x2979ff, 0x2962ff,
];

pub const LIGHT_BLUE_COLORS: [u32; 14] = [
    0x03a9f4, 0xe1f5fe, 0xb3e5fc, 0x81d4fa, 0x4fc3f7, 0x29b6f6, 0x039be5, 0x0288d1, 0x0277bd,
    0x01579b, 0x80d8ff, 0x40c4ff, 0x00b0ff, 0x0091ea,
];

pub const CYAN_COLORS: [u32; 14] = [
    0x00bcd4, 0xe0f7fa, 0xb2ebf2, 0x80deea, 0x4dd0e1, 0x26c6da, 0x00acc1, 0x0097a7, 0x00838f,
    0x006064, 0x84ffff, 0x18ffff, 0x00e5ff, 0x00b8d4,
];

pub const TEAL_COLORS: [u32; 14] = [
    0x009688, 0xe0f2f1, 0xb2dfdb, 0x80cbc4, 0x4db6ac, 0x26a69a, 0x00897b, 0x00796b, 0x00695c,
    0x004d40, 0xa7ffeb, 0x64ffda, 0x1de9b6, 0x00bfa5,
];

pub const GREEN_COLORS: [u32; 14] = [
    0x4caf50, 0xe8f5e9, 0xc8e6c9, 0xa5d6a7, 0x81c784, 0x66bb6a, 0x43a047, 0x388e3c, 0x2e7d32,
    0x1b5e20, 0xb9f6ca, 0x69f0ae, 0x00e676, 0x00c853,
];

pub const LIGHT_GREEN_COLORS: [u32; 14] = [
    0x8bc34a, 0xf1f8e9, 0xdcedc8, 0xc5e1a5, 0xaed581, 0x9ccc65, 0x7cb342, 0x689f38, 0x558b2f,
    0x33691e, 0xccff90, 0xb2ff59, 0x76ff03, 0x64dd17,
];

pub const LIME_COLORS: [u32; 14] = [
    0xcddc39, 0xf9fbe7, 0xf0f4c3, 0xe6ee9c, 0xdce775, 0xd4e157, 0xc0ca33, 0xafb42b, 0x9e9d24,
    0x827717, 0xf4ff81, 0xeeff41, 0xc6ff00, 0xaeea00,
];

pub const YELLOW_COLORS: [u32; 14] = [
    0xffeb3b, 0xfffde7, 0xfff9c4, 0xfff59d, 0xfff176, 0xffee58, 0xfdd835, 0xfbc02d, 0xf9a825,
    0xf57f17, 0xffff8d, 0xffff00, 0xffea00, 0xffd600,
];

pub const AMBER_COLORS: [u32; 14] = [
    0xffc107, 0xfff8e1, 0xffecb3, 0xffe082, 0xffd54f, 0xffca28, 0xffb300, 0xffa000, 0xff8f00,
    0xff6f00, 0xffe57f, 0xffd740, 0xffc400, 0xffab00,
];

pub const ORANGE_COLORS: [u32; 14] = [
    0xff9800, 0xfff3e0, 0xffe0b2, 0xffcc80, 0xffb74d, 0xffa726, 0xfb8c00, 0xf57c00, 0xef6c00,
    0xe65100, 0xffd180, 0xffab40, 0xff9100, 0xff6d00,
];

pub const DEEP_ORANGE_COLORS: [u32; 14] = [
    0xff5722, 0xfbe9e7, 0xffccbc, 0xffab91, 0xff8a65, 0xff7043, 0xf4511e, 0xe64a19, 0xd84315,
    0xbf360c, 0xff9e80, 0xff6e40, 0xff3d00, 0xdd2c00,
];

pub const GREY_COLORS: [u32; 10] = [
    0x9e9e9e, 0xfafafa, 0xf5f5f5, 0xeeeeee, 0xe0e0e0, 0xbdbdbd, 0x757575, 0x616161, 0x424242,
    0x212121,
];

pub const BLUE_GREY_COLORS: [u32; 10] = [
    0x607d8b, 0xeceff1, 0xcfd8dc, 0xb0bec5, 0x90a4ae, 0x78909c, 0x546e7a, 0x455a64, 0x37474f,
    0x263238,
];

pub const BROWN_COLORS: [u32; 10] = [
    0x795548, 0xefebe9, 0xd7ccc8, 0xbcaaa4, 0xa1887f, 0x8d6e63, 0x6d4c41, 0x5d4037, 0x4e342e,
    0x3e2723,
];

/// The place of a tone in the table of a hue: the tone 500 comes first, the
/// other neutral tones follow from 50 to 900, and the accent tones stand
/// behind them.
pub open spec fn tone_index(tone: MaterialTone) -> int {
    match tone {
        MaterialTone::Neutral(w) => match w {
            NeutralTone::W500 => 0,
            NeutralTone::W50 => 1,
            NeutralTone::W100 => 2,
            NeutralTone::W200 => 3,
            NeutralTone::W300 => 4,
            NeutralTone::W400 => 5,
            NeutralTone::W600 => 6,
            NeutralTone::W700 => 7,
            NeutralTone::W800 => 8,
            NeutralTone::W900 => 9,
        },
        MaterialTone::Accent(a) => match a {
            AccentTone::A100 => 10,
            AccentTone::A200 => 11,
            AccentTone::A400 => 12,
            AccentTone::A700 => 13,
        },
    }
}

/// The number of 24 bits that the palette gives a colour.
pub open spec fn material_code(prim: MaterialPrimary) -> u32 {
    match prim {
        MaterialPrimary::Red(tone) => RED_COLORS[tone_index(tone)],
        MaterialPrimary::Pink(tone) => PINK_COLORS[tone_index(tone)],
        MaterialPrimary::Purple(tone) => PURPLE_COLORS[tone_index(tone)],
        MaterialPrimary::DeepPurple(tone) => DEEP_PURPLE_COLORS[tone_index(tone)],
        MaterialPrimary::Indigo(tone) => INDIGO_COLORS[tone_index(tone)],
        MaterialPrimary::Blue(tone) => BLUE_COLORS[tone_index(tone)],
        MaterialPrimary::LightBlue(tone) => LIGHT_BLUE_COLORS[tone_index(tone)],
        MaterialPrimary::Cyan(tone) => CYAN_COLORS[tone_index(tone)],
        MaterialPrimary::Teal(tone) => TEAL_COLORS[tone_index(tone)],
        MaterialPrimary::Green(tone) => GREEN_COLORS[tone_index(tone)],
        MaterialPrimary::LightGreen(tone) => LIGHT_GREEN_COLORS[tone_index(tone)],
        MaterialPrimary::Lime(tone) => LIME_COLORS[tone_index(tone)],
        MaterialPrimary::Yellow(tone) => YELLOW_COLORS[tone_index(tone)],
        MaterialPrimary::Amber(tone) => AMBER_COLORS[tone_index(tone)],
        MaterialPrimary::Orange(tone) => ORANGE_COLORS[tone_index(tone)],
        MaterialPrimary::DeepOrange(tone) => DEEP_ORANGE_COLORS[tone_index(tone)],
        MaterialPrimary::Brown(tone) => BROWN_COLORS[tone_index(MaterialTone::Neutral(tone))],
        MaterialPrimary::Grey(tone) => GREY_COLORS[tone_index(MaterialTone::Neutral(tone))],
        MaterialPrimary::BlueGrey(tone) => BLUE_GREY_COLORS[tone_index(MaterialTone::Neutral(tone))],
        MaterialPrimary::Black => 0x000000,
        MaterialPrimary::White => 0xffffff,
    }
}

/// The colour that a number of 24 bits writes: red in the highest byte, then
/// green, then blue.
pub open spec fn code_color(code: u32) -> RGBColor {
    RGBColor {
        r: (code / 65536 % 256) as u8,
        g: (code / 256 % 256) as u8,
        b: (code % 256) as u8,
    }
}

/// The place of a tone in the table of a hue.
pub fn to_index(tone: MaterialTone) -> (i: usize)
    ensures
        i == tone_index(tone),
        i < 14,
        tone is Neutral ==> i < 10,
{
    match tone {
        MaterialTone::Neutral(w) => match w {
            NeutralTone::W500 => 0,
            NeutralTone::W50 => 1,
            NeutralTone::W100 => 2,
            NeutralTone::W200 => 3,
            NeutralTone::W300 => 4,
            NeutralTone::W400 => 5,
            NeutralTone::W600 => 6,
            NeutralTone::W700 => 7,
            NeutralTone::W800 => 8,
            NeutralTone::W900 => 9,
        },
        MaterialTone::Accent(a) => match a {
            AccentTone::A100 => 10,
            AccentTone::A200 => 11,
            AccentTone::A400 => 12,
            AccentTone::A700 => 13,
        },
    }
}

/// The entry of a table of fourteen colours.
fn entry_of(table: &[u32; 14], i: usize) -> (code: u32)
    requires
        i < 14,
    ensures
        code == table[i as int],
{
    table[i]
}

/// The entry of a table of ten colours.
fn neutral_entry_of(table: &[u32; 10], i: usize) -> (code: u32)
    requires
        i < 10,
    ensures
        code == table[i as int],
{
    table[i]
}

/// The number of 24 bits that the palette gives a colour.
fn material_code_of(prim: MaterialPrimary) -> (code: u32)
    ensures
        code == material_code(prim),
{
    match prim {
        MaterialPrimary::Red(tone) => entry_of(&RED_COLORS, to_index(tone)),
        MaterialPrimary::Pink(tone) => entry_of(&PINK_COLORS, to_index(tone)),
        MaterialPrimary::Purple(tone) => entry_of(&PURPLE_COLORS, to_index(tone)),
        MaterialPrimary::DeepPurple(tone) => entry_of(&DEEP_PURPLE_COLORS, to_index(tone)),
        MaterialPrimary::Indigo(tone) => entry_of(&INDIGO_COLORS, to_index(tone)),
        MaterialPrimary::Blue(tone) => entry_of(&BLUE_COLORS, to_index(tone)),
        MaterialPrimary::LightBlue(tone) => entry_of(&LIGHT_BLUE_COLORS, to_index(tone)),
        MaterialPrimary::Cyan(tone) => entry_of(&CYAN_COLORS, to_index(tone)),
        MaterialPrimary::Teal(tone) => entry_of(&TEAL_COLORS, to_index(tone)),
        MaterialPrimary::Green(tone) => entry_of(&GREEN_COLORS, to_index(tone)),
        MaterialPrimary::LightGreen(tone) => entry_of(&LIGHT_GREEN_COLORS, to_index(tone)),
        MaterialPrimary::Lime(tone) => entry_of(&LIME_COLORS, to_index(tone)),
        MaterialPrimary::Yellow(tone) => entry_of(&YELLOW_COLORS, to_index(tone)),
        MaterialPrimary::Amber(tone) => entry_of(&AMBER_COLORS, to_index(tone)),
        MaterialPrimary::Orange(tone) => entry_of(&ORANGE_COLORS, to_index(tone)),
        MaterialPrimary::DeepOrange(tone) => entry_of(&DEEP_ORANGE_COLORS, to_index(tone)),
        MaterialPrimary::Brown(tone) => neutral_entry_of(&BROWN_COLORS, to_index(MaterialTone::Neutral(tone))),
        MaterialPrimary::Grey(tone) => neutral_entry_of(&GREY_COLORS, to_index(MaterialTone::Neutral(tone))),
        MaterialPrimary::BlueGrey(tone) => neutral_entry_of(&BLUE_GREY_COLORS, to_index(MaterialTone::Neutral(tone))),
        MaterialPrimary::Black => 0x000000,
        MaterialPrimary::White => 0xffffff,
    }
}

impl RGBColor {
    /// The colour of the Material Design palette with the given hue and tone.
    pub fn from_material_palette(prim: MaterialPrimary) -> (c: RGBColor)
        ensures
            c == code_color(material_code(prim)),
    {
        let code = material_code_of(prim);
        RGBColor {
            r: (code / 65536 % 256) as u8,
            g: (code / 256 % 256) as u8,
            b: (code % 256) as u8,
        }
    }
}

/// Two tones have one place in the table only where they are one tone.
pub proof fn lemma_tone_index_injective(a: MaterialTone, b: MaterialTone)
    requires
        tone_index(a) == tone_index(b),
    ensures
        a == b,
{
}

} // verus!
