//! Mixing two colours of one kind: the midpoint of the two. The mix is
//! additive, as light mixes: yellow and blue give gray, not green.

use vstd::prelude::*;
use crate::color::RGBColor;

verus! {

/// A colour that can be mixed with another of its own kind.
pub trait Mix: Sized {
    /// The midpoint of the two colours.
    spec fn mixed(self, other: Self) -> Self;

    /// The midpoint of the two colours.
    fn mix(self, other: Self) -> (m: Self)
        ensures
            m == self.mixed(other),
    ;
}

/// The midpoint of two channels, rounded to the nearest integer; a midpoint
/// that lies halfway between two integers is rounded away from zero.
pub open spec fn mix_channel(a: u8, b: u8) -> u8 {
    ((a + b + 1) / 2) as u8
}

impl Mix for RGBColor {
    /// The midpoint of each channel.
    open spec fn mixed(self, other: RGBColor) -> RGBColor {
        RGBColor {
            r: mix_channel(self.r, other.r),
            g: mix_channel(self.g, other.g),
            b: mix_channel(self.b, other.b),
        }
    }

    fn mix(self, other: RGBColor) -> (m: RGBColor) {
        RGBColor {
            r: mix_channels(self.r, other.r),
            g: mix_channels(self.g, other.g),
            b: mix_channels(self.b, other.b),
        }
    }
}

/// The midpoint of two channels.
fn mix_channels(a: u8, b: u8) -> (m: u8)
    ensures
        m == mix_channel(a, b),
{
    let sum: u16 = a as u16 + b as u16 + 1;
    (sum / 2) as u8
}

/// Mixing does not depend on the order of the two colours.
pub proof fn lemma_mix_commutative(a: RGBColor, b: RGBColor)
    ensures
        a.mixed(b) == b.mixed(a),
{
}

/// A colour mixed with itself is the colour.
pub proof fn lemma_mix_idempotent(a: RGBColor)
    ensures
        a.mixed(a) == a,
{
}

/// The midpoint of two channels lies between them, and where it is one of
/// them the two differ by one at most.
pub proof fn lemma_mix_channel_between(a: u8, b: u8)
    ensures
        a <= b ==> a <= mix_channel(a, b) <= b,
        b <= a ==> b <= mix_channel(a, b) <= a,
        mix_channel(a, b) == a ==> a <= b + 1 && b <= a + 1,
{
}

} // verus!
