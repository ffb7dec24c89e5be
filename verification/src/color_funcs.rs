//! Colours as points of a space: gradients between two colours and weighted
//! averages of several. A channel of the result is the exact combination of
//! the channels of the colours, rounded to the nearest integer; a combination
//! that lies halfway between two integers is rounded away from zero.

use vstd::prelude::*;
use vstd::arithmetic::div_mod::{
    lemma_div_is_ordered,
    lemma_div_multiples_vanish_quotient,
    lemma_fundamental_div_mod_converse,
    lemma_multiply_divide_lt,
};
use crate::color::RGBColor;
use crate::mix::{mix_channel, Mix};

verus! {

/// What can be wrong with a computation on colours.
#[derive(Debug, Copy, Clone, PartialEq, Eq, Hash, Structural)]
pub enum ColorCalcError {
    /// A weighted average was given a number of weights other than the number
    /// of colours.
    MismatchedWeights,
}

/// `x / d`, rounded to the nearest integer, and away from zero where it lies
/// halfway between two.
pub open spec fn round_div(x: nat, d: nat) -> nat {
    ((2 * x + d) / (2 * d)) as nat
}

/// The channel at `i` of `d` equal steps on the way from the channel `a` to
/// the channel `b`.
pub open spec fn step_channel(a: u8, b: u8, i: nat, d: nat) -> u8 {
    round_div((b * i + a * (d - i)) as nat, d) as u8
}

/// The colour at `i` of `d` equal steps on the way from `from` to `to`.
pub open spec fn step_color(from: RGBColor, to: RGBColor, i: nat, d: nat) -> RGBColor {
    RGBColor {
        r: step_channel(from.r, to.r, i, d),
        g: step_channel(from.g, to.g, i, d),
        b: step_channel(from.b, to.b, i, d),
    }
}

/// The sum of the weights.
pub open spec fn weight_sum(weights: Seq<u32>) -> nat
    decreases weights.len(),
{
    if weights.len() == 0 {
        0
    } else {
        weight_sum(weights.drop_last()) + weights.last() as nat
    }
}

/// The sum of the values, each multiplied by its weight.
pub open spec fn weighted_sum(values: Seq<u8>, weights: Seq<u32>) -> nat
    decreases values.len(),
{
    if values.len() == 0 || weights.len() == 0 {
        0
    } else {
        weighted_sum(values.drop_last(), weights.drop_last()) + values.last() as nat
            * weights.last() as nat
    }
}

/// The red channels of the colours.
pub open spec fn reds(colors: Seq<RGBColor>) -> Seq<u8> {
    Seq::new(colors.len(), |i: int| colors[i].r)
}

/// The green channels of the colours.
pub open spec fn greens(colors: Seq<RGBColor>) -> Seq<u8> {
    Seq::new(colors.len(), |i: int| colors[i].g)
}

/// The blue channels of the colours.
pub open spec fn blues(colors: Seq<RGBColor>) -> Seq<u8> {
    Seq::new(colors.len(), |i: int| colors[i].b)
}

/// The weighted average of the colours: each channel is the weighted sum of
/// the channels over the sum of the weights.
pub open spec fn average_color(colors: Seq<RGBColor>, weights: Seq<u32>) -> RGBColor {
    RGBColor {
        r: round_div(weighted_sum(reds(colors), weights), weight_sum(weights)) as u8,
        g: round_div(weighted_sum(greens(colors), weights), weight_sum(weights)) as u8,
        b: round_div(weighted_sum(blues(colors), weights), weight_sum(weights)) as u8,
    }
}

/// A rounded quotient of a numerator that is at most 255 times the
/// denominator is at most 255.
pub proof fn lemma_round_div_range(x: nat, d: nat)
    requires
        d > 0,
        x <= 255 * d,
    ensures
        round_div(x, d) <= 255,
{
    assert(2 * x + d < 256 * (2 * d)) by (nonlinear_arith)
        requires
            d > 0,
            x <= 255 * d,
    ;
    lemma_multiply_divide_lt((2 * x + d) as int, (2 * d) as int, 256);
}

/// A rounded quotient of `a * d` by `d` is `a`.
pub proof fn lemma_round_div_exact(a: nat, d: nat)
    requires
        d > 0,
    ensures
        round_div(a * d, d) == a,
{
    assert(2 * (a * d) + d == a * (2 * d) + d) by (nonlinear_arith);
    lemma_fundamental_div_mod_converse(
        (2 * (a * d) + d) as int,
        (2 * d) as int,
        a as int,
        d as int,
    );
}

/// A gradient begins at its first colour and ends at its second.
pub proof fn lemma_step_color_endpoints(from: RGBColor, to: RGBColor, d: nat)
    requires
        d > 0,
    ensures
        step_color(from, to, 0, d) == from,
        step_color(from, to, d, d) == to,
{
    lemma_step_channel_endpoints(from.r, to.r, d);
    lemma_step_channel_endpoints(from.g, to.g, d);
    lemma_step_channel_endpoints(from.b, to.b, d);
}

/// The way from one channel to another begins at the one and ends at the
/// other.
pub proof fn lemma_step_channel_endpoints(a: u8, b: u8, d: nat)
    requires
        d > 0,
    ensures
        step_channel(a, b, 0, d) == a,
        step_channel(a, b, d, d) == b,
{
    lemma_round_div_exact(a as nat, d);
    lemma_round_div_exact(b as nat, d);
    assert(b * 0 + a * (d - 0) == a * d) by (nonlinear_arith);
    assert(b * d + a * (d - d) == b * d) by (nonlinear_arith);
}

/// The colour halfway between two colours is their mix.
pub proof fn lemma_step_color_half(from: RGBColor, to: RGBColor)
    ensures
        step_color(from, to, 1, 2) == from.mixed(to),
{
    lemma_step_channel_half(from.r, to.r);
    lemma_step_channel_half(from.g, to.g);
    lemma_step_channel_half(from.b, to.b);
}

/// The channel halfway between two channels is their midpoint.
pub proof fn lemma_step_channel_half(a: u8, b: u8)
    ensures
        step_channel(a, b, 1, 2) == mix_channel(a, b),
{
    let x = (b * 1 + a * (2 - 1)) as nat;
    assert(x == a + b);
    assert((2 * x + 2) / 4 == (a + b + 1) / 2);
}

/// Every step of the way between two channels lies between them.
pub proof fn lemma_step_channel_between(a: u8, b: u8, i: nat, d: nat)
    requires
        d > 0,
        i <= d,
        a <= b,
    ensures
        a <= step_channel(a, b, i, d) <= b,
        a <= step_channel(b, a, i, d) <= b,
{
    let x = (b * i + a * (d - i)) as nat;
    let y = (a * i + b * (d - i)) as nat;
    assert(a * d <= x <= b * d && a * d <= y <= b * d) by (nonlinear_arith)
        requires
            i <= d,
            a <= b,
            x == b * i + a * (d - i),
            y == a * i + b * (d - i),
    ;
    lemma_round_div_exact(a as nat, d);
    lemma_round_div_exact(b as nat, d);
    lemma_div_is_ordered((2 * (a * d) + d) as int, (2 * x + d) as int, (2 * d) as int);
    lemma_div_is_ordered((2 * x + d) as int, (2 * (b * d) + d) as int, (2 * d) as int);
    lemma_div_is_ordered((2 * (a * d) + d) as int, (2 * y + d) as int, (2 * d) as int);
    lemma_div_is_ordered((2 * y + d) as int, (2 * (b * d) + d) as int, (2 * d) as int);
}

/// The weighted sum of one value is the value times its weight, and that of
/// two values is the sum of the two products.
pub proof fn lemma_weighted_sum_small(x: u8, y: u8, v: u32, w: u32)
    ensures
        weight_sum(seq![v]) == v,
        weight_sum(seq![v, w]) == v + w,
        weighted_sum(seq![x], seq![v]) == x * v,
        weighted_sum(seq![x, y], seq![v, w]) == x * v + y * w,
{
    assert(seq![v].drop_last() =~= Seq::<u32>::empty());
    assert(seq![x].drop_last() =~= Seq::<u8>::empty());
    assert(seq![v, w].drop_last() =~= seq![v]);
    assert(seq![x, y].drop_last() =~= seq![x]);
    assert(weight_sum(seq![v].drop_last()) == 0);
    assert(weighted_sum(seq![x].drop_last(), seq![v].drop_last()) == 0);
}

/// The weighted average of one colour is the colour, whatever its weight.
pub proof fn lemma_average_of_one(c: RGBColor, w: u32)
    requires
        w > 0,
    ensures
        average_color(seq![c], seq![w]) == c,
{
    assert(reds(seq![c]) =~= seq![c.r]);
    assert(greens(seq![c]) =~= seq![c.g]);
    assert(blues(seq![c]) =~= seq![c.b]);
    lemma_weighted_sum_small(c.r, 0, w, 0);
    lemma_weighted_sum_small(c.g, 0, w, 0);
    lemma_weighted_sum_small(c.b, 0, w, 0);
    lemma_round_div_exact(c.r as nat, w as nat);
    lemma_round_div_exact(c.g as nat, w as nat);
    lemma_round_div_exact(c.b as nat, w as nat);
}

/// The average of two values of one weight is their midpoint.
pub proof fn lemma_round_div_of_two(x: u8, y: u8, w: u32)
    requires
        w > 0,
    ensures
        round_div((x * w + y * w) as nat, (w + w) as nat) == mix_channel(x, y),
{
    let n = (x * w + y * w) as int;
    let d = (w + w) as int;
    assert(2 * n + d == d * (x + y + 1) && 2 * d == d * 2) by (nonlinear_arith)
        requires
            n == x * w + y * w,
            d == w + w,
    ;
    lemma_div_multiples_vanish_quotient(d, (x + y + 1) as int, 2);
}

/// The weighted average of two colours of one weight is their mix.
pub proof fn lemma_average_of_two(a: RGBColor, b: RGBColor, w: u32)
    requires
        w > 0,
    ensures
        average_color(seq![a, b], seq![w, w]) == a.mixed(b),
{
    assert(reds(seq![a, b]) =~= seq![a.r, b.r]);
    assert(greens(seq![a, b]) =~= seq![a.g, b.g]);
    assert(blues(seq![a, b]) =~= seq![a.b, b.b]);
    lemma_weighted_sum_small(a.r, b.r, w, w);
    lemma_weighted_sum_small(a.g, b.g, w, w);
    lemma_weighted_sum_small(a.b, b.b, w, w);
    lemma_round_div_of_two(a.r, b.r, w);
    lemma_round_div_of_two(a.g, b.g, w);
    lemma_round_div_of_two(a.b, b.b, w);
}

/// Checks the weights of a weighted average of one colour and `others` more:
/// there is one weight for each colour.
pub fn check_weights(others: usize, weights: usize) -> (r: Result<(), ColorCalcError>)
    ensures
        r is Ok <==> others + 1 == weights,
        r is Err ==> r == Err::<(), ColorCalcError>(ColorCalcError::MismatchedWeights),
{
    if weights == 0 || others != weights - 1 {
        Err(ColorCalcError::MismatchedWeights)
    } else {
        Ok(())
    }
}

/// The channel at `i` of `d` equal steps on the way from `a` to `b`.
fn step_channel_of(a: u8, b: u8, i: usize, d: usize) -> (c: u8)
    requires
        d > 0,
        i <= d,
    ensures
        c == step_channel(a, b, i as nat, d as nat),
{
    proof {
        assert(b * i <= 255 * d && a * (d - i) <= 255 * d && b * i + a * (d - i) <= 255 * d)
            by (nonlinear_arith)
            requires
                0 <= i <= d,
                0 <= a <= 255,
                0 <= b <= 255,
        ;
        lemma_round_div_range((b * i + a * (d - i)) as nat, d as nat);
    }
    let x: u128 = b as u128 * i as u128 + a as u128 * (d - i) as u128;
    ((2 * x + d as u128) / (2 * d as u128)) as u8
}

impl RGBColor {
    /// The midpoint of the two colours.
    pub fn midpoint(self, other: RGBColor) -> (m: RGBColor)
        ensures
            m == self.mixed(other),
    {
        self.mix(other)
    }

    /// The colour at `i` of `d` equal steps on the way from this colour to
    /// the other: this colour at step 0, the other at step `d`.
    pub fn gradient_step(&self, other: &RGBColor, i: usize, d: usize) -> (c: RGBColor)
        requires
            d > 0,
            i <= d,
        ensures
            c == step_color(*self, *other, i as nat, d as nat),
    {
        RGBColor {
            r: step_channel_of(self.r, other.r, i, d),
            g: step_channel_of(self.g, other.g, i, d),
            b: step_channel_of(self.b, other.b, i, d),
        }
    }

    /// A scale of `n + 2` colours from this colour to the other, both
    /// included, at equal steps.
    pub fn gradient_scale(&self, other: &RGBColor, n: usize) -> (scale: Vec<RGBColor>)
        requires
            n + 2 <= usize::MAX,
        ensures
            scale.len() == n + 2,
            forall|i: int|
                0 <= i < scale.len() ==> #[trigger] scale[i] == step_color(
                    *self,
                    *other,
                    i as nat,
                    (n + 1) as nat,
                ),
            scale[0] == *self,
            scale[n + 1] == *other,
    {
        let mut scale: Vec<RGBColor> = Vec::new();
        let mut i: usize = 0;
        while i < n + 2
            invariant
                i <= n + 2 <= usize::MAX,
                scale.len() == i,
                forall|j: int|
                    0 <= j < i ==> #[trigger] scale[j] == step_color(
                        *self,
                        *other,
                        j as nat,
                        (n + 1) as nat,
                    ),
            decreases n + 2 - i,
        {
            scale.push(self.gradient_step(other, i, n + 1));
            i += 1;
        }
        proof {
            lemma_step_color_endpoints(*self, *other, (n + 1) as nat);
        }
        scale
    }

    /// The weighted average of this colour and the others. The first weight
    /// is that of this colour. A number of weights other than the number of
    /// colours is an error.
    pub fn weighted_average(self, others: &Vec<RGBColor>, weights: &Vec<u32>) -> (r: Result<
        RGBColor,
        ColorCalcError,
    >)
        requires
            weights.len() < 0x100_0000,
            others.len() + 1 == weights.len() ==> weight_sum(weights@) > 0,
        ensures
            r == if others.len() + 1 == weights.len() {
                Ok::<RGBColor, ColorCalcError>(
                    average_color(seq![self] + others@, weights@),
                )
            } else {
                Err::<RGBColor, ColorCalcError>(ColorCalcError::MismatchedWeights)
            },
    {
        match check_weights(others.len(), weights.len()) {
            Err(e) => {
                return Err(e);
            },
            Ok(()) => {},
        }
        let ghost colors = seq![self] + others@;
        let n = weights.len();
        let mut total: u64 = 0;
        let mut red: u64 = 0;
        let mut green: u64 = 0;
        let mut blue: u64 = 0;
        let mut i: usize = 0;
        while i < n
            invariant
                i <= n,
                n == weights.len(),
                n < 0x100_0000,
                others.len() + 1 == n,
                colors == seq![self] + others@,
                total == weight_sum(weights@.take(i as int)),
                red == weighted_sum(reds(colors).take(i as int), weights@.take(i as int)),
                green == weighted_sum(greens(colors).take(i as int), weights@.take(i as int)),
                blue == weighted_sum(blues(colors).take(i as int), weights@.take(i as int)),
                total <= i * 0xffff_ffff,
                red <= 255 * total,
                green <= 255 * total,
                blue <= 255 * total,
            decreases n - i,
        {
            let c = if i == 0 {
                self
            } else {
                others[i - 1]
            };
            let w = weights[i] as u64;
            proof {
                assert(c == colors[i as int]);
                assert(weights@.take(i + 1).drop_last() =~= weights@.take(i as int));
                assert(reds(colors).take(i + 1).drop_last() =~= reds(colors).take(i as int));
                assert(greens(colors).take(i + 1).drop_last() =~= greens(colors).take(i as int));
                assert(blues(colors).take(i + 1).drop_last() =~= blues(colors).take(i as int));
                assert(i * 0xffff_ffff + 0xffff_ffff <= 0x100_0000 * 0xffff_ffff) by (nonlinear_arith)
                    requires
                        i < 0x100_0000,
                ;
                assert(c.r as u64 * w <= 255 * w && c.g as u64 * w <= 255 * w && c.b as u64 * w
                    <= 255 * w) by (nonlinear_arith)
                    requires
                        c.r <= 255,
                        c.g <= 255,
                        c.b <= 255,
                        w >= 0,
                ;
            }
            total = total + w;
            red = red + c.r as u64 * w;
            green = green + c.g as u64 * w;
            blue = blue + c.b as u64 * w;
            i += 1;
        }
        proof {
            assert(weights@.take(n as int) =~= weights@);
            assert(reds(colors).take(n as int) =~= reds(colors));
            assert(greens(colors).take(n as int) =~= greens(colors));
            assert(blues(colors).take(n as int) =~= blues(colors));
            assert(total > 0);
            assert(total <= 0x100_0000 * 0xffff_ffff) by (nonlinear_arith)
                requires
                    total <= n * 0xffff_ffff,
                    n < 0x100_0000,
            ;
            lemma_round_div_range(red as nat, total as nat);
            lemma_round_div_range(green as nat, total as nat);
            lemma_round_div_range(blue as nat, total as nat);
        }
        Ok(
            RGBColor {
                r: ((2 * red as u128 + total as u128) / (2 * total as u128)) as u8,
                g: ((2 * green as u128 + total as u128) / (2 * total as u128)) as u8,
                b: ((2 * blue as u128 + total as u128) / (2 * total as u128)) as u8,
            },
        )
    }
}

} // verus!
