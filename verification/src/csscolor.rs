//! CSS functional colour notation, `rgb(r, g, b)`, read with the numbers of
//! [`crate::cssnumeric`]. Each component may be an integer from 0 to 255, a
//! number with a point from 0 to 1, or a percentage; whatever lies outside
//! its range is clamped to it.

use vstd::prelude::*;
use crate::consts::{UNIT_THRESHOLDS, UNIT_THRESHOLD_COUNT};
use crate::cssnumeric::{
    count_char,
    css_number,
    css_number_defined,
    find_in,
    first_index,
    form_of,
    is_css_number_defined,
    lemma_count_zero,
    lemma_first_index,
    parse_css_number,
    unsigned_part,
    CSSDecimal,
    CSSDecimalView,
    CSSNumeric,
    CSSNumericForm,
    CSSNumericView,
    CSSParseError,
};
use crate::text::{
    all_digits,
    decimal_text,
    decimal_value,
    digit_of,
    digit_value,
    from_chars,
    is_digit,
    is_digit_char,
    lemma_decimal_text_value,
    to_chars,
};

verus! {

/// The channel value of an integer component: the integer, clamped to 0..=255.
pub open spec fn integer_to_channel(v: int) -> int {
    if v >= 255 {
        255
    } else if v <= 0 {
        0
    } else {
        v
    }
}

/// The channel value of a percentage: the percentage is clamped to 0..=100,
/// multiplied by 2.55 and rounded to the nearest integer. The product is the
/// one that binary floating point arithmetic carries, in which 2.55 is a
/// little less than its decimal value: of the five products that lie halfway
/// between two integers, those of 50 and 90 fall below the half and are
/// rounded down, those of 10, 30 and 70 are rounded up.
pub open spec fn percent_to_channel(v: int) -> int {
    let p = if v <= 0 {
        0
    } else if v >= 100 {
        100
    } else {
        v
    };
    if p == 50 {
        127
    } else if p == 90 {
        229
    } else {
        (255 * p + 50) / 100
    }
}

/// The digit at place `i` behind the point of `0.s`. A place behind the last
/// digit holds 0.
pub open spec fn fraction_digit(s: Seq<char>, i: int) -> nat {
    if 0 <= i < s.len() {
        digit_value(s[i])
    } else {
        0
    }
}

/// The first `k` digits behind the point of `0.s`, read as an integer.
pub open spec fn fraction_prefix(s: Seq<char>, k: nat) -> nat
    decreases k,
{
    if k == 0 {
        0
    } else {
        fraction_prefix(s, (k - 1) as nat) * 10 + fraction_digit(s, k - 1)
    }
}

/// The number of digits of the longer of two texts.
pub open spec fn longer_len(a: Seq<char>, b: Seq<char>) -> nat {
    if a.len() >= b.len() {
        a.len()
    } else {
        b.len()
    }
}

/// `0.fraction` has reached the threshold `0.threshold`: it lies above the
/// threshold, or on it where the threshold belongs to the greater value. The
/// two are compared as integers, each written with the digits of the longer.
pub open spec fn reaches(fraction: Seq<char>, threshold: Seq<char>, inclusive: bool) -> bool {
    let l = longer_len(fraction, threshold);
    let f = fraction_prefix(fraction, l);
    let t = fraction_prefix(threshold, l);
    f > t || (inclusive && f == t)
}

/// How many of the first `k` thresholds of [`UNIT_THRESHOLDS`] `0.fraction`
/// has reached.
pub open spec fn thresholds_reached(fraction: Seq<char>, k: int) -> int
    decreases k,
{
    if k <= 0 || k > UNIT_THRESHOLD_COUNT {
        0
    } else {
        thresholds_reached(fraction, k - 1) + if reaches(
            fraction,
            UNIT_THRESHOLDS[k - 1].0@,
            UNIT_THRESHOLDS[k - 1].1,
        ) {
            1int
        } else {
            0int
        }
    }
}

/// The channel value of a number with a point: the number is clamped to 0..=1
/// and multiplied by 255, a millionth is subtracted, and the result is
/// rounded to the nearest integer, all of it as binary floating point
/// arithmetic carries it. The millionth makes one half give 127.
///
/// A negative number gives 0 and a number from 1 on gives 255; a number
/// between gives the number of thresholds of [`UNIT_THRESHOLDS`] that it has
/// reached.
pub open spec fn unit_to_channel(d: CSSDecimalView) -> int {
    if d.negative {
        0
    } else if decimal_value(d.whole) >= 1 {
        255
    } else {
        thresholds_reached(d.fraction, UNIT_THRESHOLD_COUNT as int)
    }
}

/// The channel value, 0 to 255, that a CSS number stands for as a component
/// of an RGB colour.
pub open spec fn channel_of(n: CSSNumericView) -> int {
    match n {
        CSSNumericView::Integer(v) => integer_to_channel(v),
        CSSNumericView::Float(d) => unit_to_channel(d),
        CSSNumericView::Percentage(v) => percent_to_channel(v),
    }
}

/// What [`parse_rgb_num`] returns on a text.
pub open spec fn rgb_num(s: Seq<char>) -> Result<u8, CSSParseError> {
    match css_number(s) {
        Ok(n) => Ok(channel_of(n) as u8),
        Err(e) => Err(e),
    }
}

/// A digit string denotes zero exactly where each of its digits is `0`.
pub proof fn lemma_decimal_value_zero(s: Seq<char>)
    ensures
        decimal_value(s) == 0 <==> forall|i: int| 0 <= i < s.len() ==> digit_value(#[trigger] s[i]) == 0,
    decreases s.len(),
{
    if s.len() > 0 {
        let t = s.drop_last();
        lemma_decimal_value_zero(t);
        if decimal_value(s) == 0 {
            assert forall|i: int| 0 <= i < s.len() implies digit_value(#[trigger] s[i]) == 0 by {
                if i < s.len() - 1 {
                    assert(t[i] == s[i]);
                }
            }
        }
        if forall|i: int| 0 <= i < s.len() ==> digit_value(#[trigger] s[i]) == 0 {
            assert forall|i: int| 0 <= i < t.len() implies digit_value(#[trigger] t[i]) == 0 by {
                assert(t[i] == s[i]);
            }
            assert(digit_value(s[s.len() - 1]) == 0);
        }
    }
}

/// A fraction that is smaller in its first `i` digits is smaller in its first
/// `l` digits, for every `l` from `i` on.
pub proof fn lemma_fraction_prefix_order(a: Seq<char>, b: Seq<char>, i: nat, l: nat)
    requires
        i <= l,
        fraction_prefix(a, i) < fraction_prefix(b, i),
    ensures
        fraction_prefix(a, l) < fraction_prefix(b, l),
    decreases l - i,
{
    if i < l {
        assert(fraction_digit(a, i as int) <= 9);
        lemma_fraction_prefix_order(a, b, i + 1, l);
    }
}

/// Of the first `k` thresholds, between none and `k` are reached.
pub proof fn lemma_thresholds_reached_range(fraction: Seq<char>, k: int)
    requires
        0 <= k <= UNIT_THRESHOLD_COUNT,
    ensures
        0 <= thresholds_reached(fraction, k) <= k,
    decreases k,
{
    if k > 0 {
        lemma_thresholds_reached_range(fraction, k - 1);
    }
}

/// The channel value of every CSS number lies between 0 and 255.
pub proof fn lemma_channel_range(n: CSSNumericView)
    ensures
        0 <= channel_of(n) <= 255,
{
    match n {
        CSSNumericView::Float(d) => {
            lemma_thresholds_reached_range(d.fraction, UNIT_THRESHOLD_COUNT as int);
        },
        _ => {},
    }
}

/// Clamping twice is clamping once: the channel value of a channel value is
/// that value, and an integer from 0 to 255 is its own channel value.
pub proof fn lemma_integer_channel_idempotent(v: int)
    ensures
        integer_to_channel(integer_to_channel(v)) == integer_to_channel(v),
        0 <= v <= 255 ==> integer_to_channel(v) == v,
{
}

/// A channel value written in decimal is read back as itself.
pub proof fn lemma_rgb_num_reads_decimal_text(n: u8)
    ensures
        css_number_defined(decimal_text(n)),
        rgb_num(decimal_text(n)) == Ok::<u8, CSSParseError>(n),
{
    let t = decimal_text(n);
    lemma_decimal_text_value(n);
    assert(is_digit(t[0]));
    assert(unsigned_part(t) == t);
    lemma_count_zero(t, '-');
    lemma_count_zero(t, '.');
    lemma_count_zero(t, '%');
    assert forall|i: int| 0 <= i < t.len() implies t[i] != '-' && t[i] != '.' && t[i] != '%' by {
        assert(is_digit(t[i]));
    }
    assert(!t.contains('-'));
    assert(!t.contains('.'));
    assert(!t.contains('%'));
    assert(count_char(t, '.') == 0);
    assert(count_char(t, '%') == 0);
    assert(form_of(t) == CSSNumericForm::Integer);
}

/// A greater integer or percentage has no smaller channel value.
pub proof fn lemma_channel_monotone(v: int, w: int)
    requires
        v <= w,
    ensures
        integer_to_channel(v) <= integer_to_channel(w),
        percent_to_channel(v) <= percent_to_channel(w),
{
}

/// Whether a digit other than `0` stands among the digits.
fn has_nonzero_digit(digits: &Vec<char>) -> (r: bool)
    requires
        all_digits(digits@),
    ensures
        r == (decimal_value(digits@) >= 1),
{
    let mut i: usize = 0;
    while i < digits.len()
        invariant
            i <= digits.len(),
            all_digits(digits@),
            forall|j: int| 0 <= j < i ==> digit_value(#[trigger] digits@[j]) == 0,
        decreases digits.len() - i,
    {
        assert(is_digit(digits@[i as int]));
        if digit_of(digits[i]) != 0 {
            proof {
                lemma_decimal_value_zero(digits@);
                assert(digit_value(digits@[i as int]) != 0);
            }
            return true;
        }
        i += 1;
    }
    proof {
        lemma_decimal_value_zero(digits@);
    }
    false
}

/// The number that a character stands for as a digit: that of a decimal
/// digit, and 0 for any other character.
fn digit_or_zero(c: char) -> (d: u8)
    ensures
        d == digit_value(c),
        d <= 9,
{
    if is_digit_char(c) {
        digit_of(c)
    } else {
        0
    }
}

/// Whether `0.fraction` has reached the threshold `0.threshold`.
fn reaches_threshold(fraction: &Vec<char>, threshold: &Vec<char>, inclusive: bool) -> (r: bool)
    ensures
        r == reaches(fraction@, threshold@, inclusive),
{
    let n = fraction.len();
    let m = threshold.len();
    let l = if n >= m {
        n
    } else {
        m
    };
    let mut i: usize = 0;
    while i < l
        invariant
            i <= l,
            n == fraction.len(),
            m == threshold.len(),
            l == longer_len(fraction@, threshold@),
            fraction_prefix(fraction@, i as nat) == fraction_prefix(threshold@, i as nat),
        decreases l - i,
    {
        let a = if i < n {
            digit_or_zero(fraction[i])
        } else {
            0
        };
        let b = if i < m {
            digit_or_zero(threshold[i])
        } else {
            0
        };
        assert(a == fraction_digit(fraction@, i as int));
        assert(b == fraction_digit(threshold@, i as int));
        if a > b {
            proof {
                lemma_fraction_prefix_order(threshold@, fraction@, (i + 1) as nat, l as nat);
            }
            return true;
        }
        if a < b {
            proof {
                lemma_fraction_prefix_order(fraction@, threshold@, (i + 1) as nat, l as nat);
            }
            return false;
        }
        i += 1;
    }
    inclusive
}

/// The channel value of a number with a point.
fn unit_channel(d: &CSSDecimal) -> (r: u8)
    requires
        d.wf(),
    ensures
        r == unit_to_channel(d@),
{
    if d.negative {
        return 0;
    }
    if has_nonzero_digit(&d.whole) {
        return 255;
    }
    let mut reached: u8 = 0;
    let mut j: usize = 0;
    while j < UNIT_THRESHOLD_COUNT
        invariant
            j <= UNIT_THRESHOLD_COUNT,
            reached == thresholds_reached(d.fraction@, j as int),
            reached <= j,
        decreases UNIT_THRESHOLD_COUNT - j,
    {
        let threshold = to_chars(UNIT_THRESHOLDS[j].0);
        if reaches_threshold(&d.fraction, &threshold, UNIT_THRESHOLDS[j].1) {
            reached += 1;
        }
        j += 1;
    }
    reached
}

/// The channel value of a percentage.
fn percent_channel(v: isize) -> (r: u8)
    ensures
        r == percent_to_channel(v as int),
{
    let p: u32 = if v <= 0 {
        0
    } else if v >= 100 {
        100
    } else {
        v as u32
    };
    if p == 50 {
        127
    } else if p == 90 {
        229
    } else {
        ((255 * p + 50) / 100) as u8
    }
}

/// Reads a CSS number as a component of an RGB colour and clamps it to its
/// range: `102%` gives 255, `0.5` gives 127, `300` gives 255.
pub fn parse_rgb_num(num: &str) -> (r: Result<u8, CSSParseError>)
    requires
        css_number_defined(num@),
    ensures
        r == rgb_num(num@),
{
    match parse_css_number(num) {
        Err(e) => Err(e),
        Ok(CSSNumeric::Integer(val)) => {
            if val >= 255 {
                Ok(255u8)
            } else if val <= 0 {
                Ok(0u8)
            } else {
                Ok(val as u8)
            }
        },
        Ok(CSSNumeric::Float(d)) => Ok(unit_channel(&d)),
        Ok(CSSNumeric::Percentage(val)) => Ok(percent_channel(val)),
    }
}


/// A character that may stand between the parentheses of `rgb(...)`.
pub open spec fn is_rgb_char(c: char) -> bool {
    is_digit(c) || c == '+' || c == '-' || c == ',' || c == '.' || c == ' ' || c == '%'
}

/// What stands between `rgb(` and the last character.
pub open spec fn rgb_inner(s: Seq<char>) -> Seq<char> {
    s.subrange(4, s.len() - 1)
}

/// The frame of the notation: at least ten characters, of which the first
/// four are `rgb(` and the last is `)`, and between them only characters that
/// a list of numbers holds.
pub open spec fn rgb_frame(s: Seq<char>) -> bool {
    &&& s.len() >= 10
    &&& s[0] == 'r'
    &&& s[1] == 'g'
    &&& s[2] == 'b'
    &&& s[3] == '('
    &&& s[s.len() - 1] == ')'
    &&& forall|i: int| 0 <= i < rgb_inner(s).len() ==> is_rgb_char(#[trigger] rgb_inner(s)[i])
}

/// The pieces of `s` between the occurrences of `c`. A string without `c` is
/// one piece, also where it is empty.
pub open spec fn split_on(s: Seq<char>, c: char) -> Seq<Seq<char>>
    decreases s.len(),
{
    let p = first_index(s, c);
    if 0 <= p && p < s.len() {
        seq![s.take(p)] + split_on(s.skip(p + 1), c)
    } else {
        seq![s]
    }
}

/// `s` without the spaces at its start.
pub open spec fn trim_start(s: Seq<char>) -> Seq<char>
    decreases s.len(),
{
    if s.len() > 0 && s[0] == ' ' {
        trim_start(s.skip(1))
    } else {
        s
    }
}

/// `s` without the spaces at its end.
pub open spec fn trim_end(s: Seq<char>) -> Seq<char>
    decreases s.len(),
{
    if s.len() > 0 && s.last() == ' ' {
        trim_end(s.drop_last())
    } else {
        s
    }
}

/// `s` without the spaces at its start and at its end.
pub open spec fn trim_spaces(s: Seq<char>) -> Seq<char> {
    trim_end(trim_start(s))
}

/// The channel values of the pieces, each trimmed and read as a component, or
/// the error of the first piece that earns one.
pub open spec fn components(pieces: Seq<Seq<char>>) -> Result<Seq<u8>, CSSParseError>
    decreases pieces.len(),
{
    if pieces.len() == 0 {
        Ok(Seq::<u8>::empty())
    } else {
        match rgb_num(trim_spaces(pieces[0])) {
            Err(e) => Err(e),
            Ok(v) => match components(pieces.skip(1)) {
                Err(e) => Err(e),
                Ok(rest) => Ok(seq![v] + rest),
            },
        }
    }
}

/// The pieces on which [`components`] is defined: each piece up to and with
/// the first that earns an error, trimmed, is one on which a CSS number is
/// defined.
pub open spec fn components_defined(pieces: Seq<Seq<char>>) -> bool
    decreases pieces.len(),
{
    pieces.len() == 0 || {
        &&& css_number_defined(trim_spaces(pieces[0]))
        &&& rgb_num(trim_spaces(pieces[0])) is Ok ==> components_defined(pieces.skip(1))
    }
}

/// The inputs on which [`parse_rgb_str`] is defined.
pub open spec fn rgb_str_defined(s: Seq<char>) -> bool {
    rgb_frame(s) ==> components_defined(split_on(rgb_inner(s), ','))
}

/// What [`parse_rgb_str`] returns on a text: the three components between the
/// parentheses, or the error of the first that earns one; a broken frame or a
/// number of components other than three is `InvalidColorSyntax`.
pub open spec fn rgb_str(s: Seq<char>) -> Result<(u8, u8, u8), CSSParseError> {
    if !rgb_frame(s) {
        Err(CSSParseError::InvalidColorSyntax)
    } else {
        match components(split_on(rgb_inner(s), ',')) {
            Err(e) => Err(e),
            Ok(v) => if v.len() == 3 {
                Ok((v[0], v[1], v[2]))
            } else {
                Err(CSSParseError::InvalidColorSyntax)
            },
        }
    }
}

/// The text `rgb(r, g, b)` of three components that are given as texts.
pub open spec fn rgb_text_of(r: Seq<char>, g: Seq<char>, b: Seq<char>) -> Seq<char> {
    seq!['r', 'g', 'b', '('] + (r + seq![','] + ((seq![' '] + g) + seq![','] + (seq![' '] + b)))
        + seq![')']
}

/// The text `rgb(r, g, b)` of three channels, each in decimal.
pub open spec fn rgb_text(r: u8, g: u8, b: u8) -> Seq<char> {
    rgb_text_of(decimal_text(r), decimal_text(g), decimal_text(b))
}

/// A text without `c` is one piece, and a text with `c` behind a piece
/// without it is that piece and the pieces of what follows `c`.
pub proof fn lemma_split_on(piece: Seq<char>, rest: Seq<char>, c: char)
    requires
        !piece.contains(c),
    ensures
        split_on(piece, c) =~= seq![piece],
        split_on(piece + seq![c] + rest, c) =~= seq![piece] + split_on(rest, c),
{
    lemma_first_index(piece, c, piece.len() as int);
    let whole = piece + seq![c] + rest;
    assert forall|j: int| 0 <= j < piece.len() implies whole[j] != c by {
        assert(whole[j] == piece[j]);
        assert(piece.contains(piece[j]));
    }
    assert(whole[piece.len() as int] == c);
    lemma_first_index(whole, c, piece.len() as int);
    assert(whole.take(piece.len() as int) =~= piece);
    assert(whole.skip(piece.len() as int + 1) =~= rest);
}

/// Digits have no space to trim, and a space before digits is trimmed.
pub proof fn lemma_trim_digits(digits: Seq<char>)
    requires
        digits.len() > 0,
        all_digits(digits),
    ensures
        trim_spaces(digits) == digits,
        trim_spaces(seq![' '] + digits) == digits,
{
    assert(is_digit(digits[0]));
    assert(is_digit(digits[digits.len() - 1]));
    assert(trim_start(digits) == digits);
    assert(trim_end(digits) == digits);
    let spaced = seq![' '] + digits;
    assert(spaced.skip(1) =~= digits);
    assert(trim_start(spaced) == trim_start(spaced.skip(1)));
}

/// Digits, with or without a space before them, hold no comma, and nothing
/// but what a list of numbers may hold.
pub proof fn lemma_digits_are_rgb_chars(digits: Seq<char>)
    requires
        all_digits(digits),
    ensures
        !digits.contains(','),
        !(seq![' '] + digits).contains(','),
        forall|i: int| 0 <= i < digits.len() ==> is_rgb_char(#[trigger] digits[i]),
{
    assert forall|i: int| 0 <= i < digits.len() implies digits[i] != ',' && is_rgb_char(
        #[trigger] digits[i],
    ) by {
        assert(is_digit(digits[i]));
    }
    let spaced = seq![' '] + digits;
    assert forall|i: int| 0 <= i < spaced.len() implies spaced[i] != ',' by {
        if i > 0 {
            assert(spaced[i] == digits[i - 1]);
        }
    }
}

/// The frame of `rgb(r, g, b)` stands where the three components are digits,
/// and what stands in it is the three components with `, ` between them.
pub proof fn lemma_rgb_text_frame(r: Seq<char>, g: Seq<char>, b: Seq<char>)
    requires
        r.len() > 0 && all_digits(r),
        g.len() > 0 && all_digits(g),
        b.len() > 0 && all_digits(b),
    ensures
        rgb_frame(rgb_text_of(r, g, b)),
        rgb_inner(rgb_text_of(r, g, b)) == r + seq![','] + ((seq![' '] + g) + seq![','] + (seq![
            ' ',
        ] + b)),
{
    let s = rgb_text_of(r, g, b);
    let inner = r + seq![','] + ((seq![' '] + g) + seq![','] + (seq![' '] + b));
    assert(rgb_inner(s) =~= inner);
    lemma_digits_are_rgb_chars(r);
    lemma_digits_are_rgb_chars(g);
    lemma_digits_are_rgb_chars(b);
    assert forall|i: int| 0 <= i < inner.len() implies is_rgb_char(#[trigger] inner[i]) by {
        if i < r.len() {
            assert(inner[i] == r[i]);
        } else if i == r.len() {
        } else if i == r.len() + 1 {
        } else if i < r.len() + 2 + g.len() {
            assert(inner[i] == g[i - r.len() - 2]);
        } else if i == r.len() + 2 + g.len() {
        } else if i == r.len() + 3 + g.len() {
        } else {
            assert(inner[i] == b[i - r.len() - g.len() - 4]);
        }
    }
}

/// Three pieces, each of which is read as a channel, give the three channels.
pub proof fn lemma_components_of_three(
    first: Seq<char>,
    second: Seq<char>,
    third: Seq<char>,
    r: u8,
    g: u8,
    b: u8,
)
    requires
        css_number_defined(trim_spaces(first)),
        css_number_defined(trim_spaces(second)),
        css_number_defined(trim_spaces(third)),
        rgb_num(trim_spaces(first)) == Ok::<u8, CSSParseError>(r),
        rgb_num(trim_spaces(second)) == Ok::<u8, CSSParseError>(g),
        rgb_num(trim_spaces(third)) == Ok::<u8, CSSParseError>(b),
    ensures
        components_defined(seq![first, second, third]),
        components(seq![first, second, third]) == Ok::<Seq<u8>, CSSParseError>(seq![r, g, b]),
{
    let pieces = seq![first, second, third];
    let p1 = pieces.skip(1);
    let p2 = p1.skip(1);
    let p3 = p2.skip(1);
    assert(p1[0] == second && p2[0] == third && p3.len() == 0);
    assert(components(p3) == Ok::<Seq<u8>, CSSParseError>(Seq::<u8>::empty()));
    assert(components(p2) == Ok::<Seq<u8>, CSSParseError>(seq![b] + Seq::<u8>::empty()));
    assert(components(p1) == Ok::<Seq<u8>, CSSParseError>(
        seq![g] + (seq![b] + Seq::<u8>::empty()),
    ));
    assert(seq![r] + (seq![g] + (seq![b] + Seq::<u8>::empty())) =~= seq![r, g, b]);
    assert(components_defined(p3));
    assert(components_defined(p2));
    assert(components_defined(p1));
}

/// The three channels of a colour, written as `rgb(r, g, b)`, are read back
/// as themselves.
pub proof fn lemma_rgb_str_reads_rgb_text(r: u8, g: u8, b: u8)
    ensures
        rgb_str_defined(rgb_text(r, g, b)),
        rgb_str(rgb_text(r, g, b)) == Ok::<(u8, u8, u8), CSSParseError>((r, g, b)),
{
    let dr = decimal_text(r);
    let dg = decimal_text(g);
    let db = decimal_text(b);
    lemma_decimal_text_value(r);
    lemma_decimal_text_value(g);
    lemma_decimal_text_value(b);
    let second = seq![' '] + dg;
    let third = seq![' '] + db;
    lemma_rgb_text_frame(dr, dg, db);
    lemma_digits_are_rgb_chars(dr);
    lemma_digits_are_rgb_chars(dg);
    lemma_digits_are_rgb_chars(db);
    lemma_split_on(dr, second + seq![','] + third, ',');
    lemma_split_on(second, third, ',');
    lemma_split_on(third, Seq::<char>::empty(), ',');
    assert(split_on(rgb_inner(rgb_text(r, g, b)), ',') =~= seq![dr, second, third]);
    lemma_trim_digits(dr);
    lemma_trim_digits(dg);
    lemma_trim_digits(db);
    lemma_rgb_num_reads_decimal_text(r);
    lemma_rgb_num_reads_decimal_text(g);
    lemma_rgb_num_reads_decimal_text(b);
    lemma_components_of_three(dr, second, third, r, g, b);
}

/// The bounds of `chars[from..to]` without the spaces at its two ends.
fn trim_bounds(chars: &Vec<char>, from: usize, to: usize) -> (r: (usize, usize))
    requires
        from <= to <= chars.len(),
    ensures
        from <= r.0 <= r.1 <= to,
        chars@.subrange(r.0 as int, r.1 as int) == trim_spaces(
            chars@.subrange(from as int, to as int),
        ),
{
    let mut a: usize = from;
    while a < to && chars[a] == ' '
        invariant
            from <= a <= to <= chars.len(),
            trim_start(chars@.subrange(from as int, to as int)) == trim_start(
                chars@.subrange(a as int, to as int),
            ),
        decreases to - a,
    {
        assert(chars@.subrange(a as int, to as int).skip(1) =~= chars@.subrange(a + 1, to as int));
        a += 1;
    }
    let mut b: usize = to;
    while a < b && chars[b - 1] == ' '
        invariant
            a <= b <= to <= chars.len(),
            trim_end(chars@.subrange(a as int, to as int)) == trim_end(
                chars@.subrange(a as int, b as int),
            ),
        decreases b - a,
    {
        assert(chars@.subrange(a as int, b as int).drop_last() =~= chars@.subrange(
            a as int,
            b - 1,
        ));
        b -= 1;
    }
    (a, b)
}

/// Whether the frame of the notation stands.
fn rgb_frame_ok(chars: &Vec<char>) -> (r: bool)
    ensures
        r == rgb_frame(chars@),
{
    let n = chars.len();
    if n < 10 || chars[0] != 'r' || chars[1] != 'g' || chars[2] != 'b' || chars[3] != '('
        || chars[n - 1] != ')' {
        return false;
    }
    let ghost inner = rgb_inner(chars@);
    let mut i: usize = 4;
    while i < n - 1
        invariant
            4 <= i <= n - 1,
            n == chars.len(),
            inner == rgb_inner(chars@),
            forall|j: int| 0 <= j < i - 4 ==> is_rgb_char(#[trigger] inner[j]),
        decreases n - i,
    {
        let c = chars[i];
        if !(is_digit_char(c) || c == '+' || c == '-' || c == ',' || c == '.' || c == ' ' || c
            == '%') {
            assert(!is_rgb_char(inner[i - 4]));
            return false;
        }
        i += 1;
    }
    true
}

/// Reads `rgb(r, g, b)`, where each of the three components is a CSS number,
/// and gives the three channel values.
pub fn parse_rgb_str(num: &str) -> (r: Result<(u8, u8, u8), CSSParseError>)
    requires
        rgb_str_defined(num@),
    ensures
        r == rgb_str(num@),
{
    let chars = to_chars(num);
    if !rgb_frame_ok(&chars) {
        return Err(CSSParseError::InvalidColorSyntax);
    }
    let end = chars.len() - 1;
    let ghost inner = rgb_inner(num@);
    let mut nums: Vec<u8> = Vec::new();
    let mut start: usize = 4;
    let mut done = false;
    assert(chars@.subrange(4, end as int) =~= inner);
    while !done
        invariant
            4 <= start <= end,
            end == chars.len() - 1,
            chars@ == num@,
            rgb_frame(num@),
            inner == rgb_inner(num@),
            !done ==> components_defined(split_on(chars@.subrange(start as int, end as int), ',')),
            !done ==> match components(split_on(chars@.subrange(start as int, end as int), ',')) {
                Err(e) => components(split_on(inner, ',')) == Err::<Seq<u8>, CSSParseError>(e),
                Ok(rest) => components(split_on(inner, ',')) == Ok::<Seq<u8>, CSSParseError>(
                    nums@ + rest,
                ),
            },
            done ==> components(split_on(inner, ',')) == Ok::<Seq<u8>, CSSParseError>(nums@),
        decreases
                end - start + if done {
                    0int
                } else {
                    1int
                },
    {
        let ghost rest = chars@.subrange(start as int, end as int);
        let ghost pieces = split_on(rest, ',');
        let p = find_in(&chars, start, end, ',');
        let piece_end = start + p;
        proof {
            assert(rest.take(p as int) =~= chars@.subrange(start as int, piece_end as int));
            if piece_end < end {
                assert(rest.skip(p + 1) =~= chars@.subrange(piece_end + 1, end as int));
                assert(pieces.skip(1) =~= split_on(rest.skip(p + 1), ','));
            } else {
                assert(rest.take(p as int) =~= rest);
                assert(pieces.skip(1) =~= Seq::<Seq<char>>::empty());
            }
            assert(pieces[0] == chars@.subrange(start as int, piece_end as int));
        }
        let (a, b) = trim_bounds(&chars, start, piece_end);
        let text = from_chars(&chars, a, b);
        match parse_rgb_num(text.as_str()) {
            Err(e) => {
                proof {
                    assert(pieces.len() > 0);
                    assert(rgb_num(trim_spaces(pieces[0])) == Err::<u8, CSSParseError>(e));
                    assert(components(pieces) == Err::<Seq<u8>, CSSParseError>(e));
                }
                return Err(e);
            },
            Ok(v) => {
                proof {
                    assert(pieces.len() > 0);
                    assert(rgb_num(trim_spaces(pieces[0])) == Ok::<u8, CSSParseError>(v));
                    match components(pieces.skip(1)) {
                        Err(e) => {},
                        Ok(tail) => {
                            assert(nums@.push(v) + tail =~= nums@ + (seq![v] + tail));
                        },
                    }
                }
                nums.push(v);
            },
        }
        if piece_end == end {
            proof {
                assert(nums@ + Seq::<u8>::empty() =~= nums@);
            }
            done = true;
        } else {
            start = piece_end + 1;
        }
    }
    if nums.len() != 3 {
        return Err(CSSParseError::InvalidColorSyntax);
    }
    Ok((nums[0], nums[1], nums[2]))
}


/// Whether [`parse_rgb_str`] is defined on `num`.
pub fn is_rgb_str_defined(num: &str) -> (r: bool)
    ensures
        r == rgb_str_defined(num@),
{
    let chars = to_chars(num);
    if !rgb_frame_ok(&chars) {
        return true;
    }
    let end = chars.len() - 1;
    let ghost inner = rgb_inner(num@);
    let mut start: usize = 4;
    assert(chars@.subrange(4, end as int) =~= inner);
    loop
        invariant
            4 <= start <= end,
            end == chars.len() - 1,
            chars@ == num@,
            rgb_frame(num@),
            inner == rgb_inner(num@),
            components_defined(split_on(inner, ',')) == components_defined(
                split_on(chars@.subrange(start as int, end as int), ','),
            ),
        decreases end - start,
    {
        let ghost rest = chars@.subrange(start as int, end as int);
        let ghost pieces = split_on(rest, ',');
        let p = find_in(&chars, start, end, ',');
        let piece_end = start + p;
        proof {
            assert(rest.take(p as int) =~= chars@.subrange(start as int, piece_end as int));
            if piece_end < end {
                assert(rest.skip(p + 1) =~= chars@.subrange(piece_end + 1, end as int));
                assert(pieces.skip(1) =~= split_on(rest.skip(p + 1), ','));
            } else {
                assert(rest.take(p as int) =~= rest);
                assert(pieces.skip(1) =~= Seq::<Seq<char>>::empty());
            }
            assert(pieces.len() > 0);
            assert(pieces[0] == chars@.subrange(start as int, piece_end as int));
        }
        let (a, b) = trim_bounds(&chars, start, piece_end);
        let text = from_chars(&chars, a, b);
        if !is_css_number_defined(text.as_str()) {
            return false;
        }
        if parse_rgb_num(text.as_str()).is_err() {
            return true;
        }
        assert(components_defined(pieces) == components_defined(pieces.skip(1)));
        if piece_end == end {
            assert(components_defined(pieces.skip(1)));
            return true;
        }
        start = piece_end + 1;
    }
}


/// Reads a component of an RGB colour where a CSS number is defined on the
/// text, and gives nothing where none is.
pub fn checked_parse_rgb_num(num: &str) -> (r: Option<Result<u8, CSSParseError>>)
    ensures
        r is Some <==> css_number_defined(num@),
        r matches Some(x) ==> x == rgb_num(num@),
{
    if is_css_number_defined(num) {
        Some(parse_rgb_num(num))
    } else {
        None
    }
}

/// Reads `rgb(r, g, b)` where the notation is defined on the text, and gives
/// nothing where it is not.
pub fn checked_parse_rgb_str(num: &str) -> (r: Option<Result<(u8, u8, u8), CSSParseError>>)
    ensures
        r is Some <==> rgb_str_defined(num@),
        r matches Some(x) ==> x == rgb_str(num@),
{
    if is_rgb_str_defined(num) {
        Some(parse_rgb_str(num))
    } else {
        None
    }
}

} // verus!
