//! CSS numeric notation: an integer such as `255`, a number with a point such
//! as `0.8`, or a percentage such as `104%`, each with an optional sign.
//!
//! A number with a point is kept as the digits that were written, so that
//! nothing is lost before a caller decides what precision it needs.

use vstd::prelude::*;
use crate::text::{
    all_digits,
    decimal_value,
    from_chars,
    is_digit,
    is_digit_char,
    parse_decimal,
    to_chars,
};

verus! {

/// An error in parsing a CSS string.
#[derive(Debug, Copy, Clone, Hash, PartialEq, Eq, Structural)]
pub enum CSSParseError {
    /// A character that no number can hold stands in a string that was to be
    /// read as a number.
    InvalidNumericCharacters,
    /// The characters are those of a number, but they do not form one: several
    /// points, a sign or a percent sign in the wrong place.
    InvalidNumericSyntax,
    /// The notation of a colour is broken: parentheses that do not match, a
    /// wrong number of components, a token that cannot be read.
    InvalidColorSyntax,
}

impl CSSParseError {
    /// A short description of the kind of error.
    pub fn description(&self) -> (s: &'static str)
        ensures
            s@ == match *self {
                CSSParseError::InvalidNumericCharacters => "Unexpected non-numeric characters"@,
                CSSParseError::InvalidNumericSyntax => "Invalid numeric syntax"@,
                CSSParseError::InvalidColorSyntax => "Invalid color syntax"@,
            },
    {
        match *self {
            CSSParseError::InvalidNumericCharacters => "Unexpected non-numeric characters",
            CSSParseError::InvalidNumericSyntax => "Invalid numeric syntax",
            CSSParseError::InvalidColorSyntax => "Invalid color syntax",
        }
    }

    /// The text under which every error of this type is displayed.
    pub fn to_string(&self) -> (s: String)
        ensures
            s@ == "CSS parsing error"@,
    {
        "CSS parsing error".to_owned()
    }
}

/// A number written with a decimal point, kept digit by digit.
///
/// It stands for `whole.fraction`, negated where `negative` is set. Either
/// part may be empty, as in `.5` and `5.`, but not both.
#[derive(Debug, Clone)]
pub struct CSSDecimal {
    /// The number is written with a minus sign.
    pub negative: bool,
    /// The digits before the point.
    pub whole: Vec<char>,
    /// The digits after the point.
    pub fraction: Vec<char>,
}

/// What a [`CSSDecimal`] holds, as plain values.
pub struct CSSDecimalView {
    pub negative: bool,
    pub whole: Seq<char>,
    pub fraction: Seq<char>,
}

impl View for CSSDecimal {
    type V = CSSDecimalView;

    open spec fn view(&self) -> CSSDecimalView {
        CSSDecimalView { negative: self.negative, whole: self.whole@, fraction: self.fraction@ }
    }
}

impl CSSDecimalView {
    /// Both parts are digits and at least one digit is written.
    pub open spec fn wf(self) -> bool {
        &&& all_digits(self.whole)
        &&& all_digits(self.fraction)
        &&& self.whole.len() + self.fraction.len() >= 1
    }

    /// The number as written: a minus sign where it is negative, the digits
    /// before the point, the point, the digits after it.
    pub open spec fn text(self) -> Seq<char> {
        (if self.negative {
            seq!['-']
        } else {
            Seq::<char>::empty()
        }) + self.whole + seq!['.'] + self.fraction
    }
}

impl CSSDecimal {
    /// Both parts are digits and at least one digit is written.
    pub open spec fn wf(&self) -> bool {
        self@.wf()
    }

    /// The number as it was written, without a plus sign.
    pub fn to_string(&self) -> (s: String)
        ensures
            s@ == self@.text(),
    {
        let mut s = String::new();
        if self.negative {
            s.push('-');
        }
        let mut i: usize = 0;
        while i < self.whole.len()
            invariant
                i <= self.whole.len(),
                s@ =~= (if self.negative {
                    seq!['-']
                } else {
                    Seq::<char>::empty()
                }) + self.whole@.take(i as int),
            decreases self.whole.len() - i,
        {
            s.push(self.whole[i]);
            i += 1;
        }
        s.push('.');
        let ghost head = s@;
        let mut j: usize = 0;
        while j < self.fraction.len()
            invariant
                j <= self.fraction.len(),
                head =~= (if self.negative {
                    seq!['-']
                } else {
                    Seq::<char>::empty()
                }) + self.whole@ + seq!['.'],
                s@ =~= head + self.fraction@.take(j as int),
            decreases self.fraction.len() - j,
        {
            s.push(self.fraction[j]);
            j += 1;
        }
        s
    }
}

/// A CSS numeric value.
#[derive(Debug, Clone)]
pub enum CSSNumeric {
    /// A string of digits such as `124`, with an optional leading `+` or `-`.
    Integer(isize),
    /// Two strings of digits with a `.` between them, with an optional leading
    /// sign.
    Float(CSSDecimal),
    /// An integer followed by `%`: that many hundredths.
    Percentage(isize),
}

/// What a [`CSSNumeric`] holds, as plain values.
pub enum CSSNumericView {
    Integer(int),
    Float(CSSDecimalView),
    Percentage(int),
}

impl View for CSSNumeric {
    type V = CSSNumericView;

    open spec fn view(&self) -> CSSNumericView {
        match *self {
            CSSNumeric::Integer(v) => CSSNumericView::Integer(v as int),
            CSSNumeric::Float(d) => CSSNumericView::Float(d@),
            CSSNumeric::Percentage(v) => CSSNumericView::Percentage(v as int),
        }
    }
}

/// A character that may stand in a CSS number.
pub open spec fn is_numeric_char(c: char) -> bool {
    is_digit(c) || c == '-' || c == '+' || c == '.' || c == '%'
}

/// Every character of `s` may stand in a CSS number.
pub open spec fn all_numeric_chars(s: Seq<char>) -> bool {
    forall|i: int| 0 <= i < s.len() ==> is_numeric_char(#[trigger] s[i])
}

/// How often `c` occurs in `s`.
pub open spec fn count_char(s: Seq<char>, c: char) -> nat
    decreases s.len(),
{
    if s.len() == 0 {
        0
    } else {
        count_char(s.drop_last(), c) + if s.last() == c {
            1nat
        } else {
            0nat
        }
    }
}

/// The first place at which `c` stands in `s`, or the length of `s` where it
/// does not occur.
pub open spec fn first_index(s: Seq<char>, c: char) -> int
    decreases s.len(),
{
    if s.len() == 0 {
        0
    } else if s[0] == c {
        0
    } else {
        1 + first_index(s.skip(1), c)
    }
}

/// `s` without its leading `+`, where it has one.
pub open spec fn without_plus(s: Seq<char>) -> Seq<char> {
    if s.len() > 0 && s[0] == '+' {
        s.skip(1)
    } else {
        s
    }
}

/// An unsigned integer as the standard library reads one: an optional `+`,
/// then one digit or more.
pub open spec fn is_unsigned_text(s: Seq<char>) -> bool {
    without_plus(s).len() > 0 && all_digits(without_plus(s))
}

/// The number that an unsigned integer text denotes.
pub open spec fn unsigned_text_value(s: Seq<char>) -> nat {
    decimal_value(without_plus(s))
}

/// A number with a point as the standard library reads one, on the characters
/// of a CSS number: an optional `+`, digits, a point, digits, with a digit on
/// at least one side of the point.
pub open spec fn is_float_text(s: Seq<char>) -> bool {
    let b = without_plus(s);
    let p = first_index(b, '.');
    &&& p < b.len()
    &&& b.len() >= 2
    &&& all_digits(b.take(p))
    &&& all_digits(b.skip(p + 1))
}

/// The digits of a number with a point, on either side of it.
pub open spec fn float_text_parts(s: Seq<char>) -> (Seq<char>, Seq<char>) {
    let b = without_plus(s);
    let p = first_index(b, '.');
    (b.take(p), b.skip(p + 1))
}

/// The signed number of a magnitude: the magnitude is carried into `isize` as
/// a cast does, and negated where the sign is a minus.
pub open spec fn signed_value(negative: bool, magnitude: u64) -> int {
    if negative {
        -((magnitude as isize) as int)
    } else {
        (magnitude as isize) as int
    }
}

/// The number is written with a minus sign.
pub open spec fn is_negative(s: Seq<char>) -> bool {
    s.len() > 0 && s[0] == '-'
}

/// The number without its leading sign.
pub open spec fn unsigned_part(s: Seq<char>) -> Seq<char> {
    if s.len() > 0 && (s[0] == '-' || s[0] == '+') {
        s.skip(1)
    } else {
        s
    }
}

/// The three forms of a CSS number, and what is not one of them.
pub enum CSSNumericForm {
    Integer,
    Float,
    Percentage,
    Malformed,
}

/// The form of an unsigned CSS number, told by its points and percent signs:
/// none of either is an integer, a single percent sign at the end a
/// percentage, a single point a number with a point.
pub open spec fn form_of(body: Seq<char>) -> CSSNumericForm {
    if body.len() == 0 || body.contains('-') {
        CSSNumericForm::Malformed
    } else if count_char(body, '.') == 0 {
        if count_char(body, '%') == 0 {
            CSSNumericForm::Integer
        } else if count_char(body, '%') == 1 && body.last() == '%' {
            CSSNumericForm::Percentage
        } else {
            CSSNumericForm::Malformed
        }
    } else if count_char(body, '.') == 1 {
        CSSNumericForm::Float
    } else {
        CSSNumericForm::Malformed
    }
}

/// The digits of an integer or a percentage: the unsigned number without its
/// percent sign.
pub open spec fn magnitude_text(body: Seq<char>) -> Seq<char> {
    match form_of(body) {
        CSSNumericForm::Percentage => body.drop_last(),
        _ => body,
    }
}

/// The inputs on which a CSS number is defined. The empty string is not among
/// them. Where the characters and the form are those of a number, its digits
/// must be readable: an integer or a percentage is an unsigned integer text
/// that fits in `u64` and, under a minus sign, can be negated in `isize`; a
/// number with a point is a float text.
pub open spec fn css_number_defined(s: Seq<char>) -> bool {
    let body = unsigned_part(s);
    &&& s.len() > 0
    &&& all_numeric_chars(s) ==> match form_of(body) {
        CSSNumericForm::Integer | CSSNumericForm::Percentage => {
            let m = magnitude_text(body);
            &&& is_unsigned_text(m)
            &&& unsigned_text_value(m) <= u64::MAX
            &&& is_negative(s) ==> (unsigned_text_value(m) as u64) as isize != isize::MIN
        },
        CSSNumericForm::Float => is_float_text(body),
        CSSNumericForm::Malformed => true,
    }
}

/// The value of a CSS number, or the error that its text earns.
pub open spec fn css_number(s: Seq<char>) -> Result<CSSNumericView, CSSParseError> {
    let body = unsigned_part(s);
    if !all_numeric_chars(s) {
        Err(CSSParseError::InvalidNumericCharacters)
    } else {
        match form_of(body) {
            CSSNumericForm::Integer => Ok(
                CSSNumericView::Integer(
                    signed_value(is_negative(s), unsigned_text_value(body) as u64),
                ),
            ),
            CSSNumericForm::Percentage => Ok(
                CSSNumericView::Percentage(
                    signed_value(is_negative(s), unsigned_text_value(body.drop_last()) as u64),
                ),
            ),
            CSSNumericForm::Float => Ok(
                CSSNumericView::Float(
                    CSSDecimalView {
                        negative: is_negative(s),
                        whole: float_text_parts(body).0,
                        fraction: float_text_parts(body).1,
                    },
                ),
            ),
            CSSNumericForm::Malformed => Err(CSSParseError::InvalidNumericSyntax),
        }
    }
}


/// Where `p` is a place before which `c` does not stand, and at which it does
/// unless `p` is the end, `p` is the first place of `c`.
pub proof fn lemma_first_index(s: Seq<char>, c: char, p: int)
    requires
        0 <= p <= s.len(),
        forall|j: int| 0 <= j < p ==> s[j] != c,
        p < s.len() ==> s[p] == c,
    ensures
        first_index(s, c) == p,
    decreases s.len(),
{
    if s.len() > 0 && p > 0 {
        let t = s.skip(1);
        assert forall|j: int| 0 <= j < p - 1 implies t[j] != c by {
            assert(t[j] == s[j + 1]);
        }
        lemma_first_index(t, c, p - 1);
    }
}

/// A string without `c` counts none of it, and the other way round.
pub proof fn lemma_count_zero(s: Seq<char>, c: char)
    ensures
        count_char(s, c) == 0 <==> !s.contains(c),
    decreases s.len(),
{
    if s.len() > 0 {
        lemma_count_zero(s.drop_last(), c);
        if s.contains(c) {
            let i = choose|i: int| 0 <= i < s.len() && s[i] == c;
            if i < s.len() - 1 {
                assert(s.drop_last()[i] == c);
            }
        } else {
            assert forall|i: int| 0 <= i < s.drop_last().len() implies s.drop_last()[i] != c by {
                assert(s[i] != c);
            }
            assert(s.last() == s[s.len() - 1]);
        }
        if s.drop_last().contains(c) {
            let i = choose|i: int| 0 <= i < s.drop_last().len() && s.drop_last()[i] == c;
            assert(s[i] == c);
        }
        if s.last() == c {
            assert(s[s.len() - 1] == c);
        }
    }
}

/// How often `c` occurs in `chars[from..to]`.
pub(crate) fn count_in(chars: &Vec<char>, from: usize, to: usize, c: char) -> (n: usize)
    requires
        from <= to <= chars.len(),
    ensures
        n == count_char(chars@.subrange(from as int, to as int), c),
        n <= to - from,
{
    let mut n: usize = 0;
    let mut i: usize = from;
    while i < to
        invariant
            from <= i <= to <= chars.len(),
            n == count_char(chars@.subrange(from as int, i as int), c),
            n <= i - from,
        decreases to - i,
    {
        assert(chars@.subrange(from as int, i + 1).drop_last() =~= chars@.subrange(
            from as int,
            i as int,
        ));
        if chars[i] == c {
            n += 1;
        }
        i += 1;
    }
    n
}

/// The first place of `c` in `chars[from..to]`, counted from `from`.
pub(crate) fn find_in(chars: &Vec<char>, from: usize, to: usize, c: char) -> (p: usize)
    requires
        from <= to <= chars.len(),
    ensures
        p == first_index(chars@.subrange(from as int, to as int), c),
        p <= to - from,
{
    let ghost body = chars@.subrange(from as int, to as int);
    let mut i: usize = from;
    while i < to && chars[i] != c
        invariant
            from <= i <= to <= chars.len(),
            body == chars@.subrange(from as int, to as int),
            forall|j: int| 0 <= j < i - from ==> body[j] != c,
        decreases to - i,
    {
        i += 1;
    }
    proof {
        lemma_first_index(body, c, i - from);
    }
    i - from
}

/// Whether `chars[from..to]` are all digits.
pub(crate) fn digits_in(chars: &Vec<char>, from: usize, to: usize) -> (r: bool)
    requires
        from <= to <= chars.len(),
    ensures
        r == all_digits(chars@.subrange(from as int, to as int)),
{
    let ghost body = chars@.subrange(from as int, to as int);
    let mut i: usize = from;
    while i < to
        invariant
            from <= i <= to <= chars.len(),
            body == chars@.subrange(from as int, to as int),
            forall|j: int| 0 <= j < i - from ==> is_digit(#[trigger] body[j]),
        decreases to - i,
    {
        if !is_digit_char(chars[i]) {
            assert(!is_digit(body[i - from]));
            return false;
        }
        i += 1;
    }
    true
}

/// The characters `chars[from..to]`.
pub(crate) fn copy_chars(chars: &Vec<char>, from: usize, to: usize) -> (v: Vec<char>)
    requires
        from <= to <= chars.len(),
    ensures
        v@ == chars@.subrange(from as int, to as int),
{
    let mut v: Vec<char> = Vec::new();
    let mut i: usize = from;
    while i < to
        invariant
            from <= i <= to <= chars.len(),
            v@ =~= chars@.subrange(from as int, i as int),
        decreases to - i,
    {
        v.push(chars[i]);
        i += 1;
    }
    v
}

/// Reads an unsigned integer such as `023` or `142`.
pub fn parse_css_integer(num: &str) -> (n: u64)
    requires
        is_unsigned_text(num@),
        unsigned_text_value(num@) <= u64::MAX,
    ensures
        n == unsigned_text_value(num@),
{
    let chars = to_chars(num);
    let start: usize = if chars.len() > 0 && chars[0] == '+' {
        1
    } else {
        0
    };
    assert(chars@.subrange(start as int, chars.len() as int) =~= without_plus(num@));
    match parse_decimal(&chars, start, chars.len(), u64::MAX) {
        Some(n) => n,
        None => 0,
    }
}

/// Whether [`parse_css_integer`] can read `num`.
pub fn is_css_integer(num: &str) -> (r: bool)
    ensures
        r == (is_unsigned_text(num@) && unsigned_text_value(num@) <= u64::MAX),
{
    let chars = to_chars(num);
    let start: usize = if chars.len() > 0 && chars[0] == '+' {
        1
    } else {
        0
    };
    assert(chars@.subrange(start as int, chars.len() as int) =~= without_plus(num@));
    if start == chars.len() || !digits_in(&chars, start, chars.len()) {
        return false;
    }
    parse_decimal(&chars, start, chars.len(), u64::MAX).is_some()
}

/// Reads a number with a point, such as `123.42`, `.34` or `5.`, digit by
/// digit. The result carries no sign.
pub fn parse_css_float(num: &str) -> (d: CSSDecimal)
    requires
        is_float_text(num@),
    ensures
        d.wf(),
        !d.negative,
        d.whole@ == float_text_parts(num@).0,
        d.fraction@ == float_text_parts(num@).1,
{
    let chars = to_chars(num);
    let start: usize = if chars.len() > 0 && chars[0] == '+' {
        1
    } else {
        0
    };
    let ghost b = without_plus(num@);
    assert(chars@.subrange(start as int, chars.len() as int) =~= b);
    let p = find_in(&chars, start, chars.len(), '.');
    let whole = copy_chars(&chars, start, start + p);
    let fraction = copy_chars(&chars, start + p + 1, chars.len());
    assert(whole@ =~= b.take(p as int));
    assert(fraction@ =~= b.skip(p + 1));
    CSSDecimal { negative: false, whole, fraction }
}

/// Whether [`parse_css_float`] can read `num`.
pub fn is_css_float(num: &str) -> (r: bool)
    ensures
        r == is_float_text(num@),
{
    let chars = to_chars(num);
    let start: usize = if chars.len() > 0 && chars[0] == '+' {
        1
    } else {
        0
    };
    let ghost b = without_plus(num@);
    assert(chars@.subrange(start as int, chars.len() as int) =~= b);
    let p = find_in(&chars, start, chars.len(), '.');
    if p >= chars.len() - start || chars.len() - start < 2 {
        return false;
    }
    assert(chars@.subrange(start as int, start + p) =~= b.take(p as int));
    assert(chars@.subrange(start + p + 1, chars.len() as int) =~= b.skip(p + 1));
    digits_in(&chars, start, start + p) && digits_in(&chars, start + p + 1, chars.len())
}

/// The signed number of a magnitude that was read.
fn apply_sign(negative: bool, magnitude: u64) -> (v: isize)
    requires
        negative ==> magnitude as isize != isize::MIN,
    ensures
        v == signed_value(negative, magnitude),
{
    let m: isize = #[verifier::truncate]
    (magnitude as isize);
    if negative {
        -m
    } else {
        m
    }
}


/// Whether every character may stand in a CSS number.
fn numeric_chars_only(chars: &Vec<char>) -> (r: bool)
    ensures
        r == all_numeric_chars(chars@),
{
    let mut i: usize = 0;
    while i < chars.len()
        invariant
            i <= chars.len(),
            forall|j: int| 0 <= j < i ==> is_numeric_char(#[trigger] chars@[j]),
        decreases chars.len() - i,
    {
        let c = chars[i];
        if !(is_digit_char(c) || c == '-' || c == '+' || c == '.' || c == '%') {
            assert(!is_numeric_char(chars@[i as int]));
            return false;
        }
        i += 1;
    }
    true
}

/// The form of the unsigned number `chars[start..]`.
fn classify(chars: &Vec<char>, start: usize) -> (f: CSSNumericForm)
    requires
        start <= chars.len(),
    ensures
        f == form_of(chars@.subrange(start as int, chars.len() as int)),
{
    let end = chars.len();
    let ghost body = chars@.subrange(start as int, end as int);
    proof {
        lemma_count_zero(body, '-');
    }
    if start == end || count_in(chars, start, end, '-') > 0 {
        return CSSNumericForm::Malformed;
    }
    let points = count_in(chars, start, end, '.');
    if points == 0 {
        let percents = count_in(chars, start, end, '%');
        if percents == 0 {
            CSSNumericForm::Integer
        } else if percents == 1 && chars[end - 1] == '%' {
            CSSNumericForm::Percentage
        } else {
            CSSNumericForm::Malformed
        }
    } else if points == 1 {
        CSSNumericForm::Float
    } else {
        CSSNumericForm::Malformed
    }
}

/// Reads a CSS number: an integer, a number with a point or a percentage, each
/// with an optional leading sign.
///
/// A string with a character that no number holds earns
/// `InvalidNumericCharacters`; one that holds only such characters and is of
/// none of the three forms earns `InvalidNumericSyntax`.
pub fn parse_css_number(num: &str) -> (r: Result<CSSNumeric, CSSParseError>)
    requires
        css_number_defined(num@),
    ensures
        match r {
            Ok(n) => css_number(num@) == Ok::<CSSNumericView, CSSParseError>(n@),
            Err(e) => css_number(num@) == Err::<CSSNumericView, CSSParseError>(e),
        },
        r matches Ok(CSSNumeric::Float(d)) ==> d.wf(),
{
    let chars = to_chars(num);
    if !numeric_chars_only(&chars) {
        return Err(CSSParseError::InvalidNumericCharacters);
    }
    let negative = chars[0] == '-';
    let start: usize = if chars[0] == '-' || chars[0] == '+' {
        1
    } else {
        0
    };
    let end = chars.len();
    let ghost body = unsigned_part(num@);
    assert(chars@.subrange(start as int, end as int) =~= body);
    match classify(&chars, start) {
        CSSNumericForm::Malformed => Err(CSSParseError::InvalidNumericSyntax),
        CSSNumericForm::Integer => {
            let digits = from_chars(&chars, start, end);
            let magnitude = parse_css_integer(digits.as_str());
            Ok(CSSNumeric::Integer(apply_sign(negative, magnitude)))
        },
        CSSNumericForm::Percentage => {
            assert(chars@.subrange(start as int, end - 1) =~= body.drop_last());
            let digits = from_chars(&chars, start, end - 1);
            let magnitude = parse_css_integer(digits.as_str());
            Ok(CSSNumeric::Percentage(apply_sign(negative, magnitude)))
        },
        CSSNumericForm::Float => {
            let digits = from_chars(&chars, start, end);
            let unsigned = parse_css_float(digits.as_str());
            Ok(
                CSSNumeric::Float(
                    CSSDecimal { negative, whole: unsigned.whole, fraction: unsigned.fraction },
                ),
            )
        },
    }
}

/// Whether [`parse_css_number`] is defined on `num`.
pub fn is_css_number_defined(num: &str) -> (r: bool)
    ensures
        r == css_number_defined(num@),
{
    let chars = to_chars(num);
    if chars.len() == 0 {
        return false;
    }
    if !numeric_chars_only(&chars) {
        return true;
    }
    let negative = chars[0] == '-';
    let start: usize = if chars[0] == '-' || chars[0] == '+' {
        1
    } else {
        0
    };
    let end = chars.len();
    let ghost body = unsigned_part(num@);
    assert(chars@.subrange(start as int, end as int) =~= body);
    match classify(&chars, start) {
        CSSNumericForm::Malformed => true,
        CSSNumericForm::Integer => {
            let digits = from_chars(&chars, start, end);
            magnitude_is_defined(negative, digits.as_str())
        },
        CSSNumericForm::Percentage => {
            assert(chars@.subrange(start as int, end - 1) =~= body.drop_last());
            let digits = from_chars(&chars, start, end - 1);
            magnitude_is_defined(negative, digits.as_str())
        },
        CSSNumericForm::Float => {
            let digits = from_chars(&chars, start, end);
            is_css_float(digits.as_str())
        },
    }
}

/// Whether the digits of an integer or a percentage can be read and given
/// their sign.
fn magnitude_is_defined(negative: bool, digits: &str) -> (r: bool)
    ensures
        r == {
            &&& is_unsigned_text(digits@)
            &&& unsigned_text_value(digits@) <= u64::MAX
            &&& negative ==> (unsigned_text_value(digits@) as u64) as isize != isize::MIN
        },
{
    if !is_css_integer(digits) {
        return false;
    }
    let magnitude = parse_css_integer(digits);
    let m: isize = #[verifier::truncate]
    (magnitude as isize);
    !negative || m != isize::MIN
}


/// Reads a CSS number where one is defined on the text, and gives nothing
/// where none is.
pub fn checked_parse_css_number(num: &str) -> (r: Option<Result<CSSNumeric, CSSParseError>>)
    ensures
        r is Some <==> css_number_defined(num@),
        r matches Some(x) ==> match x {
            Ok(n) => css_number(num@) == Ok::<CSSNumericView, CSSParseError>(n@),
            Err(e) => css_number(num@) == Err::<CSSNumericView, CSSParseError>(e),
        },
        r matches Some(Ok(CSSNumeric::Float(d))) ==> d.wf(),
{
    if is_css_number_defined(num) {
        Some(parse_css_number(num))
    } else {
        None
    }
}

} // verus!
