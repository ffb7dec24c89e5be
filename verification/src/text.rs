//! Characters, digit strings and the numbers they denote.
//!
//! Every parser of the crate works on the characters of its input, held in a
//! `Vec<char>` whose view is the view of the string.

use vstd::prelude::*;

verus! {

/// `String::push` appends one character to the string.
pub assume_specification[ String::push ](s: &mut String, c: char)
    ensures
        final(s)@ == old(s)@.push(c),
;

/// The characters of a string, in order.
pub fn to_chars(s: &str) -> (v: Vec<char>)
    ensures
        v@ == s@,
{
    let mut v: Vec<char> = Vec::new();
    for c in it: s.chars()
        invariant
            it.seq() == s@,
            v@ =~= s@.take(it.index()),
    {
        v.push(c);
    }
    assert(s@.take(s@.len() as int) =~= s@);
    v
}

/// The string made of the characters `chars[from..to]`.
pub fn from_chars(chars: &Vec<char>, from: usize, to: usize) -> (s: String)
    requires
        from <= to <= chars.len(),
    ensures
        s@ == chars@.subrange(from as int, to as int),
{
    let mut s = String::new();
    let mut i: usize = from;
    while i < to
        invariant
            from <= i <= to <= chars.len(),
            s@ =~= chars@.subrange(from as int, i as int),
        decreases to - i,
    {
        s.push(chars[i]);
        i += 1;
    }
    s
}

/// A decimal digit, `0` to `9`.
pub open spec fn is_digit(c: char) -> bool {
    '0' <= c && c <= '9'
}

/// The number that a decimal digit stands for.
pub open spec fn digit_value(c: char) -> nat {
    if is_digit(c) {
        (c as u32 - '0' as u32) as nat
    } else {
        0
    }
}

/// Every character of `s` is a decimal digit.
pub open spec fn all_digits(s: Seq<char>) -> bool {
    forall|i: int| 0 <= i < s.len() ==> is_digit(#[trigger] s[i])
}

/// The number that a string of decimal digits denotes, most significant digit
/// first; the empty string denotes 0.
pub open spec fn decimal_value(s: Seq<char>) -> nat
    decreases s.len(),
{
    if s.len() == 0 {
        0
    } else {
        decimal_value(s.drop_last()) * 10 + digit_value(s.last())
    }
}

/// Whether `c` is a decimal digit.
pub fn is_digit_char(c: char) -> (r: bool)
    ensures
        r == is_digit(c),
{
    '0' <= c && c <= '9'
}

/// The number that the decimal digit `c` stands for.
pub fn digit_of(c: char) -> (d: u8)
    requires
        is_digit(c),
    ensures
        d == digit_value(c),
        d <= 9,
{
    (c as u32 - '0' as u32) as u8
}

/// Reading one more digit multiplies the number read so far by ten and adds the digit.
pub proof fn lemma_decimal_value_push(s: Seq<char>, c: char)
    ensures
        decimal_value(s.push(c)) == decimal_value(s) * 10 + digit_value(c),
{
    assert(s.push(c).drop_last() =~= s);
}

/// A prefix of a digit string denotes no more than the whole string.
pub proof fn lemma_decimal_value_prefix(s: Seq<char>, k: int)
    requires
        0 <= k <= s.len(),
    ensures
        decimal_value(s.take(k)) <= decimal_value(s),
    decreases s.len() - k,
{
    if k == s.len() {
        assert(s.take(k) =~= s);
    } else {
        lemma_decimal_value_prefix(s, k + 1);
        assert(s.take(k + 1).drop_last() =~= s.take(k));
    }
}

/// The number written in `chars[from..to]`, where it is at most `limit`.
pub fn parse_decimal(chars: &Vec<char>, from: usize, to: usize, limit: u64) -> (r: Option<u64>)
    requires
        from <= to <= chars.len(),
        all_digits(chars@.subrange(from as int, to as int)),
    ensures
        r is Some <==> decimal_value(chars@.subrange(from as int, to as int)) <= limit,
        r matches Some(v) ==> v == decimal_value(chars@.subrange(from as int, to as int)),
{
    let ghost whole = chars@.subrange(from as int, to as int);
    let mut acc: u64 = 0;
    let mut i: usize = from;
    while i < to
        invariant
            from <= i <= to <= chars.len(),
            whole == chars@.subrange(from as int, to as int),
            all_digits(whole),
            acc == decimal_value(whole.take(i - from)),
            acc <= limit,
        decreases to - i,
    {
        let c = chars[i];
        assert(c == whole[i - from]);
        let d: u64 = digit_of(c) as u64;
        proof {
            assert(whole.take(i - from + 1) =~= whole.take(i - from).push(c));
            lemma_decimal_value_push(whole.take(i - from), c);
            lemma_decimal_value_prefix(whole, i - from + 1);
        }
        if d > limit || acc > (limit - d) / 10 {
            return None;
        }
        acc = acc * 10 + d;
        i += 1;
    }
    assert(whole.take(to - from) =~= whole);
    Some(acc)
}


/// A number from 0 to 255 in decimal digits, without zeros before it.
pub open spec fn decimal_text(n: u8) -> Seq<char> {
    if n < 10 {
        seq![(n + 48) as char]
    } else if n < 100 {
        seq![(n / 10 + 48) as char, (n % 10 + 48) as char]
    } else {
        seq![(n / 100 + 48) as char, (n / 10 % 10 + 48) as char, (n % 10 + 48) as char]
    }
}

/// The decimal text of a number is one to three digits, and they denote the
/// number.
pub proof fn lemma_decimal_text_value(n: u8)
    ensures
        1 <= decimal_text(n).len() <= 3,
        all_digits(decimal_text(n)),
        decimal_value(decimal_text(n)) == n,
{
    let t = decimal_text(n);
    if n < 10 {
        assert(t.drop_last() =~= Seq::<char>::empty());
        assert(decimal_value(t.drop_last()) == 0);
        assert(decimal_value(t) == n);
    } else if n < 100 {
        let t1 = t.drop_last();
        assert(t1 =~= seq![(n / 10 + 48) as char]);
        assert(t1.drop_last() =~= Seq::<char>::empty());
        assert(decimal_value(t1.drop_last()) == 0);
        assert(decimal_value(t1) == n / 10);
        assert(decimal_value(t) == n);
    } else {
        let t2 = t.drop_last();
        let t1 = t2.drop_last();
        assert(t2 =~= seq![(n / 100 + 48) as char, (n / 10 % 10 + 48) as char]);
        assert(t1 =~= seq![(n / 100 + 48) as char]);
        assert(t1.drop_last() =~= Seq::<char>::empty());
        assert(decimal_value(t1.drop_last()) == 0);
        assert(decimal_value(t1) == n / 100);
        assert(decimal_value(t2) == n / 10);
        assert(decimal_value(t) == n);
    }
}

/// A hexadecimal digit: `0` to `9`, `a` to `f` or `A` to `F`.
pub open spec fn is_hex_digit(c: char) -> bool {
    ('0' <= c && c <= '9') || ('a' <= c && c <= 'f') || ('A' <= c && c <= 'F')
}

/// The number, 0 to 15, that a hexadecimal digit stands for.
pub open spec fn hex_digit_value(c: char) -> nat {
    if '0' <= c && c <= '9' {
        (c as u32 - '0' as u32) as nat
    } else if 'a' <= c && c <= 'f' {
        (c as u32 - 'a' as u32 + 10) as nat
    } else if 'A' <= c && c <= 'F' {
        (c as u32 - 'A' as u32 + 10) as nat
    } else {
        0
    }
}

/// Every character of `s` is a hexadecimal digit.
pub open spec fn all_hex_digits(s: Seq<char>) -> bool {
    forall|i: int| 0 <= i < s.len() ==> is_hex_digit(#[trigger] s[i])
}

/// The byte that two hexadecimal digits write, the high one first.
pub open spec fn hex_pair_value(high: char, low: char) -> nat {
    16 * hex_digit_value(high) + hex_digit_value(low)
}

/// Whether `c` is a hexadecimal digit.
pub fn is_hex_digit_char(c: char) -> (r: bool)
    ensures
        r == is_hex_digit(c),
{
    ('0' <= c && c <= '9') || ('a' <= c && c <= 'f') || ('A' <= c && c <= 'F')
}

/// The number that the hexadecimal digit `c` stands for.
pub fn hex_digit_of(c: char) -> (d: u8)
    requires
        is_hex_digit(c),
    ensures
        d == hex_digit_value(c),
        d <= 15,
{
    if '0' <= c && c <= '9' {
        (c as u32 - '0' as u32) as u8
    } else if 'a' <= c && c <= 'f' {
        (c as u32 - 'a' as u32 + 10) as u8
    } else {
        (c as u32 - 'A' as u32 + 10) as u8
    }
}

/// The byte that two hexadecimal digits write.
pub fn hex_pair_of(high: char, low: char) -> (b: u8)
    requires
        is_hex_digit(high),
        is_hex_digit(low),
    ensures
        b == hex_pair_value(high, low),
{
    16 * hex_digit_of(high) + hex_digit_of(low)
}

/// Two hexadecimal digits write a byte.
pub proof fn lemma_hex_pair_range(high: char, low: char)
    ensures
        hex_pair_value(high, low) <= 255,
{
}

/// Whether `chars[from..to]` are all hexadecimal digits.
pub fn hex_digits_in(chars: &Vec<char>, from: usize, to: usize) -> (r: bool)
    requires
        from <= to <= chars.len(),
    ensures
        r == all_hex_digits(chars@.subrange(from as int, to as int)),
{
    let ghost body = chars@.subrange(from as int, to as int);
    let mut i: usize = from;
    while i < to
        invariant
            from <= i <= to <= chars.len(),
            body == chars@.subrange(from as int, to as int),
            forall|j: int| 0 <= j < i - from ==> is_hex_digit(#[trigger] body[j]),
        decreases to - i,
    {
        if !is_hex_digit_char(chars[i]) {
            assert(!is_hex_digit(body[i - from]));
            return false;
        }
        i += 1;
    }
    true
}

} // verus!
