//! Characters, whitespace and decimal numerals.
//!
//! Everything here works on sequences of characters: the view of a `&str` is a
//! `Seq<char>`, and the executable functions take the characters as a slice.

use vstd::prelude::*;

verus! {

/// `String::push` of the standard library, which vstd leaves without a
/// specification: it appends the one character to the end of the string.
pub assume_specification[ String::push ](s: &mut String, c: char)
    ensures
        final(s)@ == old(s)@.push(c),
;

/// The characters of `s`, in order.
pub fn chars_of(s: &str) -> (chars: Vec<char>)
    ensures
        chars@ == s@,
{
    broadcast use vstd::string::group_string_axioms;

    let mut chars: Vec<char> = Vec::new();
    for c in it: s.chars()
        invariant
            it.seq() == s@,
            chars@ == s@.take(it.index()),
    {
        chars.push(c);
    }
    chars
}

/// The string made of `chars`, in order.
pub fn text_of(chars: &[char]) -> (text: String)
    ensures
        text@ == chars@,
{
    let mut text = String::new();
    let mut i: usize = 0;
    while i < chars.len()
        invariant
            i <= chars.len(),
            text@ == chars@.take(i as int),
        decreases chars.len() - i,
    {
        text.push(chars[i]);
        i += 1;
    }
    text
}

/// The characters that Unicode counts as white space.
pub open spec fn is_space(c: char) -> bool {
    let n = c as u32;
    ||| 0x09 <= n <= 0x0D
    ||| n == 0x20
    ||| n == 0x85
    ||| n == 0xA0
    ||| n == 0x1680
    ||| 0x2000 <= n <= 0x200A
    ||| n == 0x2028
    ||| n == 0x2029
    ||| n == 0x202F
    ||| n == 0x205F
    ||| n == 0x3000
}

/// Whether `c` is white space.
pub fn is_whitespace(c: char) -> (b: bool)
    ensures
        b == is_space(c),
{
    let n: u32 = c as u32;
    (0x09 <= n && n <= 0x0D) || n == 0x20 || n == 0x85 || n == 0xA0 || n == 0x1680 || (0x2000 <= n
        && n <= 0x200A) || n == 0x2028 || n == 0x2029 || n == 0x202F || n == 0x205F || n == 0x3000
}

/// The ASCII digits `0` to `9`.
pub open spec fn is_digit(c: char) -> bool {
    '0' <= c <= '9'
}

/// The number that the digit `c` stands for.
pub open spec fn digit_of(c: char) -> nat
    recommends
        is_digit(c),
{
    (c as u32 - '0' as u32) as nat
}

/// Every character of `s` is an ASCII digit.
pub open spec fn all_digits(s: Seq<char>) -> bool {
    forall|i: int| 0 <= i < s.len() ==> is_digit(#[trigger] s[i])
}

/// The number that the decimal numeral `s` stands for; the empty numeral is 0.
pub open spec fn decimal_value(s: Seq<char>) -> nat
    recommends
        all_digits(s),
    decreases s.len(),
{
    if s.len() == 0 {
        0
    } else {
        10 * decimal_value(s.drop_last()) + digit_of(s.last())
    }
}

/// The number that `s` stands for where `s` is a numeral: one digit at least,
/// and digits only.
pub open spec fn magnitude_of(s: Seq<char>) -> Option<nat> {
    if s.len() > 0 && all_digits(s) {
        Some(decimal_value(s))
    } else {
        None
    }
}

/// An unsigned 64-bit integer in decimal: an optional `+`, then a numeral no
/// larger than `u64::MAX`.
pub open spec fn unsigned_of(s: Seq<char>) -> Option<u64> {
    let digits = if s.len() > 0 && s[0] == '+' {
        s.skip(1)
    } else {
        s
    };
    match magnitude_of(digits) {
        Some(n) if n <= u64::MAX => Some(n as u64),
        _ => None,
    }
}

/// A signed 64-bit integer in decimal: an optional `+` or `-`, then a numeral
/// whose signed value lies between `i64::MIN` and `i64::MAX`.
pub open spec fn signed_of(s: Seq<char>) -> Option<i64> {
    if s.len() > 0 && s[0] == '-' {
        match magnitude_of(s.skip(1)) {
            Some(n) if n <= -(i64::MIN as int) => Some((-(n as int)) as i64),
            _ => None,
        }
    } else {
        let digits = if s.len() > 0 && s[0] == '+' {
            s.skip(1)
        } else {
            s
        };
        match magnitude_of(digits) {
            Some(n) if n <= i64::MAX => Some(n as i64),
            _ => None,
        }
    }
}

/// A longer numeral does not stand for a smaller number than its prefix.
pub proof fn lemma_decimal_value_grows(s: Seq<char>, k: int)
    requires
        0 <= k <= s.len(),
    ensures
        decimal_value(s.take(k)) <= decimal_value(s),
    decreases s.len(),
{
    if k == s.len() {
        assert(s.take(k) =~= s);
    } else {
        lemma_decimal_value_grows(s.drop_last(), k);
        assert(s.drop_last().take(k) =~= s.take(k));
    }
}

/// Reads the numeral `digits`, as `magnitude_of` does, where it stands for no
/// more than `limit`.
pub fn parse_magnitude(digits: &[char], limit: u64) -> (r: Option<u64>)
    ensures
        r == match magnitude_of(digits@) {
            Some(n) if n <= limit => Some(n as u64),
            _ => None::<u64>,
        },
{
    if digits.len() == 0 {
        return None;
    }
    let mut value: u64 = 0;
    let mut i: usize = 0;
    while i < digits.len()
        invariant
            i <= digits.len(),
            all_digits(digits@.take(i as int)),
            value == decimal_value(digits@.take(i as int)),
            value <= limit,
        decreases digits.len() - i,
    {
        let c = digits[i];
        if !('0' <= c && c <= '9') {
            assert(!is_digit(digits@[i as int]));
            return None;
        }
        let d: u64 = (c as u32 - '0' as u32) as u64;
        proof {
            let next = digits@.take(i + 1);
            assert(next.drop_last() =~= digits@.take(i as int));
            assert(next.last() == c);
            assert(decimal_value(next) == 10 * value + d);
            assert forall|j: int| 0 <= j < next.len() implies is_digit(#[trigger] next[j]) by {
                if j < i {
                    assert(digits@.take(i as int)[j] == next[j]);
                }
            }
            lemma_decimal_value_grows(digits@, i + 1);
        }
        if d > limit || value > (limit - d) / 10 {
            proof {
                if all_digits(digits@) {
                    assert(decimal_value(digits@) > limit);
                }
            }
            return None;
        }
        value = 10 * value + d;
        i += 1;
    }
    proof {
        assert(digits@.take(i as int) =~= digits@);
    }
    Some(value)
}

/// Reads an unsigned 64-bit integer in decimal.
pub fn parse_unsigned(s: &[char]) -> (r: Option<u64>)
    ensures
        r == unsigned_of(s@),
{
    if s.len() > 0 && s[0] == '+' {
        parse_magnitude(vstd::slice::slice_subrange(s, 1, s.len()), u64::MAX)
    } else {
        parse_magnitude(s, u64::MAX)
    }
}

/// Reads a signed 64-bit integer in decimal.
pub fn parse_signed(s: &[char]) -> (r: Option<i64>)
    ensures
        r == signed_of(s@),
{
    if s.len() > 0 && s[0] == '-' {
        match parse_magnitude(vstd::slice::slice_subrange(s, 1, s.len()), 0x8000_0000_0000_0000) {
            Some(n) => {
                if n == 0x8000_0000_0000_0000 {
                    Some(i64::MIN)
                } else {
                    Some(-(n as i64))
                }
            },
            None => None,
        }
    } else if s.len() > 0 && s[0] == '+' {
        match parse_magnitude(vstd::slice::slice_subrange(s, 1, s.len()), 0x7fff_ffff_ffff_ffff) {
            Some(n) => Some(n as i64),
            None => None,
        }
    } else {
        match parse_magnitude(s, 0x7fff_ffff_ffff_ffff) {
            Some(n) => Some(n as i64),
            None => None,
        }
    }
}

/// Ten to the power of `n`.
pub open spec fn pow10(n: nat) -> nat
    decreases n,
{
    if n == 0 {
        1
    } else {
        10 * pow10((n - 1) as nat)
    }
}

/// A numeral of `n` digits stands for a number below ten to the power of `n`.
pub proof fn lemma_decimal_value_bound(s: Seq<char>)
    requires
        all_digits(s),
    ensures
        decimal_value(s) < pow10(s.len()),
    decreases s.len(),
{
    if s.len() > 0 {
        assert forall|i: int| 0 <= i < s.drop_last().len() implies is_digit(
            #[trigger] s.drop_last()[i],
        ) by {
            assert(s.drop_last()[i] == s[i]);
        }
        lemma_decimal_value_bound(s.drop_last());
        assert(is_digit(s[s.len() - 1]));
    }
}

/// Where the first `.` of `s` stands; the length of `s` where it has none.
pub open spec fn point_at(s: Seq<char>) -> nat
    decreases s.len(),
{
    if s.len() == 0 || s[0] == '.' {
        0
    } else {
        1 + point_at(s.drop_first())
    }
}

/// The first nine characters of `fraction`, filled up with `0` on the right
/// where it has fewer.
pub open spec fn nine_digits(fraction: Seq<char>) -> Seq<char> {
    Seq::new(
        9,
        |i: int|
            if i < fraction.len() {
                fraction[i]
            } else {
                '0'
            },
    )
}

/// What precedes the first `.` of `s`; all of `s` where it has none.
pub open spec fn whole_part(s: Seq<char>) -> Seq<char> {
    s.take(point_at(s) as int)
}

/// What follows the first `.` of `s`; nothing where it has none.
pub open spec fn fraction_part(s: Seq<char>) -> Seq<char> {
    if point_at(s) < s.len() {
        s.skip(point_at(s) as int + 1)
    } else {
        Seq::empty()
    }
}

/// A span of time in seconds, written in decimal, as nanoseconds: digits, and
/// at most one `.` among them, before them or behind them. The seconds are
/// no more than `u64::MAX`; of the fraction, digits after the ninth are
/// dropped.
pub open spec fn seconds_of(s: Seq<char>) -> Option<nat> {
    let whole = whole_part(s);
    let fraction = fraction_part(s);
    if all_digits(whole) && all_digits(fraction) && whole.len() + fraction.len() > 0
        && decimal_value(whole) <= u64::MAX {
        Some(decimal_value(whole) * 1_000_000_000 + decimal_value(nine_digits(fraction)))
    } else {
        None
    }
}

/// The digit that stands for `d`.
pub open spec fn digit_char(d: nat) -> char
    recommends
        d < 10,
{
    ((48 + d) as u8) as char
}

/// The decimal numeral of `n`, without leading zeros.
pub open spec fn digits_of(n: nat) -> Seq<char>
    decreases n,
{
    if n < 10 {
        seq![digit_char(n)]
    } else {
        digits_of(n / 10).push(digit_char(n % 10))
    }
}

/// `hundredths` hundredths in decimal, with two digits behind the point.
pub open spec fn two_decimals(hundredths: nat) -> Seq<char> {
    digits_of(hundredths / 100) + seq![
        '.',
        digit_char(hundredths / 10 % 10),
        digit_char(hundredths % 10),
    ]
}

/// The digit that stands for `d`.
pub fn digit(d: u8) -> (c: char)
    requires
        d < 10,
    ensures
        c == digit_char(d as nat),
        is_digit(c),
        digit_of(c) == d,
{
    (48 + d) as char
}

/// Appends the decimal numeral of `n` to `out`.
pub fn push_decimal(out: &mut String, n: u128)
    ensures
        final(out)@ == old(out)@ + digits_of(n as nat),
    decreases n,
{
    if n < 10 {
        out.push(digit(n as u8));
        assert(out@ =~= old(out)@ + digits_of(n as nat));
    } else {
        push_decimal(out, n / 10);
        out.push(digit((n % 10) as u8));
        assert(out@ =~= old(out)@ + digits_of(n as nat));
    }
}

/// The decimal numeral of the integer `n`, with a `-` before it where `n`
/// is negative.
pub open spec fn signed_digits(n: int) -> Seq<char> {
    if n < 0 {
        seq!['-'] + digits_of((-n) as nat)
    } else {
        digits_of(n as nat)
    }
}

/// The decimal numeral of `n` is a numeral, and stands for `n`.
pub proof fn lemma_digits_are_a_numeral(n: nat)
    ensures
        digits_of(n).len() > 0,
        all_digits(digits_of(n)),
        decimal_value(digits_of(n)) == n,
        magnitude_of(digits_of(n)) == Some(n),
    decreases n,
{
    let d = digits_of(n);
    if n < 10 {
        assert(d.drop_last() =~= Seq::<char>::empty());
        assert(decimal_value(d.drop_last()) == 0);
        assert(d.last() == digit_char(n));
    } else {
        lemma_digits_are_a_numeral(n / 10);
        let init = digits_of(n / 10);
        assert(d.drop_last() =~= init);
        assert(d.last() == digit_char(n % 10));
        assert forall|i: int| 0 <= i < d.len() implies is_digit(#[trigger] d[i]) by {
            if i < init.len() {
                assert(d[i] == init[i]);
            }
        }
    }
}

/// Where a text starts with a numeral and goes on with something that is no
/// digit, its first `.` is the first `.` of what follows the numeral.
pub proof fn lemma_point_after_digits(digits: Seq<char>, rest: Seq<char>)
    requires
        all_digits(digits),
    ensures
        point_at(digits + rest) == digits.len() + point_at(rest),
    decreases digits.len(),
{
    if digits.len() == 0 {
        assert(digits + rest =~= rest);
    } else {
        assert(is_digit(digits[0]));
        assert((digits + rest)[0] == digits[0]);
        assert((digits + rest).drop_first() =~= digits.drop_first() + rest);
        assert forall|i: int| 0 <= i < digits.drop_first().len() implies is_digit(
            #[trigger] digits.drop_first()[i],
        ) by {
            assert(digits.drop_first()[i] == digits[i + 1]);
        }
        lemma_point_after_digits(digits.drop_first(), rest);
    }
}

} // verus!
