//! A span of time with a fraction of a second. The server writes it as a
//! string: the seconds in decimal, with two digits behind the point.

use vstd::prelude::*;

use crate::error::Fault;
use crate::json::{Json, JsonView};
use crate::models::TimeSpan;
use crate::text::{
    all_digits, chars_of, decimal_value, fraction_part, is_digit, lemma_decimal_value_bound, nine_digits,
    parse_magnitude, point_at, pow10, push_decimal, seconds_of, two_decimals, whole_part,
};

verus! {

/// The span in nanoseconds that `value` stands for: a string that holds
/// seconds in decimal.
pub open spec fn decoded(value: JsonView) -> Result<nat, Fault> {
    match value {
        JsonView::Text(s) => match seconds_of(s) {
            Some(nanos) => Ok(nanos),
            None => Err(Fault::Malformed),
        },
        _ => Err(Fault::WrongType),
    }
}

/// The hundredths of a second that are nearest to `nanos` nanoseconds, the
/// larger of two that are equally near.
pub open spec fn hundredths(nanos: nat) -> nat {
    (nanos + 5_000_000) / 10_000_000
}

/// Writes a span as its seconds in decimal, rounded to two digits behind the
/// point.
pub fn serialize(duration: &TimeSpan) -> (json: Json)
    ensures
        json@ == JsonView::Text(two_decimals(hundredths(duration@))),
{
    let secs = duration.as_secs();
    let nanos = duration.subsec_nanos();
    let total: u128 = secs as u128 * 100 + ((nanos as u128 + 5_000_000) / 10_000_000);
    assert(total == hundredths(duration@));
    let mut text = String::new();
    push_decimal(&mut text, total / 100);
    text.push('.');
    text.push(crate::text::digit((total / 10 % 10) as u8));
    text.push(crate::text::digit((total % 10) as u8));
    assert(text@ =~= two_decimals(total as nat));
    Json::Text(text)
}

/// Reads a span from seconds in decimal.
pub fn parse_seconds(s: &[char]) -> (r: Option<TimeSpan>)
    ensures
        match r {
            Some(t) => seconds_of(s@) == Some(t@),
            None => seconds_of(s@) is None,
        },
{
    let mut point: usize = 0;
    proof {
        assert(s@.skip(0) =~= s@);
    }
    while point < s.len() && s[point] != '.'
        invariant
            point <= s.len(),
            point_at(s@) == point + point_at(s@.skip(point as int)),
        decreases s.len() - point,
    {
        proof {
            assert(s@.skip(point as int).drop_first() =~= s@.skip(point + 1));
        }
        point += 1;
    }
    assert(point_at(s@) == point);
    let whole = vstd::slice::slice_subrange(s, 0, point);
    let fraction = if point < s.len() {
        vstd::slice::slice_subrange(s, point + 1, s.len())
    } else {
        vstd::slice::slice_subrange(s, point, point)
    };
    assert(whole@ =~= whole_part(s@));
    assert(fraction@ =~= fraction_part(s@));
    if whole.len() + fraction.len() == 0 {
        return None;
    }
    let secs: u64 = if whole.len() == 0 {
        0
    } else {
        match parse_magnitude(whole, u64::MAX) {
            Some(secs) => secs,
            None => {
                return None;
            },
        }
    };
    let ghost nine = nine_digits(fraction@);
    let mut nanos: u32 = 0;
    let mut k: usize = 0;
    while k < 9
        invariant
            k <= 9,
            fraction@ == fraction_part(s@),
            nine == nine_digits(fraction@),
            all_digits(nine.take(k as int)),
            nanos == decimal_value(nine.take(k as int)),
            nanos < pow10(k as nat),
            forall|j: int| 0 <= j < k && j < fraction@.len() ==> is_digit(#[trigger] fraction@[j]),
        decreases 9 - k,
    {
        let c = if k < fraction.len() {
            fraction[k]
        } else {
            '0'
        };
        if !('0' <= c && c <= '9') {
            assert(!is_digit(fraction@[k as int]));
            return None;
        }
        proof {
            let next = nine.take(k + 1);
            assert(next.drop_last() =~= nine.take(k as int));
            assert(next.last() == c);
            assert forall|j: int| 0 <= j < next.len() implies is_digit(#[trigger] next[j]) by {
                if j < k {
                    assert(nine.take(k as int)[j] == next[j]);
                }
            }
            lemma_decimal_value_bound(next);
            reveal_with_fuel(pow10, 10);
            assert(pow10((k + 1) as nat) <= 1_000_000_000);
        }
        nanos = nanos * 10 + (c as u32 - '0' as u32);
        k += 1;
    }
    while k < fraction.len()
        invariant
            9 <= k,
            fraction@ == fraction_part(s@),
            forall|j: int| 0 <= j < k && j < fraction@.len() ==> is_digit(#[trigger] fraction@[j]),
        decreases fraction.len() - k,
    {
        let c = fraction[k];
        if !('0' <= c && c <= '9') {
            assert(!is_digit(fraction@[k as int]));
            return None;
        }
        k += 1;
    }
    proof {
        assert(nine.take(9) =~= nine);
        reveal_with_fuel(pow10, 10);
        assert(pow10(9) == 1_000_000_000);
        assert(all_digits(fraction@));
    }
    TimeSpan::new(secs, nanos)
}

/// Reads a span from a string that holds seconds in decimal.
pub fn deserialize(value: &Json) -> (r: Result<TimeSpan, Fault>)
    ensures
        match r {
            Ok(t) => decoded(value@) == Ok::<nat, Fault>(t@),
            Err(fault) => decoded(value@) == Err::<nat, Fault>(fault),
        },
{
    match value {
        Json::Text(s) => {
            let chars = chars_of(s.as_str());
            match parse_seconds(chars.as_slice()) {
                Some(t) => Ok(t),
                None => Err(Fault::Malformed),
            }
        },
        _ => Err(Fault::WrongType),
    }
}

} // verus!
