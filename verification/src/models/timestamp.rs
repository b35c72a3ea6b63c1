//! A point in time, in seconds since the epoch. The server writes it as a
//! number or as a string that holds the number in decimal.

use vstd::prelude::*;

use crate::error::Fault;
use crate::json::{Json, JsonView};
use crate::text::{chars_of, parse_signed, signed_of};

verus! {

/// The point in time that `value` stands for: a number as it is, a string as
/// the signed integer that it holds in decimal.
pub open spec fn decoded(value: JsonView) -> Result<i64, Fault> {
    match value {
        JsonView::Integer(n) => if i64::MIN <= n <= i64::MAX {
            Ok(n as i64)
        } else {
            Err(Fault::OutOfRange)
        },
        JsonView::Text(s) => match signed_of(s) {
            Some(n) => Ok(n),
            None => Err(Fault::Malformed),
        },
        _ => Err(Fault::WrongType),
    }
}

/// Writes a point in time as a number.
pub fn serialize(value: &i64) -> (json: Json)
    ensures
        json@ == JsonView::Integer(*value as int),
{
    Json::Integer(*value as i128)
}

/// Reads a point in time from a number or from a string.
pub fn deserialize(value: &Json) -> (r: Result<i64, Fault>)
    ensures
        r == decoded(value@),
{
    match value {
        Json::Integer(n) => {
            if -0x8000_0000_0000_0000 <= *n && *n <= 0x7fff_ffff_ffff_ffff {
                Ok(*n as i64)
            } else {
                Err(Fault::OutOfRange)
            }
        },
        Json::Text(s) => {
            let chars = chars_of(s.as_str());
            match parse_signed(chars.as_slice()) {
                Some(n) => Ok(n),
                None => Err(Fault::Malformed),
            }
        },
        _ => Err(Fault::WrongType),
    }
}

} // verus!
