//! A length in whole seconds that may be unknown. The server writes a known
//! length as a number and an unknown one as the empty string.

use vstd::prelude::*;

use crate::error::Fault;
use crate::json::{Json, JsonView};
use crate::models::{TimeSpan, NANOS_PER_SEC};

verus! {

/// The length in nanoseconds that `value` stands for: a number of seconds
/// from 0 to `u64::MAX`, or the empty string for a length that is not known.
pub open spec fn decoded(value: JsonView) -> Result<Option<nat>, Fault> {
    match value {
        JsonView::Integer(n) => if 0 <= n <= u64::MAX {
            Ok(Some(n as nat * NANOS_PER_SEC as nat))
        } else {
            Err(Fault::OutOfRange)
        },
        JsonView::Text(s) => if s.len() == 0 {
            Ok(None)
        } else {
            Err(Fault::Malformed)
        },
        _ => Err(Fault::WrongType),
    }
}

/// What a length is written as: its whole seconds, or `null` where it is not
/// known.
pub open spec fn encoded(duration: Option<nat>) -> JsonView {
    match duration {
        Some(nanos) => JsonView::Integer((nanos / NANOS_PER_SEC as nat) as int),
        None => JsonView::Null,
    }
}

/// Writes a length as its whole seconds, and as `null` where it is not known.
pub fn serialize(duration: &Option<TimeSpan>) -> (json: Json)
    ensures
        json@ == encoded(
            match *duration {
                Some(t) => Some(t@),
                None => None,
            },
        ),
{
    match duration {
        Some(t) => Json::Integer(t.as_secs() as i128),
        None => Json::Null,
    }
}

/// Reads a length from a number of seconds or from the empty string.
pub fn deserialize(value: &Json) -> (r: Result<Option<TimeSpan>, Fault>)
    ensures
        match r {
            Ok(Some(t)) => decoded(value@) == Ok::<Option<nat>, Fault>(Some(t@)),
            Ok(None) => decoded(value@) == Ok::<Option<nat>, Fault>(None),
            Err(fault) => decoded(value@) == Err::<Option<nat>, Fault>(fault),
        },
{
    match value {
        Json::Integer(n) => {
            if 0 <= *n && *n <= 0xffff_ffff_ffff_ffff {
                Ok(Some(TimeSpan::from_secs(*n as u64)))
            } else {
                Err(Fault::OutOfRange)
            }
        },
        Json::Text(s) => {
            if s.as_str().is_empty() {
                Ok(None)
            } else {
                Err(Fault::Malformed)
            }
        },
        _ => Err(Fault::WrongType),
    }
}

} // verus!
