//! Miscellaneous decoding helpers.

use crate::error::DecodeError;
use crate::json::Json;
use crate::model::{parse_timestamp, timestamp_text, Timestamp};
use vstd::prelude::*;

verus! {

/// Reads a UNIX timestamp sent as a quoted number, such as `"1607728320"`.
///
/// Fails where the value is not a string, or not the decimal text of a whole
/// number of seconds that chrono represents.
pub fn deserialize_datetime_from_str(j: &Json) -> (r: Result<Timestamp, DecodeError>)
    ensures
        match r {
            Ok(t) => j matches Json::Str(s) && timestamp_text(s@) == Some(t.seconds as int)
                && t.wf(),
            Err(_) => !(j matches Json::Str(s) && timestamp_text(s@) is Some),
        },
{
    match j {
        Json::Str(s) => match parse_timestamp(s.as_str()) {
            Some(t) => Ok(t),
            None => Err(DecodeError::InvalidNumber),
        },
        _ => Err(DecodeError::Unexpected(j.kind())),
    }
}

} // verus!
