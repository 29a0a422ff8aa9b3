//! Turning a response body into a typed record or an error.
//!
//! An error body of Last.fm takes precedence: a body that reads as one is
//! reported as that error, even where it would also decode as the record asked for.

use crate::decode::{opt_field_decodes_to, present, Decode};
use crate::error::{error_body_is, error_in, DecodeError, Error, LastFMError};
use crate::json::{json_of, json_text_accepted, parse, Json};
use vstd::prelude::*;

verus! {

/// Whether `r` is what reading the response `j` as a `T` gives: the classified
/// error where `j` is an error body of Last.fm, else the record it decodes to,
/// else a `ParsingError`.
pub open spec fn read_as<T: Decode>(j: Json, r: Result<T, Error>) -> bool {
    &&& LastFMError::decodable(j) ==> (r matches Err(Error::LastFMError(e)) && error_body_is(j, e))
    &&& !LastFMError::decodable(j) ==> match r {
        Ok(v) => T::decodable(j) && T::decodes_to(j, v),
        Err(e) => !T::decodable(j) && e is ParsingError,
    }
}

/// Whether `r` is what reading the response `j` gives for a record `T` that
/// arrives under `key` of the envelope `E`: the classified error where `j` is
/// an error body, else the record where the envelope decodes and holds one,
/// else a `ParsingError`.
pub open spec fn read_in_envelope<T: Decode, E: Decode>(
    j: Json,
    key: Seq<char>,
    r: Result<T, Error>,
) -> bool {
    &&& LastFMError::decodable(j) ==> (r matches Err(Error::LastFMError(e)) && error_body_is(j, e))
    &&& !LastFMError::decodable(j) ==> match r {
        Ok(v) => E::decodable(j) && opt_field_decodes_to::<T>(j, key, Some(v)),
        Err(e) => e is ParsingError && !(E::decodable(j) && present(j, key)),
    }
}

/// Reads the response `j`: the classified error where it is an error body of
/// Last.fm, the record it decodes to otherwise.
pub fn read_response<T: Decode>(j: &Json) -> (r: Result<T, Error>)
    ensures
        read_as::<T>(*j, r),
{
    match error_in(j) {
        Some(e) => Err(Error::LastFMError(e)),
        None => match T::decode(j) {
            Ok(v) => Ok(v),
            Err(e) => Err(Error::ParsingError(e)),
        },
    }
}

/// What the transport brought back, checked: the transport's failure as an
/// `HTTPError`, a body that is not JSON as a `ParsingError`, and the value that
/// serde_json reads from any other body.
pub fn parse_response(response: Result<String, String>) -> (r: Result<Json, Error>)
    ensures
        match response {
            Err(m) => r matches Err(Error::HTTPError(x)) && x == m,
            Ok(body) => if json_text_accepted(body@) {
                r == Ok::<Json, Error>(json_of(body@))
            } else {
                r matches Err(Error::ParsingError(DecodeError::Syntax))
            },
        },
{
    match response {
        Err(m) => Err(Error::HTTPError(m)),
        Ok(body) => match parse(body.as_str()) {
            Ok(j) => Ok(j),
            Err(e) => Err(Error::ParsingError(e)),
        },
    }
}

} // verus!
