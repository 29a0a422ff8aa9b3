//! Errors: what went wrong while decoding, and the errors reported by Last.fm.

use crate::decode::{
    field, field_decodable, field_decodes_to, opt_list_field, opt_list_field_decodable,
    opt_list_field_decodes_to, Decode,
};
use crate::json::Json;
use vstd::prelude::*;

verus! {

/// The shape of a JSON value, as named in a decoding error.
#[derive(Clone, Copy, Debug, PartialEq, Eq, Structural)]
pub enum JsonKind {
    Null,
    Bool,
    Number,
    String,
    Array,
    Object,
}

/// Why a response body could not be decoded.
#[derive(Debug)]
pub enum DecodeError {
    /// The body is not JSON text.
    Syntax,
    /// A required field is absent.
    Missing(String),
    /// A value has the wrong shape; the shape found is given.
    Unexpected(JsonKind),
    /// A number is malformed, or lies outside of the range of its type.
    InvalidNumber,
    /// The value of the named field could not be decoded, for the reason given.
    InField(String, Box<DecodeError>),
    /// The element at the given index of a list could not be decoded, for the reason given.
    AtIndex(usize, Box<DecodeError>),
}


/// The body Last.fm sends back when a request cannot be served.
#[derive(Debug)]
pub struct LastFMError {
    /// The error code associated with the error.
    pub error: i32,
    /// The message associated with the error.
    pub message: String,
    /// Any links associated with the error, if available.
    pub links: Option<Vec<String>>,
}

impl Decode for i32 {
    /// An integer in the range of `i32`; a fraction or a quoted number is refused.
    open spec fn decodable(j: Json) -> bool {
        j matches Json::Int(n) && i32::MIN <= n <= i32::MAX
    }

    open spec fn decodes_to(j: Json, v: i32) -> bool {
        j == Json::Int(v as i64)
    }

    fn decode(j: &Json) -> (r: Result<i32, DecodeError>) {
        match j {
            Json::Int(n) => {
                if i32::MIN as i64 <= *n && *n <= i32::MAX as i64 {
                    Ok(*n as i32)
                } else {
                    Err(DecodeError::InvalidNumber)
                }
            },
            _ => Err(DecodeError::Unexpected(j.kind())),
        }
    }
}

impl Decode for LastFMError {
    /// An object with an integer `error`, a string `message` and, optionally,
    /// a list of strings under `links`.
    open spec fn decodable(j: Json) -> bool {
        &&& j is Object
        &&& field_decodable::<i32>(j, "error"@)
        &&& field_decodable::<String>(j, "message"@)
        &&& opt_list_field_decodable::<String>(j, "links"@)
    }

    open spec fn decodes_to(j: Json, v: LastFMError) -> bool {
        &&& field_decodes_to::<i32>(j, "error"@, v.error)
        &&& field_decodes_to::<String>(j, "message"@, v.message)
        &&& opt_list_field_decodes_to::<String>(j, "links"@, v.links)
    }

    fn decode(j: &Json) -> (r: Result<LastFMError, DecodeError>) {
        if !j.is_object() {
            return Err(DecodeError::Unexpected(j.kind()));
        }
        let error = match field::<i32>(j, "error") {
            Ok(v) => v,
            Err(e) => return Err(e),
        };
        let message = match field::<String>(j, "message") {
            Ok(v) => v,
            Err(e) => return Err(e),
        };
        let links = match opt_list_field::<String>(j, "links") {
            Ok(v) => v,
            Err(e) => return Err(e),
        };
        Ok(LastFMError { error, message, links })
    }
}

/// The errors that the Last.fm API reports, one variant for each code it documents.
#[derive(Debug)]
pub enum LastFMErrorResponse {
    /// Invalid Service - This service does not exist.
    InvalidService(LastFMError),
    /// Invalid Method - No method exists by the name provided.
    InvalidMethod(LastFMError),
    /// Authentication Failed - Failed to authenticate with the Last.fm API.
    AuthenticationFailed(LastFMError),
    /// Invalid Format - Service does not exist in the format given.
    InvalidFormat(LastFMError),
    /// Invalid Parameters - A required parameter is missing from the request,
    /// or one or more parameters are invalid.
    InvalidParameters(LastFMError),
    /// Invalid Resource Specified - An invalid resource was specified.
    InvalidResourceSpecified(LastFMError),
    /// Operation Failed - Something else went wrong.
    OperationFailed(LastFMError),
    /// Invalid Session Key - Please re-authenticate with the Last.fm API.
    InvalidSessionKey(LastFMError),
    /// Invalid API Key - An invalid API key was provided.
    InvalidAPIKey(LastFMError),
    /// Service Offline - The given service is temporarily offline. Try again later.
    ServiceOffline(LastFMError),
    /// Invalid Method Signature Supplied - An invalid signature for the given method was supplied.
    InvalidMethodSignatureSupplied(LastFMError),
    /// Generic Error - An unknown error has occurred; also every code not listed here.
    GenericError(LastFMError),
    /// Suspended API Key - The given API key has been suspended.
    SuspendedAPIKey(LastFMError),
    /// Rate Limit Exceeded - The rate limit for this API key has been exceeded.
    RateLimitExceeded(LastFMError),
}

/// The kind that the error code of `e` stands for, carrying `e`.
pub open spec fn classified(e: LastFMError) -> LastFMErrorResponse {
    match e.error {
        2 => LastFMErrorResponse::InvalidService(e),
        3 => LastFMErrorResponse::InvalidMethod(e),
        4 => LastFMErrorResponse::AuthenticationFailed(e),
        5 => LastFMErrorResponse::InvalidFormat(e),
        6 => LastFMErrorResponse::InvalidParameters(e),
        7 => LastFMErrorResponse::InvalidResourceSpecified(e),
        8 => LastFMErrorResponse::OperationFailed(e),
        9 => LastFMErrorResponse::InvalidSessionKey(e),
        10 => LastFMErrorResponse::InvalidAPIKey(e),
        11 => LastFMErrorResponse::ServiceOffline(e),
        13 => LastFMErrorResponse::InvalidMethodSignatureSupplied(e),
        16 => LastFMErrorResponse::GenericError(e),
        26 => LastFMErrorResponse::SuspendedAPIKey(e),
        29 => LastFMErrorResponse::RateLimitExceeded(e),
        _ => LastFMErrorResponse::GenericError(e),
    }
}

/// The error that `r` carries, whatever its kind.
pub open spec fn carried(r: LastFMErrorResponse) -> LastFMError {
    match r {
        LastFMErrorResponse::InvalidService(e) => e,
        LastFMErrorResponse::InvalidMethod(e) => e,
        LastFMErrorResponse::AuthenticationFailed(e) => e,
        LastFMErrorResponse::InvalidFormat(e) => e,
        LastFMErrorResponse::InvalidParameters(e) => e,
        LastFMErrorResponse::InvalidResourceSpecified(e) => e,
        LastFMErrorResponse::OperationFailed(e) => e,
        LastFMErrorResponse::InvalidSessionKey(e) => e,
        LastFMErrorResponse::InvalidAPIKey(e) => e,
        LastFMErrorResponse::ServiceOffline(e) => e,
        LastFMErrorResponse::InvalidMethodSignatureSupplied(e) => e,
        LastFMErrorResponse::GenericError(e) => e,
        LastFMErrorResponse::SuspendedAPIKey(e) => e,
        LastFMErrorResponse::RateLimitExceeded(e) => e,
    }
}

impl From<LastFMError> for LastFMErrorResponse {
    fn from(e: LastFMError) -> (r: LastFMErrorResponse)
        ensures
            r == classified(e),
    {
        match e.error {
            2 => LastFMErrorResponse::InvalidService(e),
            3 => LastFMErrorResponse::InvalidMethod(e),
            4 => LastFMErrorResponse::AuthenticationFailed(e),
            5 => LastFMErrorResponse::InvalidFormat(e),
            6 => LastFMErrorResponse::InvalidParameters(e),
            7 => LastFMErrorResponse::InvalidResourceSpecified(e),
            8 => LastFMErrorResponse::OperationFailed(e),
            9 => LastFMErrorResponse::InvalidSessionKey(e),
            10 => LastFMErrorResponse::InvalidAPIKey(e),
            11 => LastFMErrorResponse::ServiceOffline(e),
            13 => LastFMErrorResponse::InvalidMethodSignatureSupplied(e),
            16 => LastFMErrorResponse::GenericError(e),
            26 => LastFMErrorResponse::SuspendedAPIKey(e),
            29 => LastFMErrorResponse::RateLimitExceeded(e),
            _ => LastFMErrorResponse::GenericError(e),
        }
    }
}

impl vstd::std_specs::convert::FromSpecImpl<LastFMError> for LastFMErrorResponse {
    open spec fn obeys_from_spec() -> bool {
        true
    }

    open spec fn from_spec(e: LastFMError) -> LastFMErrorResponse {
        classified(e)
    }
}

impl LastFMErrorResponse {
    /// The error that Last.fm sent, whatever its kind.
    pub fn inner(&self) -> (r: &LastFMError)
        ensures
            *r == carried(*self),
    {
        match self {
            LastFMErrorResponse::InvalidService(e) => e,
            LastFMErrorResponse::InvalidMethod(e) => e,
            LastFMErrorResponse::AuthenticationFailed(e) => e,
            LastFMErrorResponse::InvalidFormat(e) => e,
            LastFMErrorResponse::InvalidParameters(e) => e,
            LastFMErrorResponse::InvalidResourceSpecified(e) => e,
            LastFMErrorResponse::OperationFailed(e) => e,
            LastFMErrorResponse::InvalidSessionKey(e) => e,
            LastFMErrorResponse::InvalidAPIKey(e) => e,
            LastFMErrorResponse::ServiceOffline(e) => e,
            LastFMErrorResponse::InvalidMethodSignatureSupplied(e) => e,
            LastFMErrorResponse::GenericError(e) => e,
            LastFMErrorResponse::SuspendedAPIKey(e) => e,
            LastFMErrorResponse::RateLimitExceeded(e) => e,
        }
    }

    /// The message that Last.fm sent, as it was sent.
    pub fn to_string(&self) -> (r: String)
        ensures
            r@ == carried(*self).message@,
    {
        self.inner().message.clone()
    }
}

/// Classifying an error keeps its code, message and links as they were sent.
pub proof fn lemma_classification_keeps_error(e: LastFMError)
    ensures
        carried(classified(e)) == e,
{
}

/// A code that Last.fm does not document is classified as a generic error,
/// which carries the message as it was sent.
pub proof fn lemma_unknown_code_is_generic(e: LastFMError)
    requires
        e.error != 2 && e.error != 3 && e.error != 4 && e.error != 5 && e.error != 6 && e.error != 7
            && e.error != 8 && e.error != 9 && e.error != 10 && e.error != 11 && e.error != 13
            && e.error != 16 && e.error != 26 && e.error != 29,
    ensures
        classified(e) == LastFMErrorResponse::GenericError(e),
        carried(classified(e)).message == e.message,
{
}

/// Whether `r` is the classified error that the body `j` holds.
pub open spec fn error_body_is(j: Json, r: LastFMErrorResponse) -> bool {
    LastFMError::decodes_to(j, carried(r)) && r == classified(carried(r))
}

/// Reads `j` as an error body of Last.fm and classifies it by its code.
///
/// Gives nothing where `j` is not an error body.
pub fn error_in(j: &Json) -> (r: Option<LastFMErrorResponse>)
    ensures
        match r {
            Some(e) => LastFMError::decodable(*j) && error_body_is(*j, e),
            None => !LastFMError::decodable(*j),
        },
{
    match LastFMError::decode(j) {
        Ok(e) => Some(LastFMErrorResponse::from(e)),
        Err(_) => None,
    }
}

/// The ways a call to the API can fail.
#[derive(Debug)]
pub enum Error {
    /// The response body could not be decoded.
    ParsingError(DecodeError),
    /// The request could not be sent or its response not received.
    HTTPError(String),
    /// Last.fm answered with an error.
    LastFMError(LastFMErrorResponse),
}


/// The text of the error `e`: the transport's message, the message that
/// Last.fm sent, or a fixed sentence for a body that could not be decoded.
pub open spec fn error_text(e: Error) -> Seq<char> {
    match e {
        Error::ParsingError(_) => "the response could not be decoded"@,
        Error::HTTPError(m) => m@,
        Error::LastFMError(r) => carried(r).message@,
    }
}

impl Error {
    /// The error as text.
    pub fn to_string(&self) -> (r: String)
        ensures
            r@ == error_text(*self),
    {
        match self {
            Error::ParsingError(_) => "the response could not be decoded".to_owned(),
            Error::HTTPError(m) => m.clone(),
            Error::LastFMError(e) => e.to_string(),
        }
    }
}

} // verus!
