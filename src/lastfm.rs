//! The client of the artist endpoints.

use crate::json::{json_of, json_text_accepted, parse, Json};
use vstd::prelude::*;

verus! {

/// The client of the artist endpoints: the API key with which requests are made.
pub struct LastFM {
    api_key: String,
}

impl View for LastFM {
    type V = Seq<char>;

    /// The API key.
    closed spec fn view(&self) -> Seq<char> {
        self.api_key@
    }
}

/// The URL asking `object.method` about `query`, with the API key `api_key`.
///
/// The query is placed as given, without encoding.
pub open spec fn call_url(
    api_key: Seq<char>,
    object: Seq<char>,
    method: Seq<char>,
    query: Seq<char>,
) -> Seq<char> {
    "http://ws.audioscrobbler.com/2.0/?method="@ + object + "."@ + method + "&"@ + object + "="@
        + query + "&api_key="@ + api_key + "&format=json"@
}

impl LastFM {
    /// A client that authenticates with `api_key`.
    pub fn new(api_key: &str) -> (r: LastFM)
        ensures
            r@ == api_key@,
    {
        LastFM { api_key: api_key.to_owned() }
    }

    /// The URL of the call `object.method` about `query`.
    pub fn request_url(&self, object: &str, method: &str, query: &str) -> (r: String)
        ensures
            r@ == call_url(self@, object@, method@, query@),
    {
        let mut url = "http://ws.audioscrobbler.com/2.0/?method=".to_owned();
        url.append(object);
        url.append(".");
        url.append(method);
        url.append("&");
        url.append(object);
        url.append("=");
        url.append(query);
        url.append("&api_key=");
        url.append(self.api_key.as_str());
        url.append("&format=json");
        url
    }

    /// Reads a response body: the JSON object it holds, or nothing where it is
    /// not JSON or not an object.
    pub fn request(body: &str) -> (r: Option<Json>)
        ensures
            r == (if json_text_accepted(body@) && json_of(body@) is Object {
                Some(json_of(body@))
            } else {
                None
            }),
    {
        match parse(body) {
            Ok(j) => {
                if j.is_object() {
                    Some(j)
                } else {
                    None
                }
            },
            Err(_) => None,
        }
    }
}

} // verus!
