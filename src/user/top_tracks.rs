//! The top tracks endpoint, `user.getTopTracks`.

use crate::decode::{
    field, field_decodable, field_decodes_to, list_field, list_field_decodable,
    list_field_decodes_to, Decode,
};
use crate::error::{DecodeError, Error};
use crate::json::{json_of, json_text_accepted, Json};
use crate::model::{Attributes, Track};
use crate::query::{append_param, pair_views, query_param, request_url};
use crate::user::top_artists::{period_token, Period};
use crate::response::{parse_response, read_in_envelope, read_response};
use crate::user::User;
use crate::{Client, RequestBuilder};
use vstd::prelude::*;

verus! {

/// The tracks a user has played most, one page of them, ordered by rank within the page.
#[derive(Debug)]
pub struct TopTracks {
    /// The pagination attributes of the listing.
    pub attrs: Attributes,
    /// The tracks the user has played most.
    pub tracks: Vec<Track>,
}

impl Decode for TopTracks {
    open spec fn decodable(j: Json) -> bool {
        &&& j is Object
        &&& field_decodable::<Attributes>(j, "@attr"@)
        &&& list_field_decodable::<Track>(j, "track"@)
    }

    open spec fn decodes_to(j: Json, v: TopTracks) -> bool {
        &&& field_decodes_to::<Attributes>(j, "@attr"@, v.attrs)
        &&& list_field_decodes_to::<Track>(j, "track"@, v.tracks@)
    }

    fn decode(j: &Json) -> (r: Result<TopTracks, DecodeError>) {
        if !j.is_object() {
            return Err(DecodeError::Unexpected(j.kind()));
        }
        let attrs = match field::<Attributes>(j, "@attr") {
            Ok(v) => v,
            Err(e) => return Err(e),
        };
        let tracks = match list_field::<Track>(j, "track") {
            Ok(v) => v,
            Err(e) => return Err(e),
        };
        Ok(TopTracks { attrs, tracks })
    }
}

impl TopTracks {
    /// The request to `user.getTopTracks` for the user `user`.
    pub fn build(client: &Client, user: &str) -> (r: RequestBuilder<TopTracks>)
        ensures
            r@ == request_url(client@, seq![("method"@, "user.getTopTracks"@), ("user"@, user@)]),
    {
        let params = vec![("method", "user.getTopTracks"), ("user", user)];
        let url = client.build_url(&params);
        assert(pair_views(params@) =~= seq![("method"@, "user.getTopTracks"@), ("user"@, user@)]);
        RequestBuilder::from_url(url)
    }

    /// Reads a response of `user.getTopTracks`: the classified error where it is an error
    /// body, else the listing under `toptracks` of the user envelope.
    pub fn from_response(j: &Json) -> (r: Result<TopTracks, Error>)
        ensures
            read_in_envelope::<TopTracks, User>(*j, "toptracks"@, r),
    {
        match read_response::<User>(j) {
            Ok(user) => match user.top_tracks {
                Some(v) => Ok(v),
                None => Err(Error::ParsingError(DecodeError::Missing("toptracks".to_owned()))),
            },
            Err(e) => Err(e),
        }
    }
}

impl RequestBuilder<TopTracks> {
    /// Attaches `period`: the time window the listing covers.
    pub fn within_period(self, period: Period) -> (r: RequestBuilder<TopTracks>)
        ensures
            r@ == self@ + query_param("period"@, period_token(period)),
    {
        let mut url = self.into_url();
        let token = period.to_string();
        append_param(&mut url, "period", token.as_str());
        RequestBuilder::from_url(url)
    }

    /// Completes the request with what the transport brought back for `url()`:
    /// the body, or the transport's failure.
    pub fn send(&self, response: Result<String, String>) -> (r: Result<TopTracks, Error>)
        ensures
            match response {
                Err(m) => r matches Err(Error::HTTPError(x)) && x == m,
                Ok(body) => if json_text_accepted(body@) {
                    read_in_envelope::<TopTracks, User>(json_of(body@), "toptracks"@, r)
                } else {
                    r matches Err(Error::ParsingError(DecodeError::Syntax))
                },
            },
    {
        match parse_response(response) {
            Ok(j) => TopTracks::from_response(&j),
            Err(e) => Err(e),
        }
    }
}

impl Client {
    /// The request for the top tracks of the user `user`.
    pub fn top_tracks(&self, user: &str) -> (r: RequestBuilder<TopTracks>)
        ensures
            r@ == request_url(self@, seq![("method"@, "user.getTopTracks"@), ("user"@, user@)]),
    {
        TopTracks::build(self, user)
    }
}

} // verus!
