//! The loved tracks endpoint, `user.getLovedTracks`.

use crate::decode::{
    field, field_decodable, field_decodes_to, list_field, list_field_decodable,
    list_field_decodes_to, Decode,
};
use crate::error::{DecodeError, Error};
use crate::json::{json_of, json_text_accepted, Json};
use crate::model::{Attributes, Track};
use crate::query::{pair_views, request_url};
use crate::response::{parse_response, read_in_envelope, read_response};
use crate::user::User;
use crate::{Client, RequestBuilder};
use vstd::prelude::*;

verus! {

/// The tracks a user has marked as loved, one page of them.
#[derive(Debug)]
pub struct LovedTracks {
    /// The pagination attributes of the listing.
    pub attrs: Attributes,
    /// The tracks the user has loved.
    pub tracks: Vec<Track>,
}

impl Decode for LovedTracks {
    open spec fn decodable(j: Json) -> bool {
        &&& j is Object
        &&& field_decodable::<Attributes>(j, "@attr"@)
        &&& list_field_decodable::<Track>(j, "track"@)
    }

    open spec fn decodes_to(j: Json, v: LovedTracks) -> bool {
        &&& field_decodes_to::<Attributes>(j, "@attr"@, v.attrs)
        &&& list_field_decodes_to::<Track>(j, "track"@, v.tracks@)
    }

    fn decode(j: &Json) -> (r: Result<LovedTracks, DecodeError>) {
        if !j.is_object() {
            return Err(DecodeError::Unexpected(j.kind()));
        }
        let attrs = match field::<Attributes>(j, "@attr") {
            Ok(v) => v,
            Err(e) => return Err(e),
        };
        let tracks = match list_field::<Track>(j, "track") {
            Ok(v) => v,
            Err(e) => return Err(e),
        };
        Ok(LovedTracks { attrs, tracks })
    }
}

impl LovedTracks {
    /// The request to `user.getLovedTracks` for the user `user`.
    pub fn build(client: &Client, user: &str) -> (r: RequestBuilder<LovedTracks>)
        ensures
            r@ == request_url(client@, seq![("method"@, "user.getLovedTracks"@), ("user"@, user@)]),
    {
        let params = vec![("method", "user.getLovedTracks"), ("user", user)];
        let url = client.build_url(&params);
        assert(pair_views(params@) =~= seq![("method"@, "user.getLovedTracks"@), ("user"@, user@)]);
        RequestBuilder::from_url(url)
    }

    /// Reads a response of `user.getLovedTracks`: the classified error where it is an error
    /// body, else the listing under `lovedtracks` of the user envelope.
    pub fn from_response(j: &Json) -> (r: Result<LovedTracks, Error>)
        ensures
            read_in_envelope::<LovedTracks, User>(*j, "lovedtracks"@, r),
    {
        match read_response::<User>(j) {
            Ok(user) => match user.loved_tracks {
                Some(v) => Ok(v),
                None => Err(Error::ParsingError(DecodeError::Missing("lovedtracks".to_owned()))),
            },
            Err(e) => Err(e),
        }
    }
}

impl RequestBuilder<LovedTracks> {
    /// Completes the request with what the transport brought back for `url()`:
    /// the body, or the transport's failure.
    pub fn send(&self, response: Result<String, String>) -> (r: Result<LovedTracks, Error>)
        ensures
            match response {
                Err(m) => r matches Err(Error::HTTPError(x)) && x == m,
                Ok(body) => if json_text_accepted(body@) {
                    read_in_envelope::<LovedTracks, User>(json_of(body@), "lovedtracks"@, r)
                } else {
                    r matches Err(Error::ParsingError(DecodeError::Syntax))
                },
            },
    {
        match parse_response(response) {
            Ok(j) => LovedTracks::from_response(&j),
            Err(e) => Err(e),
        }
    }
}

impl Client {
    /// The request for the loved tracks of the user `user`.
    pub fn loved_tracks(&self, user: &str) -> (r: RequestBuilder<LovedTracks>)
        ensures
            r@ == request_url(self@, seq![("method"@, "user.getLovedTracks"@), ("user"@, user@)]),
    {
        LovedTracks::build(self, user)
    }
}

} // verus!
