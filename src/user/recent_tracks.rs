//! The recent tracks endpoint, `user.getRecentTracks`.

use crate::decode::{
    field, field_decodable, field_decodes_to, list_field, list_field_decodable,
    list_field_decodes_to, Decode,
};
use crate::error::{DecodeError, Error, LastFMError};
use crate::json::{json_of, json_text_accepted, member, Json};
use crate::model::{Attributes, Track};
use crate::query::{pair_views, request_url};
use crate::response::{parse_response, read_in_envelope, read_response};
use crate::user::User;
use crate::{Client, RequestBuilder};
use vstd::prelude::*;

verus! {

/// The recent tracks of a user, one page of them.
#[derive(Debug)]
pub struct RecentTracks {
    /// The pagination attributes of the listing.
    pub attrs: Attributes,
    /// The tracks the user played, most recent first.
    pub tracks: Vec<Track>,
}

impl Decode for RecentTracks {
    open spec fn decodable(j: Json) -> bool {
        &&& j is Object
        &&& field_decodable::<Attributes>(j, "@attr"@)
        &&& list_field_decodable::<Track>(j, "track"@)
    }

    open spec fn decodes_to(j: Json, v: RecentTracks) -> bool {
        &&& field_decodes_to::<Attributes>(j, "@attr"@, v.attrs)
        &&& list_field_decodes_to::<Track>(j, "track"@, v.tracks@)
    }

    fn decode(j: &Json) -> (r: Result<RecentTracks, DecodeError>) {
        if !j.is_object() {
            return Err(DecodeError::Unexpected(j.kind()));
        }
        let attrs = match field::<Attributes>(j, "@attr") {
            Ok(v) => v,
            Err(e) => return Err(e),
        };
        let tracks = match list_field::<Track>(j, "track") {
            Ok(v) => v,
            Err(e) => return Err(e),
        };
        Ok(RecentTracks { attrs, tracks })
    }
}

impl RecentTracks {
    /// The request to `user.getRecentTracks` for the user `user`.
    pub fn build(client: &Client, user: &str) -> (r: RequestBuilder<RecentTracks>)
        ensures
            r@ == request_url(client@, seq![("method"@, "user.getRecentTracks"@), ("user"@, user@)]),
    {
        let params = vec![("method", "user.getRecentTracks"), ("user", user)];
        let url = client.build_url(&params);
        assert(pair_views(params@) =~= seq![("method"@, "user.getRecentTracks"@), ("user"@, user@)]);
        RequestBuilder::from_url(url)
    }

    /// Reads a response of `user.getRecentTracks`: the classified error where it is an error
    /// body, else the listing under `recenttracks` of the user envelope.
    pub fn from_response(j: &Json) -> (r: Result<RecentTracks, Error>)
        ensures
            read_in_envelope::<RecentTracks, User>(*j, "recenttracks"@, r),
    {
        match read_response::<User>(j) {
            Ok(user) => match user.recent_tracks {
                Some(v) => Ok(v),
                None => Err(Error::ParsingError(DecodeError::Missing("recenttracks".to_owned()))),
            },
            Err(e) => Err(e),
        }
    }
}

/// The pagination attributes of a listing reach the caller as the text that
/// Last.fm sent: for a body that is not an error body, a listing read from it
/// holds, unchanged, the strings under `page`, `total`, `perPage` and
/// `totalPages` of its `@attr`.
pub proof fn lemma_pagination_kept_as_text(
    j: Json,
    r: Result<RecentTracks, Error>,
    listing: Json,
    attrs: Json,
)
    requires
        read_in_envelope::<RecentTracks, User>(j, "recenttracks"@, r),
        !LastFMError::decodable(j),
        r is Ok,
        member(j, "recenttracks"@) == Some(listing),
        member(listing, "@attr"@) == Some(attrs),
    ensures
        member(attrs, "page"@) == Some(Json::Str(r->Ok_0.attrs.page)),
        member(attrs, "total"@) == Some(Json::Str(r->Ok_0.attrs.total)),
        member(attrs, "perPage"@) == Some(Json::Str(r->Ok_0.attrs.per_page)),
        member(attrs, "totalPages"@) == Some(Json::Str(r->Ok_0.attrs.total_pages)),
{
}

impl RequestBuilder<RecentTracks> {
    /// Completes the request with what the transport brought back for `url()`:
    /// the body, or the transport's failure.
    pub fn send(&self, response: Result<String, String>) -> (r: Result<RecentTracks, Error>)
        ensures
            match response {
                Err(m) => r matches Err(Error::HTTPError(x)) && x == m,
                Ok(body) => if json_text_accepted(body@) {
                    read_in_envelope::<RecentTracks, User>(json_of(body@), "recenttracks"@, r)
                } else {
                    r matches Err(Error::ParsingError(DecodeError::Syntax))
                },
            },
    {
        match parse_response(response) {
            Ok(j) => RecentTracks::from_response(&j),
            Err(e) => Err(e),
        }
    }
}

impl Client {
    /// The request for the recent tracks of the user `user`.
    pub fn recent_tracks(&self, user: &str) -> (r: RequestBuilder<RecentTracks>)
        ensures
            r@ == request_url(self@, seq![("method"@, "user.getRecentTracks"@), ("user"@, user@)]),
    {
        RecentTracks::build(self, user)
    }
}

} // verus!
