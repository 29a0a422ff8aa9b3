//! The endpoint of tracks similar to a given one, `track.getSimilar`.

use crate::decode::{list_field, list_field_decodable, list_field_decodes_to, Decode};
use crate::error::{DecodeError, Error};
use crate::json::{json_of, json_text_accepted, Json};
use crate::model::Track;
use crate::query::{pair_views, request_url};
use crate::response::{parse_response, read_in_envelope, read_response};
use crate::{Client, RequestBuilder};
use vstd::prelude::*;

verus! {

/// The tracks similar to a given one.
#[derive(Debug)]
pub struct Similar {
    /// The similar tracks.
    pub tracks: Vec<Track>,
}

impl Decode for Similar {
    open spec fn decodable(j: Json) -> bool {
        j is Object && list_field_decodable::<Track>(j, "track"@)
    }

    open spec fn decodes_to(j: Json, v: Similar) -> bool {
        list_field_decodes_to::<Track>(j, "track"@, v.tracks@)
    }

    fn decode(j: &Json) -> (r: Result<Similar, DecodeError>) {
        if !j.is_object() {
            return Err(DecodeError::Unexpected(j.kind()));
        }
        match list_field::<Track>(j, "track") {
            Ok(tracks) => Ok(Similar { tracks }),
            Err(e) => Err(e),
        }
    }
}

impl Similar {
    /// The request to `track.getSimilar` for the track with the MusicBrainz ID `mbid`.
    pub fn build_by_mbid(client: &Client, mbid: &str) -> (r: RequestBuilder<Similar>)
        ensures
            r@ == request_url(client@, seq![("method"@, "track.getSimilar"@), ("mbid"@, mbid@)]),
    {
        let params = vec![("method", "track.getSimilar"), ("mbid", mbid)];
        let url = client.build_url(&params);
        assert(pair_views(params@) =~= seq![("method"@, "track.getSimilar"@), ("mbid"@, mbid@)]);
        RequestBuilder::from_url(url)
    }

    /// The request to `track.getSimilar` for the track `track` by `artist`.
    pub fn build(client: &Client, artist: &str, track: &str) -> (r: RequestBuilder<Similar>)
        ensures
            r@ == request_url(
                client@,
                seq![("method"@, "track.getSimilar"@), ("artist"@, artist@), ("track"@, track@)],
            ),
    {
        let params = vec![("method", "track.getSimilar"), ("artist", artist), ("track", track)];
        let url = client.build_url(&params);
        assert(pair_views(params@) =~= seq![
            ("method"@, "track.getSimilar"@),
            ("artist"@, artist@),
            ("track"@, track@),
        ]);
        RequestBuilder::from_url(url)
    }

    /// Reads a response of `track.getSimilar`: the classified error where it is
    /// an error body, else the tracks under `similartracks` of the track envelope.
    pub fn from_response(j: &Json) -> (r: Result<Similar, Error>)
        ensures
            read_in_envelope::<Similar, crate::track::Track>(*j, "similartracks"@, r),
    {
        match read_response::<crate::track::Track>(j) {
            Ok(t) => match t.similar_tracks {
                Some(v) => Ok(v),
                None => Err(Error::ParsingError(DecodeError::Missing("similartracks".to_owned()))),
            },
            Err(e) => Err(e),
        }
    }
}

impl RequestBuilder<Similar> {
    /// Completes the request with what the transport brought back for `url()`:
    /// the body, or the transport's failure.
    pub fn send(&self, response: Result<String, String>) -> (r: Result<Similar, Error>)
        ensures
            match response {
                Err(m) => r matches Err(Error::HTTPError(x)) && x == m,
                Ok(body) => if json_text_accepted(body@) {
                    read_in_envelope::<Similar, crate::track::Track>(json_of(body@), "similartracks"@, r)
                } else {
                    r matches Err(Error::ParsingError(DecodeError::Syntax))
                },
            },
    {
        match parse_response(response) {
            Ok(j) => Similar::from_response(&j),
            Err(e) => Err(e),
        }
    }
}

impl Client {
    /// The request for the tracks similar to the one with the MusicBrainz ID `mbid`.
    pub fn similar_tracks_by_mbid(&self, mbid: &str) -> (r: RequestBuilder<Similar>)
        ensures
            r@ == request_url(self@, seq![("method"@, "track.getSimilar"@), ("mbid"@, mbid@)]),
    {
        Similar::build_by_mbid(self, mbid)
    }

    /// The request for the tracks similar to the track `track` by `artist`.
    pub fn similar_tracks(&self, artist: &str, track: &str) -> (r: RequestBuilder<Similar>)
        ensures
            r@ == request_url(
                self@,
                seq![("method"@, "track.getSimilar"@), ("artist"@, artist@), ("track"@, track@)],
            ),
    {
        Similar::build(self, artist, track)
    }
}

} // verus!
