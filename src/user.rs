//! The user endpoints of Last.fm: recent, loved and top tracks, top artists,
//! and the user's profile.

use crate::decode::{opt_field, opt_field_decodable, opt_field_decodes_to, Decode};
use crate::error::DecodeError;
use crate::json::Json;
use vstd::prelude::*;

pub mod loved_tracks;
pub mod recent_tracks;
pub mod top_artists;
pub mod top_tracks;
pub mod user_info;

verus! {

/// The envelope of the user endpoints: each response holds one of these,
/// under the key of its endpoint.
#[derive(Debug)]
pub struct User {
    pub loved_tracks: Option<loved_tracks::LovedTracks>,
    pub recent_tracks: Option<recent_tracks::RecentTracks>,
    pub top_artists: Option<top_artists::TopArtists>,
    pub user_info: Option<user_info::UserInfo>,
    pub top_tracks: Option<top_tracks::TopTracks>,
}

impl Decode for User {
    open spec fn decodable(j: Json) -> bool {
        &&& j is Object
        &&& opt_field_decodable::<loved_tracks::LovedTracks>(j, "lovedtracks"@)
        &&& opt_field_decodable::<recent_tracks::RecentTracks>(j, "recenttracks"@)
        &&& opt_field_decodable::<top_artists::TopArtists>(j, "topartists"@)
        &&& opt_field_decodable::<user_info::UserInfo>(j, "user"@)
        &&& opt_field_decodable::<top_tracks::TopTracks>(j, "toptracks"@)
    }

    open spec fn decodes_to(j: Json, v: User) -> bool {
        &&& opt_field_decodes_to::<loved_tracks::LovedTracks>(j, "lovedtracks"@, v.loved_tracks)
        &&& opt_field_decodes_to::<recent_tracks::RecentTracks>(j, "recenttracks"@, v.recent_tracks)
        &&& opt_field_decodes_to::<top_artists::TopArtists>(j, "topartists"@, v.top_artists)
        &&& opt_field_decodes_to::<user_info::UserInfo>(j, "user"@, v.user_info)
        &&& opt_field_decodes_to::<top_tracks::TopTracks>(j, "toptracks"@, v.top_tracks)
    }

    fn decode(j: &Json) -> (r: Result<User, DecodeError>) {
        if !j.is_object() {
            return Err(DecodeError::Unexpected(j.kind()));
        }
        let loved_tracks = match opt_field::<loved_tracks::LovedTracks>(j, "lovedtracks") {
            Ok(v) => v,
            Err(e) => return Err(e),
        };
        let recent_tracks = match opt_field::<recent_tracks::RecentTracks>(j, "recenttracks") {
            Ok(v) => v,
            Err(e) => return Err(e),
        };
        let top_artists = match opt_field::<top_artists::TopArtists>(j, "topartists") {
            Ok(v) => v,
            Err(e) => return Err(e),
        };
        let user_info = match opt_field::<user_info::UserInfo>(j, "user") {
            Ok(v) => v,
            Err(e) => return Err(e),
        };
        let top_tracks = match opt_field::<top_tracks::TopTracks>(j, "toptracks") {
            Ok(v) => v,
            Err(e) => return Err(e),
        };
        Ok(User { loved_tracks, recent_tracks, top_artists, user_info, top_tracks })
    }
}

} // verus!
