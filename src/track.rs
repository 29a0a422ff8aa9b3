//! The track endpoints of Last.fm.

use crate::decode::{opt_field, opt_field_decodable, opt_field_decodes_to, Decode};
use crate::error::DecodeError;
use crate::json::Json;
use vstd::prelude::*;

pub mod similar;

verus! {

/// The envelope of the track endpoints.
#[derive(Debug)]
pub struct Track {
    pub similar_tracks: Option<similar::Similar>,
}

impl Decode for Track {
    open spec fn decodable(j: Json) -> bool {
        j is Object && opt_field_decodable::<similar::Similar>(j, "similartracks"@)
    }

    open spec fn decodes_to(j: Json, v: Track) -> bool {
        opt_field_decodes_to::<similar::Similar>(j, "similartracks"@, v.similar_tracks)
    }

    fn decode(j: &Json) -> (r: Result<Track, DecodeError>) {
        if !j.is_object() {
            return Err(DecodeError::Unexpected(j.kind()));
        }
        match opt_field::<similar::Similar>(j, "similartracks") {
            Ok(similar_tracks) => Ok(Track { similar_tracks }),
            Err(e) => Err(e),
        }
    }
}

} // verus!
