//! The artist endpoints: an artist's profile, a search by name, and an
//! artist's events.

use crate::decode::{
    decode_list, lenient_field, lenient_field_decodes_to, lenient_list_field,
    lenient_list_field_decodes_to, list_decodable, list_decodes_to, opt_field,
    opt_field_decodable, opt_field_decodes_to, opt_list_field, opt_list_field_decodable,
    opt_list_field_decodes_to, list_field, list_field_decodable, list_field_decodes_to, Decode,
};
use crate::error::DecodeError;
use crate::event::Event;
use crate::image::Image;
use crate::json::{member, Json};
use crate::search_results::SearchResults;
use vstd::prelude::*;

verus! {

/// An artist, as the artist endpoints describe one.
///
/// Each field is present where the response holds it in the expected shape.
#[derive(Debug)]
pub struct Artist {
    pub name: Option<String>,
    pub listeners: Option<u32>,
    pub mbid: Option<String>,
    pub url: Option<String>,
    pub images: Option<Vec<Image>>,
    pub biography: Option<Biography>,
    pub stats: Option<Stats>,
    pub members: Option<BandMemberContainer>,
}

/// An artist suggested as similar to another.
#[derive(Debug)]
pub struct SuggestedArtist {
    pub name: Option<String>,
    pub url: Option<String>,
    pub images: Option<Vec<Image>>,
}

/// The members of a band.
#[derive(Debug)]
pub struct BandMemberContainer {
    pub member: Vec<BandMember>,
}

/// A member of a band, with the years of their membership.
#[derive(Debug)]
pub struct BandMember {
    pub name: Option<String>,
    pub yearfrom: Option<u32>,
    pub yearto: Option<u32>,
}

/// The biography of an artist.
#[derive(Debug)]
pub struct Biography {
    pub published: Option<String>,
    pub content: Option<String>,
    pub placeformed: Option<String>,
    pub yearformed: Option<String>,
}

/// How many people listen to an artist, and how often.
#[derive(Debug)]
pub struct Stats {
    pub listeners: Option<u32>,
    pub playcount: Option<u32>,
}

/// A tag given to an artist.
#[derive(Debug)]
pub struct Tag {
    pub name: Option<String>,
    pub url: Option<String>,
}

impl Decode for SuggestedArtist {
    open spec fn decodable(j: Json) -> bool {
        &&& j is Object
        &&& opt_field_decodable::<String>(j, "name"@)
        &&& opt_field_decodable::<String>(j, "url"@)
        &&& opt_list_field_decodable::<Image>(j, "image"@)
    }

    open spec fn decodes_to(j: Json, v: SuggestedArtist) -> bool {
        &&& opt_field_decodes_to::<String>(j, "name"@, v.name)
        &&& opt_field_decodes_to::<String>(j, "url"@, v.url)
        &&& opt_list_field_decodes_to::<Image>(j, "image"@, v.images)
    }

    fn decode(j: &Json) -> (r: Result<SuggestedArtist, DecodeError>) {
        if !j.is_object() {
            return Err(DecodeError::Unexpected(j.kind()));
        }
        let name = match opt_field::<String>(j, "name") {
            Ok(v) => v,
            Err(e) => return Err(e),
        };
        let url = match opt_field::<String>(j, "url") {
            Ok(v) => v,
            Err(e) => return Err(e),
        };
        let images = match opt_list_field::<Image>(j, "image") {
            Ok(v) => v,
            Err(e) => return Err(e),
        };
        Ok(SuggestedArtist { name, url, images })
    }
}

impl Decode for BandMember {
    open spec fn decodable(j: Json) -> bool {
        &&& j is Object
        &&& opt_field_decodable::<String>(j, "name"@)
        &&& opt_field_decodable::<u32>(j, "yearfrom"@)
        &&& opt_field_decodable::<u32>(j, "yearto"@)
    }

    open spec fn decodes_to(j: Json, v: BandMember) -> bool {
        &&& opt_field_decodes_to::<String>(j, "name"@, v.name)
        &&& opt_field_decodes_to::<u32>(j, "yearfrom"@, v.yearfrom)
        &&& opt_field_decodes_to::<u32>(j, "yearto"@, v.yearto)
    }

    fn decode(j: &Json) -> (r: Result<BandMember, DecodeError>) {
        if !j.is_object() {
            return Err(DecodeError::Unexpected(j.kind()));
        }
        let name = match opt_field::<String>(j, "name") {
            Ok(v) => v,
            Err(e) => return Err(e),
        };
        let yearfrom = match opt_field::<u32>(j, "yearfrom") {
            Ok(v) => v,
            Err(e) => return Err(e),
        };
        let yearto = match opt_field::<u32>(j, "yearto") {
            Ok(v) => v,
            Err(e) => return Err(e),
        };
        Ok(BandMember { name, yearfrom, yearto })
    }
}

impl Decode for BandMemberContainer {
    open spec fn decodable(j: Json) -> bool {
        j is Object && list_field_decodable::<BandMember>(j, "member"@)
    }

    open spec fn decodes_to(j: Json, v: BandMemberContainer) -> bool {
        list_field_decodes_to::<BandMember>(j, "member"@, v.member@)
    }

    fn decode(j: &Json) -> (r: Result<BandMemberContainer, DecodeError>) {
        if !j.is_object() {
            return Err(DecodeError::Unexpected(j.kind()));
        }
        match list_field::<BandMember>(j, "member") {
            Ok(member) => Ok(BandMemberContainer { member }),
            Err(e) => Err(e),
        }
    }
}

impl Decode for Biography {
    open spec fn decodable(j: Json) -> bool {
        &&& j is Object
        &&& opt_field_decodable::<String>(j, "published"@)
        &&& opt_field_decodable::<String>(j, "content"@)
        &&& opt_field_decodable::<String>(j, "placeformed"@)
        &&& opt_field_decodable::<String>(j, "yearformed"@)
    }

    open spec fn decodes_to(j: Json, v: Biography) -> bool {
        &&& opt_field_decodes_to::<String>(j, "published"@, v.published)
        &&& opt_field_decodes_to::<String>(j, "content"@, v.content)
        &&& opt_field_decodes_to::<String>(j, "placeformed"@, v.placeformed)
        &&& opt_field_decodes_to::<String>(j, "yearformed"@, v.yearformed)
    }

    fn decode(j: &Json) -> (r: Result<Biography, DecodeError>) {
        if !j.is_object() {
            return Err(DecodeError::Unexpected(j.kind()));
        }
        let published = match opt_field::<String>(j, "published") {
            Ok(v) => v,
            Err(e) => return Err(e),
        };
        let content = match opt_field::<String>(j, "content") {
            Ok(v) => v,
            Err(e) => return Err(e),
        };
        let placeformed = match opt_field::<String>(j, "placeformed") {
            Ok(v) => v,
            Err(e) => return Err(e),
        };
        let yearformed = match opt_field::<String>(j, "yearformed") {
            Ok(v) => v,
            Err(e) => return Err(e),
        };
        Ok(Biography { published, content, placeformed, yearformed })
    }
}

impl Decode for Stats {
    open spec fn decodable(j: Json) -> bool {
        &&& j is Object
        &&& opt_field_decodable::<u32>(j, "listeners"@)
        &&& opt_field_decodable::<u32>(j, "playcount"@)
    }

    open spec fn decodes_to(j: Json, v: Stats) -> bool {
        &&& opt_field_decodes_to::<u32>(j, "listeners"@, v.listeners)
        &&& opt_field_decodes_to::<u32>(j, "playcount"@, v.playcount)
    }

    fn decode(j: &Json) -> (r: Result<Stats, DecodeError>) {
        if !j.is_object() {
            return Err(DecodeError::Unexpected(j.kind()));
        }
        let listeners = match opt_field::<u32>(j, "listeners") {
            Ok(v) => v,
            Err(e) => return Err(e),
        };
        let playcount = match opt_field::<u32>(j, "playcount") {
            Ok(v) => v,
            Err(e) => return Err(e),
        };
        Ok(Stats { listeners, playcount })
    }
}

impl Decode for Tag {
    open spec fn decodable(j: Json) -> bool {
        &&& j is Object
        &&& opt_field_decodable::<String>(j, "name"@)
        &&& opt_field_decodable::<String>(j, "url"@)
    }

    open spec fn decodes_to(j: Json, v: Tag) -> bool {
        &&& opt_field_decodes_to::<String>(j, "name"@, v.name)
        &&& opt_field_decodes_to::<String>(j, "url"@, v.url)
    }

    fn decode(j: &Json) -> (r: Result<Tag, DecodeError>) {
        if !j.is_object() {
            return Err(DecodeError::Unexpected(j.kind()));
        }
        let name = match opt_field::<String>(j, "name") {
            Ok(v) => v,
            Err(e) => return Err(e),
        };
        let url = match opt_field::<String>(j, "url") {
            Ok(v) => v,
            Err(e) => return Err(e),
        };
        Ok(Tag { name, url })
    }
}

impl Decode for Artist {
    /// Any value reads as an artist: each field is read on its own, and left
    /// out where it is absent or does not decode.
    open spec fn decodable(j: Json) -> bool {
        true
    }

    open spec fn decodes_to(j: Json, v: Artist) -> bool {
        &&& lenient_field_decodes_to::<String>(j, "name"@, v.name)
        &&& lenient_field_decodes_to::<u32>(j, "listeners"@, v.listeners)
        &&& lenient_field_decodes_to::<String>(j, "mbid"@, v.mbid)
        &&& lenient_field_decodes_to::<String>(j, "url"@, v.url)
        &&& lenient_list_field_decodes_to::<Image>(j, "image"@, v.images)
        &&& lenient_field_decodes_to::<Biography>(j, "bio"@, v.biography)
        &&& lenient_field_decodes_to::<Stats>(j, "stats"@, v.stats)
        &&& lenient_field_decodes_to::<BandMemberContainer>(j, "bandmembers"@, v.members)
    }

    fn decode(j: &Json) -> (r: Result<Artist, DecodeError>) {
        Ok(Artist::from_json(j))
    }
}

/// The list of artists that a search response `response` holds, under
/// `results`, `artistmatches` and `artist`.
pub open spec fn search_matches(response: Json) -> Option<Json> {
    match member(response, "results"@) {
        Some(results) => match member(results, "artistmatches"@) {
            Some(matches) => match member(matches, "artist"@) {
                Some(Json::Array(items)) => Some(Json::Array(items)),
                _ => None,
            },
            None => None,
        },
        None => None,
    }
}

/// The list of events that an events response `response` holds, under
/// `events` and `event`.
pub open spec fn event_list(response: Json) -> Option<Json> {
    match member(response, "events"@) {
        Some(events) => match member(events, "event"@) {
            Some(Json::Array(items)) => Some(Json::Array(items)),
            _ => None,
        },
        None => None,
    }
}

impl Artist {
    /// Reads an artist: each field where the value holds it in the expected shape.
    pub fn from_json(j: &Json) -> (r: Artist)
        ensures
            Artist::decodes_to(*j, r),
    {
        Artist {
            name: lenient_field::<String>(j, "name"),
            listeners: lenient_field::<u32>(j, "listeners"),
            mbid: lenient_field::<String>(j, "mbid"),
            url: lenient_field::<String>(j, "url"),
            images: lenient_list_field::<Image>(j, "image"),
            biography: lenient_field::<Biography>(j, "bio"),
            stats: lenient_field::<Stats>(j, "stats"),
            members: lenient_field::<BandMemberContainer>(j, "bandmembers"),
        }
    }

    /// Reads the response of `artist.getinfo` for `query`: the artist under
    /// `artist`. Nothing where the response has no such member.
    pub fn info(query: &str, response: &Json) -> (r: Option<SearchResults<Artist>>)
        ensures
            match r {
                Some(s) => member(*response, "artist"@) matches Some(a) && s.query@ == query@
                    && s.results@.len() == 1 && Artist::decodes_to(a, s.results@[0]),
                None => member(*response, "artist"@) is None,
            },
    {
        match response.get("artist") {
            Some(a) => {
                let mut results: Vec<Artist> = Vec::new();
                results.push(Artist::from_json(a));
                Some(SearchResults { query: query.to_owned(), results })
            },
            None => None,
        }
    }

    /// Reads the response of `artist.search` for `query`: the artists it
    /// matched. Nothing where the response holds no list of matches.
    pub fn search(query: &str, response: &Json) -> (r: Option<SearchResults<Artist>>)
        ensures
            match r {
                Some(s) => search_matches(*response) matches Some(l) && s.query@ == query@
                    && list_decodes_to::<Artist>(l, s.results@),
                None => search_matches(*response) is None,
            },
    {
        let results = match response.get("results") {
            Some(v) => v,
            None => return None,
        };
        let matches = match results.get("artistmatches") {
            Some(v) => v,
            None => return None,
        };
        match matches.get("artist") {
            Some(list) => match decode_list::<Artist>(list) {
                Ok(found) => Some(SearchResults { query: query.to_owned(), results: found }),
                Err(_) => None,
            },
            None => None,
        }
    }

    /// Reads the response of `artist.getevents` for `query`: the artist's
    /// events. Nothing where the response holds no list of events, or one of
    /// them does not decode.
    pub fn events(query: &str, response: &Json) -> (r: Option<SearchResults<Event>>)
        ensures
            match r {
                Some(s) => event_list(*response) matches Some(l) && s.query@ == query@
                    && list_decodable::<Event>(l) && list_decodes_to::<Event>(l, s.results@),
                None => !(event_list(*response) matches Some(l) && list_decodable::<Event>(l)),
            },
    {
        let events = match response.get("events") {
            Some(v) => v,
            None => return None,
        };
        match events.get("event") {
            Some(list) => match decode_list::<Event>(list) {
                Ok(found) => Some(SearchResults { query: query.to_owned(), results: found }),
                Err(_) => None,
            },
            None => None,
        }
    }
}

} // verus!
