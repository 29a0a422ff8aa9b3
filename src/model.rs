//! Records shared by several endpoints: pagination attributes, dates, images,
//! tracks, albums and artists.

use crate::decode::{
    name_or_struct_decodes_to, field, field_decodable, field_decodes_to, list_field,
    list_field_decodable, list_field_decodes_to, opt_field, opt_field_decodable,
    opt_field_decodes_to, opt_list_field, opt_list_field_decodable, opt_list_field_decodes_to,
    opt_name_or_struct_field_decodable, opt_name_or_struct_field_decodes_to,
    option_string_or_struct_field, name_or_struct_field_decodable,
    name_or_struct_field_decodes_to, string_or_struct_field, unwrap_text, wrapped_text, Decode,
    FromName,
};
use crate::error::DecodeError;
use crate::json::{member, Json};
use crate::number::{fits_i64, integer_text, parse_i64};
use crate::utilities::deserialize_datetime_from_str;
use vstd::prelude::*;

verus! {

/// Various attributes transmitted by several API endpoints, for pagination.
///
/// Last.fm quotes these numbers inconsistently, so they are kept as the text sent.
#[derive(Debug)]
pub struct Attributes {
    /// The given Page currently paginated in the API.
    pub page: String,
    /// The total amount of items.
    pub total: String,
    /// The user associated with the given item.
    pub user: String,
    /// The amount of items listed in a single page.
    pub per_page: String,
    /// The total amount of Pages available to paginate.
    pub total_pages: String,
}

impl Decode for Attributes {
    open spec fn decodable(j: Json) -> bool {
        &&& j is Object
        &&& field_decodable::<String>(j, "page"@)
        &&& field_decodable::<String>(j, "total"@)
        &&& field_decodable::<String>(j, "user"@)
        &&& field_decodable::<String>(j, "perPage"@)
        &&& field_decodable::<String>(j, "totalPages"@)
    }

    open spec fn decodes_to(j: Json, v: Attributes) -> bool {
        &&& field_decodes_to::<String>(j, "page"@, v.page)
        &&& field_decodes_to::<String>(j, "total"@, v.total)
        &&& field_decodes_to::<String>(j, "user"@, v.user)
        &&& field_decodes_to::<String>(j, "perPage"@, v.per_page)
        &&& field_decodes_to::<String>(j, "totalPages"@, v.total_pages)
    }

    fn decode(j: &Json) -> (r: Result<Attributes, DecodeError>) {
        if !j.is_object() {
            return Err(DecodeError::Unexpected(j.kind()));
        }
        let page = match field::<String>(j, "page") {
            Ok(v) => v,
            Err(e) => return Err(e),
        };
        let total = match field::<String>(j, "total") {
            Ok(v) => v,
            Err(e) => return Err(e),
        };
        let user = match field::<String>(j, "user") {
            Ok(v) => v,
            Err(e) => return Err(e),
        };
        let per_page = match field::<String>(j, "perPage") {
            Ok(v) => v,
            Err(e) => return Err(e),
        };
        let total_pages = match field::<String>(j, "totalPages") {
            Ok(v) => v,
            Err(e) => return Err(e),
        };
        Ok(Attributes { page, total, user, per_page, total_pages })
    }
}

/// The earliest second, counted from the UNIX epoch, that chrono represents.
pub const MIN_SECONDS: i64 = -8334601228800;

/// The latest second, counted from the UNIX epoch, that chrono represents.
pub const MAX_SECONDS: i64 = 8210266876799;

/// Relies on chrono's `DateTime::<Utc>::from_timestamp`: it accepts a whole
/// number of seconds exactly when the instant falls between the first second of
/// the year -262143 and the last second of the year 262142.
#[verifier::external_body]
fn chrono_accepts(seconds: i64) -> (r: bool)
    ensures
        r == (MIN_SECONDS <= seconds <= MAX_SECONDS),
{
    chrono::DateTime::<chrono::Utc>::from_timestamp(seconds, 0).is_some()
}

/// An instant in UTC, as whole seconds since the UNIX epoch.
#[derive(Clone, Copy, Debug, PartialEq, Eq, Structural)]
pub struct Timestamp {
    pub seconds: i64,
}

impl Timestamp {
    /// Whether the instant lies in the range of dates that chrono represents.
    pub open spec fn wf(self) -> bool {
        MIN_SECONDS <= self.seconds <= MAX_SECONDS
    }

    /// The instant `seconds` after the UNIX epoch, where chrono can represent it.
    pub fn from_seconds(seconds: i64) -> (r: Option<Timestamp>)
        ensures
            match r {
                Some(t) => t.seconds == seconds && t.wf(),
                None => !(MIN_SECONDS <= seconds <= MAX_SECONDS),
            },
    {
        if chrono_accepts(seconds) {
            Some(Timestamp { seconds })
        } else {
            None
        }
    }
}

/// The instant that the text `s` writes as a UNIX timestamp, if it is one.
pub open spec fn timestamp_text(s: Seq<char>) -> Option<int> {
    match integer_text(s, true) {
        Some(v) => if fits_i64(v) && MIN_SECONDS <= v <= MAX_SECONDS {
            Some(v)
        } else {
            None
        },
        None => None,
    }
}

/// Reads a UNIX timestamp sent as decimal text.
pub fn parse_timestamp(s: &str) -> (r: Option<Timestamp>)
    ensures
        match r {
            Some(t) => timestamp_text(s@) == Some(t.seconds as int) && t.wf(),
            None => timestamp_text(s@) is None,
        },
{
    match parse_i64(s) {
        Some(v) => Timestamp::from_seconds(v),
        None => None,
    }
}

/// When a track was scrobbled or loved: the instant, and the text Last.fm
/// formatted for it.
#[derive(Debug)]
pub struct TrackDate {
    /// The instant, read from the UNIX timestamp under `uts`.
    pub raw_date: Timestamp,
    /// The date as Last.fm formatted it, e.g. "11 Dec 2020, 23:12", kept as sent.
    pub formatted_date: String,
}

/// The instant that the member `key` of `j` writes as a quoted UNIX timestamp.
pub open spec fn quoted_timestamp(j: Json, key: Seq<char>) -> Option<int> {
    match member(j, key) {
        Some(Json::Str(s)) => timestamp_text(s@),
        _ => None,
    }
}

impl Decode for TrackDate {
    open spec fn decodable(j: Json) -> bool {
        &&& j is Object
        &&& quoted_timestamp(j, "uts"@) is Some
        &&& wrapped_text(j) is Some
    }

    open spec fn decodes_to(j: Json, v: TrackDate) -> bool {
        &&& quoted_timestamp(j, "uts"@) == Some(v.raw_date.seconds as int)
        &&& v.raw_date.wf()
        &&& wrapped_text(j) == Some(v.formatted_date)
    }

    fn decode(j: &Json) -> (r: Result<TrackDate, DecodeError>) {
        if !j.is_object() {
            return Err(DecodeError::Unexpected(j.kind()));
        }
        let raw_date = match j.get("uts") {
            Some(x) => match deserialize_datetime_from_str(x) {
                Ok(t) => t,
                Err(e) => return Err(DecodeError::InField("uts".to_owned(), Box::new(e))),
            },
            None => return Err(DecodeError::Missing("uts".to_owned())),
        };
        let formatted_date = match unwrap_text(j) {
            Ok(v) => v,
            Err(e) => return Err(e),
        };
        Ok(TrackDate { raw_date, formatted_date })
    }
}

/// An image: its size, and its URL on Last.fm's content delivery network.
#[derive(Debug)]
pub struct Image {
    /// The size of the image: small, medium, large, extralarge or mega.
    pub image_size: String,
    /// A URL to the image, hosted on Last.fm's content delivery network.
    pub image_url: String,
}

impl Decode for Image {
    open spec fn decodable(j: Json) -> bool {
        &&& j is Object
        &&& field_decodable::<String>(j, "size"@)
        &&& wrapped_text(j) is Some
    }

    open spec fn decodes_to(j: Json, v: Image) -> bool {
        &&& field_decodes_to::<String>(j, "size"@, v.image_size)
        &&& wrapped_text(j) == Some(v.image_url)
    }

    fn decode(j: &Json) -> (r: Result<Image, DecodeError>) {
        if !j.is_object() {
            return Err(DecodeError::Unexpected(j.kind()));
        }
        let image_size = match field::<String>(j, "size") {
            Ok(v) => v,
            Err(e) => return Err(e),
        };
        let image_url = match unwrap_text(j) {
            Ok(v) => v,
            Err(e) => return Err(e),
        };
        Ok(Image { image_size, image_url })
    }
}

/// Attributes of a track in a listing.
#[derive(Debug)]
pub struct TrackAttributes {
    /// Whether the track is the one the user is playing now; absent where it is not known.
    pub now_playing: Option<String>,
}

impl Decode for TrackAttributes {
    open spec fn decodable(j: Json) -> bool {
        j is Object && opt_field_decodable::<String>(j, "nowplaying"@)
    }

    open spec fn decodes_to(j: Json, v: TrackAttributes) -> bool {
        opt_field_decodes_to::<String>(j, "nowplaying"@, v.now_playing)
    }

    fn decode(j: &Json) -> (r: Result<TrackAttributes, DecodeError>) {
        if !j.is_object() {
            return Err(DecodeError::Unexpected(j.kind()));
        }
        match opt_field::<String>(j, "nowplaying") {
            Ok(now_playing) => Ok(TrackAttributes { now_playing }),
            Err(e) => Err(e),
        }
    }
}

/// The album a track belongs to.
#[derive(Debug)]
pub struct Album {
    /// The name of the album, sent wrapped as `{"#text": ...}`.
    pub name: String,
}

impl Decode for Album {
    open spec fn decodable(j: Json) -> bool {
        j is Object && wrapped_text(j) is Some
    }

    open spec fn decodes_to(j: Json, v: Album) -> bool {
        wrapped_text(j) == Some(v.name)
    }

    fn decode(j: &Json) -> (r: Result<Album, DecodeError>) {
        if !j.is_object() {
            return Err(DecodeError::Unexpected(j.kind()));
        }
        match unwrap_text(j) {
            Ok(name) => Ok(Album { name }),
            Err(e) => Err(e),
        }
    }
}

/// Attributes of an artist in a listing.
#[derive(Debug)]
pub struct ArtistAttributes {
    /// Where the artist is ranked in the user's profile.
    pub rank: Option<String>,
}

impl Decode for ArtistAttributes {
    open spec fn decodable(j: Json) -> bool {
        j is Object && opt_field_decodable::<String>(j, "rank"@)
    }

    open spec fn decodes_to(j: Json, v: ArtistAttributes) -> bool {
        opt_field_decodes_to::<String>(j, "rank"@, v.rank)
    }

    fn decode(j: &Json) -> (r: Result<ArtistAttributes, DecodeError>) {
        if !j.is_object() {
            return Err(DecodeError::Unexpected(j.kind()));
        }
        match opt_field::<String>(j, "rank") {
            Ok(rank) => Ok(ArtistAttributes { rank }),
            Err(e) => Err(e),
        }
    }
}

/// An artist. Sent either as an object or, inside some tracks, as a bare name.
#[derive(Debug)]
pub struct Artist {
    /// The name of the artist, under `name` or, inside tracks, under `#text`.
    pub name: String,
    /// The last.fm URL for the given artist.
    pub url: Option<String>,
    /// The MusicBrainz ID of the given artist.
    pub mbid: Option<String>,
    /// Attributes associated with the artist.
    pub attrs: Option<ArtistAttributes>,
    /// How many times the user has scrobbled the artist.
    pub scrobbles: Option<String>,
    /// The main images linked to the artist.
    pub images: Option<Vec<Image>>,
}

/// The name of the artist object `j`: its `name` member, or its `#text` member
/// where it has no `name`.
pub open spec fn artist_name(j: Json) -> Option<String> {
    match member(j, "name"@) {
        Some(Json::Str(s)) => Some(s),
        Some(_) => None,
        None => wrapped_text(j),
    }
}

impl Decode for Artist {
    open spec fn decodable(j: Json) -> bool {
        &&& j is Object
        &&& artist_name(j) is Some
        &&& opt_field_decodable::<String>(j, "url"@)
        &&& opt_field_decodable::<String>(j, "mbid"@)
        &&& opt_field_decodable::<ArtistAttributes>(j, "@attr"@)
        &&& opt_field_decodable::<String>(j, "playcount"@)
        &&& opt_list_field_decodable::<Image>(j, "image"@)
    }

    open spec fn decodes_to(j: Json, v: Artist) -> bool {
        &&& artist_name(j) == Some(v.name)
        &&& opt_field_decodes_to::<String>(j, "url"@, v.url)
        &&& opt_field_decodes_to::<String>(j, "mbid"@, v.mbid)
        &&& opt_field_decodes_to::<ArtistAttributes>(j, "@attr"@, v.attrs)
        &&& opt_field_decodes_to::<String>(j, "playcount"@, v.scrobbles)
        &&& opt_list_field_decodes_to::<Image>(j, "image"@, v.images)
    }

    fn decode(j: &Json) -> (r: Result<Artist, DecodeError>) {
        if !j.is_object() {
            return Err(DecodeError::Unexpected(j.kind()));
        }
        let name = match j.get("name") {
            Some(Json::Str(s)) => s.clone(),
            Some(other) => {
                let e = DecodeError::Unexpected(other.kind());
                return Err(DecodeError::InField("name".to_owned(), Box::new(e)));
            },
            None => match unwrap_text(j) {
                Ok(v) => v,
                Err(e) => return Err(e),
            },
        };
        let url = match opt_field::<String>(j, "url") {
            Ok(v) => v,
            Err(e) => return Err(e),
        };
        let mbid = match opt_field::<String>(j, "mbid") {
            Ok(v) => v,
            Err(e) => return Err(e),
        };
        let attrs = match opt_field::<ArtistAttributes>(j, "@attr") {
            Ok(v) => v,
            Err(e) => return Err(e),
        };
        let scrobbles = match opt_field::<String>(j, "playcount") {
            Ok(v) => v,
            Err(e) => return Err(e),
        };
        let images = match opt_list_field::<Image>(j, "image") {
            Ok(v) => v,
            Err(e) => return Err(e),
        };
        Ok(Artist { name, url, mbid, attrs, scrobbles, images })
    }
}

impl FromName for Artist {
    /// An artist known by name only: every other field is absent.
    open spec fn named(s: String) -> Artist {
        Artist { name: s, url: None, mbid: None, attrs: None, scrobbles: None, images: None }
    }

    fn from_name(s: &String) -> (r: Artist) {
        Artist {
            name: s.clone(),
            url: None,
            mbid: None,
            attrs: None,
            scrobbles: None,
            images: None,
        }
    }
}

/// An artist sent as a bare name decodes to that name and nothing else; sent
/// as an object whose `name` is the same string, it decodes to the same name.
pub proof fn lemma_artist_either_shape(s: String, obj: Json, bare: Artist, full: Artist)
    requires
        name_or_struct_decodes_to::<Artist>(Json::Str(s), bare),
        name_or_struct_decodes_to::<Artist>(obj, full),
        member(obj, "name"@) == Some(Json::Str(s)),
    ensures
        bare.name == s,
        bare.url is None && bare.mbid is None && bare.attrs is None,
        bare.scrobbles is None && bare.images is None,
        full.name == bare.name,
{
}

/// Whether, and how, a track can be streamed.
#[derive(Debug)]
pub struct Streamable {
    pub fulltrack: Option<String>,
    /// The text sent, under `#text` or as a bare string.
    pub text: String,
}

impl Decode for Streamable {
    open spec fn decodable(j: Json) -> bool {
        &&& j is Object
        &&& opt_field_decodable::<String>(j, "fulltrack"@)
        &&& wrapped_text(j) is Some
    }

    open spec fn decodes_to(j: Json, v: Streamable) -> bool {
        &&& opt_field_decodes_to::<String>(j, "fulltrack"@, v.fulltrack)
        &&& wrapped_text(j) == Some(v.text)
    }

    fn decode(j: &Json) -> (r: Result<Streamable, DecodeError>) {
        if !j.is_object() {
            return Err(DecodeError::Unexpected(j.kind()));
        }
        let fulltrack = match opt_field::<String>(j, "fulltrack") {
            Ok(v) => v,
            Err(e) => return Err(e),
        };
        let text = match unwrap_text(j) {
            Ok(v) => v,
            Err(e) => return Err(e),
        };
        Ok(Streamable { fulltrack, text })
    }
}

impl FromName for Streamable {
    /// The bare text, with no full-track flag.
    open spec fn named(s: String) -> Streamable {
        Streamable { text: s, fulltrack: None }
    }

    fn from_name(s: &String) -> (r: Streamable) {
        Streamable { text: s.clone(), fulltrack: None }
    }
}

/// A track in one of the listings.
#[derive(Debug)]
pub struct Track {
    /// The artist who published the track, sent as a name or as an object.
    pub artist: Artist,
    /// Various attributes associated with the track.
    pub attrs: Option<TrackAttributes>,
    /// The MusicBrainz ID for the given track.
    pub mbid: Option<String>,
    /// The name of the track.
    pub name: String,
    /// The album the track is associated with.
    pub album: Option<Album>,
    /// The last.fm URL of the track.
    pub url: String,
    /// Images associated with the track.
    pub images: Vec<Image>,
    /// When the track was scrobbled or loved, where the endpoint tells.
    pub date: Option<TrackDate>,
    /// Whether the track is streamable, sent as a string or as an object.
    pub streamable: Option<Streamable>,
}

/// Whether the track `t` is being played now: unknown where Last.fm sent no flag.
pub open spec fn playing_now(t: Track) -> Option<bool> {
    match t.attrs {
        Some(a) => match a.now_playing {
            Some(flag) => Some(flag@ == "true"@),
            None => None,
        },
        None => None,
    }
}

impl Track {
    /// Whether the track is the one being played now; `None` where Last.fm did not say.
    pub fn now_playing(&self) -> (r: Option<bool>)
        ensures
            r == playing_now(*self),
    {
        match &self.attrs {
            Some(a) => match &a.now_playing {
                Some(flag) => {
                    let yes = "true".to_owned();
                    Some(*flag == yes)
                },
                None => None,
            },
            None => None,
        }
    }
}

impl Decode for Track {
    open spec fn decodable(j: Json) -> bool {
        &&& j is Object
        &&& name_or_struct_field_decodable::<Artist>(j, "artist"@)
        &&& opt_field_decodable::<TrackAttributes>(j, "@attr"@)
        &&& opt_field_decodable::<String>(j, "mbid"@)
        &&& field_decodable::<String>(j, "name"@)
        &&& opt_field_decodable::<Album>(j, "album"@)
        &&& field_decodable::<String>(j, "url"@)
        &&& list_field_decodable::<Image>(j, "image"@)
        &&& opt_field_decodable::<TrackDate>(j, "date"@)
        &&& opt_name_or_struct_field_decodable::<Streamable>(j, "streamable"@)
    }

    open spec fn decodes_to(j: Json, v: Track) -> bool {
        &&& name_or_struct_field_decodes_to::<Artist>(j, "artist"@, v.artist)
        &&& opt_field_decodes_to::<TrackAttributes>(j, "@attr"@, v.attrs)
        &&& opt_field_decodes_to::<String>(j, "mbid"@, v.mbid)
        &&& field_decodes_to::<String>(j, "name"@, v.name)
        &&& opt_field_decodes_to::<Album>(j, "album"@, v.album)
        &&& field_decodes_to::<String>(j, "url"@, v.url)
        &&& list_field_decodes_to::<Image>(j, "image"@, v.images@)
        &&& opt_field_decodes_to::<TrackDate>(j, "date"@, v.date)
        &&& opt_name_or_struct_field_decodes_to::<Streamable>(j, "streamable"@, v.streamable)
    }

    fn decode(j: &Json) -> (r: Result<Track, DecodeError>) {
        if !j.is_object() {
            return Err(DecodeError::Unexpected(j.kind()));
        }
        let artist = match string_or_struct_field::<Artist>(j, "artist") {
            Ok(v) => v,
            Err(e) => return Err(e),
        };
        let attrs = match opt_field::<TrackAttributes>(j, "@attr") {
            Ok(v) => v,
            Err(e) => return Err(e),
        };
        let mbid = match opt_field::<String>(j, "mbid") {
            Ok(v) => v,
            Err(e) => return Err(e),
        };
        let name = match field::<String>(j, "name") {
            Ok(v) => v,
            Err(e) => return Err(e),
        };
        let album = match opt_field::<Album>(j, "album") {
            Ok(v) => v,
            Err(e) => return Err(e),
        };
        let url = match field::<String>(j, "url") {
            Ok(v) => v,
            Err(e) => return Err(e),
        };
        let images = match list_field::<Image>(j, "image") {
            Ok(v) => v,
            Err(e) => return Err(e),
        };
        let date = match opt_field::<TrackDate>(j, "date") {
            Ok(v) => v,
            Err(e) => return Err(e),
        };
        let streamable = match option_string_or_struct_field::<Streamable>(j, "streamable") {
            Ok(v) => v,
            Err(e) => return Err(e),
        };
        Ok(Track { artist, attrs, mbid, name, album, url, images, date, streamable })
    }
}

} // verus!
