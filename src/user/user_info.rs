//! The profile endpoint, `user.getInfo`.

use crate::decode::{
    field, field_decodable, field_decodes_to, list_field, list_field_decodable,
    list_field_decodes_to, Decode,
};
use crate::error::{DecodeError, Error};
use crate::json::{json_of, json_text_accepted, member, Json};
use crate::model::{Image, Timestamp, MAX_SECONDS, MIN_SECONDS};
use crate::query::{pair_views, request_url};
use crate::response::{parse_response, read_as, read_response};
use crate::{Client, RequestBuilder};
use vstd::prelude::*;

verus! {

/// The response of `user.getInfo`.
#[derive(Debug)]
pub struct UserInfo {
    pub user: User,
}

/// A user's profile.
#[derive(Debug)]
pub struct User {
    /// The username of the user. Assigned when the account was created.
    pub username: String,
    /// Whether or not the user is a Last.fm Pro subscriber. 0 if false, 1 if true.
    pub subscriber: String,
    /// The display name of the user. Empty string if unset.
    pub display_name: String,
    /// The total amount of scrobbles or track plays listed on the user's account.
    pub scrobbles: String,
    /// The amount of unique artists the user has scrobbled / played.
    pub artist_count: String,
    /// The amount of unique tracks the user has scrobbled / played.
    pub track_count: String,
    /// The amount of unique albums the user has scrobbled / played.
    pub album_count: String,
    /// The user's profile picture. Available in multiple sizes.
    pub images: Vec<Image>,
    /// The date of when the user joined the Last.fm service.
    pub registered: Registered,
    /// The country the user lives in. Will be empty if unset.
    pub country: String,
    /// The website link for the user's public Last.fm profile.
    pub url: String,
}

/// When a user registered.
#[derive(Debug)]
pub struct Registered {
    /// The UNIX timestamp of the registration, as the text sent under `unixtime`.
    pub unix_timestamp: String,
    /// The instant of the registration, sent as a number of seconds under `#text`.
    pub date: Timestamp,
}

/// The instant that the member `key` of `j` gives as a number of seconds, where
/// it is an integer in the range of dates that chrono represents.
pub open spec fn seconds_member(j: Json, key: Seq<char>) -> Option<int> {
    match member(j, key) {
        Some(Json::Int(n)) => if MIN_SECONDS <= n <= MAX_SECONDS {
            Some(n as int)
        } else {
            None
        },
        _ => None,
    }
}

impl Decode for Registered {
    open spec fn decodable(j: Json) -> bool {
        &&& j is Object
        &&& field_decodable::<String>(j, "unixtime"@)
        &&& seconds_member(j, "#text"@) is Some
    }

    open spec fn decodes_to(j: Json, v: Registered) -> bool {
        &&& field_decodes_to::<String>(j, "unixtime"@, v.unix_timestamp)
        &&& seconds_member(j, "#text"@) == Some(v.date.seconds as int)
        &&& v.date.wf()
    }

    fn decode(j: &Json) -> (r: Result<Registered, DecodeError>) {
        if !j.is_object() {
            return Err(DecodeError::Unexpected(j.kind()));
        }
        let unix_timestamp = match field::<String>(j, "unixtime") {
            Ok(v) => v,
            Err(e) => return Err(e),
        };
        let date = match j.get("#text") {
            Some(Json::Int(n)) => match Timestamp::from_seconds(*n) {
                Some(t) => t,
                None => {
                    let e = DecodeError::InvalidNumber;
                    return Err(DecodeError::InField("#text".to_owned(), Box::new(e)));
                },
            },
            Some(other) => {
                let e = DecodeError::Unexpected(other.kind());
                return Err(DecodeError::InField("#text".to_owned(), Box::new(e)));
            },
            None => return Err(DecodeError::Missing("#text".to_owned())),
        };
        Ok(Registered { unix_timestamp, date })
    }
}

impl Decode for User {
    open spec fn decodable(j: Json) -> bool {
        &&& j is Object
        &&& field_decodable::<String>(j, "name"@)
        &&& field_decodable::<String>(j, "subscriber"@)
        &&& field_decodable::<String>(j, "realname"@)
        &&& field_decodable::<String>(j, "playcount"@)
        &&& field_decodable::<String>(j, "artist_count"@)
        &&& field_decodable::<String>(j, "track_count"@)
        &&& field_decodable::<String>(j, "album_count"@)
        &&& list_field_decodable::<Image>(j, "image"@)
        &&& field_decodable::<Registered>(j, "registered"@)
        &&& field_decodable::<String>(j, "country"@)
        &&& field_decodable::<String>(j, "url"@)
    }

    open spec fn decodes_to(j: Json, v: User) -> bool {
        &&& field_decodes_to::<String>(j, "name"@, v.username)
        &&& field_decodes_to::<String>(j, "subscriber"@, v.subscriber)
        &&& field_decodes_to::<String>(j, "realname"@, v.display_name)
        &&& field_decodes_to::<String>(j, "playcount"@, v.scrobbles)
        &&& field_decodes_to::<String>(j, "artist_count"@, v.artist_count)
        &&& field_decodes_to::<String>(j, "track_count"@, v.track_count)
        &&& field_decodes_to::<String>(j, "album_count"@, v.album_count)
        &&& list_field_decodes_to::<Image>(j, "image"@, v.images@)
        &&& field_decodes_to::<Registered>(j, "registered"@, v.registered)
        &&& field_decodes_to::<String>(j, "country"@, v.country)
        &&& field_decodes_to::<String>(j, "url"@, v.url)
    }

    fn decode(j: &Json) -> (r: Result<User, DecodeError>) {
        if !j.is_object() {
            return Err(DecodeError::Unexpected(j.kind()));
        }
        let username = match field::<String>(j, "name") {
            Ok(v) => v,
            Err(e) => return Err(e),
        };
        let subscriber = match field::<String>(j, "subscriber") {
            Ok(v) => v,
            Err(e) => return Err(e),
        };
        let display_name = match field::<String>(j, "realname") {
            Ok(v) => v,
            Err(e) => return Err(e),
        };
        let scrobbles = match field::<String>(j, "playcount") {
            Ok(v) => v,
            Err(e) => return Err(e),
        };
        let artist_count = match field::<String>(j, "artist_count") {
            Ok(v) => v,
            Err(e) => return Err(e),
        };
        let track_count = match field::<String>(j, "track_count") {
            Ok(v) => v,
            Err(e) => return Err(e),
        };
        let album_count = match field::<String>(j, "album_count") {
            Ok(v) => v,
            Err(e) => return Err(e),
        };
        let images = match list_field::<Image>(j, "image") {
            Ok(v) => v,
            Err(e) => return Err(e),
        };
        let registered = match field::<Registered>(j, "registered") {
            Ok(v) => v,
            Err(e) => return Err(e),
        };
        let country = match field::<String>(j, "country") {
            Ok(v) => v,
            Err(e) => return Err(e),
        };
        let url = match field::<String>(j, "url") {
            Ok(v) => v,
            Err(e) => return Err(e),
        };
        Ok(
            User {
                username,
                subscriber,
                display_name,
                scrobbles,
                artist_count,
                track_count,
                album_count,
                images,
                registered,
                country,
                url,
            },
        )
    }
}

impl Decode for UserInfo {
    open spec fn decodable(j: Json) -> bool {
        j is Object && field_decodable::<User>(j, "user"@)
    }

    open spec fn decodes_to(j: Json, v: UserInfo) -> bool {
        field_decodes_to::<User>(j, "user"@, v.user)
    }

    fn decode(j: &Json) -> (r: Result<UserInfo, DecodeError>) {
        if !j.is_object() {
            return Err(DecodeError::Unexpected(j.kind()));
        }
        match field::<User>(j, "user") {
            Ok(user) => Ok(UserInfo { user }),
            Err(e) => Err(e),
        }
    }
}

impl UserInfo {
    /// The request to `user.getInfo` for the user `user`.
    pub fn build(client: &Client, user: &str) -> (r: RequestBuilder<UserInfo>)
        ensures
            r@ == request_url(client@, seq![("method"@, "user.getInfo"@), ("user"@, user@)]),
    {
        let params = vec![("method", "user.getInfo"), ("user", user)];
        let url = client.build_url(&params);
        assert(pair_views(params@) =~= seq![("method"@, "user.getInfo"@), ("user"@, user@)]);
        RequestBuilder::from_url(url)
    }

    /// Reads a response of `user.getInfo`: the classified error where it is an
    /// error body, else the profile.
    pub fn from_response(j: &Json) -> (r: Result<UserInfo, Error>)
        ensures
            read_as::<UserInfo>(*j, r),
    {
        read_response::<UserInfo>(j)
    }
}

impl RequestBuilder<UserInfo> {
    /// Completes the request with what the transport brought back for `url()`:
    /// the body, or the transport's failure.
    pub fn send(&self, response: Result<String, String>) -> (r: Result<UserInfo, Error>)
        ensures
            match response {
                Err(m) => r matches Err(Error::HTTPError(x)) && x == m,
                Ok(body) => if json_text_accepted(body@) {
                    read_as::<UserInfo>(json_of(body@), r)
                } else {
                    r matches Err(Error::ParsingError(DecodeError::Syntax))
                },
            },
    {
        match parse_response(response) {
            Ok(j) => UserInfo::from_response(&j),
            Err(e) => Err(e),
        }
    }
}

impl Client {
    /// The request for the profile of the user `user`.
    pub fn user_info(&self, user: &str) -> (r: RequestBuilder<UserInfo>)
        ensures
            r@ == request_url(self@, seq![("method"@, "user.getInfo"@), ("user"@, user@)]),
    {
        UserInfo::build(self, user)
    }
}

} // verus!
