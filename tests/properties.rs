use lastfm_rs::decode::{option_string_or_struct, string_or_struct, unwrap_text, Decode};
use lastfm_rs::error::{DecodeError, Error, JsonKind, LastFMError, LastFMErrorResponse};
use lastfm_rs::json::{parse, Json};
use lastfm_rs::model::{Album, Artist, Attributes, Image, Streamable, Timestamp, Track, MAX_SECONDS, MIN_SECONDS};
use lastfm_rs::response::read_response;
use lastfm_rs::user::recent_tracks::RecentTracks;
use lastfm_rs::user::top_artists::{Period, TopArtists};
use lastfm_rs::Client;

fn json(text: &str) -> Json {
    parse(text).expect("valid JSON")
}

#[test]
fn artist_from_bare_string() {
    let a: Artist = string_or_struct(&json(r#""X""#)).unwrap();
    assert_eq!(a.name, "X");
    assert!(a.url.is_none());
    assert!(a.mbid.is_none());
    assert!(a.attrs.is_none());
    assert!(a.scrobbles.is_none());
    assert!(a.images.is_none());
}

#[test]
fn artist_from_object() {
    let a: Artist = string_or_struct(&json(r#"{"name":"X","mbid":"m1"}"#)).unwrap();
    assert_eq!(a.name, "X");
    assert_eq!(a.mbid.as_deref(), Some("m1"));
    assert!(a.url.is_none());
    let b: Artist = string_or_struct(&json(r#""X""#)).unwrap();
    assert_eq!(a.name, b.name);
}

#[test]
fn artist_name_inside_text_wrapper() {
    let a: Artist = string_or_struct(&json(r##"{"#text":"Nightwish","mbid":""}"##)).unwrap();
    assert_eq!(a.name, "Nightwish");
    assert_eq!(a.mbid.as_deref(), Some(""));
}

#[test]
fn string_or_struct_rejects_other_shapes() {
    match string_or_struct::<Artist>(&json("42")) {
        Err(DecodeError::Unexpected(kind)) => assert_eq!(kind, JsonKind::Number),
        other => panic!("unexpected {:?}", other),
    }
    match string_or_struct::<Artist>(&json("[]")) {
        Err(DecodeError::Unexpected(kind)) => assert_eq!(kind, JsonKind::Array),
        other => panic!("unexpected {:?}", other),
    }
    assert!(string_or_struct::<Artist>(&json("null")).is_err());
}

#[test]
fn optional_string_or_struct() {
    let none: Option<Streamable> = option_string_or_struct(&json("null")).unwrap();
    assert!(none.is_none());
    let bare: Streamable = option_string_or_struct(&json(r#""1""#)).unwrap().unwrap();
    assert_eq!(bare.text, "1");
    assert!(bare.fulltrack.is_none());
    let full: Streamable =
        option_string_or_struct(&json(r##"{"fulltrack":"0","#text":"1"}"##)).unwrap().unwrap();
    assert_eq!(full.fulltrack.as_deref(), Some("0"));
    assert!(option_string_or_struct::<Streamable>(&json("true")).is_err());
}

#[test]
fn error_body_takes_precedence() {
    let body = r#"{"error":6,"message":"User not found","links":[]}"#;
    let j = json(body);
    match RecentTracks::from_response(&j) {
        Err(Error::LastFMError(LastFMErrorResponse::InvalidParameters(e))) => {
            assert_eq!(e.error, 6);
            assert_eq!(e.message, "User not found");
            assert_eq!(e.links.as_ref().map(|l| l.len()), Some(0));
        },
        other => panic!("unexpected {:?}", other),
    }
}

#[test]
fn error_body_wins_over_a_decodable_entity() {
    let body = r#"{"error":29,"message":"Rate limit exceeded","recenttracks":{"track":[],"@attr":{"user":"u","totalPages":"0","page":"1","perPage":"50","total":"0"}}}"#;
    match RecentTracks::from_response(&json(body)) {
        Err(Error::LastFMError(LastFMErrorResponse::RateLimitExceeded(e))) => {
            assert!(e.links.is_none());
        },
        other => panic!("unexpected {:?}", other),
    }
}

#[test]
fn unknown_error_code_is_generic() {
    let j = json(r#"{"error":999,"message":"Something odd: é happened"}"#);
    match read_response::<Attributes>(&j) {
        Err(Error::LastFMError(LastFMErrorResponse::GenericError(e))) => {
            assert_eq!(e.error, 999);
            assert_eq!(e.message, "Something odd: \u{e9} happened");
        },
        other => panic!("unexpected {:?}", other),
    }
}

#[test]
fn every_documented_code_has_its_kind() {
    let codes = [2, 3, 4, 5, 6, 7, 8, 9, 10, 11, 13, 16, 26, 29, 1, 12];
    let expected = [
        "InvalidService",
        "InvalidMethod",
        "AuthenticationFailed",
        "InvalidFormat",
        "InvalidParameters",
        "InvalidResourceSpecified",
        "OperationFailed",
        "InvalidSessionKey",
        "InvalidAPIKey",
        "ServiceOffline",
        "InvalidMethodSignatureSupplied",
        "GenericError",
        "SuspendedAPIKey",
        "RateLimitExceeded",
        "GenericError",
        "GenericError",
    ];
    for (code, name) in codes.iter().zip(expected.iter()) {
        let e = LastFMError { error: *code, message: format!("code {}", code), links: None };
        let r = LastFMErrorResponse::from(e);
        let shown = format!("{:?}", r);
        assert!(shown.starts_with(name), "{} gave {}", code, shown);
        assert_eq!(r.inner().error, *code);
        assert_eq!(r.to_string(), format!("code {}", code));
    }
}

#[test]
fn malformed_error_bodies_are_not_errors() {
    assert!(LastFMError::decode(&json(r#"{"error":"6","message":"x"}"#)).is_err());
    assert!(LastFMError::decode(&json(r#"{"error":6}"#)).is_err());
    assert!(LastFMError::decode(&json(r#"{"error":6.5,"message":"x"}"#)).is_err());
    assert!(LastFMError::decode(&json(r#"{"error":4294967296,"message":"x"}"#)).is_err());
    assert!(LastFMError::decode(&json(r#"{"error":6,"message":"x","links":[1]}"#)).is_err());
    let ok = LastFMError::decode(&json(r#"{"error":6,"message":"x","links":null}"#)).unwrap();
    assert!(ok.links.is_none());
}

#[test]
fn period_twelve_months_and_one_year() {
    assert_eq!(Period::TwelveMonths.to_string(), "12month");
    assert_eq!(Period::OneYear.to_string(), "12month");
    assert_eq!(Period::SevenDays.to_string(), "7day");
    assert_eq!(Period::OneMonth.to_string(), "1month");
    assert_eq!(Period::ThreeMonths.to_string(), "3month");
    assert_eq!(Period::SixMonths.to_string(), "6month");
    assert_eq!(Period::Overall.to_string(), "overall");
}

#[test]
fn pagination_attributes_stay_text() {
    let a = Attributes::decode(&json(
        r#"{"page":"2","total":"157","perPage":"50","totalPages":"4","user":"RoxasShadow"}"#,
    ))
    .unwrap();
    assert_eq!(a.page, "2");
    assert_eq!(a.total, "157");
    assert_eq!(a.per_page, "50");
    assert_eq!(a.total_pages, "4");
    assert_eq!(a.user, "RoxasShadow");
    let numeric = json(r#"{"page":2,"total":"157","perPage":"50","totalPages":"4","user":"u"}"#);
    match Attributes::decode(&numeric) {
        Err(DecodeError::InField(field, inner)) => {
            assert_eq!(field, "page");
            assert!(matches!(*inner, DecodeError::Unexpected(JsonKind::Number)));
        },
        other => panic!("unexpected {:?}", other),
    }
}

#[test]
fn text_wrapper_unwraps() {
    assert_eq!(unwrap_text(&json(r##"{"#text":"Some Value"}"##)).unwrap(), "Some Value");
    let album = Album::decode(&json(r##"{"mbid":"","#text":"Once"}"##)).unwrap();
    assert_eq!(album.name, "Once");
    match unwrap_text(&json(r#"{"text":"x"}"#)) {
        Err(DecodeError::Missing(field)) => assert_eq!(field, "#text"),
        other => panic!("unexpected {:?}", other),
    }
}

const ONE_RECENT_TRACK: &str = r##"{"recenttracks":{"track":[{"artist":{"mbid":"","#text":"Nightwish"},"streamable":"0","image":[{"size":"small","#text":"https://lastfm.freetls.fastly.net/i/u/34s/a.png"}],"mbid":"","album":{"mbid":"","#text":"Once"},"name":"Nemo","url":"https://www.last.fm/music/Nightwish/_/Nemo","date":{"uts":"1607728320","#text":"11 Dec 2020, 23:12"}}],"@attr":{"user":"RoxasShadow","totalPages":"157","page":"1","perPage":"1","total":"157"}}}"##;

#[test]
fn test_recent_tracks() {
    let client = Client::new("572b13444704f89c67b07a713d5e5de1");
    let request = client.recent_tracks("RoxasShadow").with_limit(1);
    assert_eq!(
        request.url(),
        "http://ws.audioscrobbler.com/2.0/?api_key=572b13444704f89c67b07a713d5e5de1&format=json&method=user.getRecentTracks&user=RoxasShadow&limit=1"
    );
    let recent_tracks = request.send(Ok(ONE_RECENT_TRACK.to_string()));
    assert!(recent_tracks.is_ok());
}

#[test]
fn recent_tracks_end_to_end() {
    let client = Client::new("key");
    let request = client.recent_tracks("RoxasShadow").with_limit(1);
    let recent = request.send(Ok(ONE_RECENT_TRACK.to_string())).unwrap();
    assert_eq!(recent.tracks.len(), 1);
    let track: &Track = &recent.tracks[0];
    let date = track.date.as_ref().unwrap();
    assert_eq!(date.raw_date.seconds, 1607728320);
    assert_eq!(date.formatted_date, "11 Dec 2020, 23:12");
    assert_eq!(track.album.as_ref().unwrap().name, "Once");
    assert_eq!(track.streamable.as_ref().unwrap().text, "0");
    assert_eq!(recent.attrs.total, "157");
}

#[test]
fn top_artists_error_end_to_end() {
    let client = Client::new("key");
    let request = client.top_artists("no-such-user-xyz").with_limit(5).within_period(Period::OneYear);
    assert_eq!(
        request.url(),
        "http://ws.audioscrobbler.com/2.0/?api_key=key&format=json&method=user.getTopArtists&user=no-such-user-xyz&limit=5&period=12month"
    );
    let r: Result<TopArtists, Error> =
        request.send(Ok(r#"{"error":6,"message":"User not found","links":[]}"#.to_string()));
    match r {
        Err(Error::LastFMError(LastFMErrorResponse::InvalidParameters(e))) => {
            assert_eq!(e.message, "User not found")
        },
        other => panic!("unexpected {:?}", other),
    }
}

#[test]
fn transport_failure_is_an_http_error() {
    let client = Client::new("key");
    let r = client.recent_tracks("u").send(Err("connection refused".to_string()));
    match r {
        Err(Error::HTTPError(m)) => assert_eq!(m, "connection refused"),
        other => panic!("unexpected {:?}", other),
    }
}

#[test]
fn body_that_is_not_json_is_a_syntax_error() {
    let client = Client::new("key");
    let r = client.user_info("u").send(Ok("<html>502</html>".to_string()));
    assert!(matches!(r, Err(Error::ParsingError(DecodeError::Syntax))));
    assert!(matches!(parse(""), Err(DecodeError::Syntax)));
}

#[test]
fn missing_envelope_is_a_decode_error() {
    match RecentTracks::from_response(&json(r#"{"toptracks":null}"#)) {
        Err(Error::ParsingError(DecodeError::Missing(key))) => assert_eq!(key, "recenttracks"),
        other => panic!("unexpected {:?}", other),
    }
}

#[test]
fn out_of_range_timestamp_is_refused() {
    let body = r##"{"artist":"A","name":"N","url":"u","image":[],"date":{"uts":"99999999999999999","#text":"t"}}"##;
    assert!(Track::decode(&json(body)).is_err());
    let date = json(r##"{"uts":"99999999999999999","#text":"t"}"##);
    match lastfm_rs::model::TrackDate::decode(&date) {
        Err(DecodeError::InField(field, inner)) => {
            assert_eq!(field, "uts");
            assert!(matches!(*inner, DecodeError::InvalidNumber));
        },
        other => panic!("unexpected {:?}", other),
    }
}

#[test]
fn timestamp_bounds_follow_chrono() {
    assert_eq!(Timestamp::from_seconds(0).map(|t| t.seconds), Some(0));
    assert_eq!(Timestamp::from_seconds(MIN_SECONDS).map(|t| t.seconds), Some(MIN_SECONDS));
    assert_eq!(Timestamp::from_seconds(MAX_SECONDS).map(|t| t.seconds), Some(MAX_SECONDS));
    assert!(Timestamp::from_seconds(MIN_SECONDS - 1).is_none());
    assert!(Timestamp::from_seconds(MAX_SECONDS + 1).is_none());
    assert!(Timestamp::from_seconds(i64::MAX).is_none());
    assert!(Timestamp::from_seconds(i64::MIN).is_none());
}

#[test]
fn images_keep_their_order() {
    let v = json(r##"[{"size":"large","#text":"l"},{"size":"small","#text":"s"}]"##);
    let images: Vec<Image> = lastfm_rs::decode::decode_list(&v).unwrap();
    assert_eq!(images[0].image_size, "large");
    assert_eq!(images[1].image_url, "s");
}

#[test]
fn decode_errors_give_the_path() {
    let body = r##"{"recenttracks":{"track":[{"artist":"A","name":"N","url":"u","image":[]},{"artist":7,"name":"N","url":"u","image":[]}],"@attr":{"user":"u","totalPages":"1","page":"1","perPage":"2","total":"2"}}}"##;
    let e = match RecentTracks::from_response(&json(body)) {
        Err(Error::ParsingError(e)) => e,
        other => panic!("unexpected {:?}", other),
    };
    let DecodeError::InField(envelope, e) = e else { panic!("no envelope") };
    assert_eq!(envelope, "recenttracks");
    let DecodeError::InField(list, e) = *e else { panic!("no list") };
    assert_eq!(list, "track");
    let DecodeError::AtIndex(index, e) = *e else { panic!("no index") };
    assert_eq!(index, 1);
    let DecodeError::InField(field, e) = *e else { panic!("no field") };
    assert_eq!(field, "artist");
    assert!(matches!(*e, DecodeError::Unexpected(JsonKind::Number)));
}

#[test]
fn missing_field_is_named() {
    let e = Attributes::decode(&json(r#"{"page":"1","total":"1","user":"u","perPage":"1"}"#)).unwrap_err();
    assert!(matches!(e, DecodeError::Missing(ref k) if k == "totalPages"));
    let not_object = Attributes::decode(&json(r#""1""#)).unwrap_err();
    assert!(matches!(not_object, DecodeError::Unexpected(JsonKind::String)));
}

#[test]
fn error_text() {
    let http = Error::HTTPError("timed out".to_string());
    assert_eq!(http.to_string(), "timed out");
    let api = RecentTracks::from_response(&json(r#"{"error":10,"message":"Invalid API key"}"#)).unwrap_err();
    assert_eq!(api.to_string(), "Invalid API key");
    let parsing = Error::ParsingError(DecodeError::Syntax);
    assert_eq!(parsing.to_string(), "the response could not be decoded");
}

#[test]
fn optional_string_or_struct_names_the_shape() {
    match option_string_or_struct::<Streamable>(&json("[1]")) {
        Err(DecodeError::Unexpected(kind)) => assert_eq!(kind, JsonKind::Array),
        other => panic!("unexpected {:?}", other),
    }
    let track = json(r#"{"artist":true,"name":"N","url":"u","image":[]}"#);
    match Track::decode(&track) {
        Err(DecodeError::InField(field, inner)) => {
            assert_eq!(field, "artist");
            assert!(matches!(*inner, DecodeError::Unexpected(JsonKind::Bool)));
        },
        other => panic!("unexpected {:?}", other),
    }
}
