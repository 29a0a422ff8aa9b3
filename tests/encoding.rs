use lastfm_rs::json::{parse, Json};
use lastfm_rs::number::{parse_i64, parse_u32, to_decimal};
use lastfm_rs::track::similar::Similar;
use lastfm_rs::user::top_artists::Period;
use lastfm_rs::Client;

#[test]
fn parameters_are_form_encoded() {
    let client = Client::new("k y");
    let url = client.build_url(&vec![("artist", "Björk & Co"), ("track", "a+b/c*d-e.f_g~")]);
    assert_eq!(
        url,
        "http://ws.audioscrobbler.com/2.0/?api_key=k+y&format=json&artist=Bj%C3%B6rk+%26+Co&track=a%2Bb%2Fc*d-e.f_g%7E"
    );
}

#[test]
fn base_parameters_come_first() {
    let client = Client::new("key");
    let url = client.build_url(&vec![("api_key", "other"), ("format", "xml")]);
    assert_eq!(
        url,
        "http://ws.audioscrobbler.com/2.0/?api_key=key&format=json&api_key=other&format=xml"
    );
    assert_eq!(client.build_url(&vec![]), "http://ws.audioscrobbler.com/2.0/?api_key=key&format=json");
}

#[test]
fn similar_tracks_requests() {
    let client = Client::new("key");
    let by_name = client.similar_tracks("Nightwish", "Nemo").with_limit(10);
    assert_eq!(
        by_name.url(),
        "http://ws.audioscrobbler.com/2.0/?api_key=key&format=json&method=track.getSimilar&artist=Nightwish&track=Nemo&limit=10"
    );
    let by_mbid = client.similar_tracks_by_mbid("abc-123");
    assert!(by_mbid.url().ends_with("&method=track.getSimilar&mbid=abc-123"));
    let body = r##"{"similartracks":{"track":[{"name":"Amaranth","mbid":"","match":0.82,"url":"u","streamable":{"#text":"0","fulltrack":"0"},"artist":{"name":"Nightwish","mbid":"","url":"a"},"image":[]}],"@attr":{"artist":"Nightwish"}}}"##;
    let similar: Similar = by_name.send(Ok(body.to_string())).unwrap();
    assert_eq!(similar.tracks.len(), 1);
    assert_eq!(similar.tracks[0].artist.name, "Nightwish");
}

#[test]
fn paging_and_period_parameters() {
    let client = Client::new("key");
    let r = client.top_tracks("u").with_page(3).within_period(Period::Overall);
    assert!(r.url().ends_with("&user=u&page=3&period=overall"));
    let loved = client.loved_tracks("u").with_limit(0).with_page(18446744073709551615usize.min(usize::MAX));
    assert!(loved.url().ends_with("&limit=0&page=18446744073709551615"));
}

#[test]
fn decimal_text() {
    assert_eq!(to_decimal(0), "0");
    assert_eq!(to_decimal(7), "7");
    assert_eq!(to_decimal(1024), "1024");
    assert_eq!(to_decimal(u64::MAX), "18446744073709551615");
}

#[test]
fn integers_from_text() {
    assert_eq!(parse_i64("1607728320"), Some(1607728320));
    assert_eq!(parse_i64("-42"), Some(-42));
    assert_eq!(parse_i64("+42"), Some(42));
    assert_eq!(parse_i64("007"), Some(7));
    assert_eq!(parse_i64("9223372036854775807"), Some(i64::MAX));
    assert_eq!(parse_i64("-9223372036854775808"), Some(i64::MIN));
    assert_eq!(parse_i64("9223372036854775808"), None);
    assert_eq!(parse_i64("000000000000000000000000000001"), Some(1));
    assert_eq!(parse_i64(""), None);
    assert_eq!(parse_i64("-"), None);
    assert_eq!(parse_i64("12a"), None);
    assert_eq!(parse_i64(" 1"), None);
    assert_eq!(parse_u32("4294967295"), Some(u32::MAX));
    assert_eq!(parse_u32("4294967296"), None);
    assert_eq!(parse_u32("-1"), None);
    assert_eq!(parse_u32("+1996"), Some(1996));
}

#[test]
fn json_tree_from_text() {
    let j = parse(r#"{"a":[1,-2,2.5,18446744073709551615,"x",true,null],"b":{}}"#).unwrap();
    match j.get("a") {
        Some(Json::Array(items)) => {
            assert!(matches!(items[0], Json::Int(1)));
            assert!(matches!(items[1], Json::Int(-2)));
            assert!(matches!(&items[2], Json::OtherNumber(t) if t == "2.5"));
            assert!(matches!(&items[3], Json::OtherNumber(t) if t == "18446744073709551615"));
            assert!(matches!(&items[4], Json::Str(s) if s == "x"));
            assert!(matches!(items[5], Json::Bool(true)));
            assert!(matches!(items[6], Json::Null));
        },
        _ => panic!("expected an array"),
    }
    assert!(matches!(j.get("b"), Some(Json::Object(f)) if f.is_empty()));
    assert!(j.get("c").is_none());
    assert!(parse("[1,").is_err());
}
