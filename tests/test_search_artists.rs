use lastfm_rs::artist::Artist;
use lastfm_rs::json::parse;
use lastfm_rs::lastfm::LastFM;

const NIGHTWISH_SEARCH: &str = r##"{"results":{"opensearch:Query":{"#text":"","role":"request","searchTerms":"nightwish","startPage":"1"},"opensearch:totalResults":"2","artistmatches":{"artist":[{"name":"Nightwish","listeners":"1084324","mbid":"00a9f935-ba93-4fc8-a33a-993abe9c936b","url":"http://www.last.fm/music/Nightwish","streamable":"1","image":[{"#text":"http://userserve-ak.last.fm/serve/34/1.jpg","size":"small"}]},{"name":"Nightwish Tribute","listeners":"12","mbid":"","url":"http://www.last.fm/music/Nightwish+Tribute","streamable":"0","image":[]}]}}}"##;

#[test]
pub fn search_artists() {
    let last_fm = LastFM::new("572b13444704f89c67b07a713d5e5de1");
    let url = last_fm.request_url("artist", "search", "nightwish");
    assert!(url.contains("method=artist.search&artist=nightwish"));
    let response = LastFM::request(NIGHTWISH_SEARCH).unwrap();
    let search = Artist::search("nightwish", &response).unwrap();

    let artists: Vec<Artist> = search.results;
    assert!(!artists.is_empty());
    assert_eq!(artists[0].listeners, Some(1084324));
    assert_eq!(artists[1].name.as_deref(), Some("Nightwish Tribute"));
}

#[test]
fn search_without_matches_finds_nothing() {
    let response = parse(r#"{"results":{"opensearch:totalResults":"0","artistmatches":"\n"}}"#).unwrap();
    assert!(Artist::search("zzz", &response).is_none());
}
