use lastfm_rs::artist::Artist;
use lastfm_rs::lastfm::LastFM;

const NIGHTWISH_INFO: &str = r##"{"artist":{"name":"Nightwish","mbid":"00a9f935-ba93-4fc8-a33a-993abe9c936b","url":"http://www.last.fm/music/Nightwish","image":[{"#text":"http://userserve-ak.last.fm/serve/34/1.jpg","size":"small"},{"#text":"http://userserve-ak.last.fm/serve/64/1.jpg","size":"medium"}],"streamable":"1","stats":{"listeners":"1084324","playcount":"68491721"},"bandmembers":{"member":[{"name":"Tuomas Holopainen","yearfrom":"1996"},{"name":"Floor Jansen","yearfrom":"2012"},{"name":"Tarja Turunen","yearfrom":"1996","yearto":"2005"}]},"bio":{"published":"Wed, 8 Jul 2009 14:31:47 +0000","content":"Nightwish is a symphonic metal band from Kitee, Finland.","placeformed":"Kitee, Finland","yearformed":"1996"}}}"##;

#[test]
pub fn artist_info() {
    let last_fm = LastFM::new("572b13444704f89c67b07a713d5e5de1");
    let url = last_fm.request_url("artist", "getinfo", "nightwish");
    assert_eq!(
        url,
        "http://ws.audioscrobbler.com/2.0/?method=artist.getinfo&artist=nightwish&api_key=572b13444704f89c67b07a713d5e5de1&format=json"
    );
    let response = LastFM::request(NIGHTWISH_INFO).unwrap();
    let search = Artist::info("nightwish", &response).unwrap();

    let mut results: Vec<Artist> = search.results;
    assert!(!results.is_empty());

    let members = results.pop().unwrap().members.unwrap();
    assert!(!members.member.is_empty())
}
