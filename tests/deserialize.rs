use lastfm_rs::decode::Decode;
use lastfm_rs::json::parse;
use lastfm_rs::user::user_info::UserInfo;
use lastfm_rs::user::User;

const RECENT_TRACKS: &str = r##"{"recenttracks":{"track":[{"artist":{"mbid":"00a9f935-ba93-4fc8-a33a-993abe9c936b","#text":"Nightwish"},"@attr":{"nowplaying":"true"},"mbid":"","album":{"mbid":"","#text":"Once"},"streamable":"0","url":"https://www.last.fm/music/Nightwish/_/Nemo","name":"Nemo","image":[{"size":"small","#text":"https://lastfm.freetls.fastly.net/i/u/34s/a.png"},{"size":"medium","#text":"https://lastfm.freetls.fastly.net/i/u/64s/a.png"}]},{"artist":{"mbid":"","#text":"Epica"},"mbid":"","album":{"mbid":"","#text":"Omega"},"streamable":"0","url":"https://www.last.fm/music/Epica/_/Abyss+of+Time","name":"Abyss of Time","image":[{"size":"small","#text":""}],"date":{"uts":"1607728320","#text":"11 Dec 2020, 23:12"}}],"@attr":{"user":"RoxasShadow","totalPages":"4","page":"1","perPage":"2","total":"8"}}}"##;

const TOP_ARTISTS: &str = r##"{"topartists":{"artist":[{"@attr":{"rank":"1"},"mbid":"00a9f935-ba93-4fc8-a33a-993abe9c936b","url":"https://www.last.fm/music/Nightwish","playcount":"1024","image":[{"size":"small","#text":"https://lastfm.freetls.fastly.net/i/u/34s/b.png"}],"name":"Nightwish","streamable":"0"},{"@attr":{"rank":"2"},"mbid":"","url":"https://www.last.fm/music/Epica","playcount":"512","image":[],"name":"Epica","streamable":"0"}],"@attr":{"page":"1","total":"2","user":"RoxasShadow","perPage":"50","totalPages":"1"}}}"##;

const USER_INFO: &str = r##"{"user":{"playlists":"0","playcount":"81234","gender":"n","name":"RoxasShadow","subscriber":"0","url":"https://www.last.fm/user/RoxasShadow","country":"Italy","image":[{"size":"small","#text":"https://lastfm.freetls.fastly.net/i/u/34s/c.png"},{"size":"large","#text":"https://lastfm.freetls.fastly.net/i/u/174s/c.png"}],"registered":{"unixtime":"1037793040","#text":1037793040},"type":"user","age":"0","bootstrap":"0","realname":"Giovanni","artist_count":"1200","track_count":"9000","album_count":"2100"}}"##;

const LOVED_TRACKS: &str = r##"{"lovedtracks":{"track":[{"artist":{"url":"https://www.last.fm/music/Nightwish","name":"Nightwish","mbid":"00a9f935-ba93-4fc8-a33a-993abe9c936b"},"date":{"uts":"1600000000","#text":"13 Sep 2020, 12:26"},"mbid":"","url":"https://www.last.fm/music/Nightwish/_/Nemo","name":"Nemo","image":[{"size":"small","#text":"https://lastfm.freetls.fastly.net/i/u/34s/d.png"}],"streamable":{"fulltrack":"0","#text":"0"}}],"@attr":{"user":"RoxasShadow","totalPages":"1","page":"1","perPage":"50","total":"1"}}}"##;

const TOP_TRACKS: &str = r##"{"toptracks":{"track":[{"streamable":{"fulltrack":"0","#text":"0"},"mbid":"","name":"Nemo","image":[{"size":"small","#text":"https://lastfm.freetls.fastly.net/i/u/34s/e.png"}],"artist":{"url":"https://www.last.fm/music/Nightwish","name":"Nightwish","mbid":""},"url":"https://www.last.fm/music/Nightwish/_/Nemo","duration":"271","@attr":{"rank":"1"},"playcount":"321"}],"@attr":{"page":"1","total":"1","user":"RoxasShadow","perPage":"50","totalPages":"1"}}}"##;

#[test]
fn user_recent_tracks() {
    let v = parse(RECENT_TRACKS).expect("Loading test file");
    let user = User::decode(&v).expect("Deserializing file");
    let recent = user.recent_tracks.expect("recent tracks");
    assert_eq!(recent.tracks.len(), 2);
    assert_eq!(recent.tracks[0].artist.name, "Nightwish");
    assert_eq!(recent.tracks[0].attrs.as_ref().unwrap().now_playing.as_deref(), Some("true"));
    assert!(recent.tracks[0].date.is_none());
    assert_eq!(recent.tracks[0].now_playing(), Some(true));
    assert_eq!(recent.tracks[1].now_playing(), None);
    assert_eq!(recent.tracks[1].date.as_ref().unwrap().raw_date.seconds, 1607728320);
}

#[test]
fn user_top_artists() {
    let v = parse(TOP_ARTISTS).expect("Loading test file");
    let user = User::decode(&v).expect("Deserializing file");
    let top = user.top_artists.expect("top artists");
    assert_eq!(top.artists.len(), 2);
    assert_eq!(top.artists[0].attrs.as_ref().unwrap().rank.as_deref(), Some("1"));
    assert_eq!(top.artists[1].scrobbles.as_deref(), Some("512"));
    assert_eq!(top.artists[1].images.as_ref().unwrap().len(), 0);
}

#[test]
fn user_get_info() {
    let v = parse(USER_INFO).expect("Loading test file");
    let info = UserInfo::decode(&v).expect("Deserializing file");
    assert_eq!(info.user.username, "RoxasShadow");
    assert_eq!(info.user.registered.unix_timestamp, "1037793040");
    assert_eq!(info.user.registered.date.seconds, 1037793040);
    assert_eq!(info.user.images.len(), 2);
}

#[test]
fn user_get_loved_tracks() {
    let v = parse(LOVED_TRACKS).expect("Loading test file");
    let user = User::decode(&v).expect("Deserializing file");
    let loved = user.loved_tracks.expect("loved tracks");
    assert_eq!(loved.tracks.len(), 1);
    let streamable = loved.tracks[0].streamable.as_ref().unwrap();
    assert_eq!(streamable.fulltrack.as_deref(), Some("0"));
    assert_eq!(streamable.text, "0");
}

#[test]
fn user_get_top_tracks() {
    let v = parse(TOP_TRACKS).expect("Loading test file");
    let user = User::decode(&v).expect("Deserializing file");
    let top = user.top_tracks.expect("top tracks");
    assert_eq!(top.tracks.len(), 1);
    assert_eq!(top.tracks[0].name, "Nemo");
    assert_eq!(top.attrs.per_page, "50");
}
