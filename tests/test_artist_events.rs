use lastfm_rs::artist::Artist;
use lastfm_rs::event::Event;
use lastfm_rs::image::Image;
use lastfm_rs::image_collection::ImageCollection;
use lastfm_rs::json::parse;
use lastfm_rs::lastfm::LastFM;
use lastfm_rs::location::Location;
use lastfm_rs::venue::Venue;

const NIGHTWISH_EVENTS: &str = r##"{"events":{"event":[{"id":"3509716","title":"Nightwish","artists":{"artist":["Nightwish","Amorphis"],"headliner":"Nightwish"},"venue":{"id":"8778914","name":"Hartwall Areena","location":{"geo:point":{"geo:lat":"60.20","geo:long":"24.93"},"city":"Helsinki","country":"Finland","street":"Areenankuja 1","postalcode":"00240"},"url":"http://www.last.fm/venue/8778914","website":"http://www.hartwall-areena.fi","phonenumber":"+358 20 41 997","image":[]},"startDate":"Fri, 20 Dec 2013 19:00:00","description":"Winter tour","image":[{"#text":"http://userserve-ak.last.fm/serve/34/e.jpg","size":"small"},{"#text":"","size":"medium"}],"attendance":"523","reviews":"2","tag":"lastfm:event=3509716","url":"http://www.last.fm/event/3509716","website":"http://nightwish.com","tickets":"","cancelled":"0"}]}}"##;

#[test]
pub fn artist_events() {
    let last_fm = LastFM::new("572b13444704f89c67b07a713d5e5de1");
    let url = last_fm.request_url("artist", "getevents", "nightwish");
    assert!(url.ends_with("&artist=nightwish&api_key=572b13444704f89c67b07a713d5e5de1&format=json"));
    let response = LastFM::request(NIGHTWISH_EVENTS).unwrap();
    let search = Artist::events("nightwish", &response).unwrap();

    let events: Vec<Event> = search.results;
    assert!(!events.is_empty());
    assert_eq!(events[0].id, 3509716);
    assert_eq!(events[0].attendance, 523);
}

#[test]
fn event_to_string_lists_images_and_venue() {
    let response = LastFM::request(NIGHTWISH_EVENTS).unwrap();
    let events = Artist::events("nightwish", &response).unwrap().results;
    let text = events[0].to_string();
    assert_eq!(
        text,
        "Title: Nightwish\nDescription: Winter tour\nStart date: Fri, 20 Dec 2013 19:00:00\nURL: http://www.last.fm/event/3509716\nWebsite: http://nightwish.com\nImages:\n  small: http://userserve-ak.last.fm/serve/34/e.jpg\nVenue:\n  Name: Hartwall Areena\n  Phone Number: +358 20 41 997\n  Location:\n    City: Helsinki (Finland)\n    Address: Areenankuja 1 - 00240"
    );
}

#[test]
fn image_to_string_shows_absent_parts_as_empty() {
    let image = Image { size: Some("large".to_string()), url: None };
    assert_eq!(image.to_string(), "large: ");
}

#[test]
fn image_collection_skips_empty_urls() {
    let images = vec![
        Image { size: Some("small".to_string()), url: Some(String::new()) },
        Image { size: Some("medium".to_string()), url: Some("m.jpg".to_string()) },
        Image { size: None, url: None },
        Image { size: Some("large".to_string()), url: Some("l.jpg".to_string()) },
    ];
    assert_eq!(ImageCollection::to_string(&images), "  medium: m.jpg\n  large: l.jpg");
    let none: Vec<Image> = Vec::new();
    assert_eq!(ImageCollection::to_string(&none), "");
}

#[test]
fn venue_without_location() {
    let venue = Venue {
        id: None,
        name: Some("Tavastia".to_string()),
        url: None,
        website: None,
        phonenumber: None,
        location: None,
    };
    assert_eq!(venue.to_string(), "  Name: Tavastia\n  Phone Number: \n  Location:\n");
}

#[test]
fn location_to_string() {
    let location = Location {
        city: Some("Kitee".to_string()),
        country: Some("Finland".to_string()),
        street: None,
        postalcode: Some("82500".to_string()),
    };
    assert_eq!(location.to_string(), "    City: Kitee (Finland)\n    Address:  - 82500");
}

#[test]
fn events_with_a_bad_event_give_nothing() {
    let response = parse(r#"{"events":{"event":[{"id":"x"}]}}"#).unwrap();
    assert!(Artist::events("nightwish", &response).is_none());
    let empty = parse(r#"{"events":{"artist":"nightwish"}}"#).unwrap();
    assert!(Artist::events("nightwish", &empty).is_none());
}

#[test]
fn event_reports_the_first_failing_field() {
    let j = parse(r#"{"id":"1","title":"T","description":7,"startDate":"d"}"#).unwrap();
    match Event::from_json(&j) {
        Err(lastfm_rs::error::DecodeError::InField(field, _)) => assert_eq!(field, "description"),
        other => panic!("unexpected {:?}", other.map(|e| e.title)),
    }
    let j = parse(r#"{"id":"1","title":"T","description":"D","startDate":"d"}"#).unwrap();
    match Event::from_json(&j) {
        Err(lastfm_rs::error::DecodeError::Missing(field)) => assert_eq!(field, "attendance"),
        other => panic!("unexpected {:?}", other.map(|e| e.title)),
    }
}

#[test]
fn request_keeps_objects_only() {
    assert!(LastFM::request("[1,2]").is_none());
    assert!(LastFM::request("not json").is_none());
    let j = LastFM::request(r#"{"artist":{"name":"Nightwish"}}"#).unwrap();
    assert!(j.get("artist").is_some());
}
