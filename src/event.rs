//! Events of an artist: concerts and festivals.

use crate::decode::{field, field_decodable, field_decodes_to, field_error, list_field,
    list_field_decodable, list_field_decodes_to, wrong_shape, Decode};
use crate::error::DecodeError;
use crate::image::Image;
use crate::image_collection::{listing, ImageCollection};
use crate::json::Json;
use crate::venue::{venue_text, Venue};
use vstd::prelude::*;

verus! {

/// An event of an artist.
#[derive(Debug)]
pub struct Event {
    pub id: u32,
    pub title: String,
    pub description: String,
    pub start_date: String,
    pub attendance: u32,
    pub reviews: u32,
    pub url: String,
    pub website: String,
    pub images: Vec<Image>,
    pub venue: Venue,
}

impl Decode for Event {
    open spec fn decodable(j: Json) -> bool {
        &&& j is Object
        &&& field_decodable::<u32>(j, "id"@)
        &&& field_decodable::<String>(j, "title"@)
        &&& field_decodable::<String>(j, "description"@)
        &&& field_decodable::<String>(j, "startDate"@)
        &&& field_decodable::<u32>(j, "attendance"@)
        &&& field_decodable::<u32>(j, "reviews"@)
        &&& field_decodable::<String>(j, "url"@)
        &&& field_decodable::<String>(j, "website"@)
        &&& list_field_decodable::<Image>(j, "image"@)
        &&& field_decodable::<Venue>(j, "venue"@)
    }

    open spec fn decodes_to(j: Json, v: Event) -> bool {
        &&& field_decodes_to::<u32>(j, "id"@, v.id)
        &&& field_decodes_to::<String>(j, "title"@, v.title)
        &&& field_decodes_to::<String>(j, "description"@, v.description)
        &&& field_decodes_to::<String>(j, "startDate"@, v.start_date)
        &&& field_decodes_to::<u32>(j, "attendance"@, v.attendance)
        &&& field_decodes_to::<u32>(j, "reviews"@, v.reviews)
        &&& field_decodes_to::<String>(j, "url"@, v.url)
        &&& field_decodes_to::<String>(j, "website"@, v.website)
        &&& list_field_decodes_to::<Image>(j, "image"@, v.images@)
        &&& field_decodes_to::<Venue>(j, "venue"@, v.venue)
    }

    fn decode(j: &Json) -> (r: Result<Event, DecodeError>) {
        Event::from_json(j)
    }
}

/// Whether `e` is the error of the first thing that keeps `j` from decoding as
/// an event: its shape, then its fields in the order `id`, `title`,
/// `description`, `startDate`, `attendance`, `reviews`, `url`, `website`,
/// `image`, `venue`.
pub open spec fn event_error(j: Json, e: DecodeError) -> bool {
    if !(j is Object) {
        wrong_shape(j, e)
    } else if !field_decodable::<u32>(j, "id"@) {
        field_error(j, "id"@, e)
    } else if !field_decodable::<String>(j, "title"@) {
        field_error(j, "title"@, e)
    } else if !field_decodable::<String>(j, "description"@) {
        field_error(j, "description"@, e)
    } else if !field_decodable::<String>(j, "startDate"@) {
        field_error(j, "startDate"@, e)
    } else if !field_decodable::<u32>(j, "attendance"@) {
        field_error(j, "attendance"@, e)
    } else if !field_decodable::<u32>(j, "reviews"@) {
        field_error(j, "reviews"@, e)
    } else if !field_decodable::<String>(j, "url"@) {
        field_error(j, "url"@, e)
    } else if !field_decodable::<String>(j, "website"@) {
        field_error(j, "website"@, e)
    } else if !list_field_decodable::<Image>(j, "image"@) {
        field_error(j, "image"@, e)
    } else {
        field_error(j, "venue"@, e)
    }
}

/// The text of the event `e`: its title, description, start date, URL and
/// website, then its images and its venue.
pub open spec fn event_text(e: Event) -> Seq<char> {
    "Title: "@ + e.title@ + "\nDescription: "@ + e.description@ + "\nStart date: "@ + e.start_date@
        + "\nURL: "@ + e.url@ + "\nWebsite: "@ + e.website@ + "\nImages:\n"@ + listing(e.images@)
        + "\nVenue:\n"@ + venue_text(e.venue)
}

impl Event {
    /// Decodes an event; where it does not decode, fails with the error of the
    /// first field, in the order of `event_error`, that keeps it from decoding.
    pub fn from_json(j: &Json) -> (r: Result<Event, DecodeError>)
        ensures
            match r {
                Ok(v) => Event::decodable(*j) && Event::decodes_to(*j, v),
                Err(e) => !Event::decodable(*j) && event_error(*j, e),
            },
    {
        if !j.is_object() {
            return Err(DecodeError::Unexpected(j.kind()));
        }
        let id = match field::<u32>(j, "id") {
            Ok(v) => v,
            Err(e) => return Err(e),
        };
        let title = match field::<String>(j, "title") {
            Ok(v) => v,
            Err(e) => return Err(e),
        };
        let description = match field::<String>(j, "description") {
            Ok(v) => v,
            Err(e) => return Err(e),
        };
        let start_date = match field::<String>(j, "startDate") {
            Ok(v) => v,
            Err(e) => return Err(e),
        };
        let attendance = match field::<u32>(j, "attendance") {
            Ok(v) => v,
            Err(e) => return Err(e),
        };
        let reviews = match field::<u32>(j, "reviews") {
            Ok(v) => v,
            Err(e) => return Err(e),
        };
        let url = match field::<String>(j, "url") {
            Ok(v) => v,
            Err(e) => return Err(e),
        };
        let website = match field::<String>(j, "website") {
            Ok(v) => v,
            Err(e) => return Err(e),
        };
        let images = match list_field::<Image>(j, "image") {
            Ok(v) => v,
            Err(e) => return Err(e),
        };
        let venue = match field::<Venue>(j, "venue") {
            Ok(v) => v,
            Err(e) => return Err(e),
        };
        Ok(Event { id, title, description, start_date, attendance, reviews, url, website, images, venue })
    }

    /// The event as text, one field to a line.
    pub fn to_string(&self) -> (r: String)
        ensures
            r@ == event_text(*self),
    {
        let mut out = "Title: ".to_owned();
        out.append(self.title.as_str());
        out.append("\nDescription: ");
        out.append(self.description.as_str());
        out.append("\nStart date: ");
        out.append(self.start_date.as_str());
        out.append("\nURL: ");
        out.append(self.url.as_str());
        out.append("\nWebsite: ");
        out.append(self.website.as_str());
        out.append("\nImages:\n");
        let images = self.images.to_string();
        out.append(images.as_str());
        out.append("\nVenue:\n");
        let venue = self.venue.to_string();
        out.append(venue.as_str());
        assert(out@ =~= event_text(*self));
        out
    }
}

} // verus!
