//! The venue of an event.

use crate::decode::{opt_field, opt_field_decodable, opt_field_decodes_to, Decode};
use crate::error::DecodeError;
use crate::image::{append_shown, shown};
use crate::json::Json;
use crate::location::{location_text, Location};
use vstd::prelude::*;

verus! {

/// Where an event takes place.
#[derive(Debug)]
pub struct Venue {
    pub id: Option<u32>,
    pub name: Option<String>,
    pub url: Option<String>,
    pub website: Option<String>,
    pub phonenumber: Option<String>,
    pub location: Option<Location>,
}

impl Decode for Venue {
    open spec fn decodable(j: Json) -> bool {
        &&& j is Object
        &&& opt_field_decodable::<u32>(j, "id"@)
        &&& opt_field_decodable::<String>(j, "name"@)
        &&& opt_field_decodable::<String>(j, "url"@)
        &&& opt_field_decodable::<String>(j, "website"@)
        &&& opt_field_decodable::<String>(j, "phonenumber"@)
        &&& opt_field_decodable::<Location>(j, "location"@)
    }

    open spec fn decodes_to(j: Json, v: Venue) -> bool {
        &&& opt_field_decodes_to::<u32>(j, "id"@, v.id)
        &&& opt_field_decodes_to::<String>(j, "name"@, v.name)
        &&& opt_field_decodes_to::<String>(j, "url"@, v.url)
        &&& opt_field_decodes_to::<String>(j, "website"@, v.website)
        &&& opt_field_decodes_to::<String>(j, "phonenumber"@, v.phonenumber)
        &&& opt_field_decodes_to::<Location>(j, "location"@, v.location)
    }

    fn decode(j: &Json) -> (r: Result<Venue, DecodeError>) {
        if !j.is_object() {
            return Err(DecodeError::Unexpected(j.kind()));
        }
        let id = match opt_field::<u32>(j, "id") {
            Ok(v) => v,
            Err(e) => return Err(e),
        };
        let name = match opt_field::<String>(j, "name") {
            Ok(v) => v,
            Err(e) => return Err(e),
        };
        let url = match opt_field::<String>(j, "url") {
            Ok(v) => v,
            Err(e) => return Err(e),
        };
        let website = match opt_field::<String>(j, "website") {
            Ok(v) => v,
            Err(e) => return Err(e),
        };
        let phonenumber = match opt_field::<String>(j, "phonenumber") {
            Ok(v) => v,
            Err(e) => return Err(e),
        };
        let location = match opt_field::<Location>(j, "location") {
            Ok(v) => v,
            Err(e) => return Err(e),
        };
        Ok(Venue { id, name, url, website, phonenumber, location })
    }
}

/// The text of the location of a venue, or nothing where it has none.
pub open spec fn shown_location(l: Option<Location>) -> Seq<char> {
    match l {
        Some(x) => location_text(x),
        None => Seq::empty(),
    }
}

/// The text of the venue `v`: its name, its phone number, and its location.
pub open spec fn venue_text(v: Venue) -> Seq<char> {
    "  Name: "@ + shown(v.name) + "\n  Phone Number: "@ + shown(v.phonenumber) + "\n  Location:\n"@
        + shown_location(v.location)
}

impl Venue {
    /// The venue as text, on indented lines.
    pub fn to_string(&self) -> (r: String)
        ensures
            r@ == venue_text(*self),
    {
        let mut out = "  Name: ".to_owned();
        append_shown(&mut out, &self.name);
        out.append("\n  Phone Number: ");
        append_shown(&mut out, &self.phonenumber);
        out.append("\n  Location:\n");
        match &self.location {
            Some(l) => {
                let text = l.to_string();
                out.append(text.as_str());
            },
            None => {},
        }
        assert(out@ =~= venue_text(*self));
        out
    }
}

} // verus!
