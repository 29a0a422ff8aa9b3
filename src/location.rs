//! Where a venue is.

use crate::decode::{opt_field, opt_field_decodable, opt_field_decodes_to, Decode};
use crate::error::DecodeError;
use crate::image::{append_shown, shown};
use crate::json::Json;
use vstd::prelude::*;

verus! {

/// The address of a venue.
#[derive(Debug)]
pub struct Location {
    pub city: Option<String>,
    pub country: Option<String>,
    pub street: Option<String>,
    pub postalcode: Option<String>,
}

impl Decode for Location {
    open spec fn decodable(j: Json) -> bool {
        &&& j is Object
        &&& opt_field_decodable::<String>(j, "city"@)
        &&& opt_field_decodable::<String>(j, "country"@)
        &&& opt_field_decodable::<String>(j, "street"@)
        &&& opt_field_decodable::<String>(j, "postalcode"@)
    }

    open spec fn decodes_to(j: Json, v: Location) -> bool {
        &&& opt_field_decodes_to::<String>(j, "city"@, v.city)
        &&& opt_field_decodes_to::<String>(j, "country"@, v.country)
        &&& opt_field_decodes_to::<String>(j, "street"@, v.street)
        &&& opt_field_decodes_to::<String>(j, "postalcode"@, v.postalcode)
    }

    fn decode(j: &Json) -> (r: Result<Location, DecodeError>) {
        if !j.is_object() {
            return Err(DecodeError::Unexpected(j.kind()));
        }
        let city = match opt_field::<String>(j, "city") {
            Ok(v) => v,
            Err(e) => return Err(e),
        };
        let country = match opt_field::<String>(j, "country") {
            Ok(v) => v,
            Err(e) => return Err(e),
        };
        let street = match opt_field::<String>(j, "street") {
            Ok(v) => v,
            Err(e) => return Err(e),
        };
        let postalcode = match opt_field::<String>(j, "postalcode") {
            Ok(v) => v,
            Err(e) => return Err(e),
        };
        Ok(Location { city, country, street, postalcode })
    }
}

/// The text of the location `l`: city and country, then street and postal code.
pub open spec fn location_text(l: Location) -> Seq<char> {
    "    City: "@ + shown(l.city) + " ("@ + shown(l.country) + ")\n    Address: "@ + shown(l.street)
        + " - "@ + shown(l.postalcode)
}

impl Location {
    /// The location as text, on two indented lines.
    pub fn to_string(&self) -> (r: String)
        ensures
            r@ == location_text(*self),
    {
        let mut out = "    City: ".to_owned();
        append_shown(&mut out, &self.city);
        out.append(" (");
        append_shown(&mut out, &self.country);
        out.append(")\n    Address: ");
        append_shown(&mut out, &self.street);
        out.append(" - ");
        append_shown(&mut out, &self.postalcode);
        assert(out@ =~= location_text(*self));
        out
    }
}

} // verus!
