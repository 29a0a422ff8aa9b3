//! Images of the artist and event endpoints.

use crate::decode::Decode;
use crate::error::DecodeError;
use crate::json::{member, Json};
use vstd::prelude::*;

verus! {

/// An image: its size and its URL, each where Last.fm sent one.
#[derive(Debug)]
pub struct Image {
    pub size: Option<String>,
    pub url: Option<String>,
}

/// The string under `key` in `j`, where there is one.
pub open spec fn string_member(j: Json, key: Seq<char>) -> Option<String> {
    match member(j, key) {
        Some(Json::Str(s)) => Some(s),
        _ => None,
    }
}

/// The string under `key` in `j`, where there is one.
pub fn string_member_of(j: &Json, key: &str) -> (r: Option<String>)
    ensures
        r == string_member(*j, key@),
{
    match j.get(key) {
        Some(Json::Str(s)) => Some(s.clone()),
        _ => None,
    }
}

impl Decode for Image {
    /// Any value reads as an image; a field that is not a string is left out.
    open spec fn decodable(j: Json) -> bool {
        true
    }

    open spec fn decodes_to(j: Json, v: Image) -> bool {
        v.size == string_member(j, "size"@) && v.url == string_member(j, "#text"@)
    }

    fn decode(j: &Json) -> (r: Result<Image, DecodeError>) {
        Ok(Image { size: string_member_of(j, "size"), url: string_member_of(j, "#text") })
    }
}

/// The text shown for an optional value: the value, or nothing.
pub open spec fn shown(o: Option<String>) -> Seq<char> {
    match o {
        Some(s) => s@,
        None => Seq::empty(),
    }
}

/// Appends the optional value `o` to `out`, or nothing where it is absent.
pub fn append_shown(out: &mut String, o: &Option<String>)
    ensures
        final(out)@ == old(out)@ + shown(*o),
{
    match o {
        Some(s) => out.append(s.as_str()),
        None => {
            assert(old(out)@ + Seq::<char>::empty() =~= old(out)@);
        },
    }
}

/// The line shown for the image `i`: its size and its URL.
pub open spec fn image_line(i: Image) -> Seq<char> {
    shown(i.size) + ": "@ + shown(i.url)
}

impl Image {
    /// The image as text: `size: url`.
    pub fn to_string(&self) -> (r: String)
        ensures
            r@ == image_line(*self),
    {
        let mut out = String::new();
        append_shown(&mut out, &self.size);
        out.append(": ");
        append_shown(&mut out, &self.url);
        assert(out@ =~= image_line(*self));
        out
    }
}

} // verus!
