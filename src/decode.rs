//! Decoding typed records out of a `Json` tree.
//!
//! A type that can be decoded states, as two spec functions, on which values it
//! succeeds and which record it makes of them. The helpers here decode fields
//! of objects, lists, optional members, text wrapped as `{"#text": ...}`, and
//! fields that arrive either as a bare string or as an object.

use crate::error::DecodeError;
use crate::json::{kind_of, member, Json};
use crate::number::{integer_text, parse_u32};
use vstd::prelude::*;

verus! {

/// A record that can be decoded from a JSON value.
pub trait Decode: Sized {
    /// Whether `j` decodes to a value of this type.
    spec fn decodable(j: Json) -> bool;

    /// Whether `v` is the value that `j` decodes to.
    spec fn decodes_to(j: Json, v: Self) -> bool;

    fn decode(j: &Json) -> (r: Result<Self, DecodeError>)
        ensures
            match r {
                Ok(v) => Self::decodable(*j) && Self::decodes_to(*j, v),
                Err(_) => !Self::decodable(*j),
            };
}

/// A record that can also be made from a bare name.
pub trait FromName: Sized {
    /// The record made from the name `s`.
    spec fn named(s: String) -> Self;

    fn from_name(s: &String) -> (r: Self)
        ensures
            r == Self::named(*s);
}

impl Decode for String {
    open spec fn decodable(j: Json) -> bool {
        j is Str
    }

    open spec fn decodes_to(j: Json, v: String) -> bool {
        j == Json::Str(v)
    }

    fn decode(j: &Json) -> (r: Result<String, DecodeError>) {
        match j {
            Json::Str(s) => Ok(s.clone()),
            _ => Err(DecodeError::Unexpected(j.kind())),
        }
    }
}

impl Decode for u32 {
    /// A number, or a string that writes one, in the range of `u32`.
    open spec fn decodable(j: Json) -> bool {
        match j {
            Json::Int(n) => 0 <= n <= u32::MAX,
            Json::Str(s) => integer_text(s@, false) matches Some(n) && 0 <= n <= u32::MAX,
            _ => false,
        }
    }

    open spec fn decodes_to(j: Json, v: u32) -> bool {
        match j {
            Json::Int(n) => n == v,
            Json::Str(s) => integer_text(s@, false) == Some(v as int),
            _ => false,
        }
    }

    fn decode(j: &Json) -> (r: Result<u32, DecodeError>) {
        match j {
            Json::Int(n) => {
                if 0 <= *n && *n <= u32::MAX as i64 {
                    Ok(*n as u32)
                } else {
                    Err(DecodeError::InvalidNumber)
                }
            },
            Json::Str(s) => match parse_u32(s.as_str()) {
                Some(v) => Ok(v),
                None => Err(DecodeError::InvalidNumber),
            },
            _ => Err(DecodeError::Unexpected(j.kind())),
        }
    }
}

/// Whether `j` is a list whose elements all decode.
pub open spec fn list_decodable<T: Decode>(j: Json) -> bool {
    match j {
        Json::Array(items) => forall|i: int|
            0 <= i < items@.len() ==> #[trigger] T::decodable(items@[i]),
        _ => false,
    }
}

/// Whether `v` holds what the elements of the list `j` decode to, in order.
pub open spec fn list_decodes_to<T: Decode>(j: Json, v: Seq<T>) -> bool {
    match j {
        Json::Array(items) => items@.len() == v.len() && forall|i: int|
            0 <= i < v.len() ==> #[trigger] T::decodes_to(items@[i], v[i]),
        _ => false,
    }
}

/// Decodes a list, element by element.
pub fn decode_list<T: Decode>(j: &Json) -> (r: Result<Vec<T>, DecodeError>)
    ensures
        match r {
            Ok(v) => list_decodable::<T>(*j) && list_decodes_to::<T>(*j, v@),
            Err(_) => !list_decodable::<T>(*j),
        },
{
    match j {
        Json::Array(items) => {
            let mut out: Vec<T> = Vec::new();
            let mut i: usize = 0;
            while i < items.len()
                invariant
                    *j == Json::Array(*items),
                    i <= items@.len(),
                    out@.len() == i,
                    forall|k: int| 0 <= k < i ==> #[trigger] T::decodable(items@[k]),
                    forall|k: int| 0 <= k < i ==> #[trigger] T::decodes_to(items@[k], out@[k]),
                decreases items@.len() - i,
            {
                match T::decode(&items[i]) {
                    Ok(v) => out.push(v),
                    Err(e) => {
                        assert((*j)->Array_0 == *items);
                        return Err(DecodeError::AtIndex(i, Box::new(e)));
                    },
                }
                i = i + 1;
            }
            Ok(out)
        },
        _ => Err(DecodeError::Unexpected(j.kind())),
    }
}

/// Whether the member `key` of `j` is a list whose elements all decode.
pub open spec fn list_field_decodable<T: Decode>(j: Json, key: Seq<char>) -> bool {
    match member(j, key) {
        Some(x) => list_decodable::<T>(x),
        None => false,
    }
}

/// Whether `v` holds what the elements of the list under `key` in `j` decode to.
pub open spec fn list_field_decodes_to<T: Decode>(j: Json, key: Seq<char>, v: Seq<T>) -> bool {
    match member(j, key) {
        Some(x) => list_decodes_to::<T>(x, v),
        None => false,
    }
}

/// Decodes the required list under `key` in `j`.
pub fn list_field<T: Decode>(j: &Json, key: &str) -> (r: Result<Vec<T>, DecodeError>)
    ensures
        match r {
            Ok(v) => list_field_decodable::<T>(*j, key@) && list_field_decodes_to::<T>(*j, key@, v@),
            Err(e) => !list_field_decodable::<T>(*j, key@) && field_error(*j, key@, e),
        },
{
    match j.get(key) {
        Some(x) => match decode_list::<T>(x) {
            Ok(v) => Ok(v),
            Err(e) => Err(DecodeError::InField(key.to_owned(), Box::new(e))),
        },
        None => Err(DecodeError::Missing(key.to_owned())),
    }
}

/// Whether the list under `key` in `j` is absent, `null`, or decodes.
pub open spec fn opt_list_field_decodable<T: Decode>(j: Json, key: Seq<char>) -> bool {
    match member(j, key) {
        Some(Json::Null) => true,
        Some(x) => list_decodable::<T>(x),
        None => true,
    }
}

/// Whether `v` is what the optional list under `key` in `j` decodes to.
pub open spec fn opt_list_field_decodes_to<T: Decode>(j: Json, key: Seq<char>, v: Option<Vec<T>>) -> bool {
    match member(j, key) {
        Some(Json::Null) => v is None,
        Some(x) => v matches Some(l) && list_decodes_to::<T>(x, l@),
        None => v is None,
    }
}

/// Decodes the optional list under `key` in `j`: nothing where it is absent or `null`.
pub fn opt_list_field<T: Decode>(j: &Json, key: &str) -> (r: Result<Option<Vec<T>>, DecodeError>)
    ensures
        match r {
            Ok(v) => opt_list_field_decodable::<T>(*j, key@) && opt_list_field_decodes_to::<T>(*j, key@, v),
            Err(e) => !opt_list_field_decodable::<T>(*j, key@) && field_error(*j, key@, e),
        },
{
    match j.get(key) {
        Some(Json::Null) => Ok(None),
        Some(x) => match decode_list::<T>(x) {
            Ok(v) => Ok(Some(v)),
            Err(e) => Err(DecodeError::InField(key.to_owned(), Box::new(e))),
        },
        None => Ok(None),
    }
}

/// Whether the member `key` of `j` is present and decodes.
pub open spec fn field_decodable<T: Decode>(j: Json, key: Seq<char>) -> bool {
    match member(j, key) {
        Some(x) => T::decodable(x),
        None => false,
    }
}

/// Whether `v` is what the member `key` of `j` decodes to.
pub open spec fn field_decodes_to<T: Decode>(j: Json, key: Seq<char>, v: T) -> bool {
    match member(j, key) {
        Some(x) => T::decodes_to(x, v),
        None => false,
    }
}

/// Whether the member `key` of `j` is absent, `null`, or decodes.
pub open spec fn opt_field_decodable<T: Decode>(j: Json, key: Seq<char>) -> bool {
    match member(j, key) {
        Some(Json::Null) => true,
        Some(x) => T::decodable(x),
        None => true,
    }
}

/// Whether `v` is what the optional member `key` of `j` decodes to: nothing where
/// it is absent or `null`.
pub open spec fn opt_field_decodes_to<T: Decode>(j: Json, key: Seq<char>, v: Option<T>) -> bool {
    match member(j, key) {
        Some(Json::Null) => v is None,
        Some(x) => v matches Some(y) && T::decodes_to(x, y),
        None => v is None,
    }
}

/// Whether `e` names the field `key` of `j` as the one that failed: missing
/// where `j` has no such member, holding a value that does not decode otherwise.
pub open spec fn field_error(j: Json, key: Seq<char>, e: DecodeError) -> bool {
    match member(j, key) {
        Some(_) => e matches DecodeError::InField(k, _) && k@ == key,
        None => e matches DecodeError::Missing(k) && k@ == key,
    }
}

/// Whether `e` reports the shape of `x` as the wrong one.
pub open spec fn wrong_shape(x: Json, e: DecodeError) -> bool {
    e matches DecodeError::Unexpected(k) && k == kind_of(x)
}

/// Whether `e`, where the member `key` of `j` is neither an object nor `null`,
/// reports the shape of that member inside the field's error.
pub open spec fn field_shape_reported(j: Json, key: Seq<char>, e: DecodeError) -> bool {
    match member(j, key) {
        Some(x) => (!(x is Object) && !(x is Null)) ==> (e matches DecodeError::InField(_, b)
            && wrong_shape(x, *b)),
        None => true,
    }
}

/// Whether `j` has a member `key` that is not `null`.
pub open spec fn present(j: Json, key: Seq<char>) -> bool {
    member(j, key) matches Some(x) && !(x is Null)
}

/// Decodes the required member `key` of `j`.
pub fn field<T: Decode>(j: &Json, key: &str) -> (r: Result<T, DecodeError>)
    ensures
        match r {
            Ok(v) => field_decodable::<T>(*j, key@) && field_decodes_to::<T>(*j, key@, v),
            Err(e) => !field_decodable::<T>(*j, key@) && field_error(*j, key@, e),
        },
{
    match j.get(key) {
        Some(x) => match T::decode(x) {
            Ok(v) => Ok(v),
            Err(e) => Err(DecodeError::InField(key.to_owned(), Box::new(e))),
        },
        None => Err(DecodeError::Missing(key.to_owned())),
    }
}

/// Decodes the optional member `key` of `j`: nothing where it is absent or `null`.
pub fn opt_field<T: Decode>(j: &Json, key: &str) -> (r: Result<Option<T>, DecodeError>)
    ensures
        match r {
            Ok(v) => opt_field_decodable::<T>(*j, key@) && opt_field_decodes_to::<T>(*j, key@, v),
            Err(e) => !opt_field_decodable::<T>(*j, key@) && field_error(*j, key@, e),
        },
{
    match j.get(key) {
        Some(Json::Null) => Ok(None),
        Some(x) => match T::decode(x) {
            Ok(v) => Ok(Some(v)),
            Err(e) => Err(DecodeError::InField(key.to_owned(), Box::new(e))),
        },
        None => Ok(None),
    }
}

/// The text that `j` carries as `{"#text": "..."}`, if any.
pub open spec fn wrapped_text(j: Json) -> Option<String> {
    match member(j, "#text"@) {
        Some(Json::Str(s)) => Some(s),
        _ => None,
    }
}

/// Unwraps a value sent as `{"#text": "..."}` into its text.
pub fn unwrap_text(j: &Json) -> (r: Result<String, DecodeError>)
    ensures
        match r {
            Ok(s) => wrapped_text(*j) == Some(s),
            Err(_) => wrapped_text(*j) is None,
        },
{
    field::<String>(j, "#text")
}

/// Whether `j` decodes as a field that is either a bare name or an object.
pub open spec fn name_or_struct_decodable<T: Decode + FromName>(j: Json) -> bool {
    match j {
        Json::Str(_) => true,
        Json::Object(_) => T::decodable(j),
        _ => false,
    }
}

/// Whether `v` is what `j` decodes to as a field that is either a bare name,
/// made into a record by `FromName`, or an object, decoded by `Decode`.
pub open spec fn name_or_struct_decodes_to<T: Decode + FromName>(j: Json, v: T) -> bool {
    match j {
        Json::Str(s) => v == T::named(s),
        Json::Object(_) => T::decodes_to(j, v),
        _ => false,
    }
}

/// Decodes a value that arrives either as a bare string or as an object.
///
/// Any other shape fails, with an error that names the shape found.
pub fn string_or_struct<T: Decode + FromName>(j: &Json) -> (r: Result<T, DecodeError>)
    ensures
        match r {
            Ok(v) => name_or_struct_decodable::<T>(*j) && name_or_struct_decodes_to::<T>(*j, v),
            Err(e) => !name_or_struct_decodable::<T>(*j) && (!(*j is Object) ==> wrong_shape(*j, e)),
        },
{
    match j {
        Json::Str(s) => Ok(T::from_name(s)),
        Json::Object(_) => T::decode(j),
        _ => Err(DecodeError::Unexpected(j.kind())),
    }
}

/// Decodes an optional value that arrives as `null`, a bare string or an object.
pub fn option_string_or_struct<T: Decode + FromName>(j: &Json) -> (r: Result<Option<T>, DecodeError>)
    ensures
        match r {
            Ok(None) => *j is Null,
            Ok(Some(v)) => name_or_struct_decodable::<T>(*j) && name_or_struct_decodes_to::<T>(*j, v),
            Err(e) => !(*j is Null) && !name_or_struct_decodable::<T>(*j) && (!(*j is Object)
                ==> wrong_shape(*j, e)),
        },
{
    match j {
        Json::Null => Ok(None),
        _ => match string_or_struct::<T>(j) {
            Ok(v) => Ok(Some(v)),
            Err(e) => Err(e),
        },
    }
}

/// Whether the member `key` of `j` is present and decodes as a bare name or an object.
pub open spec fn name_or_struct_field_decodable<T: Decode + FromName>(j: Json, key: Seq<char>) -> bool {
    match member(j, key) {
        Some(x) => name_or_struct_decodable::<T>(x),
        None => false,
    }
}

/// Whether `v` is what the member `key` of `j` decodes to, as a bare name or an object.
pub open spec fn name_or_struct_field_decodes_to<T: Decode + FromName>(
    j: Json,
    key: Seq<char>,
    v: T,
) -> bool {
    match member(j, key) {
        Some(x) => name_or_struct_decodes_to::<T>(x, v),
        None => false,
    }
}

/// Whether the member `key` of `j` is absent, `null`, a bare name, or an object that decodes.
pub open spec fn opt_name_or_struct_field_decodable<T: Decode + FromName>(
    j: Json,
    key: Seq<char>,
) -> bool {
    match member(j, key) {
        Some(Json::Null) => true,
        Some(x) => name_or_struct_decodable::<T>(x),
        None => true,
    }
}

/// Whether `v` is what the optional member `key` of `j` decodes to, as a bare
/// name or an object: nothing where it is absent or `null`.
pub open spec fn opt_name_or_struct_field_decodes_to<T: Decode + FromName>(
    j: Json,
    key: Seq<char>,
    v: Option<T>,
) -> bool {
    match member(j, key) {
        Some(Json::Null) => v is None,
        Some(x) => v matches Some(y) && name_or_struct_decodes_to::<T>(x, y),
        None => v is None,
    }
}

/// Decodes the required member `key` of `j`, sent as a bare name or as an object.
pub fn string_or_struct_field<T: Decode + FromName>(j: &Json, key: &str) -> (r: Result<T, DecodeError>)
    ensures
        match r {
            Ok(v) => name_or_struct_field_decodable::<T>(*j, key@)
                && name_or_struct_field_decodes_to::<T>(*j, key@, v),
            Err(e) => !name_or_struct_field_decodable::<T>(*j, key@) && field_error(*j, key@, e)
                && field_shape_reported(*j, key@, e),
        },
{
    match j.get(key) {
        Some(x) => match string_or_struct::<T>(x) {
            Ok(v) => Ok(v),
            Err(e) => Err(DecodeError::InField(key.to_owned(), Box::new(e))),
        },
        None => Err(DecodeError::Missing(key.to_owned())),
    }
}

/// Decodes the optional member `key` of `j`, sent as `null`, a bare name or an object.
pub fn option_string_or_struct_field<T: Decode + FromName>(j: &Json, key: &str) -> (r: Result<
    Option<T>,
    DecodeError,
>)
    ensures
        match r {
            Ok(v) => opt_name_or_struct_field_decodable::<T>(*j, key@)
                && opt_name_or_struct_field_decodes_to::<T>(*j, key@, v),
            Err(e) => !opt_name_or_struct_field_decodable::<T>(*j, key@) && field_error(*j, key@, e)
                && field_shape_reported(*j, key@, e),
        },
{
    match j.get(key) {
        Some(x) => match option_string_or_struct::<T>(x) {
            Ok(v) => Ok(v),
            Err(e) => Err(DecodeError::InField(key.to_owned(), Box::new(e))),
        },
        None => Ok(None),
    }
}

/// Whether `v` is what a lenient read of the member `key` of `j` gives: the
/// decoded value where the member is present and decodes, nothing otherwise.
pub open spec fn lenient_field_decodes_to<T: Decode>(j: Json, key: Seq<char>, v: Option<T>) -> bool {
    match member(j, key) {
        Some(x) => if T::decodable(x) {
            v matches Some(y) && T::decodes_to(x, y)
        } else {
            v is None
        },
        None => v is None,
    }
}

/// Reads the member `key` of `j` leniently: nothing where it is absent or does not decode.
pub fn lenient_field<T: Decode>(j: &Json, key: &str) -> (r: Option<T>)
    ensures
        lenient_field_decodes_to::<T>(*j, key@, r),
{
    match j.get(key) {
        Some(x) => match T::decode(x) {
            Ok(v) => Some(v),
            Err(_) => None,
        },
        None => None,
    }
}

/// Whether `v` is what a lenient read of the list under `key` in `j` gives.
pub open spec fn lenient_list_field_decodes_to<T: Decode>(
    j: Json,
    key: Seq<char>,
    v: Option<Vec<T>>,
) -> bool {
    match member(j, key) {
        Some(x) => if list_decodable::<T>(x) {
            v matches Some(l) && list_decodes_to::<T>(x, l@)
        } else {
            v is None
        },
        None => v is None,
    }
}

/// Reads the list under `key` in `j` leniently: nothing where it is absent or
/// one of its elements does not decode.
pub fn lenient_list_field<T: Decode>(j: &Json, key: &str) -> (r: Option<Vec<T>>)
    ensures
        lenient_list_field_decodes_to::<T>(*j, key@, r),
{
    match j.get(key) {
        Some(x) => match decode_list::<T>(x) {
            Ok(v) => Some(v),
            Err(_) => None,
        },
        None => None,
    }
}

} // verus!
