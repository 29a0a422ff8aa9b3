//! Request URLs: the base endpoint, the fixed parameters, and the parameters of
//! each call, form-encoded as the `url` crate encodes query pairs.

use crate::number::{decimal, to_decimal};
use vstd::prelude::*;
use vstd::utf8::encode_utf8;

verus! {

/// Whether form encoding leaves the byte `b` as it is.
pub open spec fn kept_byte(b: u8) -> bool {
    b == 0x2a || b == 0x2d || b == 0x2e || (0x30 <= b <= 0x39) || (0x41 <= b <= 0x5a) || b == 0x5f
        || (0x61 <= b <= 0x7a)
}

/// The upper-case hexadecimal digit for `d`, which is below 16.
pub open spec fn hex_digit(d: u8) -> char {
    if d < 10 {
        (d + 0x30) as char
    } else {
        (d - 10 + 0x41) as char
    }
}

/// How form encoding writes the byte `b`: as itself, a space as `+`, any other
/// byte as `%` and two upper-case hexadecimal digits.
pub open spec fn encoded_byte(b: u8) -> Seq<char> {
    if kept_byte(b) {
        seq![b as char]
    } else if b == 0x20 {
        seq!['+']
    } else {
        seq!['%', hex_digit(b / 16), hex_digit(b % 16)]
    }
}

/// The form encoding of the bytes `b`.
pub open spec fn encoded_bytes(b: Seq<u8>) -> Seq<char>
    decreases b.len(),
{
    if b.len() == 0 {
        Seq::empty()
    } else {
        encoded_bytes(b.drop_last()) + encoded_byte(b.last())
    }
}

/// The form encoding of the UTF-8 bytes of `s`.
pub open spec fn form_encoded(s: Seq<char>) -> Seq<char> {
    encoded_bytes(encode_utf8(s))
}

/// Relies on url::form_urlencoded::byte_serialize, the encoding that url's
/// `append_pair` applies to each key and value of a query.
#[verifier::external_body]
fn form_encode(s: &str) -> (r: String)
    ensures
        r@ == form_encoded(s@),
{
    url::form_urlencoded::byte_serialize(s.as_bytes()).collect::<String>()
}

/// One query parameter as it follows others: `&key=value`, both encoded.
pub open spec fn query_param(key: Seq<char>, value: Seq<char>) -> Seq<char> {
    "&"@ + form_encoded(key) + "="@ + form_encoded(value)
}

/// The parameters `params`, in order, each as `&key=value`.
pub open spec fn query_params(params: Seq<(Seq<char>, Seq<char>)>) -> Seq<char>
    decreases params.len(),
{
    if params.len() == 0 {
        Seq::empty()
    } else {
        query_params(params.drop_last()) + query_param(params.last().0, params.last().1)
    }
}

/// The URL of a call: the base endpoint, the API key and the JSON format, then
/// the parameters of the call in the order given.
pub open spec fn request_url(api_key: Seq<char>, params: Seq<(Seq<char>, Seq<char>)>) -> Seq<char> {
    "http://ws.audioscrobbler.com/2.0/?api_key="@ + form_encoded(api_key) + "&format=json"@
        + query_params(params)
}

/// Relies on url::form_urlencoded::Serializer::append_pair, the step of url's
/// `query_pairs_mut` that adds one pair: on a query that is not empty, it adds
/// `&`, the encoded key, `=` and the encoded value.
#[verifier::external_body]
fn append_query_pair(url: &mut String, key: &str, value: &str)
    requires
        old(url)@.len() > 0,
    ensures
        final(url)@ == old(url)@ + query_param(key@, value@),
{
    url::form_urlencoded::Serializer::for_suffix(url, 0).append_pair(key, value);
}

/// Appends `&key=value` to `url`, both encoded.
pub fn append_param(url: &mut String, key: &str, value: &str)
    requires
        old(url)@.len() > 0,
    ensures
        final(url)@ == old(url)@ + query_param(key@, value@),
{
    append_query_pair(url, key, value);
}

/// Appends `&key=n`, with `n` in decimal.
pub fn append_number(url: &mut String, key: &str, n: u64)
    requires
        old(url)@.len() > 0,
    ensures
        final(url)@ == old(url)@ + query_param(key@, decimal(n as nat)),
{
    let digits = to_decimal(n);
    append_param(url, key, digits.as_str());
}

/// The views of the pairs of `params`.
pub open spec fn pair_views(params: Seq<(&str, &str)>) -> Seq<(Seq<char>, Seq<char>)> {
    params.map_values(|p: (&str, &str)| (p.0@, p.1@))
}

/// Builds the URL of a call with the API key `api_key` and the parameters `params`.
pub fn build_url(api_key: &str, params: &Vec<(&str, &str)>) -> (r: String)
    ensures
        r@ == request_url(api_key@, pair_views(params@)),
        r@.len() > 0,
{
    let mut url = "http://ws.audioscrobbler.com/2.0/?api_key=".to_owned();
    let key = form_encode(api_key);
    url.append(key.as_str());
    url.append("&format=json");
    proof {
        reveal_strlit("&format=json");
    }
    let mut i: usize = 0;
    while i < params.len()
        invariant
            i <= params@.len(),
            url@ == request_url(api_key@, pair_views(params@.subrange(0, i as int))),
            url@.len() > 0,
        decreases params@.len() - i,
    {
        let (k, v) = params[i];
        append_param(&mut url, k, v);
        proof {
            let before = pair_views(params@.subrange(0, i as int));
            let after = pair_views(params@.subrange(0, i + 1));
            assert(after.drop_last() =~= before);
            assert(after.last() == (k@, v@));
        }
        i = i + 1;
    }
    assert(params@.subrange(0, params@.len() as int) =~= params@);
    url
}

} // verus!
