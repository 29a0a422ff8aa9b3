//! The top artists endpoint, `user.getTopArtists`.

use crate::decode::{
    field, field_decodable, field_decodes_to, list_field, list_field_decodable,
    list_field_decodes_to, Decode,
};
use crate::error::{DecodeError, Error};
use crate::json::{json_of, json_text_accepted, Json};
use crate::model::{Attributes, Artist};
use crate::query::{append_param, pair_views, query_param, request_url};
use crate::response::{parse_response, read_in_envelope, read_response};
use crate::user::User;
use crate::{Client, RequestBuilder};
use vstd::prelude::*;

verus! {

/// The artists a user has played most, one page of them.
#[derive(Debug)]
pub struct TopArtists {
    /// The pagination attributes of the listing.
    pub attrs: Attributes,
    /// The artists the user has played most.
    pub artists: Vec<Artist>,
}

impl Decode for TopArtists {
    open spec fn decodable(j: Json) -> bool {
        &&& j is Object
        &&& field_decodable::<Attributes>(j, "@attr"@)
        &&& list_field_decodable::<Artist>(j, "artist"@)
    }

    open spec fn decodes_to(j: Json, v: TopArtists) -> bool {
        &&& field_decodes_to::<Attributes>(j, "@attr"@, v.attrs)
        &&& list_field_decodes_to::<Artist>(j, "artist"@, v.artists@)
    }

    fn decode(j: &Json) -> (r: Result<TopArtists, DecodeError>) {
        if !j.is_object() {
            return Err(DecodeError::Unexpected(j.kind()));
        }
        let attrs = match field::<Attributes>(j, "@attr") {
            Ok(v) => v,
            Err(e) => return Err(e),
        };
        let artists = match list_field::<Artist>(j, "artist") {
            Ok(v) => v,
            Err(e) => return Err(e),
        };
        Ok(TopArtists { attrs, artists })
    }
}

impl TopArtists {
    /// The request to `user.getTopArtists` for the user `user`.
    pub fn build(client: &Client, user: &str) -> (r: RequestBuilder<TopArtists>)
        ensures
            r@ == request_url(client@, seq![("method"@, "user.getTopArtists"@), ("user"@, user@)]),
    {
        let params = vec![("method", "user.getTopArtists"), ("user", user)];
        let url = client.build_url(&params);
        assert(pair_views(params@) =~= seq![("method"@, "user.getTopArtists"@), ("user"@, user@)]);
        RequestBuilder::from_url(url)
    }

    /// Reads a response of `user.getTopArtists`: the classified error where it is an error
    /// body, else the listing under `topartists` of the user envelope.
    pub fn from_response(j: &Json) -> (r: Result<TopArtists, Error>)
        ensures
            read_in_envelope::<TopArtists, User>(*j, "topartists"@, r),
    {
        match read_response::<User>(j) {
            Ok(user) => match user.top_artists {
                Some(v) => Ok(v),
                None => Err(Error::ParsingError(DecodeError::Missing("topartists".to_owned()))),
            },
            Err(e) => Err(e),
        }
    }
}

/// The time window that the statistics of a listing cover.
#[derive(Clone, Copy, Debug, PartialEq, Eq, Structural, Hash, PartialOrd, Ord)]
pub enum Period {
    /// The past 7 days.
    SevenDays,
    /// The past month.
    OneMonth,
    /// The past three months.
    ThreeMonths,
    /// The past six months.
    SixMonths,
    /// The past twelve months.
    TwelveMonths,
    /// The past year: the same window as `TwelveMonths`, under a shorter name.
    OneYear,
    /// Everything since the user's account was created.
    Overall,
}

/// The value that Last.fm expects for the period `p`.
pub open spec fn period_token(p: Period) -> Seq<char> {
    match p {
        Period::SevenDays => "7day"@,
        Period::OneMonth => "1month"@,
        Period::ThreeMonths => "3month"@,
        Period::SixMonths => "6month"@,
        Period::TwelveMonths => "12month"@,
        Period::OneYear => "12month"@,
        Period::Overall => "overall"@,
    }
}

impl Period {
    /// The value of the `period` parameter for this period.
    pub fn to_string(&self) -> (r: String)
        ensures
            r@ == period_token(*self),
    {
        match self {
            Period::Overall => "overall".to_owned(),
            Period::SevenDays => "7day".to_owned(),
            Period::OneMonth => "1month".to_owned(),
            Period::ThreeMonths => "3month".to_owned(),
            Period::SixMonths => "6month".to_owned(),
            Period::TwelveMonths => "12month".to_owned(),
            Period::OneYear => "12month".to_owned(),
        }
    }
}

/// Both names of the twelve-month window ask Last.fm for the same thing.
pub proof fn lemma_year_is_twelve_months()
    ensures
        period_token(Period::TwelveMonths) == period_token(Period::OneYear),
{
}

impl RequestBuilder<TopArtists> {
    /// Attaches `period`: the time window the listing covers.
    pub fn within_period(self, period: Period) -> (r: RequestBuilder<TopArtists>)
        ensures
            r@ == self@ + query_param("period"@, period_token(period)),
    {
        let mut url = self.into_url();
        let token = period.to_string();
        append_param(&mut url, "period", token.as_str());
        RequestBuilder::from_url(url)
    }

    /// Completes the request with what the transport brought back for `url()`:
    /// the body, or the transport's failure.
    pub fn send(&self, response: Result<String, String>) -> (r: Result<TopArtists, Error>)
        ensures
            match response {
                Err(m) => r matches Err(Error::HTTPError(x)) && x == m,
                Ok(body) => if json_text_accepted(body@) {
                    read_in_envelope::<TopArtists, User>(json_of(body@), "topartists"@, r)
                } else {
                    r matches Err(Error::ParsingError(DecodeError::Syntax))
                },
            },
    {
        match parse_response(response) {
            Ok(j) => TopArtists::from_response(&j),
            Err(e) => Err(e),
        }
    }
}

impl Client {
    /// The request for the top artists of the user `user`.
    pub fn top_artists(&self, user: &str) -> (r: RequestBuilder<TopArtists>)
        ensures
            r@ == request_url(self@, seq![("method"@, "user.getTopArtists"@), ("user"@, user@)]),
    {
        TopArtists::build(self, user)
    }
}

} // verus!
