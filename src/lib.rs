//! A typed client library for the Last.fm web API.
//!
//! The library builds request URLs, classifies error payloads sent back by the
//! service, and decodes the JSON responses of the supported endpoints into typed
//! records. Sending a request is left to the caller's transport: a request
//! builder hands out the URL to fetch, and its `send` takes what the transport
//! brought back and decodes it.

pub mod artist;
pub mod decode;
pub mod error;
pub mod event;
pub mod image;
pub mod image_collection;
pub mod json;
pub mod lastfm;
pub mod location;
pub mod model;
pub mod number;
pub mod query;
pub mod response;
pub mod search_results;
pub mod track;
pub mod user;
pub mod utilities;
pub mod venue;

use crate::number::decimal;
use crate::query::{append_number, build_url, pair_views, query_param, request_url};
use core::marker::PhantomData;
use vstd::prelude::*;

verus! {

/// The Last.fm client: the API key with which every request is made.
pub struct Client {
    /// The API key used to authenticate with Last.fm.
    api_key: String,
}

impl View for Client {
    type V = Seq<char>;

    /// The API key.
    closed spec fn view(&self) -> Seq<char> {
        self.api_key@
    }
}

impl Client {
    /// A client that authenticates with `api_key`.
    pub fn new(api_key: &str) -> (r: Client)
        ensures
            r@ == api_key@,
    {
        Client { api_key: api_key.to_owned() }
    }

    /// The URL of a call with the parameters `params`, after the API key and the format.
    pub fn build_url(&self, params: &Vec<(&str, &str)>) -> (r: String)
        ensures
            r@ == request_url(self@, pair_views(params@)),
            r@.len() > 0,
    {
        build_url(self.api_key.as_str(), params)
    }
}

/// A request to one endpoint, whose response decodes to a `T`.
///
/// Parameters are attached with the `with_...` methods, each of which hands the
/// builder back; `url` then gives the URL to fetch, and `send` decodes the
/// response.
pub struct RequestBuilder<T> {
    url: String,
    phantom: PhantomData<T>,
}

impl<T> View for RequestBuilder<T> {
    type V = Seq<char>;

    /// The URL built so far.
    closed spec fn view(&self) -> Seq<char> {
        self.url@
    }
}

impl<T> RequestBuilder<T> {
    /// A request always has a URL to go to.
    #[verifier::type_invariant]
    spec fn has_url(self) -> bool {
        self.url@.len() > 0
    }

    /// A request to the URL `url`.
    pub fn from_url(url: String) -> (r: RequestBuilder<T>)
        requires
            url@.len() > 0,
        ensures
            r@ == url@,
    {
        RequestBuilder { url, phantom: PhantomData }
    }

    /// The URL to fetch, handed over.
    pub(crate) fn into_url(self) -> (r: String)
        ensures
            r@ == self@,
            r@.len() > 0,
    {
        proof {
            use_type_invariant(&self);
        }
        self.url
    }

    /// The URL to fetch.
    pub fn url(&self) -> (r: &str)
        ensures
            r@ == self@,
    {
        self.url.as_str()
    }

    /// Attaches the parameter `key` with the number `n`.
    fn with_number(self, key: &str, n: u64) -> (r: RequestBuilder<T>)
        ensures
            r@ == self@ + query_param(key@, decimal(n as nat)),
    {
        let mut url = self.into_url();
        append_number(&mut url, key, n);
        RequestBuilder { url, phantom: PhantomData }
    }

    /// Attaches `limit`: how many items a page holds.
    pub fn with_limit(self, limit: usize) -> (r: RequestBuilder<T>)
        ensures
            r@ == self@ + query_param("limit"@, decimal(limit as nat)),
    {
        self.with_number("limit", limit as u64)
    }

    /// Attaches `page`: which page of the listing to fetch.
    pub fn with_page(self, page: usize) -> (r: RequestBuilder<T>)
        ensures
            r@ == self@ + query_param("page"@, decimal(page as nat)),
    {
        self.with_number("page", page as u64)
    }
}

} // verus!
