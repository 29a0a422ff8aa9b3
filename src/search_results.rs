//! What a search of the artist endpoints found.

use vstd::prelude::*;

verus! {

/// The results of a query.
#[derive(Debug)]
pub struct SearchResults<T> {
    /// The query, as it was asked.
    pub query: String,
    /// What was found, in the order of the response.
    pub results: Vec<T>,
}

} // verus!
