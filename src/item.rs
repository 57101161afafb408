//! The values that the store holds and hands out.

use vstd::prelude::*;

verus! {

/// A quotation: its text, who said it, and the display title of its movie.
#[derive(Debug)]
pub struct QuoteItem {
    pub quote: String,
    pub author: String,
    pub name: String,
}

impl Clone for QuoteItem {
    fn clone(&self) -> (r: Self)
        ensures
            r == *self,
    {
        QuoteItem { quote: self.quote.clone(), author: self.author.clone(), name: self.name.clone() }
    }
}

/// A quotation together with the identifier that the store assigned to it.
#[derive(Debug)]
pub struct IdentifiableQuoteItem {
    pub id: usize,
    pub item: QuoteItem,
}

impl Clone for IdentifiableQuoteItem {
    fn clone(&self) -> (r: Self)
        ensures
            r == *self,
    {
        IdentifiableQuoteItem { id: self.id, item: self.item.clone() }
    }
}

impl IdentifiableQuoteItem {
    pub fn new(id: usize, item: QuoteItem) -> (r: IdentifiableQuoteItem)
        ensures
            r.id == id,
            r.item == item,
    {
        IdentifiableQuoteItem { id, item }
    }
}

/// A window over the store: skip `offset` items (none when absent), then
/// take at most `limit` (all that remain when absent).
#[derive(Debug, Clone, Copy)]
pub struct Pagination {
    pub offset: Option<usize>,
    pub limit: Option<usize>,
}

impl Pagination {
    /// The number of items skipped.
    pub open spec fn start(&self) -> nat {
        match self.offset {
            Some(k) => k as nat,
            None => 0,
        }
    }

    /// The largest number of items taken, or `None` for no bound.
    pub open spec fn bound(&self) -> Option<nat> {
        match self.limit {
            Some(m) => Some(m as nat),
            None => None,
        }
    }
}

impl Default for Pagination {
    fn default() -> (r: Pagination)
        ensures
            r.offset is None,
            r.limit is None,
    {
        Pagination { offset: None, limit: None }
    }
}

#[verifier::external_type_specification]
#[verifier::external_body]
pub struct ExJsonError(serde_json::Error);

/// What can go wrong when loading or picking quotes.
#[derive(Debug)]
pub enum QuoteStoreError {
    /// A corpus could not be read as a list of quotes.
    SerializationError(serde_json::Error),
    /// Loading the corpus would run the identifier counter past its range.
    IdsExhausted,
    /// The movie slug is not one of the known movies.
    UnknownMovie,
    /// No quote matched.
    NotFound,
}

} // verus!
