//! An in-memory store of movie quotations: pagination, random selection and
//! lookup of a movie's display title by its slug.

pub mod item;
pub mod laws;
pub mod movie;
pub mod store;

pub use item::{IdentifiableQuoteItem, Pagination, QuoteItem, QuoteStoreError};
pub use movie::str_to_movie;
pub use store::QuoteStore;
