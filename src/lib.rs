//! The core of a language server: classifying protocol messages, keeping the
//! open documents and their symbol tables, and answering hover and
//! go-to-definition queries from those tables.
use vstd::prelude::*;

pub mod analyzer;
pub mod documentlibrary;
pub mod documentrecords;
pub mod keyed;
pub mod laws;
pub mod lifecycle;
pub mod protocol;
pub mod queries;
pub mod server;
pub mod symbols;

verus! {

} // verus!
