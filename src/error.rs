use vstd::prelude::*;

verus! {

/// The ways an operation of the store can fail.
#[derive(Debug, Clone, PartialEq, Eq)]
pub enum StoreError {
    /// The table name is empty or holds a character outside `[A-Za-z0-9_]`.
    InvalidIdentifier,
    /// A record does not have the shape of an item row.
    Decode,
    /// No row with the requested id was found.
    NotFound,
    /// The page number or the page size is zero.
    Validation,
    /// The database engine reported a failure; the text is the engine's own.
    Database(String),
}

} // verus!
