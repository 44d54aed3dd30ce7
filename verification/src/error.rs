//! The ways in which reading a result store or a container can fail.

use vstd::prelude::*;

verus! {

/// Why an operation gave up. Every error ends the operation that raised it;
/// nothing is retried.
#[derive(Debug, Clone, Copy, PartialEq, Eq, Structural)]
pub enum Error {
    /// The path that was given names nothing.
    PathNotFound,
    /// A table or a column that the schema requires is missing.
    SchemaMismatch,
    /// A container is malformed, or a row holds a value that its column
    /// cannot hold.
    DecodeError,
    /// Exactly one row was expected and none or several were found.
    CardinalityError,
    /// The store was used after it had been released.
    ResourceAlreadyClosed,
}

/// The one-line diagnostic of each error.
pub open spec fn error_message(e: Error) -> Seq<char> {
    match e {
        Error::PathNotFound => "path not found"@,
        Error::SchemaMismatch => "schema mismatch: a required table or column is missing"@,
        Error::DecodeError => "decode error: malformed container or invalid row value"@,
        Error::CardinalityError => "cardinality error: expected exactly one row"@,
        Error::ResourceAlreadyClosed => "resource already closed"@,
    }
}

impl Error {
    /// The diagnostic to show for this error, on one line.
    pub fn to_string(&self) -> (s: String)
        ensures
            s@ == error_message(*self),
    {
        match self {
            Error::PathNotFound => "path not found".to_owned(),
            Error::SchemaMismatch => {
                "schema mismatch: a required table or column is missing".to_owned()
            },
            Error::DecodeError => {
                "decode error: malformed container or invalid row value".to_owned()
            },
            Error::CardinalityError => "cardinality error: expected exactly one row".to_owned(),
            Error::ResourceAlreadyClosed => "resource already closed".to_owned(),
        }
    }
}

} // verus!
