//! Error taxonomy surfaced by every fallible operation of the library.

use vstd::prelude::*;

verus! {

/// Typed failures of the projection and query paths.
///
/// - `Validation` — a required input is missing or blank.
/// - `IndexNotFound` — the resolver probed its fallback chain and none of the
///   candidate index names matched.
/// - `NotFound` — a document id was absent from an existing index.
/// - `Backend` — a store transport failure, carrying status and response body.
/// - `Decode` — a payload failed the schema decode.
#[derive(Debug, Clone)]
pub enum ServiceError {
    Validation(String),
    IndexNotFound(Vec<String>),
    NotFound(String),
    Backend(u16, String),
    Decode(String),
}

impl ServiceError {
    /// Human-readable description, used by adapters when rendering a response.
    pub fn message(&self) -> (r: String)
        ensures
            r@ == self.spec_message(),
    {
        match self {
            ServiceError::Validation(m) => m.clone(),
            ServiceError::IndexNotFound(_) => "No Index Found".to_owned(),
            ServiceError::NotFound(m) => m.clone(),
            ServiceError::Backend(_, m) => m.clone(),
            ServiceError::Decode(m) => m.clone(),
        }
    }

    pub open spec fn spec_message(self) -> Seq<char> {
        match self {
            ServiceError::Validation(m) => m@,
            ServiceError::IndexNotFound(_) => "No Index Found"@,
            ServiceError::NotFound(m) => m@,
            ServiceError::Backend(_, m) => m@,
            ServiceError::Decode(m) => m@,
        }
    }
}

} // verus!
