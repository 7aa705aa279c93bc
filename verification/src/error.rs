//! Error type shared by the library's fallible operations.

use vstd::prelude::*;

verus! {

/// A typed failure surfaced to the caller.
///
/// - `Validation` carries the input string that is not a well-formed identifier.
/// - `Configuration` carries the route for which an empty request body was refused.
/// - `Transport` carries a description of a network or decoding failure; the
///   library never constructs this variant itself, it exists for the embedding
///   application to report failures of the HTTP layer in the library's terms.
#[derive(Debug, Clone, PartialEq, Eq)]
pub enum ApiError {
    Validation(String),
    Configuration(String),
    Transport(String),
}

/// The human-readable text that `message` returns for each variant.
pub open spec fn message_of(e: ApiError) -> Seq<char> {
    match e {
        ApiError::Validation(input) => "Invalid Wxid format: "@ + input@,
        ApiError::Configuration(route) => "Empty json body for route: "@ + route@,
        ApiError::Transport(detail) => detail@,
    }
}

impl ApiError {
    /// Renders the error as a message naming the offending input or route.
    pub fn message(&self) -> (r: String)
        ensures
            r@ == message_of(*self),
    {
        match self {
            ApiError::Validation(input) => {
                let mut m = String::from_str("Invalid Wxid format: ");
                m.append(input.as_str());
                m
            },
            ApiError::Configuration(route) => {
                let mut m = String::from_str("Empty json body for route: ");
                m.append(route.as_str());
                m
            },
            ApiError::Transport(detail) => detail.clone(),
        }
    }
}

} // verus!
