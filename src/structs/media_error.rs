use vstd::prelude::*;

use crate::structs::text::joined;

verus! {

/// Why an extraction request failed.
#[derive(Debug, Clone, PartialEq)]
pub enum MediaError {
    /// The exchange with the service did not complete.
    RequestError(String),
    /// The service answered with success, but not with a reply of a known shape.
    DeserializationError(String),
    /// The service answered with a status other than success.
    ApiError(String),
}

/// The text that describes `e` to a reader.
pub open spec fn error_text(e: MediaError) -> Seq<char> {
    match e {
        MediaError::RequestError(m) => "Request Error: "@ + m@,
        MediaError::DeserializationError(m) => "Deserialization Error: "@ + m@,
        MediaError::ApiError(m) => "API Error: "@ + m@,
    }
}

impl MediaError {
    /// The text that describes this error to a reader.
    pub fn message(&self) -> (r: String)
        ensures
            r@ == error_text(*self),
    {
        match self {
            MediaError::RequestError(m) => joined("Request Error: ", m.as_str()),
            MediaError::DeserializationError(m) => joined("Deserialization Error: ", m.as_str()),
            MediaError::ApiError(m) => joined("API Error: ", m.as_str()),
        }
    }
}

} // verus!
