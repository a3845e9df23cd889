//! The domain-error-to-response mapper: a total function from the backend's
//! error taxonomy to an externally visible status code, with the error's
//! human-readable description as the body.

use vstd::prelude::*;
use vstd::string::StringExecFns;

verus! {

/// The backend's error taxonomy, each category carrying its detail text.
#[derive(Clone, Debug, PartialEq, Eq)]
pub enum DomainError {
    AuthenticationError(String),
    AuthenticationProtocolError(String),
    DatabaseError(String),
    InternalError(String),
    UnknownCryptoError(String),
    Base64DecodeError(String),
    BinarySerializationError(String),
}

/// The status code each backend error category maps to. This match is
/// deliberately written without a default branch: a new category cannot be
/// added without extending the mapping.
pub open spec fn spec_status_of(e: DomainError) -> u16 {
    match e {
        DomainError::AuthenticationError(_) => 401,
        DomainError::AuthenticationProtocolError(_) => 401,
        DomainError::DatabaseError(_) => 500,
        DomainError::InternalError(_) => 500,
        DomainError::UnknownCryptoError(_) => 500,
        DomainError::Base64DecodeError(_) => 400,
        DomainError::BinarySerializationError(_) => 400,
    }
}

/// The human-readable description of each error: the category's name
/// followed by the carried detail.
pub open spec fn spec_description(e: DomainError) -> Seq<char> {
    match e {
        DomainError::AuthenticationError(s) => "Authentication error: "@ + s@,
        DomainError::AuthenticationProtocolError(s) => "Authentication protocol error: "@ + s@,
        DomainError::DatabaseError(s) => "Database error: "@ + s@,
        DomainError::InternalError(s) => "Internal error: "@ + s@,
        DomainError::UnknownCryptoError(s) => "Unknown crypto error: "@ + s@,
        DomainError::Base64DecodeError(s) => "Base64 decoding error: "@ + s@,
        DomainError::BinarySerializationError(s) => "Binary serialization error: "@ + s@,
    }
}

impl DomainError {
    /// The human-readable description of this error.
    pub fn description(&self) -> (text: String)
        ensures
            text@ == spec_description(*self),
    {
        match self {
            DomainError::AuthenticationError(s) => String::from_str(
                "Authentication error: ",
            ).concat(s.as_str()),
            DomainError::AuthenticationProtocolError(s) => String::from_str(
                "Authentication protocol error: ",
            ).concat(s.as_str()),
            DomainError::DatabaseError(s) => String::from_str("Database error: ").concat(
                s.as_str(),
            ),
            DomainError::InternalError(s) => String::from_str("Internal error: ").concat(
                s.as_str(),
            ),
            DomainError::UnknownCryptoError(s) => String::from_str("Unknown crypto error: ").concat(
                s.as_str(),
            ),
            DomainError::Base64DecodeError(s) => String::from_str(
                "Base64 decoding error: ",
            ).concat(s.as_str()),
            DomainError::BinarySerializationError(s) => String::from_str(
                "Binary serialization error: ",
            ).concat(s.as_str()),
        }
    }
}

/// An externally visible response: a status code and a body.
#[derive(Clone, Debug, PartialEq, Eq)]
pub struct ErrorResponse {
    pub status: u16,
    pub body: String,
}

/// Translate a backend error into the response sent to the client: the
/// status of its category, and the error's description as the body.
pub fn error_to_http_response(error: DomainError) -> (response: ErrorResponse)
    ensures
        response.status == spec_status_of(error),
        response.body@ == spec_description(error),
{
    let status: u16 = match &error {
        DomainError::AuthenticationError(_) => 401,
        DomainError::AuthenticationProtocolError(_) => 401,
        DomainError::DatabaseError(_) => 500,
        DomainError::InternalError(_) => 500,
        DomainError::UnknownCryptoError(_) => 500,
        DomainError::Base64DecodeError(_) => 400,
        DomainError::BinarySerializationError(_) => 400,
    };
    ErrorResponse { status, body: error.description() }
}

/// Law: the error mapping is total — every backend error category maps to
/// exactly one of the statuses 400, 401 and 500 (and, by the contract of
/// `error_to_http_response`, the body always equals the error's description).
pub proof fn lemma_error_mapping_total(e: DomainError)
    ensures
        spec_status_of(e) == 400 || spec_status_of(e) == 401 || spec_status_of(e) == 500,
{
}

} // verus!
