use vstd::prelude::*;

verus! {

/// How a lookup in the account store failed.
#[derive(Debug, Clone)]
pub enum RepositoryError {
    NotFound(String),
    InternalServerError(String),
    Conflict(String),
    Unknown(String),
}

impl RepositoryError {
    /// The text of this error: what kind it is, then its detail.
    pub open spec fn spec_message(self) -> Seq<char> {
        match self {
            RepositoryError::NotFound(detail) => "Not found: "@ + detail@,
            RepositoryError::InternalServerError(detail) => "Internal server error: "@ + detail@,
            RepositoryError::Conflict(detail) => "Conflict: "@ + detail@,
            RepositoryError::Unknown(detail) => "Unknown error: "@ + detail@,
        }
    }

    /// The text of this error: what kind it is, then its detail.
    pub fn message(&self) -> (text: String)
        ensures
            text@ == self.spec_message(),
    {
        match self {
            RepositoryError::NotFound(detail) => "Not found: ".to_owned().concat(detail.as_str()),
            RepositoryError::InternalServerError(detail) => "Internal server error: ".to_owned().concat(
                detail.as_str(),
            ),
            RepositoryError::Conflict(detail) => "Conflict: ".to_owned().concat(detail.as_str()),
            RepositoryError::Unknown(detail) => "Unknown error: ".to_owned().concat(
                detail.as_str(),
            ),
        }
    }
}

/// The kinds of failure that the authentication core reports.
///
/// Each kind has one fixed client-visible message, so that a caller cannot
/// tell an unknown email from a wrong password, nor one token defect from
/// another.
#[derive(Debug, Clone, Copy, PartialEq, Eq, Structural)]
pub enum AuthError {
    /// A password fails the strength policy.
    ValidationError,
    /// Login credentials are invalid: unknown email or wrong password.
    AuthenticationError,
    /// A bearer token is missing, malformed, expired or wrongly signed.
    UnauthorizedError,
    /// A token is rejected by the codec for any reason.
    InvalidTokenError,
    /// A token could not be signed.
    EncodingError,
    /// The account store failed for another reason than a missing record.
    InternalError,
}

impl AuthError {
    /// The message shown to the client for this kind of error.
    pub open spec fn spec_message(self) -> Seq<char> {
        match self {
            AuthError::ValidationError => "password does not meet the policy"@,
            AuthError::AuthenticationError => "invalid credentials"@,
            AuthError::UnauthorizedError => "unauthorized"@,
            AuthError::InvalidTokenError => "invalid token"@,
            AuthError::EncodingError => "internal server error"@,
            AuthError::InternalError => "internal server error"@,
        }
    }

    /// The message shown to the client for this kind of error.
    pub fn message(&self) -> (text: String)
        ensures
            text@ == self.spec_message(),
    {
        match self {
            AuthError::ValidationError => "password does not meet the policy".to_owned(),
            AuthError::AuthenticationError => "invalid credentials".to_owned(),
            AuthError::UnauthorizedError => "unauthorized".to_owned(),
            AuthError::InvalidTokenError => "invalid token".to_owned(),
            AuthError::EncodingError => "internal server error".to_owned(),
            AuthError::InternalError => "internal server error".to_owned(),
        }
    }
}

} // verus!
