//! Verification errors and how each is classified.
use vstd::prelude::*;
use vstd::string::*;

verus! {

/// Why a request could not be authenticated.
#[derive(Clone, Debug)]
pub enum AuthError {
    /// The presented token is structurally or semantically unacceptable.
    InvalidToken(String),
    /// The information needed to decide could not be obtained (key-set fetch failed).
    MissingCredentials(String),
    /// The trusted key set holds a key of a family this library does not support.
    UnsupportedAlgorithm,
}

/// Mathematical model of `AuthError`.
pub enum AuthFailure {
    InvalidToken(Seq<char>),
    MissingCredentials(Seq<char>),
    UnsupportedAlgorithm,
}

impl View for AuthError {
    type V = AuthFailure;

    open spec fn view(&self) -> AuthFailure {
        match self {
            AuthError::InvalidToken(m) => AuthFailure::InvalidToken(m@),
            AuthError::MissingCredentials(m) => AuthFailure::MissingCredentials(m@),
            AuthError::UnsupportedAlgorithm => AuthFailure::UnsupportedAlgorithm,
        }
    }
}

/// HTTP status for a client-caused failure.
pub const STATUS_UNAUTHORIZED: u16 = 401;

/// HTTP status for a server-side or configuration failure.
pub const STATUS_INTERNAL_SERVER_ERROR: u16 = 500;

/// The HTTP status that a failure of this kind is answered with.
pub open spec fn status_of(e: AuthFailure) -> u16 {
    match e {
        AuthFailure::InvalidToken(_) => STATUS_UNAUTHORIZED,
        _ => STATUS_INTERNAL_SERVER_ERROR,
    }
}

/// The human-readable text of a failure.
pub open spec fn message_of(e: AuthFailure) -> Seq<char> {
    match e {
        AuthFailure::InvalidToken(m) => "Invalid token: "@ + m,
        AuthFailure::MissingCredentials(m) => "Missing credentials: "@ + m,
        AuthFailure::UnsupportedAlgorithm => "Unsupported algorithm"@,
    }
}

impl AuthError {
    /// Unauthorized for an invalid token; internal server error for the others.
    pub fn status(&self) -> (r: u16)
        ensures
            r == status_of(self@),
    {
        match self {
            AuthError::InvalidToken(_) => STATUS_UNAUTHORIZED,
            AuthError::MissingCredentials(_) | AuthError::UnsupportedAlgorithm => {
                STATUS_INTERNAL_SERVER_ERROR
            },
        }
    }

    /// The text carried in the error body of a response.
    pub fn message(&self) -> (r: String)
        ensures
            r@ == message_of(self@),
    {
        match self {
            AuthError::InvalidToken(m) => String::from_str("Invalid token: ").concat(m.as_str()),
            AuthError::MissingCredentials(m) => String::from_str("Missing credentials: ").concat(
                m.as_str(),
            ),
            AuthError::UnsupportedAlgorithm => String::from_str("Unsupported algorithm"),
        }
    }
}

} // verus!
