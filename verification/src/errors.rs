//! Error taxonomy of the request handlers.
//!
//! Geocode and authorization failures are terminal for a request; the
//! handlers return one of these and leave the store untouched.  Notification
//! failures never appear here: fanout reports a success count instead.

use vstd::prelude::*;

verus! {

/// Why a geocode lookup produced no usable value.
#[derive(Clone, Copy, Debug, PartialEq, Eq, Structural)]
pub enum GeocodeFailure {
    /// The geocoding service is not configured.
    NoApiKey,
    /// The query matched nothing.
    NoResult,
    /// The query matched, but the match held no usable field.
    NoValue,
}

/// Terminal outcome of a request handler.
#[derive(Clone, Copy, Debug, PartialEq, Eq, Structural)]
pub enum ApiError {
    /// Neither or both of place and coordinates were supplied.
    InputAmbiguous,
    /// The geocode resolution the mutation needed did not succeed.
    GeocodeUnavailable { reason: GeocodeFailure },
    /// A token whose signature does not verify under the purpose's secret,
    /// or that is malformed.
    InvalidSignature,
    /// A token whose signature verifies but whose expiry has passed.
    Expired,
    /// Missing, invalid or expired session token, or its subject is unknown;
    /// a uniform rejection that does not say which check failed.
    Unauthorized,
    /// A valid identity that does not own the resource.
    Forbidden,
    /// A single-use token that is absent, already consumed, or past its
    /// validity window; the three are indistinguishable by design.
    TokenNotFound,
    /// No user carries the given email.
    UserNotFound,
    /// The account exists but its email is not verified yet.
    NotVerified,
    /// A login attempt without a password.
    MissingPassword,
    /// The password does not match the stored hash.
    IncorrectPassword,
    /// Another account already carries the email.
    DuplicateEmail,
    /// Reference data already carries the name.
    DuplicateName,
    /// Signing a session claim failed.  With HMAC secrets supplied
    /// explicitly this cannot occur; the variant stands for the taxonomy's
    /// environment-misconfiguration case.
    SigningFailed,
    /// Hashing a password failed, or a stored hash could not be parsed
    /// when checking a password against it.
    HashingFailed,
    /// No alert carries the given identifier.
    AlertNotFound,
    /// A single-use token with the same value is already stored.
    DuplicateToken,
    /// The user has no stored location.
    LocationNotFound,
    /// A location update carrying no locations.
    NoLocationsGiven,
    /// The store cannot accept another row, or the transaction could not be
    /// committed.
    StoreUnavailable,
}

impl ApiError {
    /// The HTTP status a collaborator should answer with.
    pub fn status(&self) -> (code: u16)
        ensures
            code == self.status_spec(),
    {
        match self {
            ApiError::InputAmbiguous => 422,
            ApiError::GeocodeUnavailable { .. } => 422,
            ApiError::InvalidSignature => 401,
            ApiError::Expired => 401,
            ApiError::Unauthorized => 401,
            ApiError::Forbidden => 403,
            ApiError::TokenNotFound => 400,
            ApiError::UserNotFound => 400,
            ApiError::NotVerified => 428,
            ApiError::MissingPassword => 400,
            ApiError::IncorrectPassword => 400,
            ApiError::DuplicateEmail => 400,
            ApiError::DuplicateName => 400,
            ApiError::SigningFailed => 422,
            ApiError::HashingFailed => 422,
            ApiError::AlertNotFound => 400,
            ApiError::DuplicateToken => 422,
            ApiError::LocationNotFound => 400,
            ApiError::NoLocationsGiven => 400,
            ApiError::StoreUnavailable => 503,
        }
    }

    pub open spec fn status_spec(&self) -> u16 {
        match self {
            ApiError::InputAmbiguous => 422,
            ApiError::GeocodeUnavailable { .. } => 422,
            ApiError::InvalidSignature => 401,
            ApiError::Expired => 401,
            ApiError::Unauthorized => 401,
            ApiError::Forbidden => 403,
            ApiError::TokenNotFound => 400,
            ApiError::UserNotFound => 400,
            ApiError::NotVerified => 428,
            ApiError::MissingPassword => 400,
            ApiError::IncorrectPassword => 400,
            ApiError::DuplicateEmail => 400,
            ApiError::DuplicateName => 400,
            ApiError::SigningFailed => 422,
            ApiError::HashingFailed => 422,
            ApiError::AlertNotFound => 400,
            ApiError::DuplicateToken => 422,
            ApiError::LocationNotFound => 400,
            ApiError::NoLocationsGiven => 400,
            ApiError::StoreUnavailable => 503,
        }
    }
}

} // verus!
