//! The failures that end a run, each holding the error of the crate that reported it.

use vstd::prelude::*;
use vstd::std_specs::convert::FromSpecImpl;

verus! {

/// `reqwest::Error`: a request that could not be built, sent or answered. Opaque here.
#[verifier::external_type_specification]
#[verifier::external_body]
pub struct ExReqwestError(reqwest::Error);

/// `dotenvy::Error`: an environment file that could not be read or parsed. Opaque here.
#[verifier::external_type_specification]
#[verifier::external_body]
pub struct ExDotenvyError(dotenvy::Error);

/// `chrono::format::ParseError`: a timestamp that is not in the expected format. Opaque here.
#[verifier::external_type_specification]
#[verifier::external_body]
pub struct ExChronoParseError(chrono::format::ParseError);

/// `serde_json::Error`: a response body that is not the expected JSON. Opaque here.
#[verifier::external_type_specification]
#[verifier::external_body]
pub struct ExSerdeJsonError(serde_json::Error);

/// `reqwest::header::InvalidHeaderValue`: a header value with a byte that no header may
/// hold. Opaque here.
#[verifier::external_type_specification]
#[verifier::external_body]
pub struct ExInvalidHeaderValue(reqwest::header::InvalidHeaderValue);

/// What a fallible step of a run returns.
pub type AppResult<T = ()> = Result<T, AppError>;

/// Why a run ended early.
#[derive(Debug)]
#[allow(inconsistent_fields)]
pub enum AppError {
    /// The transport failed, or the registry answered with an error status.
    Reqwest { error: reqwest::Error },
    /// The environment file is missing, unreadable or malformed.
    Dotenvy { error: dotenvy::Error },
    /// A timestamp could not be parsed.
    ParseError { error: chrono::format::ParseError },
    /// The response body does not have the shape of a version list.
    SerdeJsonError { error: serde_json::Error },
    /// A header value holds a byte that no header may hold.
    InvalidHeaderValue { error: reqwest::header::InvalidHeaderValue },
}

impl From<reqwest::Error> for AppError {
    fn from(error: reqwest::Error) -> (failure: AppError)
        ensures
            failure == (AppError::Reqwest { error }),
    {
        AppError::Reqwest { error }
    }
}

impl FromSpecImpl<reqwest::Error> for AppError {
    open spec fn obeys_from_spec() -> bool {
        true
    }

    open spec fn from_spec(error: reqwest::Error) -> AppError {
        AppError::Reqwest { error }
    }
}

impl From<dotenvy::Error> for AppError {
    fn from(error: dotenvy::Error) -> (failure: AppError)
        ensures
            failure == (AppError::Dotenvy { error }),
    {
        AppError::Dotenvy { error }
    }
}

impl FromSpecImpl<dotenvy::Error> for AppError {
    open spec fn obeys_from_spec() -> bool {
        true
    }

    open spec fn from_spec(error: dotenvy::Error) -> AppError {
        AppError::Dotenvy { error }
    }
}

impl From<chrono::format::ParseError> for AppError {
    fn from(error: chrono::format::ParseError) -> (failure: AppError)
        ensures
            failure == (AppError::ParseError { error }),
    {
        AppError::ParseError { error }
    }
}

impl FromSpecImpl<chrono::format::ParseError> for AppError {
    open spec fn obeys_from_spec() -> bool {
        true
    }

    open spec fn from_spec(error: chrono::format::ParseError) -> AppError {
        AppError::ParseError { error }
    }
}

impl From<serde_json::Error> for AppError {
    fn from(error: serde_json::Error) -> (failure: AppError)
        ensures
            failure == (AppError::SerdeJsonError { error }),
    {
        AppError::SerdeJsonError { error }
    }
}

impl FromSpecImpl<serde_json::Error> for AppError {
    open spec fn obeys_from_spec() -> bool {
        true
    }

    open spec fn from_spec(error: serde_json::Error) -> AppError {
        AppError::SerdeJsonError { error }
    }
}

impl From<reqwest::header::InvalidHeaderValue> for AppError {
    fn from(error: reqwest::header::InvalidHeaderValue) -> (failure: AppError)
        ensures
            failure == (AppError::InvalidHeaderValue { error }),
    {
        AppError::InvalidHeaderValue { error }
    }
}

impl FromSpecImpl<reqwest::header::InvalidHeaderValue> for AppError {
    open spec fn obeys_from_spec() -> bool {
        true
    }

    open spec fn from_spec(error: reqwest::header::InvalidHeaderValue) -> AppError {
        AppError::InvalidHeaderValue { error }
    }
}

} // verus!
