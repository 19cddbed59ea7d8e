//! The errors of the library.

use vstd::prelude::*;

verus! {

/// The error of `reqwest`: a failed transport, or a reply that could not be read.
/// Nothing is known of what it holds; it is carried to the caller as it is.
#[verifier::external_type_specification]
#[verifier::external_body]
pub struct ExReqwestError(reqwest::Error);

/// The error with which `reqwest` refuses a value for a header. Nothing is known
/// of what it holds.
#[verifier::external_type_specification]
#[verifier::external_body]
pub struct ExInvalidHeaderValue(reqwest::header::InvalidHeaderValue);

/// What can go wrong in a call of the service.
#[derive(Debug)]
pub enum TogglError {
    /// The service did not accept the credential.
    AuthError(String),
    /// The transport failed, or the reply could not be read.
    ReqwestError(reqwest::Error),
    /// The operation is not there yet.
    NotImplemented,
}

/// The message of the error that stands for a credential that cannot go into a
/// request header.
pub open spec fn bad_token_message() -> Seq<char> {
    "Could not parse Authentication api_token"@
}

impl From<reqwest::Error> for TogglError {
    fn from(e: reqwest::Error) -> (r: TogglError) {
        TogglError::ReqwestError(e)
    }
}

impl vstd::std_specs::convert::FromSpecImpl<reqwest::Error> for TogglError {
    open spec fn obeys_from_spec() -> bool {
        true
    }

    open spec fn from_spec(e: reqwest::Error) -> TogglError {
        TogglError::ReqwestError(e)
    }
}

impl From<reqwest::header::InvalidHeaderValue> for TogglError {
    fn from(_e: reqwest::header::InvalidHeaderValue) -> (r: TogglError)
        ensures
            r matches TogglError::AuthError(m) && m@ == bad_token_message(),
    {
        TogglError::AuthError(String::from_str("Could not parse Authentication api_token"))
    }
}

impl vstd::std_specs::convert::FromSpecImpl<reqwest::header::InvalidHeaderValue> for TogglError {
    open spec fn obeys_from_spec() -> bool {
        false
    }

    open spec fn from_spec(e: reqwest::header::InvalidHeaderValue) -> TogglError {
        TogglError::NotImplemented
    }
}

} // verus!
