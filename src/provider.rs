//! The credential provider's decisions: which source gives the token, how
//! the token service's answer yields it, and the order of steps of the
//! device-authorization mode.
use vstd::prelude::*;
use crate::json::{json_at, json_of, json_str, parse_json};

verus! {

/// Where the access token comes from.
#[derive(Debug, Clone, Copy, PartialEq, Eq, Structural)]
pub enum CredentialSource {
    /// A pre-issued token given on the command line.
    Static,
    /// A token service reached over HTTP.
    Service,
    /// The device-authorization flow, with the token kept on disk.
    DeviceFlow,
}

/// Why no credential could be had.
#[derive(Debug, Clone, Copy, PartialEq, Eq, Structural)]
pub enum AuthError {
    /// The configuration names no source of a token.
    NoSource,
    /// The token service answered with a status outside 2xx.
    ServiceStatus(u16),
    /// The token service's answer is not JSON.
    NotJson,
    /// The answer has no field at the configured pointer.
    MissingField,
    /// The field at the configured pointer is not a string.
    NotAString,
}

/// Picks the source of the token: a static token first, then a token
/// service (its URL and pointer both given), then the device flow (its
/// client id and storage path both given).
pub fn credential_source(has_token: bool, has_service: bool, has_device_flow: bool) -> (r: Result<
    CredentialSource,
    AuthError,
>)
    ensures
        has_token ==> r == Ok::<CredentialSource, AuthError>(CredentialSource::Static),
        !has_token && has_service ==> r == Ok::<CredentialSource, AuthError>(CredentialSource::Service),
        !has_token && !has_service && has_device_flow ==> r == Ok::<CredentialSource, AuthError>(
            CredentialSource::DeviceFlow,
        ),
        !has_token && !has_service && !has_device_flow ==> r == Err::<CredentialSource, AuthError>(
            AuthError::NoSource,
        ),
{
    if has_token {
        Ok(CredentialSource::Static)
    } else if has_service {
        Ok(CredentialSource::Service)
    } else if has_device_flow {
        Ok(CredentialSource::DeviceFlow)
    } else {
        Err(AuthError::NoSource)
    }
}

/// A 2xx status.
pub open spec fn is_success(status: u16) -> bool {
    200 <= status <= 299
}

/// Refuses a status of the token service outside 2xx.
pub fn check_status(status: u16) -> (r: Result<(), AuthError>)
    ensures
        r is Ok <==> is_success(status),
        r is Err ==> r == Err::<(), AuthError>(AuthError::ServiceStatus(status)),
{
    if 200 <= status && status <= 299 {
        Ok(())
    } else {
        Err(AuthError::ServiceStatus(status))
    }
}

/// The token in a JSON document at `pointer`.
pub open spec fn token_at_spec(v: serde_json::Value, pointer: Seq<char>) -> Result<Seq<char>, AuthError> {
    match json_at(v, pointer) {
        None => Err(AuthError::MissingField),
        Some(f) => match json_str(f) {
            None => Err(AuthError::NotAString),
            Some(t) => Ok(t),
        },
    }
}

/// The token that the token service answered with `status` and `body`.
pub open spec fn service_token_spec(status: u16, body: Seq<char>, pointer: Seq<char>) -> Result<
    Seq<char>,
    AuthError,
> {
    if !is_success(status) {
        Err(AuthError::ServiceStatus(status))
    } else {
        match json_of(body) {
            None => Err(AuthError::NotJson),
            Some(v) => token_at_spec(v, pointer),
        }
    }
}

/// Takes the token out of a JSON document at `pointer`: it must be a string.
pub fn token_at(v: &serde_json::Value, pointer: &str) -> (r: Result<String, AuthError>)
    ensures
        match r {
            Ok(t) => token_at_spec(*v, pointer@) == Ok::<Seq<char>, AuthError>(t@),
            Err(e) => token_at_spec(*v, pointer@) == Err::<Seq<char>, AuthError>(e),
        },
{
    match v.pointer(pointer) {
        None => Err(AuthError::MissingField),
        Some(f) => match f.as_str() {
            None => Err(AuthError::NotAString),
            Some(t) => Ok(t.to_owned()),
        },
    }
}

/// Takes the token out of the token service's answer: the status must be
/// 2xx, the body JSON, and the value at `pointer` a string.
pub fn service_token(status: u16, body: &str, pointer: &str) -> (r: Result<String, AuthError>)
    ensures
        match r {
            Ok(t) => service_token_spec(status, body@, pointer@) == Ok::<Seq<char>, AuthError>(t@),
            Err(e) => service_token_spec(status, body@, pointer@) == Err::<Seq<char>, AuthError>(e),
        },
{
    match check_status(status) {
        Err(e) => Err(e),
        Ok(()) => match parse_json(body) {
            None => Err(AuthError::NotJson),
            Some(v) => token_at(&v, pointer),
        },
    }
}

} // verus!
