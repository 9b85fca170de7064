//! The error taxonomy of the client: every failure a call can surface.

use vstd::prelude::*;

verus! {

/// A tagged error returned by every fallible operation of the library.
///
/// No internal recovery or retry is attempted: the caller receives one
/// of these discriminated values and decides what to do.
#[derive(Clone, Debug, PartialEq, Eq, Structural)]
pub enum ApiError {
    /// The credential exchange was rejected (invalid credentials,
    /// revoked grant).
    AuthenticationError,
    /// The server answered 404: the addressed resource does not exist.
    NotFound,
    /// The server answered 429.  Carries the `Retry-After` delay in
    /// seconds when the server sent one.
    RateLimited(Option<u64>),
    /// A response body did not match the documented schema: a required
    /// field was missing or had the wrong type.
    MalformedResponse,
    /// A transport-level failure before any response arrived.
    NetworkError,
}

/// Maps a non-success HTTP status code to the error a call surfaces.
///
/// `retry_after` is the parsed `Retry-After` header, when present.
pub fn classify_status(status: u16, retry_after: Option<u64>) -> (r: ApiError)
    requires
        !(200 <= status < 300),
    ensures
        status == 404 ==> r == ApiError::NotFound,
        status == 429 ==> r == ApiError::RateLimited(retry_after),
        (status == 401 || status == 403) ==> r == ApiError::AuthenticationError,
        (status != 404 && status != 429 && status != 401 && status != 403) ==> r
            == ApiError::NetworkError,
{
    if status == 404 {
        ApiError::NotFound
    } else if status == 429 {
        ApiError::RateLimited(retry_after)
    } else if status == 401 || status == 403 {
        ApiError::AuthenticationError
    } else {
        ApiError::NetworkError
    }
}

} // verus!
