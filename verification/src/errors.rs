//! Error taxonomy, one closed enumeration per operation. Collaborator
//! failures are wrapped into these kinds and never re-exposed verbatim.

use vstd::prelude::*;

verus! {

/// Failures of `login`.
#[derive(Clone, Copy, PartialEq, Eq, Structural, Debug)]
pub enum UserLoginError {
    /// The account service rejected the username/password pair.
    InvalidCredentials,
    /// The account service itself failed.
    ExternalServiceError,
    /// Internal failure: a freshly generated token collided with a live
    /// session, or the clock reading could not be given a 30-day expiry.
    DatabaseError,
}

/// Failures of `verify_session`.
#[derive(Clone, Copy, PartialEq, Eq, Structural, Debug)]
pub enum UserVerifyError {
    /// The token is not present in the store.
    InvalidAccessToken,
    /// The token was present but expired; it has been evicted.
    TokenTimedOut,
    /// The session's granted capabilities do not cover the required ones.
    InvalidPermissions,
}

/// Failures of `invalidate`.
#[derive(Clone, Copy, PartialEq, Eq, Structural, Debug)]
pub enum UserInvalidateError {
    /// The token is not present in the store.
    InvalidAccessToken,
    /// The token belongs to a different user than the caller named.
    InvalidUserId,
}

/// Failures of the profile lookup; every session-verification failure is
/// deliberately collapsed into `TokenInvalid` at this boundary.
#[derive(Clone, Copy, PartialEq, Eq, Structural, Debug)]
pub enum UserGetInfoError {
    /// The token was missing, expired, or lacked the needed capabilities.
    TokenInvalid,
    /// The external profile service failed.
    ExternalServiceError,
}

/// Failures of the submission listing; verification failures surface
/// distinctly, one variant per cause.
#[derive(Clone, Copy, PartialEq, Eq, Structural, Debug)]
pub enum SubmissionError {
    InvalidAccessToken,
    TokenTimedOut,
    InvalidPermissions,
    /// The external database query failed.
    DatabaseError,
}

/// Failure reported by the external database service, as handed to this
/// core by the caller that ran the query.
#[derive(Clone, Copy, PartialEq, Eq, Structural, Debug)]
pub struct DbError;

} // verus!
