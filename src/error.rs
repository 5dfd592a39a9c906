//! Errors directed to a target, and the common error payloads.

use crate::target::{CorrelationId, Target};
use vstd::prelude::*;
use vstd::std_specs::cmp::PartialEqSpec;

verus! {

/// An error directed to a specific target.
///
/// The correlation ID ties the error to the request that failed.
#[derive(Debug, Clone)]
pub struct Error<E> {
    /// The target that receives the error.
    pub to: Target,
    /// The error.
    pub error: E,
    /// The correlation ID of the request.
    pub corrid: CorrelationId,
}

impl<E> Error<E> {
    /// Creates a new directed error.
    pub fn new(to: Target, error: E, corrid: CorrelationId) -> (r: Error<E>)
        ensures
            r.to == to,
            r.error == error,
            r.corrid == corrid,
    {
        Error { to, error, corrid }
    }
}

/// Two errors are equal when all their fields are.
impl<E: PartialEq> PartialEq for Error<E> {
    fn eq(&self, other: &Error<E>) -> (r: bool) {
        self.to == other.to && self.error == other.error && self.corrid == other.corrid
    }
}

impl<E: PartialEq> vstd::std_specs::cmp::PartialEqSpecImpl for Error<E> {
    open spec fn obeys_eq_spec() -> bool {
        <E as PartialEqSpec>::obeys_eq_spec()
    }

    open spec fn eq_spec(&self, other: &Error<E>) -> bool {
        &&& self.to == other.to
        &&& self.error.eq_spec(&other.error)
        &&& self.corrid == other.corrid
    }
}

impl<E: Eq> Eq for Error<E> {
}

/// A session error.
#[derive(Debug, Clone, PartialEq, Eq, Hash, Structural)]
pub enum SessionError {
    /// The maximum number of sessions reached.
    MaximumSessionsReached,
    /// The session does not exist.
    NoSuchSession,
    /// The user is not authenticated.
    Unauthenticated,
}

impl SessionError {
    /// A message that says what went wrong.
    pub fn message(&self) -> (r: &'static str)
        ensures
            r@ == match self {
                SessionError::MaximumSessionsReached => "The maximum number of sessions reached."@,
                SessionError::NoSuchSession => "The session does not exist."@,
                SessionError::Unauthenticated => "The user is not authenticated."@,
            },
    {
        match self {
            SessionError::MaximumSessionsReached => "The maximum number of sessions reached.",
            SessionError::NoSuchSession => "The session does not exist.",
            SessionError::Unauthenticated => "The user is not authenticated.",
        }
    }
}

/// A network error.
#[derive(Debug, Clone, PartialEq, Eq, Hash)]
pub enum NetworkError {
    /// The user has been rate-limited.
    RateLimited,
    /// Invalid message received.
    InvalidMessage,
    /// Socket error, with what the transport reported.
    SocketError(String),
}

impl NetworkError {
    /// A message that says what went wrong.
    pub fn message(&self) -> (r: &'static str)
        ensures
            r@ == match self {
                NetworkError::RateLimited => "The user has been rate-limited."@,
                NetworkError::InvalidMessage => "Invalid message received."@,
                NetworkError::SocketError(_) => "Socket error."@,
            },
    {
        match self {
            NetworkError::RateLimited => "The user has been rate-limited.",
            NetworkError::InvalidMessage => "Invalid message received.",
            NetworkError::SocketError(_) => "Socket error.",
        }
    }
}

} // verus!
