//! The ways in which a request can fail.

use vstd::prelude::*;

verus! {

/// The request succeeded.
pub const OK: u16 = 200;

/// The request succeeded and added something.
pub const CREATED: u16 = 201;

/// The key that the request names is not in the pool.
pub const NOT_FOUND: u16 = 404;

/// The pool has served as many requests this minute as it may.
pub const TOO_MANY_REQUESTS: u16 = 429;

/// An inconsistency inside the pool.
pub const INTERNAL_SERVER_ERROR: u16 = 500;

/// No key of the pool can serve a request right now.
pub const SERVICE_UNAVAILABLE: u16 = 503;

/// Why a request failed.
#[derive(Debug, Clone, Copy, PartialEq, Eq, Structural)]
pub enum RotatorError {
    /// The key that the request names is not in the pool.
    NotFound,
    /// The pool-wide ceiling of requests per minute is reached.
    RateLimitExceeded,
    /// No key is active and under its own limits.
    NoAvailableKey,
    /// The chosen key was gone when its use was to be counted.
    InternalError,
}

impl RotatorError {
    /// The status code that stands for the error.
    pub open spec fn code(self) -> u16 {
        match self {
            RotatorError::NotFound => NOT_FOUND,
            RotatorError::RateLimitExceeded => TOO_MANY_REQUESTS,
            RotatorError::NoAvailableKey => SERVICE_UNAVAILABLE,
            RotatorError::InternalError => INTERNAL_SERVER_ERROR,
        }
    }

    /// The status code that a response to the failed request carries.
    pub fn status_code(&self) -> (status: u16)
        ensures
            status == self.code(),
    {
        match self {
            RotatorError::NotFound => NOT_FOUND,
            RotatorError::RateLimitExceeded => TOO_MANY_REQUESTS,
            RotatorError::NoAvailableKey => SERVICE_UNAVAILABLE,
            RotatorError::InternalError => INTERNAL_SERVER_ERROR,
        }
    }
}

} // verus!
