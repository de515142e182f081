//! Requests for users and posts, and how their failures are reported.

use crate::base::TimerError;
use crate::error;
use vstd::prelude::*;

verus! {

/// The parameters of a user request.
#[derive(Clone, Debug)]
pub struct UserData {
    pub tag: String,
}

/// The parameters of a post request.
#[derive(Clone, Debug)]
pub struct PostData {
    pub id: String,
}

/// A failure of the content provider.
#[derive(Clone, Debug)]
pub enum ProviderError {
    /// The requested user or post does not exist.
    NotFound,
    /// Any other failure: transport, server, or an unreadable answer.
    Failed(String),
}

/// Everything that can make a user or post request fail.
#[derive(Debug)]
pub enum Error {
    /// The content provider failed.
    Provider(ProviderError),
    /// Rewriting a hard media reference failed.
    Proxy(error::Error),
    /// The response timer failed.
    Timer(TimerError),
    /// No route matches the request.
    NotFound,
}

/// The HTTP status a request failure is reported with: a missing user,
/// post or route is "not found", anything else an internal error.
pub open spec fn request_status_of(e: Error) -> u16 {
    match e {
        Error::Provider(ProviderError::NotFound) => error::NOT_FOUND,
        Error::NotFound => error::NOT_FOUND,
        _ => error::INTERNAL_SERVER_ERROR,
    }
}

impl Error {
    /// The HTTP status this failure is reported with.
    pub fn status(&self) -> (r: u16)
        ensures
            r == request_status_of(*self),
    {
        match self {
            Error::Provider(ProviderError::NotFound) => error::NOT_FOUND,
            Error::NotFound => error::NOT_FOUND,
            _ => error::INTERNAL_SERVER_ERROR,
        }
    }
}

impl TimerError {
    /// A short description of the failure.
    pub fn message(&self) -> (r: &'static str)
        ensures
            *self == TimerError::ClockSkew ==> r@ == "clock skew"@,
            *self == TimerError::NotStarted ==> r@ == "timer not started"@,
    {
        match self {
            TimerError::ClockSkew => "clock skew",
            TimerError::NotStarted => "timer not started",
        }
    }
}

} // verus!
