//! Errors of the proxy and their HTTP status codes.

use crate::keystore::Backends;
use vstd::prelude::*;

verus! {

/// The error of the `redis` crate, carried as an opaque value.
#[verifier::external_type_specification]
#[verifier::external_body]
pub struct ExRedisError(redis::RedisError);

/// A failure while fetching bytes from the origin a stored URL points at.
#[derive(Debug, Clone)]
pub struct EndpointError {
    /// The HTTP status the origin answered with, if it answered at all.
    pub status: Option<u16>,
    /// A human-readable description of the failure.
    pub message: String,
}

/// A failure of the storage backend.
#[derive(Debug)]
pub enum KeystoreError {
    /// The remote key/value service failed.
    RedisError(redis::RedisError),
    /// The configuration selects a backend without the settings it needs.
    InvalidConfig(Backends),
}

/// Everything that can go wrong while storing or serving proxied media.
#[derive(Debug)]
pub enum Error {
    /// Caching is disabled, so nothing can be served through the proxy.
    NoProxy,
    /// The id is not present in the keystore.
    ObjectNotFound,
    /// Fetching the origin bytes failed.
    Endpoint(EndpointError),
    /// The fetched bytes are of no type that can be recognised.
    UnidentifiableMime,
    /// The keystore failed.
    Keystore(KeystoreError),
}

pub const NOT_FOUND: u16 = 404;

pub const INTERNAL_SERVER_ERROR: u16 = 500;

pub const BAD_GATEWAY: u16 = 502;

/// The HTTP status an error is reported with. An origin's "not found" is
/// passed on; any other origin failure is a bad gateway, since the proxy is
/// not authoritative over arbitrary client errors.
pub open spec fn status_of(e: Error) -> u16 {
    match e {
        Error::NoProxy => NOT_FOUND,
        Error::ObjectNotFound => NOT_FOUND,
        Error::Endpoint(endpoint) => if endpoint.status == Some(NOT_FOUND) {
            NOT_FOUND
        } else {
            BAD_GATEWAY
        },
        Error::UnidentifiableMime => INTERNAL_SERVER_ERROR,
        Error::Keystore(_) => INTERNAL_SERVER_ERROR,
    }
}

impl Error {
    /// The HTTP status this error is reported with.
    pub fn status(&self) -> (r: u16)
        ensures
            r == status_of(*self),
    {
        match self {
            Error::NoProxy => NOT_FOUND,
            Error::ObjectNotFound => NOT_FOUND,
            Error::Endpoint(endpoint) => match endpoint.status {
                Some(code) => if code == NOT_FOUND {
                    NOT_FOUND
                } else {
                    BAD_GATEWAY
                },
                None => BAD_GATEWAY,
            },
            Error::UnidentifiableMime => INTERNAL_SERVER_ERROR,
            Error::Keystore(_) => INTERNAL_SERVER_ERROR,
        }
    }
}

} // verus!
