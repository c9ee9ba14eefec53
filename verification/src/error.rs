//! The failures the archive reports, and how a routing failure maps onto them.

use vstd::prelude::*;

verus! {

/// Every way a request to the archive can fail.
#[derive(Debug)]
pub enum Error {
    /// A submitted line is not a URL; holds the line.
    InvalidUrl(String),
    /// The URL is already stored for this user; holds the URL.
    DuplicateUrl(String),
    /// The user name is already taken; holds the name.
    DuplicateName(String),
    /// A token's lifetime would end past the last representable instant.
    TokenDurationTooBig,
    /// No user has this name.
    UserNameNotFound(String),
    /// No user has this id.
    UserIdNotFound(u32),
    /// The caller could not be authenticated, for whatever reason.
    FailedLogin,
    /// The caller is known but does not own the resource.
    Unauthorized,
    /// The request body could not be understood.
    BadRequest,
    /// No route matches the request.
    RouteNotFound,
    /// Anything else that went wrong inside the server.
    Internal,
    /// A stored password hash is structurally corrupt.
    CredentialFormat,
    /// A token's signature does not match, or the token is malformed.
    BadSignature,
    /// A token's expiry is not in the future.
    Expired,
    /// A token was issued by somebody else.
    IssuerMismatch,
}

/// Why the router could not hand a request to a handler.
#[derive(Clone, Copy, Debug, PartialEq, Eq, Structural)]
pub enum MuxFailure {
    /// No route has this path.
    NotFound,
    /// The path exists, but not for this method.
    MethodNotAllowed,
    /// A variable segment of the path did not parse.
    Parse,
}

impl Error {
    /// The error that a routing failure is reported as.
    pub open spec fn of_mux_failure(failure: MuxFailure) -> Error {
        match failure {
            MuxFailure::NotFound => Error::RouteNotFound,
            MuxFailure::MethodNotAllowed => Error::RouteNotFound,
            MuxFailure::Parse => Error::BadRequest,
        }
    }
}

impl From<MuxFailure> for Error {
    fn from(failure: MuxFailure) -> (err: Error) {
        match failure {
            MuxFailure::NotFound | MuxFailure::MethodNotAllowed => Error::RouteNotFound,
            MuxFailure::Parse => Error::BadRequest,
        }
    }
}

impl vstd::std_specs::convert::FromSpecImpl<MuxFailure> for Error {
    open spec fn obeys_from_spec() -> bool {
        true
    }

    open spec fn from_spec(failure: MuxFailure) -> Error {
        Error::of_mux_failure(failure)
    }
}

} // verus!
