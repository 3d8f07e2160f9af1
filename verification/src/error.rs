//! The error taxonomy of the webhook endpoint: what went wrong, and which
//! HTTP status answers it.
//!
//! A missing header or an unreadable payload is the caller's fault; a
//! failed signature check is unauthorized; everything else is this side's
//! failure. Every failure still gets a well-formed response.

use vstd::prelude::*;

use crate::verification;

verus! {

/// What went wrong while handling a request.
#[derive(Debug)]
pub enum General {
    /// A needed environment variable is not set; its name.
    EnvironmentVariableNotFound(String),
    /// A needed request header is missing; its name.
    HeaderNotFound(String),
    /// A payload or stored blob did not parse or serialize.
    JsonFailed,
    /// The payload is structurally invalid; what was found.
    InvalidPayload(String),
    /// The signature check failed.
    VerificationFailed(verification::Error),
    /// The platform or the backing store failed; its message.
    Upstream(String),
}

/// The status of an HTTP response.
#[derive(Debug, PartialEq, Eq, Structural, Clone, Copy)]
pub enum Status {
    BadRequest,
    Unauthorized,
    InternalServerError,
}

impl Status {
    /// The numeric wire code of this status.
    pub fn code(&self) -> (r: u16)
        ensures
            r == match self {
                Status::BadRequest => 400u16,
                Status::Unauthorized => 401u16,
                Status::InternalServerError => 500u16,
            },
    {
        match self {
            Status::BadRequest => 400,
            Status::Unauthorized => 401,
            Status::InternalServerError => 500,
        }
    }
}

/// A failure together with the status that answers it.
#[derive(Debug)]
pub struct Http {
    pub status: Status,
    pub reason: General,
}

/// The status that answers each failure: the caller's malformed input is a
/// bad request, a failed signature check is unauthorized, and everything
/// else is an internal failure.
pub open spec fn spec_status_of(e: General) -> Status {
    match e {
        General::HeaderNotFound(_) => Status::BadRequest,
        General::JsonFailed => Status::BadRequest,
        General::InvalidPayload(_) => Status::BadRequest,
        General::VerificationFailed(_) => Status::Unauthorized,
        _ => Status::InternalServerError,
    }
}

impl From<General> for Http {
    fn from(error: General) -> (r: Self) {
        let status = match &error {
            General::HeaderNotFound(_) => Status::BadRequest,
            General::JsonFailed => Status::BadRequest,
            General::InvalidPayload(_) => Status::BadRequest,
            General::VerificationFailed(_) => Status::Unauthorized,
            General::EnvironmentVariableNotFound(_) => Status::InternalServerError,
            General::Upstream(_) => Status::InternalServerError,
        };
        Http { status, reason: error }
    }
}

impl vstd::std_specs::convert::FromSpecImpl<General> for Http {
    open spec fn obeys_from_spec() -> bool {
        true
    }

    open spec fn from_spec(e: General) -> Http {
        Http { status: spec_status_of(e), reason: e }
    }
}

} // verus!
