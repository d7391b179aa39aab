//! gRPC status answers (code and message) returned by the services.

use vstd::prelude::*;
use crate::text::owned;

verus! {

/// The gRPC status codes the services answer with.
#[derive(Clone, Copy, Debug, PartialEq, Eq, Structural)]
pub enum Code {
    InvalidArgument,
    NotFound,
    Unavailable,
    Internal,
}

/// A failed call: a status code and a human-readable message.
#[derive(Debug)]
pub struct Status {
    pub code: Code,
    pub message: String,
}

impl Status {
    /// A status with the given code and message.
    pub fn new(code: Code, message: &str) -> (r: Status)
        ensures
            r.code == code,
            r.message@ == message@,
    {
        Status { code, message: owned(message) }
    }

    /// `INVALID_ARGUMENT` with a message.
    pub fn invalid_argument(message: &str) -> (r: Status)
        ensures
            r.code == Code::InvalidArgument,
            r.message@ == message@,
    {
        Status::new(Code::InvalidArgument, message)
    }
}

} // verus!
