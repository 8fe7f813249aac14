//! HTTP-facing outcome of the subscription and confirmation workflows.

use vstd::prelude::*;

verus! {

/// The status codes the workflow can answer with: success, a rejected input,
/// an unrecognized confirmation token, or a storage/transport failure.
#[derive(Clone, Copy, Debug, PartialEq, Eq, Structural)]
pub enum HttpStatus {
    Success,
    BadRequest,
    Unauthorized,
    ServerError,
}

impl HttpStatus {
    /// The numeric status code sent on the wire.
    pub fn code(&self) -> (c: u16)
        ensures
            c == self.spec_code(),
    {
        match self {
            HttpStatus::Success => 200,
            HttpStatus::BadRequest => 400,
            HttpStatus::Unauthorized => 401,
            HttpStatus::ServerError => 500,
        }
    }

    pub open spec fn spec_code(self) -> u16 {
        match self {
            HttpStatus::Success => 200,
            HttpStatus::BadRequest => 400,
            HttpStatus::Unauthorized => 401,
            HttpStatus::ServerError => 500,
        }
    }
}

} // verus!
