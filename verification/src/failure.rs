//! The fixed set of ways a request can fail.

use vstd::prelude::*;

verus! {

/// Why a request was refused. Callers learn the class and nothing more.
#[derive(Clone, Copy, Debug, PartialEq, Eq, Structural)]
pub enum Failure {
    /// The session proof is missing, invalid or expired.
    Unauthenticated,
    /// The caller is known, and policy denies the operation.
    Unauthorized,
    /// A referenced entity is absent.
    NotFound,
    /// A uniqueness rule would be broken.
    Conflict,
    /// The input has the wrong shape.
    ValidationFailed,
    /// Storage or mail could not be reached, or failed.
    UpstreamUnavailable,
}

impl Failure {
    /// The HTTP status that stands for this class.
    pub open spec fn status(self) -> nat {
        match self {
            Failure::Unauthenticated => 401,
            Failure::Unauthorized => 401,
            Failure::NotFound => 404,
            Failure::Conflict => 409,
            Failure::ValidationFailed => 400,
            Failure::UpstreamUnavailable => 500,
        }
    }

    pub fn status_code(self) -> (code: u16)
        ensures
            code == self.status(),
    {
        match self {
            Failure::Unauthenticated => 401,
            Failure::Unauthorized => 401,
            Failure::NotFound => 404,
            Failure::Conflict => 409,
            Failure::ValidationFailed => 400,
            Failure::UpstreamUnavailable => 500,
        }
    }
}

} // verus!
