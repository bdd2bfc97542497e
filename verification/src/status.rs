//! The HTTP statuses that the library's decisions answer with.

use vstd::prelude::*;

verus! {

/// An HTTP status that a refused request is answered with.
#[derive(Debug, Clone, Copy, PartialEq, Eq, Structural)]
pub enum Status {
    BadRequest,
    Unauthorized,
    NotFound,
    InternalServerError,
}

impl Status {
    /// The numeric HTTP code of the status.
    pub open spec fn spec_code(self) -> u16 {
        match self {
            Status::BadRequest => 400,
            Status::Unauthorized => 401,
            Status::NotFound => 404,
            Status::InternalServerError => 500,
        }
    }

    /// The codes of the statuses.
    pub proof fn lemma_codes()
        ensures
            Status::BadRequest.spec_code() == 400,
            Status::Unauthorized.spec_code() == 401,
            Status::NotFound.spec_code() == 404,
            Status::InternalServerError.spec_code() == 500,
    {
    }

    /// The numeric HTTP code of the status.
    pub fn code(&self) -> (c: u16)
        ensures
            c == self.spec_code(),
    {
        match self {
            Status::BadRequest => 400,
            Status::Unauthorized => 401,
            Status::NotFound => 404,
            Status::InternalServerError => 500,
        }
    }
}

} // verus!
