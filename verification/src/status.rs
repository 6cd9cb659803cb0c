//! The HTTP statuses the route handlers answer with.

use vstd::prelude::*;

verus! {

/// Every status a handler can produce. `Found` answers a successful
/// single-entity fetch, and `NotImplemented` is the catch-all for a storage
/// failure no handler maps specially; both are kept for wire compatibility.
#[derive(Clone, Copy, Debug, PartialEq, Eq, Structural)]
pub enum Status {
    Okay,
    Created,
    Accepted,
    Found,
    BadRequest,
    NotFound,
    NotImplemented,
}

impl Status {
    /// The numeric code of the status.
    pub open spec fn spec_code(self) -> u16 {
        match self {
            Status::Okay => 200,
            Status::Created => 201,
            Status::Accepted => 202,
            Status::Found => 302,
            Status::BadRequest => 400,
            Status::NotFound => 404,
            Status::NotImplemented => 501,
        }
    }

    /// The numeric code of the status.
    #[verifier::when_used_as_spec(spec_code)]
    pub fn code(self) -> (c: u16)
        ensures
            c == self.spec_code(),
    {
        match self {
            Status::Okay => 200,
            Status::Created => 201,
            Status::Accepted => 202,
            Status::Found => 302,
            Status::BadRequest => 400,
            Status::NotFound => 404,
            Status::NotImplemented => 501,
        }
    }
}

} // verus!
