//! The status codes that a reply can carry.

use vstd::prelude::*;

verus! {

/// The status of a reply to a publisher.
#[allow(non_camel_case_types)]
#[derive(Clone, Copy, Debug, PartialEq, Eq, Structural)]
pub enum StatusCode {
    /// The event was handed to at least one listener.
    OK,
    /// The event was taken, and nobody was listening.
    ACCEPTED,
    /// The request was at fault.
    BAD_REQUEST,
    /// The request failed for a reason that has no code of its own.
    INTERNAL_SERVER_ERROR,
}

impl StatusCode {
    /// The three-digit number of the status.
    pub open spec fn number(self) -> nat {
        match self {
            StatusCode::OK => 200,
            StatusCode::ACCEPTED => 202,
            StatusCode::BAD_REQUEST => 400,
            StatusCode::INTERNAL_SERVER_ERROR => 500,
        }
    }

    /// Whether the status reports success: a number from 200 to 299.
    pub open spec fn success(self) -> bool {
        200 <= self.number() <= 299
    }

    /// The number of the status.
    pub fn as_u16(self) -> (number: u16)
        ensures
            number == self.number(),
    {
        match self {
            StatusCode::OK => 200,
            StatusCode::ACCEPTED => 202,
            StatusCode::BAD_REQUEST => 400,
            StatusCode::INTERNAL_SERVER_ERROR => 500,
        }
    }

    /// Whether the status reports success.
    pub fn is_success(self) -> (success: bool)
        ensures
            success == self.success(),
    {
        match self {
            StatusCode::OK => true,
            StatusCode::ACCEPTED => true,
            StatusCode::BAD_REQUEST => false,
            StatusCode::INTERNAL_SERVER_ERROR => false,
        }
    }
}

} // verus!
