//! The error taxonomy.
//!
//! Every component-level call fails with one of these kinds, so that the
//! batch report can name what went wrong per row: a transport failure is
//! retried by nobody and surfaced; a schema mismatch means the remote
//! changed shape; a structural not-found means an assumption about the
//! remote page broke; validation covers locally detectable bad input.

use vstd::prelude::*;
use vstd::string::*;

verus! {

/// Why a call against the remote system failed.
#[derive(Debug, Clone, Copy, PartialEq, Eq, Structural)]
pub enum ApiError {
    /// Network or HTTP failure: a non-success (and, where redirects are
    /// acceptable, non-redirect) status.
    Transport { status: u16 },
    /// The response could not be decoded into the canonical record shape.
    Schema,
    /// Expected structural content was missing (an empty option list, a
    /// record id absent from a fetched page).
    NotFound,
    /// Locally detectable bad input (an empty batch file).
    Validation,
}

impl ApiError {
    /// The short label of this failure kind.
    pub open spec fn describe_spec(&self) -> Seq<char> {
        match self {
            ApiError::Transport { .. } => "transport failure"@,
            ApiError::Schema => "schema mismatch"@,
            ApiError::NotFound => "expected content missing"@,
            ApiError::Validation => "invalid local input"@,
        }
    }

    /// A short label for the batch report.
    pub fn describe(&self) -> (r: String)
        ensures
            r@ == self.describe_spec(),
    {
        match self {
            ApiError::Transport { .. } => String::from_str("transport failure"),
            ApiError::Schema => String::from_str("schema mismatch"),
            ApiError::NotFound => String::from_str("expected content missing"),
            ApiError::Validation => String::from_str("invalid local input"),
        }
    }
}

} // verus!
