//! The outcome of a signature verification.

use vstd::prelude::*;

verus! {

/// Whether a webhook signature was found genuine.
#[derive(Copy, Clone, Debug, PartialEq, Eq, Structural)]
pub enum VerificationStatus {
    Success,
    Failure,
}

impl VerificationStatus {
    /// The name of the status on the wire.
    pub open spec fn name(self) -> Seq<char> {
        match self {
            VerificationStatus::Success => "SUCCESS"@,
            VerificationStatus::Failure => "FAILURE"@,
        }
    }

    /// The name of the status on the wire: `SUCCESS` or `FAILURE`.
    pub fn as_str(self) -> (r: &'static str)
        ensures
            r@ == self.name(),
    {
        match self {
            VerificationStatus::Success => "SUCCESS",
            VerificationStatus::Failure => "FAILURE",
        }
    }
}

} // verus!
