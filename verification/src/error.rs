//! Why a request on a will was refused.

use vstd::prelude::*;

verus! {

/// The reason a request was refused. A refused request changes nothing.
#[derive(Clone, Copy, Debug, PartialEq, Eq, Structural)]
pub enum ErrorCode {
    /// The caller is not the party that may make this request.
    Unauthorized,
    /// The will is not in the stage from which this request may be made.
    InvalidStatus,
    /// The release time of the will has not come yet.
    TimelockNotExpired,
    /// The name or the description is longer than a will may hold.
    StringTooLong,
    /// A share is larger than a will may hold.
    DataTooLarge,
}

impl ErrorCode {
    /// The text that reports this reason.
    pub open spec fn text(self) -> Seq<char> {
        match self {
            ErrorCode::Unauthorized => "Unauthorized access."@,
            ErrorCode::InvalidStatus => "Invalid will status."@,
            ErrorCode::TimelockNotExpired => "Timelock has not expired."@,
            ErrorCode::StringTooLong => "String too long."@,
            ErrorCode::DataTooLarge => "Data too large."@,
        }
    }

    /// The text that reports this reason.
    pub fn message(&self) -> (m: &'static str)
        ensures
            m@ == self.text(),
    {
        match self {
            ErrorCode::Unauthorized => "Unauthorized access.",
            ErrorCode::InvalidStatus => "Invalid will status.",
            ErrorCode::TimelockNotExpired => "Timelock has not expired.",
            ErrorCode::StringTooLong => "String too long.",
            ErrorCode::DataTooLarge => "Data too large.",
        }
    }
}

/// Why a claim that read the ledger clock itself did not go through.
#[derive(Clone, Copy, Debug, PartialEq, Eq, Structural)]
pub enum ClaimError {
    /// The claim was examined and refused for the given reason.
    Rejected(ErrorCode),
    /// The ledger clock could not be read, so the release time was not tested.
    ClockUnavailable,
}

} // verus!
