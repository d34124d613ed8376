//! The lifecycle stage of a will and the byte that stores it.

use vstd::prelude::*;

verus! {

/// The lifecycle stage of a will.
///
/// A will starts as `Initialized`, is made `Active` by its creator, and ends
/// as `Revoked` or as `Claimed`. No request leads to `Expired`: the stage is
/// reserved and stays unused until expiry is given a meaning.
#[derive(Clone, Copy, Debug, PartialEq, Eq, Structural)]
pub enum Status {
    Initialized,
    Active,
    Revoked,
    Claimed,
    Expired,
}

impl Status {
    /// The byte that stores this stage in a record.
    pub open spec fn byte(self) -> u8 {
        match self {
            Status::Initialized => 0,
            Status::Active => 1,
            Status::Revoked => 2,
            Status::Claimed => 3,
            Status::Expired => 4,
        }
    }

    /// The stage that a stored byte stands for, if it stands for one.
    pub open spec fn of_byte(b: u8) -> Option<Status> {
        if b == 0 {
            Some(Status::Initialized)
        } else if b == 1 {
            Some(Status::Active)
        } else if b == 2 {
            Some(Status::Revoked)
        } else if b == 3 {
            Some(Status::Claimed)
        } else if b == 4 {
            Some(Status::Expired)
        } else {
            None
        }
    }

    /// Whether one accepted request takes a will from `self` to `next`.
    pub open spec fn leads_to(self, next: Status) -> bool {
        match self {
            Status::Initialized => next == Status::Active,
            Status::Active => next == Status::Revoked || next == Status::Claimed,
            _ => false,
        }
    }

    /// The byte that stores this stage in a record.
    #[verifier::when_used_as_spec(byte)]
    pub fn as_u8(self) -> (b: u8)
        ensures
            b == self.byte(),
    {
        match self {
            Status::Initialized => 0,
            Status::Active => 1,
            Status::Revoked => 2,
            Status::Claimed => 3,
            Status::Expired => 4,
        }
    }

    /// Reads a stored byte back as a stage; `None` for a byte that stores none.
    pub fn from_u8(b: u8) -> (s: Option<Status>)
        ensures
            s == Status::of_byte(b),
    {
        if b == 0 {
            Some(Status::Initialized)
        } else if b == 1 {
            Some(Status::Active)
        } else if b == 2 {
            Some(Status::Revoked)
        } else if b == 3 {
            Some(Status::Claimed)
        } else if b == 4 {
            Some(Status::Expired)
        } else {
            None
        }
    }

    /// Storing a stage and reading it back gives the stage again, and a byte
    /// that reads as a stage is the byte that stores it.
    pub proof fn lemma_byte_round_trip(s: Status, b: u8)
        ensures
            Status::of_byte(s.byte()) == Some(s),
            Status::of_byte(b) == Some(s) ==> b == s.byte(),
            Status::of_byte(b) is Some <==> b <= 4,
    {
    }
}

} // verus!
