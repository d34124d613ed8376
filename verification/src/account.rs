//! The will record: what it holds, how large its fields may be, and how it
//! is seen in contracts.

use vstd::prelude::*;
use vstd::utf8::encode_utf8;
use crate::identity::{Identity, IDENTITY_LEN};
use crate::status::Status;

verus! {

/// The most bytes the name of a will may have.
pub const MAX_NAME_LEN: usize = 100;

/// The most bytes the description of a will may have.
pub const MAX_DESCRIPTION_LEN: usize = 500;

/// The most bytes either encrypted share may have.
pub const MAX_SHARE_LEN: usize = 1024;

/// The number of bytes that a text occupies when stored.
pub open spec fn text_len(text: Seq<char>) -> nat {
    encode_utf8(text).len()
}

/// The number of bytes that `text` occupies when stored.
pub fn stored_len(text: &str) -> (n: usize)
    ensures
        n == text_len(text@),
{
    text.as_bytes().len()
}

/// A will as the ledger stores it.
///
/// The creator, the beneficiary, the release time, the two texts and the two
/// shares are set when the will is created and never change afterwards; only
/// `status` moves, and only through the requests of this library. The shares
/// are ciphertext: they are stored and bounded, never read.
#[derive(Debug, PartialEq, Eq)]
pub struct WillAccount {
    pub creator: Identity,
    pub beneficiary: Identity,
    pub time_lock: u64,
    pub status: u8,
    pub will_name: String,
    pub will_description: String,
    pub encrypted_user_share: Vec<u8>,
    pub encrypted_beneficiary_share: Vec<u8>,
}

/// A will as contracts speak of it.
pub struct WillAccountView {
    pub creator: Seq<u8>,
    pub beneficiary: Seq<u8>,
    pub time_lock: u64,
    pub status: u8,
    pub will_name: Seq<char>,
    pub will_description: Seq<char>,
    pub encrypted_user_share: Seq<u8>,
    pub encrypted_beneficiary_share: Seq<u8>,
}

impl View for WillAccount {
    type V = WillAccountView;

    open spec fn view(&self) -> WillAccountView {
        WillAccountView {
            creator: self.creator@,
            beneficiary: self.beneficiary@,
            time_lock: self.time_lock,
            status: self.status,
            will_name: self.will_name@,
            will_description: self.will_description@,
            encrypted_user_share: self.encrypted_user_share@,
            encrypted_beneficiary_share: self.encrypted_beneficiary_share@,
        }
    }
}

impl WillAccountView {
    /// The identities have their full length, every other field is within
    /// its bound, and the status byte stores a stage.
    pub open spec fn wf(self) -> bool {
        &&& self.creator.len() == IDENTITY_LEN
        &&& self.beneficiary.len() == IDENTITY_LEN
        &&& Status::of_byte(self.status) is Some
        &&& text_len(self.will_name) <= MAX_NAME_LEN
        &&& text_len(self.will_description) <= MAX_DESCRIPTION_LEN
        &&& self.encrypted_user_share.len() <= MAX_SHARE_LEN
        &&& self.encrypted_beneficiary_share.len() <= MAX_SHARE_LEN
    }

    /// The same will in another stage.
    pub open spec fn with_status(self, status: Status) -> WillAccountView {
        WillAccountView { status: status.byte(), ..self }
    }

    /// Whether the will is in the given stage.
    pub open spec fn in_stage(self, status: Status) -> bool {
        self.status == status.byte()
    }
}

impl Clone for WillAccount {
    /// A copy that holds the same will.
    fn clone(&self) -> (copy: WillAccount)
        ensures
            copy@ == self@,
    {
        let encrypted_user_share = self.encrypted_user_share.clone();
        let encrypted_beneficiary_share = self.encrypted_beneficiary_share.clone();
        assert(encrypted_user_share@ =~= self.encrypted_user_share@);
        assert(encrypted_beneficiary_share@ =~= self.encrypted_beneficiary_share@);
        WillAccount {
            creator: self.creator,
            beneficiary: self.beneficiary,
            time_lock: self.time_lock,
            status: self.status,
            will_name: self.will_name.clone(),
            will_description: self.will_description.clone(),
            encrypted_user_share,
            encrypted_beneficiary_share,
        }
    }
}

impl WillAccount {
    /// Every field is within its bound and the status byte stores a stage.
    pub open spec fn wf(&self) -> bool {
        self@.wf()
    }

    /// The stage of this will; `None` if the status byte stores none.
    pub fn stage(&self) -> (s: Option<Status>)
        ensures
            s == Status::of_byte(self@.status),
    {
        Status::from_u8(self.status)
    }
}

} // verus!
