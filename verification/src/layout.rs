//! How a will is laid out in storage, and how much storage it needs.
//!
//! A stored will is, in this order: a fixed header, the creator, the
//! beneficiary, the release time, the status byte, and then the name, the
//! description, the creator's share and the beneficiary's share, each as a
//! length prefix followed by its bytes.

use vstd::prelude::*;
use crate::account::{
    stored_len, text_len, WillAccountView, MAX_DESCRIPTION_LEN, MAX_NAME_LEN, MAX_SHARE_LEN,
};
use crate::identity::IDENTITY_LEN;

verus! {

/// The bytes of the fixed header that every stored will starts with.
pub const HEADER_LEN: usize = 8;

/// The bytes of the stored release time.
pub const TIME_LOCK_LEN: usize = 8;

/// The bytes of the stored status.
pub const STATUS_LEN: usize = 1;

/// The bytes of the length prefix in front of each field of variable length.
pub const LENGTH_PREFIX_LEN: usize = 4;

/// The bytes of a stored will whose four fields of variable length are empty:
/// everything of fixed size, and the four length prefixes.
pub const MIN_SPACE: usize = HEADER_LEN + IDENTITY_LEN + IDENTITY_LEN + TIME_LOCK_LEN + STATUS_LEN
    + LENGTH_PREFIX_LEN + LENGTH_PREFIX_LEN + LENGTH_PREFIX_LEN + LENGTH_PREFIX_LEN;

/// The bytes of a stored will whose four fields of variable length are all
/// as long as they may be.
pub const MAX_SPACE: usize = MIN_SPACE + MAX_NAME_LEN + MAX_DESCRIPTION_LEN + MAX_SHARE_LEN
    + MAX_SHARE_LEN;

/// The storage that a will needs whose name, description and two shares have
/// the given numbers of bytes: the fixed part, and for each of the four
/// fields its length prefix and the bytes it really has.
pub open spec fn stored_size(
    name_len: nat,
    description_len: nat,
    user_share_len: nat,
    beneficiary_share_len: nat,
) -> nat {
    HEADER_LEN as nat + IDENTITY_LEN as nat + IDENTITY_LEN as nat + TIME_LOCK_LEN as nat
        + STATUS_LEN as nat + (LENGTH_PREFIX_LEN as nat + name_len) + (LENGTH_PREFIX_LEN as nat
        + description_len) + (LENGTH_PREFIX_LEN as nat + user_share_len) + (LENGTH_PREFIX_LEN as nat
        + beneficiary_share_len)
}

impl WillAccountView {
    /// The storage that this will needs.
    pub open spec fn space(self) -> nat {
        stored_size(
            text_len(self.will_name),
            text_len(self.will_description),
            self.encrypted_user_share.len(),
            self.encrypted_beneficiary_share.len(),
        )
    }
}

/// Computes the storage to allocate for a will with the given name,
/// description and shares: `stored_size` of their lengths. `None` only where
/// that number does not fit the machine's `usize`.
pub fn will_space(
    will_name: &str,
    will_description: &str,
    encrypted_user_share: &[u8],
    encrypted_beneficiary_share: &[u8],
) -> (r: Option<usize>)
    ensures
        match r {
            Some(n) => n == stored_size(
                text_len(will_name@),
                text_len(will_description@),
                encrypted_user_share@.len(),
                encrypted_beneficiary_share@.len(),
            ),
            None => stored_size(
                text_len(will_name@),
                text_len(will_description@),
                encrypted_user_share@.len(),
                encrypted_beneficiary_share@.len(),
            ) > usize::MAX,
        },
{
    let with_name: usize = match MIN_SPACE.checked_add(stored_len(will_name)) {
        Some(n) => n,
        None => { return None; },
    };
    let with_description: usize = match with_name.checked_add(stored_len(will_description)) {
        Some(n) => n,
        None => { return None; },
    };
    let with_user_share: usize = match with_description.checked_add(encrypted_user_share.len()) {
        Some(n) => n,
        None => { return None; },
    };
    with_user_share.checked_add(encrypted_beneficiary_share.len())
}

} // verus!
