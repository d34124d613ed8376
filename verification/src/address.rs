//! Where the ledger keeps a will: an address derived from the creator and
//! the name, so that a will is found without an index.

use vstd::prelude::*;
use vstd::utf8::encode_utf8;
use anchor_lang::prelude::Pubkey;
use crate::account::text_len;
use crate::identity::Identity;

verus! {

/// The most bytes that one seed of a derived address may have.
pub const MAX_SEED_LEN: usize = 32;

/// The address that the ledger derives for a program from two seeds,
/// together with the bump that was needed to reach it; `None` where it
/// derives none. This names what `Pubkey::try_find_program_address` of
/// `anchor_lang` returns for the seeds `first` and `second`, in this order,
/// and the program `program_id`.
pub uninterp spec fn derived_address(first: Seq<u8>, second: Seq<u8>, program_id: Seq<u8>) -> Option<
    (Seq<u8>, u8),
>;

/// Calls `Pubkey::try_find_program_address` of `anchor_lang` with the seeds
/// `first` and `second` for the program `program_id`.
///
/// The search hashes the seeds, a bump and the program and tests the hash
/// against the curve of the ledger's keys, so its result is a function of the
/// three arguments alone; it is named `derived_address`. Of that function
/// only this is stated: no address is derived where a seed has more than
/// `MAX_SEED_LEN` bytes.
#[verifier::external_body]
fn find_program_address(first: &[u8], second: &[u8], program_id: &[u8; 32]) -> (r: Option<
    ([u8; 32], u8),
>)
    ensures
        match r {
            Some((address, bump)) => derived_address(first@, second@, program_id@) == Some(
                (address@, bump),
            ),
            None => derived_address(first@, second@, program_id@) is None,
        },
        first@.len() > MAX_SEED_LEN || second@.len() > MAX_SEED_LEN ==> r is None,
{
    let program = Pubkey::new_from_array(*program_id);
    match Pubkey::try_find_program_address(&[first, second], &program) {
        Some((address, bump)) => Some((address.to_bytes(), bump)),
        None => None,
    }
}

/// The address of the will that `creator` named `will_name`, under the
/// program `program_id`, with its bump; `None` where there is none.
pub open spec fn address_of(creator: Seq<u8>, will_name: Seq<char>, program_id: Seq<u8>) -> Option<
    (Seq<u8>, u8),
> {
    derived_address(creator, encode_utf8(will_name), program_id)
}

/// Derives the address at which the ledger keeps the will that `creator`
/// named `will_name`, for the program `program_id`.
///
/// The address depends on nothing but the three arguments, so whoever knows
/// creator and name finds the will, and the ledger has room for one will
/// of each creator and name. A name of more than `MAX_SEED_LEN` bytes has no
/// address.
pub fn will_address(creator: &Identity, will_name: &str, program_id: &Identity) -> (r: Option<
    (Identity, u8),
>)
    ensures
        match r {
            Some((address, bump)) => address_of(creator@, will_name@, program_id@) == Some(
                (address@, bump),
            ),
            None => address_of(creator@, will_name@, program_id@) is None,
        },
        text_len(will_name@) > MAX_SEED_LEN ==> r is None,
{
    match find_program_address(creator.bytes.as_slice(), will_name.as_bytes(), &program_id.bytes) {
        Some((address, bump)) => Some((Identity::new(address), bump)),
        None => None,
    }
}

} // verus!
