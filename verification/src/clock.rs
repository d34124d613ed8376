//! The ledger's clock.

use vstd::prelude::*;
use anchor_lang::prelude::{Clock, ProgramError, SolanaSysvar};

verus! {

/// The error type of the ledger's runtime, declared so that a failed clock
/// reading can be handed to the code that reports it. Nothing is known of
/// its contents.
#[verifier::external_type_specification]
#[verifier::external_body]
pub struct ExProgramError(anchor_lang::prelude::ProgramError);

/// Reads the ledger's clock with `Clock::get` of `anchor_lang` and hands back
/// its `unix_timestamp`, in seconds, or the runtime's error where the clock
/// cannot be read (as is the case off the ledger).
///
/// Nothing is promised of the reading: it depends on when and where the call
/// is made, and two readings need not agree.
#[verifier::external_body]
pub(crate) fn unix_timestamp() -> (reading: Result<i64, ProgramError>) {
    match Clock::get() {
        Ok(clock) => Ok(clock.unix_timestamp),
        Err(e) => Err(e),
    }
}

} // verus!
