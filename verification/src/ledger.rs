//! The requests that create a will and move it through its lifecycle.
//!
//! Each request is examined in full before anything is written: it either
//! goes through, or it is refused with its reason and the will is left as it
//! was. What each request does is defined once, on the view of a will, by
//! `created`, `activated`, `revoked` and `claimed`; the executable functions
//! are proved to do exactly that.

use vstd::prelude::*;
use crate::account::{
    stored_len, text_len, WillAccount, WillAccountView, MAX_DESCRIPTION_LEN, MAX_NAME_LEN,
    MAX_SHARE_LEN,
};
use crate::clock::unix_timestamp;
use crate::error::{ClaimError, ErrorCode};
use crate::identity::Identity;
use crate::status::Status;

verus! {

/// What creating a will with these fields gives: the new will, in stage
/// `Initialized`, or the reason it cannot be created. An oversized text is
/// reported before an oversized share.
pub open spec fn created(
    creator: Seq<u8>,
    beneficiary: Seq<u8>,
    will_name: Seq<char>,
    will_description: Seq<char>,
    time_lock: u64,
    encrypted_user_share: Seq<u8>,
    encrypted_beneficiary_share: Seq<u8>,
) -> Result<WillAccountView, ErrorCode> {
    if text_len(will_name) > MAX_NAME_LEN || text_len(will_description) > MAX_DESCRIPTION_LEN {
        Err(ErrorCode::StringTooLong)
    } else if encrypted_user_share.len() > MAX_SHARE_LEN || encrypted_beneficiary_share.len()
        > MAX_SHARE_LEN {
        Err(ErrorCode::DataTooLarge)
    } else {
        Ok(
            WillAccountView {
                creator,
                beneficiary,
                time_lock,
                status: Status::Initialized.byte(),
                will_name,
                will_description,
                encrypted_user_share,
                encrypted_beneficiary_share,
            },
        )
    }
}

/// Creates a will of `creator` for `beneficiary`, to be released at
/// `time_lock`.
///
/// The name may have up to `MAX_NAME_LEN` bytes and the description up to
/// `MAX_DESCRIPTION_LEN`, else the request is refused with `StringTooLong`;
/// each share may have up to `MAX_SHARE_LEN` bytes, else it is refused with
/// `DataTooLarge`. The new will holds the given fields unchanged and is in
/// stage `Initialized`.
///
/// The ledger keeps the new will at the address of its creator and name (see
/// `will_address`). That no will is there yet is for the ledger to see to when
/// it allocates the storage; nothing here keeps a record of other wills.
pub fn create_will(
    creator: Identity,
    beneficiary: Identity,
    will_name: String,
    will_description: String,
    time_lock: u64,
    encrypted_user_share: Vec<u8>,
    encrypted_beneficiary_share: Vec<u8>,
) -> (r: Result<WillAccount, ErrorCode>)
    ensures
        match created(
            creator@,
            beneficiary@,
            will_name@,
            will_description@,
            time_lock,
            encrypted_user_share@,
            encrypted_beneficiary_share@,
        ) {
            Ok(w) => r matches Ok(will) && will@ == w && will.wf(),
            Err(e) => r == Err::<WillAccount, ErrorCode>(e),
        },
{
    if stored_len(will_name.as_str()) > MAX_NAME_LEN {
        return Err(ErrorCode::StringTooLong);
    }
    if stored_len(will_description.as_str()) > MAX_DESCRIPTION_LEN {
        return Err(ErrorCode::StringTooLong);
    }
    if encrypted_user_share.len() > MAX_SHARE_LEN {
        return Err(ErrorCode::DataTooLarge);
    }
    if encrypted_beneficiary_share.len() > MAX_SHARE_LEN {
        return Err(ErrorCode::DataTooLarge);
    }
    Ok(
        WillAccount {
            creator,
            beneficiary,
            time_lock,
            status: Status::Initialized.as_u8(),
            will_name,
            will_description,
            encrypted_user_share,
            encrypted_beneficiary_share,
        },
    )
}

/// What a request of `caller` to activate `will` gives: the will in stage
/// `Active`, or the reason for the refusal. Only the creator may activate,
/// and only a will that is `Initialized`.
pub open spec fn activated(will: WillAccountView, caller: Seq<u8>) -> Result<
    WillAccountView,
    ErrorCode,
> {
    if caller != will.creator {
        Err(ErrorCode::Unauthorized)
    } else if !will.in_stage(Status::Initialized) {
        Err(ErrorCode::InvalidStatus)
    } else {
        Ok(will.with_status(Status::Active))
    }
}

/// What a request of `caller` to revoke `will` gives: the will in stage
/// `Revoked`, or the reason for the refusal. Only the creator may revoke, and
/// only a will that is `Active`.
pub open spec fn revoked(will: WillAccountView, caller: Seq<u8>) -> Result<
    WillAccountView,
    ErrorCode,
> {
    if caller != will.creator {
        Err(ErrorCode::Unauthorized)
    } else if !will.in_stage(Status::Active) {
        Err(ErrorCode::InvalidStatus)
    } else {
        Ok(will.with_status(Status::Revoked))
    }
}

/// Whether the release time `time_lock` has come at the clock reading `now`.
/// The two are compared as numbers, so a reading before the epoch reaches no
/// release time, and a release time beyond the clock's range is never reached.
pub open spec fn released(time_lock: u64, now: i64) -> bool {
    now >= time_lock
}

/// What a request of `caller` to claim `will` at the clock reading `now`
/// gives: the will in stage `Claimed`, or the reason for the refusal. Only
/// the beneficiary may claim, only a will that is `Active`, and only once the
/// release time has come.
pub open spec fn claimed(will: WillAccountView, caller: Seq<u8>, now: i64) -> Result<
    WillAccountView,
    ErrorCode,
> {
    if caller != will.beneficiary {
        Err(ErrorCode::Unauthorized)
    } else if !will.in_stage(Status::Active) {
        Err(ErrorCode::InvalidStatus)
    } else if !released(will.time_lock, now) {
        Err(ErrorCode::TimelockNotExpired)
    } else {
        Ok(will.with_status(Status::Claimed))
    }
}

/// Whether `after` is `before` with at most the status changed.
pub open spec fn same_but_status(before: WillAccount, after: WillAccount) -> bool {
    after == (WillAccount { status: after.status, ..before })
}

/// Activates `will` at the request of `creator`.
///
/// Refused with `Unauthorized` unless `creator` is the will's creator, else
/// with `InvalidStatus` unless the will is `Initialized`. A refused request
/// leaves the will as it was; an accepted one changes the status to `Active`
/// and nothing else.
pub fn activate_will(will: &mut WillAccount, creator: &Identity) -> (r: Result<(), ErrorCode>)
    ensures
        match activated(old(will)@, creator@) {
            Ok(after) => r is Ok && final(will)@ == after,
            Err(e) => r == Err::<(), ErrorCode>(e) && *final(will) == *old(will),
        },
        same_but_status(*old(will), *final(will)),
{
    if will.creator != *creator {
        return Err(ErrorCode::Unauthorized);
    }
    if will.status != Status::Initialized.as_u8() {
        return Err(ErrorCode::InvalidStatus);
    }
    will.status = Status::Active.as_u8();
    Ok(())
}

/// Revokes `will` at the request of `creator`.
///
/// Refused with `Unauthorized` unless `creator` is the will's creator, else
/// with `InvalidStatus` unless the will is `Active`. A refused request leaves
/// the will as it was; an accepted one changes the status to `Revoked` and
/// nothing else. A revoked will accepts no further request.
pub fn revoke_will(will: &mut WillAccount, creator: &Identity) -> (r: Result<(), ErrorCode>)
    ensures
        match revoked(old(will)@, creator@) {
            Ok(after) => r is Ok && final(will)@ == after,
            Err(e) => r == Err::<(), ErrorCode>(e) && *final(will) == *old(will),
        },
        same_but_status(*old(will), *final(will)),
{
    if will.creator != *creator {
        return Err(ErrorCode::Unauthorized);
    }
    if will.status != Status::Active.as_u8() {
        return Err(ErrorCode::InvalidStatus);
    }
    will.status = Status::Revoked.as_u8();
    Ok(())
}

/// Tests whether `now` has reached `time_lock`.
pub fn is_released(time_lock: u64, now: i64) -> (r: bool)
    ensures
        r == released(time_lock, now),
{
    now >= 0 && now as u64 >= time_lock
}

/// Claims `will` at the request of `beneficiary`, the ledger clock reading
/// `now`.
///
/// Refused with `Unauthorized` unless `beneficiary` is the will's
/// beneficiary, else with `InvalidStatus` unless the will is `Active`, else
/// with `TimelockNotExpired` unless `now` has reached the will's release
/// time. A refused request leaves the will as it was; an accepted one changes
/// the status to `Claimed` and nothing else. The claim releases nothing by
/// itself: the status is the signal that others act on. A claimed will
/// accepts no further request.
pub fn claim_will_at(will: &mut WillAccount, beneficiary: &Identity, now: i64) -> (r: Result<
    (),
    ErrorCode,
>)
    ensures
        match claimed(old(will)@, beneficiary@, now) {
            Ok(after) => r is Ok && final(will)@ == after,
            Err(e) => r == Err::<(), ErrorCode>(e) && *final(will) == *old(will),
        },
        same_but_status(*old(will), *final(will)),
{
    if will.beneficiary != *beneficiary {
        return Err(ErrorCode::Unauthorized);
    }
    if will.status != Status::Active.as_u8() {
        return Err(ErrorCode::InvalidStatus);
    }
    if !is_released(will.time_lock, now) {
        return Err(ErrorCode::TimelockNotExpired);
    }
    will.status = Status::Claimed.as_u8();
    Ok(())
}

/// Claims `will` at the request of `beneficiary`, reading the ledger clock
/// for the time.
///
/// The request is examined as by `claim_will_at`. A request that would be
/// refused whatever the time is refused without reading the clock. Where the
/// clock is needed and cannot be read, the claim fails with
/// `ClockUnavailable` and the will is left as it was. Otherwise some clock
/// reading accounts for the result: the claim went through, or was refused,
/// as `claimed` says for that reading.
pub fn claim_will(will: &mut WillAccount, beneficiary: &Identity) -> (r: Result<(), ClaimError>)
    ensures
        same_but_status(*old(will), *final(will)),
        beneficiary@ != old(will)@.beneficiary ==> r == Err::<(), ClaimError>(
            ClaimError::Rejected(ErrorCode::Unauthorized),
        ),
        beneficiary@ == old(will)@.beneficiary && !old(will)@.in_stage(Status::Active) ==> r
            == Err::<(), ClaimError>(ClaimError::Rejected(ErrorCode::InvalidStatus)),
        r == Err::<(), ClaimError>(ClaimError::ClockUnavailable) ==> *final(will) == *old(will),
        r != Err::<(), ClaimError>(ClaimError::ClockUnavailable) ==> exists|now: i64|
            match #[trigger] claimed(old(will)@, beneficiary@, now) {
                Ok(after) => r is Ok && final(will)@ == after,
                Err(e) => r == Err::<(), ClaimError>(ClaimError::Rejected(e)) && *final(will)
                    == *old(will),
            },
{
    if will.beneficiary != *beneficiary {
        assert(claimed(will@, beneficiary@, 0) == Err::<WillAccountView, ErrorCode>(
            ErrorCode::Unauthorized,
        ));
        return Err(ClaimError::Rejected(ErrorCode::Unauthorized));
    }
    if will.status != Status::Active.as_u8() {
        assert(claimed(will@, beneficiary@, 0) == Err::<WillAccountView, ErrorCode>(
            ErrorCode::InvalidStatus,
        ));
        return Err(ClaimError::Rejected(ErrorCode::InvalidStatus));
    }
    match unix_timestamp() {
        Err(_) => Err(ClaimError::ClockUnavailable),
        Ok(now) => match claim_will_at(will, beneficiary, now) {
            Ok(()) => Ok(()),
            Err(e) => Err(ClaimError::Rejected(e)),
        },
    }
}

} // verus!
