//! What holds of every will and every request, proved from the definitions
//! of the requests.

use vstd::prelude::*;
use crate::account::{
    text_len, WillAccountView, MAX_DESCRIPTION_LEN, MAX_NAME_LEN, MAX_SHARE_LEN,
};
use crate::address::address_of;
use crate::identity::IDENTITY_LEN;
use crate::error::ErrorCode;
use crate::layout::{MAX_SPACE, MIN_SPACE};
use crate::ledger::{activated, claimed, created, released, revoked};
use crate::status::Status;

verus! {

/// Whether a will with these fields may be created: both texts and both
/// shares are within their bounds.
pub open spec fn within_bounds(
    will_name: Seq<char>,
    will_description: Seq<char>,
    encrypted_user_share: Seq<u8>,
    encrypted_beneficiary_share: Seq<u8>,
) -> bool {
    &&& text_len(will_name) <= MAX_NAME_LEN
    &&& text_len(will_description) <= MAX_DESCRIPTION_LEN
    &&& encrypted_user_share.len() <= MAX_SHARE_LEN
    &&& encrypted_beneficiary_share.len() <= MAX_SHARE_LEN
}

/// Creation succeeds exactly on fields within their bounds. An oversized text
/// is reported as `StringTooLong`, also where a share is oversized too; an
/// oversized share beside texts within bounds as `DataTooLarge`. The new will
/// holds the fields as given, is `Initialized`, and is well formed where the
/// two identities have their full length.
pub proof fn lemma_create_accepts_exactly_bounded_fields(
    creator: Seq<u8>,
    beneficiary: Seq<u8>,
    will_name: Seq<char>,
    will_description: Seq<char>,
    time_lock: u64,
    encrypted_user_share: Seq<u8>,
    encrypted_beneficiary_share: Seq<u8>,
)
    ensures
        ({
            let outcome = created(
                creator,
                beneficiary,
                will_name,
                will_description,
                time_lock,
                encrypted_user_share,
                encrypted_beneficiary_share,
            );
            let texts_fit = text_len(will_name) <= MAX_NAME_LEN && text_len(will_description)
                <= MAX_DESCRIPTION_LEN;
            let shares_fit = encrypted_user_share.len() <= MAX_SHARE_LEN
                && encrypted_beneficiary_share.len() <= MAX_SHARE_LEN;
            &&& outcome is Ok <==> within_bounds(
                will_name,
                will_description,
                encrypted_user_share,
                encrypted_beneficiary_share,
            )
            &&& outcome == Err::<WillAccountView, ErrorCode>(ErrorCode::StringTooLong)
                <==> !texts_fit
            &&& outcome == Err::<WillAccountView, ErrorCode>(ErrorCode::DataTooLarge) <==> texts_fit
                && !shares_fit
            &&& outcome matches Ok(will) ==> {
                &&& will.in_stage(Status::Initialized)
                &&& will.creator == creator
                &&& will.beneficiary == beneficiary
                &&& will.time_lock == time_lock
                &&& will.will_name == will_name
                &&& will.will_description == will_description
                &&& will.encrypted_user_share == encrypted_user_share
                &&& will.encrypted_beneficiary_share == encrypted_beneficiary_share
                &&& creator.len() == IDENTITY_LEN && beneficiary.len() == IDENTITY_LEN
                    ==> will.wf()
            }
        }),
{
}

/// A will created from fields within their bounds is activated by its
/// creator at once: the activation succeeds and leaves the will `Active`.
pub proof fn lemma_create_then_activate(
    creator: Seq<u8>,
    beneficiary: Seq<u8>,
    will_name: Seq<char>,
    will_description: Seq<char>,
    time_lock: u64,
    encrypted_user_share: Seq<u8>,
    encrypted_beneficiary_share: Seq<u8>,
)
    requires
        within_bounds(
            will_name,
            will_description,
            encrypted_user_share,
            encrypted_beneficiary_share,
        ),
    ensures
        created(
            creator,
            beneficiary,
            will_name,
            will_description,
            time_lock,
            encrypted_user_share,
            encrypted_beneficiary_share,
        ) matches Ok(will) && activated(will, creator) matches Ok(active) && active.in_stage(
            Status::Active,
        ) && active == will.with_status(Status::Active),
{
}

/// Whoever is not the creator cannot activate a will, whatever its stage:
/// the request is refused with `Unauthorized`.
pub proof fn lemma_activate_by_stranger_is_unauthorized(will: WillAccountView, caller: Seq<u8>)
    requires
        caller != will.creator,
    ensures
        activated(will, caller) == Err::<WillAccountView, ErrorCode>(ErrorCode::Unauthorized),
{
}

/// Whoever is not the creator cannot revoke a will, and whoever is not the
/// beneficiary cannot claim it, whatever its stage and whatever the time.
pub proof fn lemma_stranger_is_unauthorized(will: WillAccountView, caller: Seq<u8>, now: i64)
    ensures
        caller != will.creator ==> revoked(will, caller) == Err::<WillAccountView, ErrorCode>(
            ErrorCode::Unauthorized,
        ),
        caller != will.beneficiary ==> claimed(will, caller, now) == Err::<
            WillAccountView,
            ErrorCode,
        >(ErrorCode::Unauthorized),
{
}

/// Before the release time no claim goes through; the claim of the
/// beneficiary on an active will is then refused with `TimelockNotExpired`.
pub proof fn lemma_claim_before_release_fails(will: WillAccountView, caller: Seq<u8>, now: i64)
    requires
        now < will.time_lock,
    ensures
        claimed(will, caller, now) is Err,
        caller == will.beneficiary && will.in_stage(Status::Active) ==> claimed(will, caller, now)
            == Err::<WillAccountView, ErrorCode>(ErrorCode::TimelockNotExpired),
{
}

/// From the release time on, the claim of the beneficiary on an active will
/// goes through.
pub proof fn lemma_claim_from_release_on_succeeds(will: WillAccountView, now: i64)
    requires
        will.in_stage(Status::Active),
        now >= will.time_lock,
    ensures
        claimed(will, will.beneficiary, now) == Ok::<WillAccountView, ErrorCode>(
            will.with_status(Status::Claimed),
        ),
{
}

/// A will that is already revoked or claimed cannot be revoked: no request to
/// revoke it goes through, and that of its creator is refused with
/// `InvalidStatus`.
pub proof fn lemma_revoke_after_the_end_fails(will: WillAccountView, caller: Seq<u8>)
    requires
        will.in_stage(Status::Revoked) || will.in_stage(Status::Claimed),
    ensures
        revoked(will, caller) is Err,
        caller == will.creator ==> revoked(will, caller) == Err::<WillAccountView, ErrorCode>(
            ErrorCode::InvalidStatus,
        ),
{
}

/// Of two claims by the beneficiary on the same active will, both made when
/// the release time has come, exactly one goes through: the one that the
/// ledger takes first leaves the will `Claimed`, and the other, which then
/// finds it so, is refused with `InvalidStatus` and changes nothing.
pub proof fn lemma_one_of_two_claims_succeeds(will: WillAccountView, first: i64, second: i64)
    requires
        will.in_stage(Status::Active),
        first >= will.time_lock,
        second >= will.time_lock,
    ensures
        claimed(will, will.beneficiary, first) matches Ok(after) && after.in_stage(Status::Claimed)
            && claimed(after, will.beneficiary, second) == Err::<WillAccountView, ErrorCode>(
            ErrorCode::InvalidStatus,
        ),
{
}

/// Whether `after` is `before` moved along one edge of the lifecycle: the
/// status of `before` stores a stage, the lifecycle leads from it to the
/// stage of `after`, and nothing but the status differs.
pub open spec fn one_step(before: WillAccountView, after: WillAccountView) -> bool {
    match (Status::of_byte(before.status), Status::of_byte(after.status)) {
        (Some(from), Some(to)) => from.leads_to(to) && after == before.with_status(to),
        _ => false,
    }
}

/// A request that goes through moves the will along one edge of its
/// lifecycle and changes nothing but the status: activation from
/// `Initialized` to `Active`, revocation from `Active` to `Revoked`, a claim
/// from `Active` to `Claimed`. It was made by the party that may make it,
/// and a claim not before the release time.
pub proof fn lemma_requests_follow_the_lifecycle(will: WillAccountView, caller: Seq<u8>, now: i64)
    ensures
        activated(will, caller) matches Ok(after) ==> one_step(will, after) && will.in_stage(
            Status::Initialized,
        ) && after.in_stage(Status::Active) && caller == will.creator,
        revoked(will, caller) matches Ok(after) ==> one_step(will, after) && will.in_stage(
            Status::Active,
        ) && after.in_stage(Status::Revoked) && caller == will.creator,
        claimed(will, caller, now) matches Ok(after) ==> one_step(will, after) && will.in_stage(
            Status::Active,
        ) && after.in_stage(Status::Claimed) && caller == will.beneficiary && released(
            will.time_lock,
            now,
        ),
{
}

/// The lifecycle has three edges, and none of them leads to `Expired` or
/// away from `Revoked`, `Claimed` or `Expired`.
pub proof fn lemma_edges_of_the_lifecycle(from: Status, to: Status)
    ensures
        from.leads_to(to) <==> (from == Status::Initialized && to == Status::Active) || (from
            == Status::Active && to == Status::Revoked) || (from == Status::Active && to
            == Status::Claimed),
        from.leads_to(to) ==> to != Status::Expired && to != Status::Initialized,
        from == Status::Revoked || from == Status::Claimed || from == Status::Expired
            ==> !from.leads_to(to),
{
}

/// A will that is neither `Initialized` nor `Active` accepts no request: in
/// particular `Revoked` and `Claimed` are final.
pub proof fn lemma_final_stages_accept_nothing(will: WillAccountView, caller: Seq<u8>, now: i64)
    requires
        !will.in_stage(Status::Initialized),
        !will.in_stage(Status::Active),
    ensures
        activated(will, caller) is Err,
        revoked(will, caller) is Err,
        claimed(will, caller, now) is Err,
{
}

/// No request goes through twice in a row: what it left behind is a stage
/// from which it is refused.
pub proof fn lemma_no_request_applies_twice(
    will: WillAccountView,
    caller: Seq<u8>,
    again: Seq<u8>,
    now: i64,
    later: i64,
)
    ensures
        activated(will, caller) matches Ok(after) ==> activated(after, again) is Err,
        revoked(will, caller) matches Ok(after) ==> revoked(after, again) is Err,
        claimed(will, caller, now) matches Ok(after) ==> claimed(after, again, later) is Err,
{
}

/// No request produces the stage `Expired`: a new will is not in it, and a
/// request that goes through never leaves a will in it.
pub proof fn lemma_expired_is_never_produced(will: WillAccountView, caller: Seq<u8>, now: i64)
    ensures
        activated(will, caller) matches Ok(after) ==> !after.in_stage(Status::Expired),
        revoked(will, caller) matches Ok(after) ==> !after.in_stage(Status::Expired),
        claimed(will, caller, now) matches Ok(after) ==> !after.in_stage(Status::Expired),
        !will.with_status(Status::Initialized).in_stage(Status::Expired),
{
}

/// Requests keep a well-formed will well formed.
pub proof fn lemma_requests_keep_wills_well_formed(will: WillAccountView, caller: Seq<u8>, now: i64)
    requires
        will.wf(),
    ensures
        activated(will, caller) matches Ok(after) ==> after.wf(),
        revoked(will, caller) matches Ok(after) ==> after.wf(),
        claimed(will, caller, now) matches Ok(after) ==> after.wf(),
{
}

/// A well-formed will needs between `MIN_SPACE` and `MAX_SPACE` bytes of
/// storage, that is between 97 and 2745, and no request changes how much.
pub proof fn lemma_space_is_bounded(will: WillAccountView, caller: Seq<u8>, now: i64)
    requires
        will.wf(),
    ensures
        MIN_SPACE == 97,
        MAX_SPACE == 2745,
        MIN_SPACE <= will.space() <= MAX_SPACE,
        activated(will, caller) matches Ok(after) ==> after.space() == will.space(),
        revoked(will, caller) matches Ok(after) ==> after.space() == will.space(),
        claimed(will, caller, now) matches Ok(after) ==> after.space() == will.space(),
{
}

/// The whole course of a will: its creator activates it; the beneficiary's
/// claim one second before the release time is refused with
/// `TimelockNotExpired` and at the release time goes through; the creator's
/// revocation of the claimed will is refused with `InvalidStatus`.
pub proof fn lemma_course_of_a_will(
    creator: Seq<u8>,
    beneficiary: Seq<u8>,
    will_name: Seq<char>,
    will_description: Seq<char>,
    time_lock: u64,
    encrypted_user_share: Seq<u8>,
    encrypted_beneficiary_share: Seq<u8>,
)
    requires
        within_bounds(
            will_name,
            will_description,
            encrypted_user_share,
            encrypted_beneficiary_share,
        ),
        time_lock <= i64::MAX,
    ensures
        ({
            let at_release = time_lock as i64;
            let just_before = (time_lock - 1) as i64;
            &&& created(
                creator,
                beneficiary,
                will_name,
                will_description,
                time_lock,
                encrypted_user_share,
                encrypted_beneficiary_share,
            ) matches Ok(will)
            &&& activated(will, creator) matches Ok(active)
            &&& claimed(active, beneficiary, just_before) == Err::<WillAccountView, ErrorCode>(
                ErrorCode::TimelockNotExpired,
            )
            &&& claimed(active, beneficiary, at_release) matches Ok(done)
            &&& done.in_stage(Status::Claimed)
            &&& revoked(done, creator) == Err::<WillAccountView, ErrorCode>(
                ErrorCode::InvalidStatus,
            )
        }),
{
}

/// The address of a will depends on its creator and its name alone: wills
/// of the same creator and name, under the same program, share one address.
pub proof fn lemma_address_is_a_function_of_creator_and_name(
    one: WillAccountView,
    other: WillAccountView,
    program_id: Seq<u8>,
)
    requires
        one.creator == other.creator,
        one.will_name == other.will_name,
    ensures
        address_of(one.creator, one.will_name, program_id) == address_of(
            other.creator,
            other.will_name,
            program_id,
        ),
{
}

} // verus!
