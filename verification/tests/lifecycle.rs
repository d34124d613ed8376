use will_management::{
    activate_will, claim_will, claim_will_at, create_will, revoke_will, ClaimError, ErrorCode,
    Identity, Status, WillAccount,
};

fn creator() -> Identity {
    Identity::new([1u8; 32])
}

fn beneficiary() -> Identity {
    Identity::new([2u8; 32])
}

fn stranger() -> Identity {
    let mut bytes = [1u8; 32];
    bytes[31] = 9;
    Identity::new(bytes)
}

fn new_will(time_lock: u64) -> WillAccount {
    create_will(
        creator(),
        beneficiary(),
        String::from("house"),
        String::from("the house by the lake"),
        time_lock,
        vec![7u8; 48],
        vec![9u8; 64],
    )
    .unwrap()
}

fn active_will(time_lock: u64) -> WillAccount {
    let mut will = new_will(time_lock);
    activate_will(&mut will, &creator()).unwrap();
    will
}

fn will_in(status: Status) -> WillAccount {
    let mut will = new_will(1_000);
    will.status = status.as_u8();
    will
}

#[test]
fn create_sets_every_field() {
    let will = new_will(1_700_000_000);
    assert_eq!(will.creator, creator());
    assert_eq!(will.beneficiary, beneficiary());
    assert_eq!(will.time_lock, 1_700_000_000);
    assert_eq!(will.status, 0);
    assert_eq!(will.stage(), Some(Status::Initialized));
    assert_eq!(will.will_name, "house");
    assert_eq!(will.will_description, "the house by the lake");
    assert_eq!(will.encrypted_user_share, vec![7u8; 48]);
    assert_eq!(will.encrypted_beneficiary_share, vec![9u8; 64]);
}

#[test]
fn create_then_activate_gives_active() {
    let mut will = new_will(5);
    assert_eq!(activate_will(&mut will, &creator()), Ok(()));
    assert_eq!(will.status, Status::Active.as_u8());
    assert_eq!(will.stage(), Some(Status::Active));
}

#[test]
fn create_then_activate_with_fields_at_their_bounds() {
    let mut will = create_will(
        creator(),
        beneficiary(),
        "n".repeat(100),
        "d".repeat(500),
        0,
        vec![0u8; 1024],
        vec![255u8; 1024],
    )
    .unwrap();
    assert_eq!(activate_will(&mut will, &creator()), Ok(()));
    assert_eq!(will.status, 1);
}

#[test]
fn activate_changes_only_the_status() {
    let before = new_will(77);
    let mut will = before.clone();
    activate_will(&mut will, &creator()).unwrap();
    let mut expected = before;
    expected.status = 1;
    assert_eq!(will, expected);
}

#[test]
fn activate_by_another_identity_is_unauthorized_in_every_stage() {
    for status in [
        Status::Initialized,
        Status::Active,
        Status::Revoked,
        Status::Claimed,
        Status::Expired,
    ] {
        for caller in [beneficiary(), stranger()] {
            let before = will_in(status);
            let mut will = before.clone();
            assert_eq!(activate_will(&mut will, &caller), Err(ErrorCode::Unauthorized));
            assert_eq!(will, before);
        }
    }
}

#[test]
fn activate_by_creator_outside_initialized_is_invalid_status() {
    for status in [Status::Active, Status::Revoked, Status::Claimed, Status::Expired] {
        let before = will_in(status);
        let mut will = before.clone();
        assert_eq!(activate_will(&mut will, &creator()), Err(ErrorCode::InvalidStatus));
        assert_eq!(will, before);
    }
}

#[test]
fn activate_twice_fails_the_second_time() {
    let mut will = new_will(5);
    assert_eq!(activate_will(&mut will, &creator()), Ok(()));
    assert_eq!(activate_will(&mut will, &creator()), Err(ErrorCode::InvalidStatus));
    assert_eq!(will.status, 1);
}

#[test]
fn identities_that_differ_in_one_byte_are_different_parties() {
    let mut will = new_will(5);
    assert!(stranger() != creator());
    assert_eq!(activate_will(&mut will, &stranger()), Err(ErrorCode::Unauthorized));
    assert_eq!(will.status, 0);
}

#[test]
fn revoke_active_will_gives_revoked() {
    let before = active_will(50);
    let mut will = before.clone();
    assert_eq!(revoke_will(&mut will, &creator()), Ok(()));
    assert_eq!(will.status, 2);
    assert_eq!(will.stage(), Some(Status::Revoked));
    let mut expected = before;
    expected.status = 2;
    assert_eq!(will, expected);
}

#[test]
fn revoke_by_another_identity_is_unauthorized() {
    for status in [
        Status::Initialized,
        Status::Active,
        Status::Revoked,
        Status::Claimed,
        Status::Expired,
    ] {
        let before = will_in(status);
        let mut will = before.clone();
        assert_eq!(revoke_will(&mut will, &beneficiary()), Err(ErrorCode::Unauthorized));
        assert_eq!(will, before);
    }
}

#[test]
fn revoke_before_activation_is_invalid_status() {
    let mut will = new_will(5);
    assert_eq!(revoke_will(&mut will, &creator()), Err(ErrorCode::InvalidStatus));
    assert_eq!(will.status, 0);
}

#[test]
fn revoke_of_revoked_or_claimed_will_is_invalid_status() {
    for status in [Status::Revoked, Status::Claimed] {
        let before = will_in(status);
        let mut will = before.clone();
        assert_eq!(revoke_will(&mut will, &creator()), Err(ErrorCode::InvalidStatus));
        assert_eq!(will, before);
    }
}

#[test]
fn revoked_will_accepts_nothing() {
    let mut will = active_will(10);
    revoke_will(&mut will, &creator()).unwrap();
    let before = will.clone();
    assert_eq!(activate_will(&mut will, &creator()), Err(ErrorCode::InvalidStatus));
    assert_eq!(revoke_will(&mut will, &creator()), Err(ErrorCode::InvalidStatus));
    assert_eq!(claim_will_at(&mut will, &beneficiary(), 10), Err(ErrorCode::InvalidStatus));
    assert_eq!(claim_will_at(&mut will, &beneficiary(), i64::MAX), Err(ErrorCode::InvalidStatus));
    assert_eq!(will, before);
}

#[test]
fn claim_before_release_time_is_timelock_not_expired() {
    let before = active_will(1_000);
    let mut will = before.clone();
    for now in [i64::MIN, -1, 0, 1, 999] {
        assert_eq!(
            claim_will_at(&mut will, &beneficiary(), now),
            Err(ErrorCode::TimelockNotExpired)
        );
        assert_eq!(will, before);
    }
}

#[test]
fn claim_at_and_after_release_time_gives_claimed() {
    for now in [1_000, 1_001, i64::MAX] {
        let before = active_will(1_000);
        let mut will = before.clone();
        assert_eq!(claim_will_at(&mut will, &beneficiary(), now), Ok(()));
        assert_eq!(will.status, 3);
        assert_eq!(will.stage(), Some(Status::Claimed));
        let mut expected = before;
        expected.status = 3;
        assert_eq!(will, expected);
    }
}

#[test]
fn claim_with_release_time_zero_needs_a_reading_from_the_epoch_on() {
    let mut will = active_will(0);
    assert_eq!(claim_will_at(&mut will, &beneficiary(), -1), Err(ErrorCode::TimelockNotExpired));
    assert_eq!(claim_will_at(&mut will, &beneficiary(), 0), Ok(()));
}

#[test]
fn release_time_beyond_the_clock_is_never_reached() {
    for time_lock in [i64::MAX as u64 + 1, u64::MAX] {
        let mut will = active_will(time_lock);
        for now in [i64::MIN, -1, 0, i64::MAX] {
            assert_eq!(
                claim_will_at(&mut will, &beneficiary(), now),
                Err(ErrorCode::TimelockNotExpired)
            );
        }
        assert_eq!(will.status, 1);
    }
}

#[test]
fn release_time_at_the_end_of_the_clock_is_reached_there() {
    let mut will = active_will(i64::MAX as u64);
    assert_eq!(
        claim_will_at(&mut will, &beneficiary(), i64::MAX - 1),
        Err(ErrorCode::TimelockNotExpired)
    );
    assert_eq!(claim_will_at(&mut will, &beneficiary(), i64::MAX), Ok(()));
}

#[test]
fn claim_by_another_identity_is_unauthorized_whatever_the_time() {
    for caller in [creator(), stranger()] {
        for now in [0, 999, 1_000, 5_000] {
            let before = active_will(1_000);
            let mut will = before.clone();
            assert_eq!(claim_will_at(&mut will, &caller, now), Err(ErrorCode::Unauthorized));
            assert_eq!(will, before);
        }
    }
}

#[test]
fn claim_of_inactive_will_is_invalid_status_whatever_the_time() {
    for status in [Status::Initialized, Status::Revoked, Status::Claimed, Status::Expired] {
        for now in [0, 999, 1_000, 5_000] {
            let before = will_in(status);
            let mut will = before.clone();
            assert_eq!(
                claim_will_at(&mut will, &beneficiary(), now),
                Err(ErrorCode::InvalidStatus)
            );
            assert_eq!(will, before);
        }
    }
}

#[test]
fn of_two_claims_exactly_one_succeeds() {
    for (first, second) in [(1_000, 1_000), (1_000, 2_000), (2_000, 1_000)] {
        let mut will = active_will(1_000);
        assert_eq!(claim_will_at(&mut will, &beneficiary(), first), Ok(()));
        let after_first = will.clone();
        assert_eq!(
            claim_will_at(&mut will, &beneficiary(), second),
            Err(ErrorCode::InvalidStatus)
        );
        assert_eq!(will, after_first);
        assert_eq!(will.status, Status::Claimed.as_u8());
    }
}

#[test]
fn revoke_and_claim_race_only_the_first_wins() {
    let mut will = active_will(10);
    assert_eq!(revoke_will(&mut will, &creator()), Ok(()));
    assert_eq!(claim_will_at(&mut will, &beneficiary(), 10), Err(ErrorCode::InvalidStatus));
    assert_eq!(will.status, 2);

    let mut will = active_will(10);
    assert_eq!(claim_will_at(&mut will, &beneficiary(), 10), Ok(()));
    assert_eq!(revoke_will(&mut will, &creator()), Err(ErrorCode::InvalidStatus));
    assert_eq!(will.status, 3);
}

#[test]
fn course_of_a_will() {
    let time_lock: u64 = 1_893_456_000;
    let mut will = create_will(
        creator(),
        beneficiary(),
        String::from("estate"),
        String::from("everything"),
        time_lock,
        vec![1, 2, 3],
        vec![4, 5, 6],
    )
    .unwrap();
    assert_eq!(will.status, 0);
    assert_eq!(activate_will(&mut will, &creator()), Ok(()));
    assert_eq!(will.status, 1);
    assert_eq!(
        claim_will_at(&mut will, &beneficiary(), time_lock as i64 - 1),
        Err(ErrorCode::TimelockNotExpired)
    );
    assert_eq!(will.status, 1);
    assert_eq!(claim_will_at(&mut will, &beneficiary(), time_lock as i64), Ok(()));
    assert_eq!(will.status, 3);
    assert_eq!(revoke_will(&mut will, &creator()), Err(ErrorCode::InvalidStatus));
    assert_eq!(will.status, 3);
}

#[test]
fn no_request_leads_to_expired() {
    let mut will = new_will(0);
    let mut seen = vec![will.status];
    activate_will(&mut will, &creator()).unwrap();
    seen.push(will.status);
    let mut revoked = will.clone();
    revoke_will(&mut revoked, &creator()).unwrap();
    seen.push(revoked.status);
    claim_will_at(&mut will, &beneficiary(), 0).unwrap();
    seen.push(will.status);
    assert_eq!(seen, vec![0, 1, 2, 3]);
    assert!(!seen.contains(&Status::Expired.as_u8()));
}

#[test]
fn expired_will_accepts_nothing() {
    let before = will_in(Status::Expired);
    let mut will = before.clone();
    assert_eq!(activate_will(&mut will, &creator()), Err(ErrorCode::InvalidStatus));
    assert_eq!(revoke_will(&mut will, &creator()), Err(ErrorCode::InvalidStatus));
    assert_eq!(claim_will_at(&mut will, &beneficiary(), i64::MAX), Err(ErrorCode::InvalidStatus));
    assert_eq!(will, before);
}

#[test]
fn unknown_status_byte_accepts_nothing() {
    let mut before = new_will(0);
    before.status = 200;
    let mut will = before.clone();
    assert_eq!(will.stage(), None);
    assert_eq!(activate_will(&mut will, &creator()), Err(ErrorCode::InvalidStatus));
    assert_eq!(revoke_will(&mut will, &creator()), Err(ErrorCode::InvalidStatus));
    assert_eq!(claim_will_at(&mut will, &beneficiary(), i64::MAX), Err(ErrorCode::InvalidStatus));
    assert_eq!(will, before);
}

#[test]
fn claim_off_the_ledger_finds_no_clock() {
    let before = active_will(0);
    let mut will = before.clone();
    assert_eq!(claim_will(&mut will, &beneficiary()), Err(ClaimError::ClockUnavailable));
    assert_eq!(will, before);
}

#[test]
fn claim_is_refused_before_the_clock_is_asked() {
    let before = active_will(0);
    let mut will = before.clone();
    assert_eq!(
        claim_will(&mut will, &creator()),
        Err(ClaimError::Rejected(ErrorCode::Unauthorized))
    );
    assert_eq!(will, before);

    for status in [Status::Initialized, Status::Revoked, Status::Claimed, Status::Expired] {
        let before = will_in(status);
        let mut will = before.clone();
        assert_eq!(
            claim_will(&mut will, &beneficiary()),
            Err(ClaimError::Rejected(ErrorCode::InvalidStatus))
        );
        assert_eq!(
            claim_will(&mut will, &stranger()),
            Err(ClaimError::Rejected(ErrorCode::Unauthorized))
        );
        assert_eq!(will, before);
    }
}
