//! Escrow state-machine scenarios: initialization, withdrawal, cancellation
//! and rescue.

use fusion_escrow::errors::EscrowError;
use fusion_escrow::escrow::EscrowDst;
use fusion_escrow::escrow::RESCUE_DELAY_BLOCKS;
use fusion_escrow::stage::pack_timelocks;
use fusion_escrow::stage::stage_at;
use fusion_escrow::stage::Stage;

fn keccak(data: &[u8]) -> [u8; 32] {
    near_sdk::env::keccak256_array(data)
}

fn single_fill_escrow(commitment: [u8; 32], deployed_at: u64) -> EscrowDst {
    EscrowDst::new(
        commitment,
        "token.near".to_string(),
        1000u128,
        "maker.near".to_string(),
        "taker.near".to_string(),
        500u128,
        pack_timelocks(100, 200),
        deployed_at,
    )
    .unwrap()
}

#[test]
fn test_escrow_initialization() {
    let hashlock = [1u8; 32];
    let escrow = EscrowDst::new(
        hashlock,
        "token.near".to_string(),
        1000u128,
        "maker.near".to_string(),
        "taker.near".to_string(),
        500u128,
        0u64,
        0u64,
    )
    .unwrap();

    assert_eq!(escrow.immutables.hashlock, hashlock);
    assert_eq!(escrow.immutables.amount, 1000u128);
    assert!(!escrow.is_withdrawn());
    assert!(!escrow.is_cancelled());
}

#[test]
fn test_partial_fill_initialization() {
    let merkle_root = [2u8; 32];
    let escrow = EscrowDst::new_with_partial_fills(
        merkle_root,
        "token.near".to_string(),
        1000u128,
        "maker.near".to_string(),
        "taker.near".to_string(),
        500u128,
        0u64,
        4,
        0u64,
    )
    .unwrap();

    assert_eq!(escrow.immutables.hashlock, merkle_root);
    assert!(escrow.get_partial_fill_state().is_some());
    let partial_state = escrow.get_partial_fill_state().unwrap();
    assert_eq!(partial_state.total_parts, 4);
    assert_eq!(partial_state.used_indices.len(), 0);
}

#[test]
fn test_partial_amount_calculation() {
    let merkle_root = [2u8; 32];
    let escrow = EscrowDst::new_with_partial_fills(
        merkle_root,
        "token.near".to_string(),
        1000u128,
        "maker.near".to_string(),
        "taker.near".to_string(),
        500u128,
        0u64,
        4,
        0u64,
    )
    .unwrap();

    assert_eq!(escrow.calculate_partial_amount(0), 250);
    assert_eq!(escrow.calculate_partial_amount(1), 500);
    assert_eq!(escrow.calculate_partial_amount(2), 750);
    assert_eq!(escrow.calculate_partial_amount(3), 1000);
}

#[test]
fn init_rejects_zero_amount() {
    let r = EscrowDst::new(
        [1u8; 32],
        "token.near".to_string(),
        0u128,
        "maker.near".to_string(),
        "taker.near".to_string(),
        500u128,
        0u64,
        0u64,
    );
    assert_eq!(r.unwrap_err(), EscrowError::ValidationError);
}

#[test]
fn init_rejects_zero_parts() {
    let r = EscrowDst::new_with_partial_fills(
        [2u8; 32],
        "token.near".to_string(),
        1000u128,
        "maker.near".to_string(),
        "taker.near".to_string(),
        500u128,
        0u64,
        0,
        0u64,
    );
    assert_eq!(r.unwrap_err(), EscrowError::ValidationError);
}

#[test]
fn init_rejects_oversized_amount() {
    let r = EscrowDst::new(
        [1u8; 32],
        "token.near".to_string(),
        u128::MAX / 2,
        "maker.near".to_string(),
        "taker.near".to_string(),
        500u128,
        0u64,
        0u64,
    );
    assert_eq!(r.unwrap_err(), EscrowError::ArithmeticError);
}

#[test]
fn init_rejects_decreasing_timelocks() {
    let r = EscrowDst::new(
        [1u8; 32],
        "token.near".to_string(),
        1000u128,
        "maker.near".to_string(),
        "taker.near".to_string(),
        500u128,
        pack_timelocks(200, 100),
        0u64,
    );
    assert_eq!(r.unwrap_err(), EscrowError::ValidationError);
}

#[test]
fn stage_progression_is_monotonic() {
    let timelocks = pack_timelocks(100, 200);
    assert_eq!(stage_at(timelocks, 0), Stage::DstWithdrawal);
    assert_eq!(stage_at(timelocks, 99), Stage::DstWithdrawal);
    assert_eq!(stage_at(timelocks, 100), Stage::DstPublicWithdrawal);
    assert_eq!(stage_at(timelocks, 199), Stage::DstPublicWithdrawal);
    assert_eq!(stage_at(timelocks, 200), Stage::DstCancellation);
    assert_eq!(stage_at(timelocks, u64::MAX), Stage::DstCancellation);
}

#[test]
fn withdraw_succeeds_iff_secret_matches_in_window() {
    let taker = "taker.near".to_string();
    let commitment = keccak(b"s1");
    let mut escrow = single_fill_escrow(commitment, 1000);

    // Wrong secret: rejected, nothing changes.
    let r = escrow.withdraw(b"s2".to_vec(), &taker, 1050);
    assert_eq!(r.unwrap_err(), EscrowError::ValidationError);
    assert!(!escrow.is_withdrawn());

    // Right secret outside the private window: rejected.
    let r = escrow.withdraw(b"s1".to_vec(), &taker, 1150);
    assert_eq!(r.unwrap_err(), EscrowError::StateError);

    // Wrong caller: rejected.
    let r = escrow.withdraw(b"s1".to_vec(), &"mallory.near".to_string(), 1050);
    assert_eq!(r.unwrap_err(), EscrowError::AuthorizationError);

    // Right secret in the private window: succeeds exactly once.
    let plan = escrow.withdraw(b"s1".to_vec(), &taker, 1050).unwrap();
    assert_eq!(plan.token.token_id, "token.near");
    assert_eq!(plan.token.receiver_id, "maker.near");
    assert_eq!(plan.token.amount, 1000);
    assert_eq!(plan.deposit.receiver_id, "taker.near");
    assert_eq!(plan.deposit.amount, 500);
    assert!(escrow.is_withdrawn());
    assert_eq!(escrow.get_revealed_secret().unwrap(), &b"s1".to_vec());
}

#[test]
fn second_withdraw_fails_with_state_error() {
    let taker = "taker.near".to_string();
    let commitment = keccak(b"s1");
    let mut escrow = single_fill_escrow(commitment, 1000);

    escrow.withdraw(b"s1".to_vec(), &taker, 1050).unwrap();
    let r = escrow.withdraw(b"s1".to_vec(), &taker, 1050);
    assert_eq!(r.unwrap_err(), EscrowError::StateError);
    let r = escrow.withdraw(b"anything".to_vec(), &taker, 1050);
    assert_eq!(r.unwrap_err(), EscrowError::StateError);
}

#[test]
fn public_withdraw_only_in_public_window() {
    let anyone = "anyone.near".to_string();
    let commitment = keccak(b"s1");
    let mut escrow = single_fill_escrow(commitment, 1000);

    // Still in the private window.
    let r = escrow.public_withdraw(b"s1".to_vec(), &anyone, 1050);
    assert_eq!(r.unwrap_err(), EscrowError::StateError);

    // Public window, wrong secret.
    let r = escrow.public_withdraw(b"s2".to_vec(), &anyone, 1150);
    assert_eq!(r.unwrap_err(), EscrowError::ValidationError);

    // Public window, right secret, any caller.
    let plan = escrow.public_withdraw(b"s1".to_vec(), &anyone, 1150).unwrap();
    assert_eq!(plan.token.receiver_id, "maker.near");
    assert_eq!(plan.deposit.receiver_id, "anyone.near");
    assert!(escrow.is_withdrawn());
}

#[test]
fn cancel_before_cancellation_stage_fails() {
    let taker = "taker.near".to_string();
    let commitment = keccak(b"s1");
    let mut escrow = single_fill_escrow(commitment, 1000);

    let r = escrow.cancel(&taker, 1050);
    assert_eq!(r.unwrap_err(), EscrowError::StateError);
    let r = escrow.cancel(&taker, 1150);
    assert_eq!(r.unwrap_err(), EscrowError::StateError);
    assert!(!escrow.is_cancelled());

    // In the cancellation window it succeeds once.
    let plan = escrow.cancel(&taker, 1250).unwrap();
    assert_eq!(plan.token.receiver_id, "taker.near");
    assert_eq!(plan.token.amount, 1000);
    assert!(escrow.is_cancelled());

    // A subsequent withdraw fails, and so does a second cancel.
    let r = escrow.withdraw(b"s1".to_vec(), &taker, 1050);
    assert_eq!(r.unwrap_err(), EscrowError::StateError);
    let r = escrow.cancel(&taker, 1250);
    assert_eq!(r.unwrap_err(), EscrowError::StateError);
}

#[test]
fn rescue_respects_fixed_delay_only() {
    let taker = "taker.near".to_string();
    let commitment = keccak(b"s1");
    let mut escrow = single_fill_escrow(commitment, 1000);

    // Too early, even exactly at the delay.
    let r = escrow.rescue_funds("other.token".to_string(), 42, &taker, 1000 + RESCUE_DELAY_BLOCKS);
    assert_eq!(r.unwrap_err(), EscrowError::StateError);

    // Wrong caller after the delay.
    let r = escrow.rescue_funds(
        "other.token".to_string(),
        42,
        &"mallory.near".to_string(),
        1000 + RESCUE_DELAY_BLOCKS + 1,
    );
    assert_eq!(r.unwrap_err(), EscrowError::AuthorizationError);

    // After the delay it succeeds.
    let t = escrow
        .rescue_funds("other.token".to_string(), 42, &taker, 1000 + RESCUE_DELAY_BLOCKS + 1)
        .unwrap();
    assert_eq!(t.token_id, "other.token");
    assert_eq!(t.receiver_id, "taker.near");
    assert_eq!(t.amount, 42);

    // Still available after the escrow became terminal.
    escrow.withdraw(b"s1".to_vec(), &taker, 1050).unwrap();
    let t = escrow
        .rescue_funds("other.token".to_string(), 7, &taker, 1000 + RESCUE_DELAY_BLOCKS + 1)
        .unwrap();
    assert_eq!(t.amount, 7);
}

#[test]
fn withdraw_rejects_partial_mode_escrow() {
    let taker = "taker.near".to_string();
    let commitment = keccak(b"s1");
    let mut escrow = EscrowDst::new_with_partial_fills(
        commitment,
        "token.near".to_string(),
        1000u128,
        "maker.near".to_string(),
        taker.clone(),
        500u128,
        pack_timelocks(100, 200),
        4,
        1000,
    )
    .unwrap();

    let r = escrow.withdraw(b"s1".to_vec(), &taker, 1050);
    assert_eq!(r.unwrap_err(), EscrowError::ValidationError);
}
