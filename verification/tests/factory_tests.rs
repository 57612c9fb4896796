//! Factory scenarios: identity derivation and the deployment registry.

use fusion_escrow::errors::EscrowError;
use fusion_escrow::factory::EscrowFactory;
use fusion_escrow::stage::pack_timelocks;

fn factory() -> EscrowFactory {
    EscrowFactory::new(b"factory.near".to_vec())
}

#[test]
fn predicted_identity_is_deterministic_and_distinct() {
    let f = factory();
    let id1 = f.predict_instance_id(&b"salt-1".to_vec());
    let id2 = f.predict_instance_id(&b"salt-1".to_vec());
    assert_eq!(id1, id2);

    let other = f.predict_instance_id(&b"salt-2".to_vec());
    assert_ne!(id1, other);

    // A derived identity is the hex rendering of a 32-byte digest: 64
    // lowercase hex characters, not the raw input bytes.
    assert_eq!(id1.len(), 64);
    assert!(id1.chars().all(|c| c.is_ascii_hexdigit() && !c.is_ascii_uppercase()));
    let expected = hex::encode(near_sdk::env::keccak256(b"factory.nearsalt-1"));
    assert_eq!(id1, expected);
}

#[test]
fn registry_commits_only_confirmed_deployments() {
    let mut f = factory();
    let salt = b"order-1".to_vec();
    let (id, escrow) = f
        .create_escrow(
            salt.clone(),
            [9u8; 32],
            "token.near".to_string(),
            1000u128,
            "maker.near".to_string(),
            "taker.near".to_string(),
            pack_timelocks(100, 200),
            1000u128,
            7,
        )
        .unwrap();

    // Half of the attached deposit seeds the safety deposit.
    assert_eq!(escrow.immutables.safety_deposit, 500);
    assert_eq!(id, f.predict_instance_id(&salt));

    // Nothing is visible until the confirmation callback reports success.
    assert!(f.get_instance(&salt).is_none());
    assert!(f.record_deployed(&salt));
    assert!(f.get_instance(&salt).is_none());
    assert!(f.record_confirmation(&salt, true));
    assert_eq!(f.get_instance(&salt).unwrap(), id);

    // Confirmation callbacks only apply to entries in the right state.
    assert!(!f.record_deployed(&salt));
    assert!(!f.record_confirmation(&salt, true));
}

#[test]
fn failed_deployment_leaves_no_mapping_and_releases_the_salt() {
    let mut f = factory();
    let salt = b"order-2".to_vec();
    f.create_escrow(
        salt.clone(),
        [9u8; 32],
        "token.near".to_string(),
        1000u128,
        "maker.near".to_string(),
        "taker.near".to_string(),
        pack_timelocks(100, 200),
        1000u128,
        7,
    )
    .unwrap();

    // While the salt is reserved, a second request is refused.
    let r = f.create_escrow(
        salt.clone(),
        [9u8; 32],
        "token.near".to_string(),
        1000u128,
        "maker.near".to_string(),
        "taker.near".to_string(),
        pack_timelocks(100, 200),
        1000u128,
        7,
    );
    assert_eq!(r.unwrap_err(), EscrowError::ValidationError);

    assert!(f.record_deployed(&salt));
    assert!(f.record_confirmation(&salt, false));
    assert!(f.get_instance(&salt).is_none());

    // The failed deployment released the salt: a retry is accepted.
    f.create_escrow(
        salt.clone(),
        [9u8; 32],
        "token.near".to_string(),
        1000u128,
        "maker.near".to_string(),
        "taker.near".to_string(),
        pack_timelocks(100, 200),
        1000u128,
        7,
    )
    .unwrap();
}

#[test]
fn create_escrow_validates_instance_terms() {
    let mut f = factory();
    let r = f.create_escrow(
        b"order-3".to_vec(),
        [9u8; 32],
        "token.near".to_string(),
        0u128,
        "maker.near".to_string(),
        "taker.near".to_string(),
        pack_timelocks(100, 200),
        1000u128,
        7,
    );
    assert_eq!(r.unwrap_err(), EscrowError::ValidationError);
    assert!(f.get_instance(&b"order-3".to_vec()).is_none());
}
