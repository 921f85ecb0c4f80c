//! Writing a contract's storage out and reading it back, and the checks a
//! host makes before calls whose counters could overflow.

use fanilab::delivery::{DeliveryContract, DeliveryState};
use fanilab::escrow::{EscrowContract, EscrowState, VolumeTier};
use fanilab::reputation::{IdentityReputationContract, ReputationConfig, ReputationState};
use fanilab::types::{
    Addr, CargoDescriptor, DeliveryMetadata, DeliveryStatus, EscrowRecord, EscrowStatus,
    ProtocolConfig,
};

const THIS: Addr = 1;
const ADMIN: Addr = 2;
const TOKEN: Addr = 3;
const SENDER: Addr = 10;
const RECIPIENT: Addr = 11;
const DRIVER: Addr = 12;
const OTHER: Addr = 13;

fn metadata(weight_grams: u32) -> DeliveryMetadata {
    DeliveryMetadata {
        delivery_id: 0,
        origin: b"Kano".to_vec(),
        destination: b"Ibadan".to_vec(),
        cargo_description: CargoDescriptor { weight_grams, category: 3, fragile: true },
        created_at: 0,
        estimated_delivery: 10,
    }
}

fn record(amount: i128, status: EscrowStatus) -> EscrowRecord {
    EscrowRecord {
        sender: SENDER,
        recipient: RECIPIENT,
        driver: DRIVER,
        token: TOKEN,
        amount,
        status,
        created_at: 0,
        expires_at: Some(100),
        disputed_by: None,
        disputed_at: None,
        fleet_id: None,
    }
}

#[test]
fn escrow_state_round_trip() {
    let mut c = EscrowContract::new(THIS);
    c.init(ADMIN, TOKEN, 250).unwrap();
    c.create_escrow(SENDER, RECIPIENT, DRIVER, 1, TOKEN, 1000, None, 5).unwrap();
    c.create_escrow(SENDER, OTHER, DRIVER, 2, TOKEN, 500, Some(9), 6).unwrap();
    c.release_escrow(RECIPIENT, 1, 1500).unwrap();
    c.set_volume_tiers(ADMIN, vec![VolumeTier { volume_threshold: 1, discount_bps: 50 }]).unwrap();
    c.set_settlement_contract(ADMIN, 40, 7).unwrap();
    c.propose_admin(ADMIN, OTHER).unwrap();
    c.set_paused(ADMIN, true).unwrap();

    let state = c.into_state();
    assert_eq!(state.escrows.len(), 2);
    let back = EscrowContract::from_state(state);
    assert_eq!(back.get_admin(), Ok(ADMIN));
    assert_eq!(back.get_platform_fee(), Ok(250));
    assert!(back.is_paused());
    assert_eq!(back.get_escrow(1).unwrap().status, EscrowStatus::Released);
    assert_eq!(back.get_escrow(2).unwrap().fleet_id, Some(9));
    assert_eq!(back.get_escrows_by_sender(SENDER), vec![1, 2]);
    assert_eq!(back.get_escrows_by_recipient(OTHER), vec![2]);
    assert_eq!(back.get_escrows_by_driver(DRIVER), vec![1, 2]);
    assert_eq!(back.get_total_locked(TOKEN), 500);
    assert_eq!(back.get_sender_volume(SENDER), 1);
    assert_eq!(back.get_volume_tiers(), vec![VolumeTier { volume_threshold: 1, discount_bps: 50 }]);
    assert_eq!(back.get_pending_settlement_contract().unwrap().settlement_contract, 40);
    let mut back = back;
    assert_eq!(back.accept_admin(OTHER), Ok(ADMIN));
}

#[test]
fn later_entries_win_when_reading_state() {
    let state = EscrowState {
        this: THIS,
        admin: Some(ADMIN),
        config: Some(ProtocolConfig {
            token: TOKEN,
            platform_fee_bps: 0,
            protocol_version: 1,
            slippage_tolerance_bps: 500,
        }),
        pending_admin: None,
        settlement: None,
        pending_settlement: None,
        paused: false,
        fleet: None,
        dispute: None,
        escrows: vec![(7, record(10, EscrowStatus::Locked)), (7, record(20, EscrowStatus::Holdback))],
        by_sender: vec![(SENDER, vec![7]), (SENDER, vec![7, 8])],
        by_recipient: Vec::new(),
        by_driver: Vec::new(),
        total_locked: vec![(TOKEN, 5), (TOKEN, 20)],
        sender_volume: Vec::new(),
        volume_tiers: Vec::new(),
    };
    let c = EscrowContract::from_state(state);
    assert_eq!(c.get_escrow(7).unwrap().amount, 20);
    assert_eq!(c.get_escrow(7).unwrap().status, EscrowStatus::Holdback);
    assert_eq!(c.get_escrows_by_sender(SENDER), vec![7, 8]);
    assert_eq!(c.get_total_locked(TOKEN), 20);
    let out = c.into_state();
    assert_eq!(out.escrows.len(), 1);
    assert_eq!(out.by_sender, vec![(SENDER, vec![7, 8])]);
}

#[test]
fn delivery_state_round_trip() {
    let mut c = DeliveryContract::new(THIS);
    c.init(ADMIN, 50).unwrap();
    c.set_identity_reputation_contract(ADMIN, 60).unwrap();
    c.create_delivery(SENDER, RECIPIENT, metadata(700), 3).unwrap();
    c.create_delivery(SENDER, OTHER, metadata(800), 4).unwrap();
    c.assign_driver(DRIVER, 2, DRIVER).unwrap();

    let state: DeliveryState = c.into_state();
    assert_eq!(state.counter, 2);
    let mut back = DeliveryContract::from_state(state);
    assert_eq!(back.get_escrow_contract(), Some(50));
    assert_eq!(back.get_identity_reputation_contract(), Some(60));
    assert_eq!(back.get_delivery(2).unwrap().status, DeliveryStatus::Active);
    assert_eq!(back.get_delivery(1).unwrap().metadata.origin, b"Kano".to_vec());
    assert_eq!(back.get_deliveries_by_sender(SENDER), vec![1, 2]);
    assert_eq!(back.get_deliveries_by_recipient(OTHER), vec![2]);
    assert_eq!(back.create_delivery(SENDER, RECIPIENT, metadata(1), 5), Ok(3));
    assert_eq!(back.init(OTHER, OTHER).is_err(), true);
}

#[test]
fn reputation_state_round_trip() {
    let mut c = IdentityReputationContract::new();
    c.init(ADMIN, 70, 71).unwrap();
    c.set_authorized_contract(ADMIN, 72, true).unwrap();
    c.set_authorized_contract(ADMIN, 71, false).unwrap();
    c.set_reputation_config(ADMIN, ReputationConfig { base_points: 9, heavy_cargo_points: 1, fragile_points: 1 })
        .unwrap();
    c.register_driver(DRIVER, 11).unwrap();
    c.register_user(SENDER, 12).unwrap();
    c.award_reputation(72, DRIVER, 5).unwrap();

    let state: ReputationState = c.into_state();
    let mut authorized = state.authorized.clone();
    authorized.sort();
    assert_eq!(authorized, vec![70, 72]);
    let mut back = IdentityReputationContract::from_state(state);
    assert_eq!(back.get_admin(), Ok(ADMIN));
    assert!(back.is_authorized_contract(70));
    assert!(!back.is_authorized_contract(71));
    assert_eq!(back.get_reputation_config().base_points, 9);
    assert_eq!(back.get_driver_profile(DRIVER).unwrap().reputation_score, 55);
    assert_eq!(back.get_user_profile(SENDER).unwrap().registered_at, 12);
    assert_eq!(back.increase_reputation(70, DRIVER, 1, 0, false), Ok(9));
}

#[test]
fn room_checks_on_ordinary_states() {
    let mut e = EscrowContract::new(THIS);
    e.init(ADMIN, TOKEN, 0).unwrap();
    assert!(e.has_room_for_escrow(SENDER, RECIPIENT, DRIVER));
    assert!(e.has_room_for_batch(SENDER, RECIPIENT, &vec![(1, DRIVER, 5), (2, DRIVER, 5), (3, OTHER, 1)]));
    assert!(e.has_room_for_batch(SENDER, RECIPIENT, &Vec::new()));

    let d = DeliveryContract::new(THIS);
    assert!(d.has_room_for(SENDER, RECIPIENT, 1));
    assert!(d.has_room_for(SENDER, RECIPIENT, 100));
}

#[test]
fn delivery_counter_room_runs_out() {
    let state = DeliveryState {
        this: THIS,
        admin: None,
        escrow_contract: None,
        counter: u64::MAX - 2,
        identity_contract: None,
        deliveries: Vec::new(),
        by_sender: Vec::new(),
        by_recipient: Vec::new(),
        driver_profiles: Vec::new(),
    };
    let d = DeliveryContract::from_state(state);
    assert!(d.has_room_for(SENDER, RECIPIENT, 2));
    assert!(!d.has_room_for(SENDER, RECIPIENT, 3));
}

#[test]
fn reputation_overflow_checks() {
    let mut c = IdentityReputationContract::new();
    c.init(ADMIN, 70, 71).unwrap();
    assert!(c.credit_fits(DRIVER, 0, false));
    assert!(c.award_fits(DRIVER, u32::MAX));
    c.register_driver(DRIVER, 0).unwrap();
    assert!(c.credit_fits(DRIVER, 9000, true));
    assert!(c.award_fits(DRIVER, u32::MAX - 50));
    assert!(!c.award_fits(DRIVER, u32::MAX - 49));
    c.set_reputation_config(
        ADMIN,
        ReputationConfig { base_points: u32::MAX - 59, heavy_cargo_points: 5, fragile_points: 5 },
    )
    .unwrap();
    assert!(c.credit_fits(DRIVER, 0, false));
    assert!(!c.credit_fits(DRIVER, 9000, true));
    c.set_reputation_config(
        ADMIN,
        ReputationConfig { base_points: u32::MAX, heavy_cargo_points: 1, fragile_points: 0 },
    )
    .unwrap();
    assert!(!c.credit_fits(DRIVER, 0, false));
    assert!(!c.credit_fits(DRIVER, 9000, false));
}
