//! Scenarios of the delivery contract: creation, the state machine, the
//! calls it asks its host to make, and the checks that guard each step.

use fanilab::delivery::{
    validate_delivery_metadata, validate_state_sync, validate_transition, ContractCall,
    DeliveryContract, DeliveryError, DeliveryFailure, MAX_BATCH_SIZE, MAX_LOCATION_LEN,
    MAX_WEIGHT_GRAMS,
};
use fanilab::types::{
    Addr, CargoDescriptor, DeliveryMetadata, DeliveryStatus, EscrowRecord, EscrowStatus,
    FaniLabError,
};

const THIS: Addr = 1;
const ADMIN: Addr = 2;
const ESCROW: Addr = 3;
const IDENTITY: Addr = 4;
const SENDER: Addr = 10;
const RECIPIENT: Addr = 11;
const DRIVER: Addr = 12;
const STRANGER: Addr = 13;

fn metadata(weight_grams: u32, fragile: bool) -> DeliveryMetadata {
    DeliveryMetadata {
        delivery_id: 0,
        origin: b"Lagos".to_vec(),
        destination: b"Abuja".to_vec(),
        cargo_description: CargoDescriptor { weight_grams, category: 0, fragile },
        created_at: 0,
        estimated_delivery: 0,
    }
}

fn protocol(e: FaniLabError) -> DeliveryFailure {
    DeliveryFailure::Protocol(e)
}

fn initialized() -> DeliveryContract {
    let mut c = DeliveryContract::new(THIS);
    c.init(ADMIN, ESCROW).unwrap();
    c
}

/// An initialized contract holding one `Pending` delivery, id 1.
fn with_pending() -> DeliveryContract {
    let mut c = initialized();
    assert_eq!(c.create_delivery(SENDER, RECIPIENT, metadata(1000, false), 100), Ok(1));
    c
}

/// An initialized contract holding delivery 1, `Active` with `DRIVER`.
fn with_active() -> DeliveryContract {
    let mut c = with_pending();
    c.assign_driver(DRIVER, 1, DRIVER).unwrap();
    c
}

fn status(c: &DeliveryContract, id: u64) -> DeliveryStatus {
    c.get_delivery(id).unwrap().status
}

fn escrow_in(status: EscrowStatus) -> EscrowRecord {
    EscrowRecord {
        sender: SENDER,
        recipient: RECIPIENT,
        driver: DRIVER,
        token: 99,
        amount: 1000,
        status,
        created_at: 0,
        expires_at: None,
        disputed_by: None,
        disputed_at: None,
        fleet_id: None,
    }
}

#[test]
fn init_records_escrow_contract_once() {
    let mut c = DeliveryContract::new(THIS);
    assert_eq!(c.get_escrow_contract(), None);
    assert_eq!(c.init(ADMIN, ESCROW), Ok(()));
    assert_eq!(c.get_escrow_contract(), Some(ESCROW));
    assert_eq!(c.init(STRANGER, 77), Err(protocol(FaniLabError::AlreadyInitialized)));
    assert_eq!(c.get_escrow_contract(), Some(ESCROW));
}

#[test]
fn identity_contract_is_set_by_admin_only() {
    let mut fresh = DeliveryContract::new(THIS);
    assert_eq!(
        fresh.set_identity_reputation_contract(ADMIN, IDENTITY),
        Err(protocol(FaniLabError::NotInitialized))
    );
    let mut c = initialized();
    assert_eq!(c.get_identity_reputation_contract(), None);
    assert_eq!(
        c.set_identity_reputation_contract(STRANGER, IDENTITY),
        Err(protocol(FaniLabError::Unauthorized))
    );
    assert_eq!(c.get_identity_reputation_contract(), None);
    assert_eq!(c.set_identity_reputation_contract(ADMIN, IDENTITY), Ok(()));
    assert_eq!(c.get_identity_reputation_contract(), Some(IDENTITY));
}

#[test]
fn create_delivery_numbers_stores_and_indexes() {
    let mut c = initialized();
    assert_eq!(c.create_delivery(SENDER, RECIPIENT, metadata(10, true), 500), Ok(1));
    assert_eq!(c.create_delivery(SENDER, STRANGER, metadata(20, false), 600), Ok(2));
    assert_eq!(c.create_delivery(STRANGER, RECIPIENT, metadata(30, false), 700), Ok(3));

    let rec = c.get_delivery(2).unwrap();
    assert_eq!(rec.delivery_id, 2);
    assert_eq!(rec.sender, SENDER);
    assert_eq!(rec.recipient, STRANGER);
    assert_eq!(rec.driver, None);
    assert_eq!(rec.status, DeliveryStatus::Pending);
    assert_eq!(rec.created_at, 600);
    assert_eq!(rec.delivered_at, None);
    assert_eq!(rec.transit_started_at, None);
    assert_eq!(rec.metadata.cargo_description.weight_grams, 20);

    assert_eq!(c.get_deliveries_by_sender(SENDER), vec![1, 2]);
    assert_eq!(c.get_deliveries_by_sender(STRANGER), vec![3]);
    assert_eq!(c.get_deliveries_by_recipient(RECIPIENT), vec![1, 3]);
    assert_eq!(c.get_deliveries_by_recipient(DRIVER), Vec::<u64>::new());
}

#[test]
fn create_delivery_rejects_invalid_metadata() {
    let mut c = initialized();
    let mut long_origin = metadata(10, false);
    long_origin.origin = vec![b'a'; MAX_LOCATION_LEN as usize + 1];
    assert_eq!(
        c.create_delivery(SENDER, RECIPIENT, long_origin, 0),
        Err(DeliveryFailure::Delivery(DeliveryError::InvalidMetadata))
    );
    let mut long_destination = metadata(10, false);
    long_destination.destination = vec![b'b'; MAX_LOCATION_LEN as usize + 1];
    assert_eq!(
        c.create_delivery(SENDER, RECIPIENT, long_destination, 0),
        Err(DeliveryFailure::Delivery(DeliveryError::InvalidMetadata))
    );
    assert_eq!(
        c.create_delivery(SENDER, RECIPIENT, metadata(MAX_WEIGHT_GRAMS + 1, false), 0),
        Err(DeliveryFailure::Delivery(DeliveryError::InvalidMetadata))
    );
    // Nothing was created by the rejected calls.
    assert!(c.get_delivery(1).is_err());
    assert_eq!(c.get_deliveries_by_sender(SENDER), Vec::<u64>::new());
}

#[test]
fn metadata_limits_are_inclusive() {
    let mut at_limit = metadata(MAX_WEIGHT_GRAMS, false);
    at_limit.origin = vec![b'a'; MAX_LOCATION_LEN as usize];
    at_limit.destination = vec![b'b'; MAX_LOCATION_LEN as usize];
    assert_eq!(validate_delivery_metadata(&at_limit), Ok(()));
    let mut c = initialized();
    assert_eq!(c.create_delivery(SENDER, RECIPIENT, at_limit, 0), Ok(1));
}

#[test]
fn batch_creates_consecutive_ids_in_order() {
    let mut c = with_pending();
    let list = vec![metadata(1, false), metadata(2, true), metadata(3, false)];
    assert_eq!(c.create_deliveries_batch(SENDER, RECIPIENT, list, 900), Ok(vec![2, 3, 4]));
    for id in 2..=4u64 {
        let rec = c.get_delivery(id).unwrap();
        assert_eq!(rec.status, DeliveryStatus::Pending);
        assert_eq!(rec.created_at, 900);
        assert_eq!(rec.metadata.cargo_description.weight_grams as u64, id - 1);
    }
    assert_eq!(c.get_deliveries_by_sender(SENDER), vec![1, 2, 3, 4]);
    assert_eq!(c.get_deliveries_by_recipient(RECIPIENT), vec![1, 2, 3, 4]);
    assert_eq!(c.create_delivery(SENDER, RECIPIENT, metadata(5, false), 0), Ok(5));
}

#[test]
fn batch_of_nothing_creates_nothing() {
    let mut c = initialized();
    assert_eq!(c.create_deliveries_batch(SENDER, RECIPIENT, Vec::new(), 0), Ok(Vec::new()));
    assert_eq!(c.create_delivery(SENDER, RECIPIENT, metadata(5, false), 0), Ok(1));
}

#[test]
fn batch_size_is_capped() {
    let mut c = initialized();
    let too_many = vec![metadata(1, false); MAX_BATCH_SIZE as usize + 1];
    assert_eq!(
        c.create_deliveries_batch(SENDER, RECIPIENT, too_many, 0),
        Err(DeliveryFailure::BatchTooLarge)
    );
    assert!(c.get_delivery(1).is_err());
    let full = vec![metadata(1, false); MAX_BATCH_SIZE as usize];
    let ids = c.create_deliveries_batch(SENDER, RECIPIENT, full, 0).unwrap();
    assert_eq!(ids, (1..=MAX_BATCH_SIZE as u64).collect::<Vec<u64>>());
}

#[test]
fn batch_skips_metadata_checks() {
    let mut c = initialized();
    let heavy = vec![metadata(MAX_WEIGHT_GRAMS + 1, false)];
    assert_eq!(c.create_deliveries_batch(SENDER, RECIPIENT, heavy, 0), Ok(vec![1]));
}

#[test]
fn driver_may_assign_themselves() {
    let mut c = with_pending();
    assert_eq!(c.assign_driver(DRIVER, 1, DRIVER), Ok(()));
    let rec = c.get_delivery(1).unwrap();
    assert_eq!(rec.driver, Some(DRIVER));
    assert_eq!(rec.status, DeliveryStatus::Active);
}

#[test]
fn admin_may_assign_any_driver() {
    let mut c = with_pending();
    assert_eq!(c.assign_driver(ADMIN, 1, DRIVER), Ok(()));
    assert_eq!(c.get_delivery(1).unwrap().driver, Some(DRIVER));
}

#[test]
fn assign_driver_failures() {
    let mut c = with_pending();
    assert_eq!(c.assign_driver(STRANGER, 1, DRIVER), Err(protocol(FaniLabError::Unauthorized)));
    assert_eq!(c.assign_driver(DRIVER, 7, DRIVER), Err(protocol(FaniLabError::DeliveryNotFound)));
    assert_eq!(c.assign_driver(ADMIN, 1, SENDER), Err(DeliveryFailure::InvalidDriver));
    assert_eq!(c.assign_driver(RECIPIENT, 1, RECIPIENT), Err(DeliveryFailure::InvalidDriver));
    assert_eq!(status(&c, 1), DeliveryStatus::Pending);
    c.assign_driver(DRIVER, 1, DRIVER).unwrap();
    assert_eq!(c.assign_driver(ADMIN, 1, STRANGER), Err(protocol(FaniLabError::InvalidState)));
    assert_eq!(c.get_delivery(1).unwrap().driver, Some(DRIVER));
}

#[test]
fn assigned_driver_starts_transit() {
    let mut c = with_active();
    assert_eq!(c.mark_in_transit(DRIVER, 1, 1234), Ok(()));
    let rec = c.get_delivery(1).unwrap();
    assert_eq!(rec.status, DeliveryStatus::InTransit);
    assert_eq!(rec.transit_started_at, Some(1234));
    assert_eq!(c.mark_in_transit(DRIVER, 1, 1300), Err(protocol(FaniLabError::InvalidState)));
    assert_eq!(c.get_delivery(1).unwrap().transit_started_at, Some(1234));
}

#[test]
fn only_the_assigned_driver_starts_transit() {
    let mut pending = with_pending();
    assert_eq!(pending.mark_in_transit(DRIVER, 1, 5), Err(protocol(FaniLabError::Unauthorized)));
    let mut c = with_active();
    assert_eq!(c.mark_in_transit(STRANGER, 1, 5), Err(protocol(FaniLabError::Unauthorized)));
    assert_eq!(c.mark_in_transit(DRIVER, 2, 5), Err(protocol(FaniLabError::DeliveryNotFound)));
    assert_eq!(status(&c, 1), DeliveryStatus::Active);
}

#[test]
fn confirm_delivery_credits_the_driver() {
    let mut c = initialized();
    c.set_identity_reputation_contract(ADMIN, IDENTITY).unwrap();
    c.create_delivery(SENDER, RECIPIENT, metadata(6000, true), 0).unwrap();
    c.assign_driver(DRIVER, 1, DRIVER).unwrap();
    c.mark_in_transit(DRIVER, 1, 10).unwrap();
    let calls = c.confirm_delivery(RECIPIENT, 1, 20).unwrap();
    assert_eq!(
        calls,
        vec![
            ContractCall::MarkHoldbackEscrow { escrow_contract: ESCROW, caller: RECIPIENT, delivery_id: 1 },
            ContractCall::IncreaseReputation {
                identity_contract: IDENTITY,
                caller: THIS,
                driver: DRIVER,
                delivery_id: 1,
                weight_grams: 6000,
                fragile: true,
            },
        ]
    );
    let rec = c.get_delivery(1).unwrap();
    assert_eq!(rec.status, DeliveryStatus::Delivered);
    assert_eq!(rec.delivered_at, Some(20));
    assert_eq!(rec.transit_started_at, Some(10));
}

#[test]
fn confirm_delivery_without_reputation_contract_only_moves_escrow() {
    let mut c = with_active();
    c.mark_in_transit(DRIVER, 1, 10).unwrap();
    assert_eq!(
        c.confirm_delivery(RECIPIENT, 1, 20),
        Ok(vec![ContractCall::MarkHoldbackEscrow { escrow_contract: ESCROW, caller: RECIPIENT, delivery_id: 1 }])
    );
}

#[test]
fn confirm_delivery_failures() {
    let mut c = with_active();
    assert_eq!(c.confirm_delivery(RECIPIENT, 1, 5), Err(protocol(FaniLabError::InvalidState)));
    c.mark_in_transit(DRIVER, 1, 10).unwrap();
    assert_eq!(c.confirm_delivery(SENDER, 1, 5), Err(protocol(FaniLabError::Unauthorized)));
    assert_eq!(c.confirm_delivery(RECIPIENT, 9, 5), Err(protocol(FaniLabError::DeliveryNotFound)));
    assert_eq!(status(&c, 1), DeliveryStatus::InTransit);
    assert!(c.confirm_delivery(RECIPIENT, 1, 30).is_ok());
    assert_eq!(c.confirm_delivery(RECIPIENT, 1, 40), Err(protocol(FaniLabError::InvalidState)));
    assert_eq!(c.get_delivery(1).unwrap().delivered_at, Some(30));
}

#[test]
fn confirm_delivery_needs_an_escrow_contract() {
    let mut c = DeliveryContract::new(THIS);
    c.create_delivery(SENDER, RECIPIENT, metadata(1, false), 0).unwrap();
    c.create_delivery(SENDER, RECIPIENT, metadata(1, false), 0).unwrap();
    c.assign_driver(DRIVER, 1, DRIVER).unwrap();
    c.mark_in_transit(DRIVER, 1, 1).unwrap();
    assert_eq!(c.confirm_delivery(RECIPIENT, 1, 2), Err(protocol(FaniLabError::NotInitialized)));
    assert_eq!(c.cancel_delivery(SENDER, 2), Err(protocol(FaniLabError::NotInitialized)));
    assert_eq!(c.raise_dispute(SENDER, 1), Err(protocol(FaniLabError::NotInitialized)));
    assert_eq!(status(&c, 1), DeliveryStatus::InTransit);
    assert_eq!(status(&c, 2), DeliveryStatus::Pending);
}

#[test]
fn sender_cancels_and_escrow_is_refunded() {
    let mut c = with_pending();
    assert_eq!(
        c.cancel_delivery(SENDER, 1),
        Ok(ContractCall::RefundEscrow { escrow_contract: ESCROW, caller: SENDER, delivery_id: 1 })
    );
    assert_eq!(status(&c, 1), DeliveryStatus::Cancelled);
    assert_eq!(c.cancel_delivery(SENDER, 1), Err(protocol(FaniLabError::InvalidState)));
    assert_eq!(c.assign_driver(DRIVER, 1, DRIVER), Err(protocol(FaniLabError::InvalidState)));
}

#[test]
fn cancel_delivery_failures() {
    let mut c = with_active();
    assert_eq!(c.cancel_delivery(RECIPIENT, 1), Err(protocol(FaniLabError::Unauthorized)));
    assert_eq!(c.cancel_delivery(SENDER, 4), Err(protocol(FaniLabError::DeliveryNotFound)));
    c.mark_in_transit(DRIVER, 1, 3).unwrap();
    assert_eq!(c.cancel_delivery(SENDER, 1), Err(protocol(FaniLabError::InvalidState)));
    assert_eq!(status(&c, 1), DeliveryStatus::InTransit);
}

#[test]
fn sender_or_recipient_disputes() {
    let mut c = with_active();
    c.create_delivery(SENDER, RECIPIENT, metadata(1, false), 0).unwrap();
    c.assign_driver(DRIVER, 2, DRIVER).unwrap();
    assert_eq!(
        c.raise_dispute(SENDER, 1),
        Ok(ContractCall::RaiseEscrowDispute { escrow_contract: ESCROW, caller: SENDER, delivery_id: 1 })
    );
    assert_eq!(
        c.raise_dispute(RECIPIENT, 2),
        Ok(ContractCall::RaiseEscrowDispute { escrow_contract: ESCROW, caller: RECIPIENT, delivery_id: 2 })
    );
    assert_eq!(status(&c, 1), DeliveryStatus::Disputed);
    assert_eq!(status(&c, 2), DeliveryStatus::Disputed);
    // A dispute can still end in delivery or cancellation.
    assert!(c.confirm_delivery(RECIPIENT, 1, 9).is_ok());
    assert!(c.cancel_delivery(SENDER, 2).is_ok());
}

#[test]
fn raise_dispute_failures() {
    let mut c = with_pending();
    assert_eq!(c.raise_dispute(SENDER, 1), Err(protocol(FaniLabError::InvalidState)));
    c.assign_driver(DRIVER, 1, DRIVER).unwrap();
    assert_eq!(c.raise_dispute(DRIVER, 1), Err(protocol(FaniLabError::Unauthorized)));
    assert_eq!(c.raise_dispute(STRANGER, 1), Err(protocol(FaniLabError::Unauthorized)));
    assert_eq!(c.raise_dispute(SENDER, 2), Err(protocol(FaniLabError::DeliveryNotFound)));
    c.raise_dispute(SENDER, 1).unwrap();
    assert_eq!(c.raise_dispute(RECIPIENT, 1), Err(protocol(FaniLabError::InvalidState)));
}

#[test]
fn transition_table() {
    let all = [DeliveryStatus::Pending, DeliveryStatus::Active, DeliveryStatus::InTransit, DeliveryStatus::Delivered, DeliveryStatus::Disputed, DeliveryStatus::Cancelled];
    let allowed = [
        (DeliveryStatus::Pending, DeliveryStatus::Active),
        (DeliveryStatus::Pending, DeliveryStatus::Cancelled),
        (DeliveryStatus::Active, DeliveryStatus::InTransit),
        (DeliveryStatus::Active, DeliveryStatus::Disputed),
        (DeliveryStatus::Active, DeliveryStatus::Cancelled),
        (DeliveryStatus::InTransit, DeliveryStatus::Delivered),
        (DeliveryStatus::InTransit, DeliveryStatus::Disputed),
        (DeliveryStatus::Disputed, DeliveryStatus::Delivered),
        (DeliveryStatus::Disputed, DeliveryStatus::Cancelled),
    ];
    for from in all {
        for to in all {
            let expected = if allowed.contains(&(from, to)) {
                Ok(())
            } else {
                Err(FaniLabError::InvalidState)
            };
            assert_eq!(validate_transition(from, to), expected, "{from:?} -> {to:?}");
        }
    }
}

#[test]
fn terminal_statuses_admit_no_transition() {
    for to in [DeliveryStatus::Pending, DeliveryStatus::Active, DeliveryStatus::InTransit, DeliveryStatus::Delivered, DeliveryStatus::Disputed, DeliveryStatus::Cancelled] {
        assert!(validate_transition(DeliveryStatus::Delivered, to).is_err());
        assert!(validate_transition(DeliveryStatus::Cancelled, to).is_err());
        assert!(validate_transition(to, to).is_err());
    }
}

#[test]
fn state_sync_table() {
    let deliveries = [DeliveryStatus::Pending, DeliveryStatus::Active, DeliveryStatus::InTransit, DeliveryStatus::Delivered, DeliveryStatus::Disputed, DeliveryStatus::Cancelled];
    let escrows = [EscrowStatus::Locked, EscrowStatus::Released, EscrowStatus::Refunded, EscrowStatus::Paused, EscrowStatus::Holdback, EscrowStatus::Split];
    let agreeing = [
        (DeliveryStatus::Pending, EscrowStatus::Locked),
        (DeliveryStatus::Active, EscrowStatus::Locked),
        (DeliveryStatus::InTransit, EscrowStatus::Locked),
        (DeliveryStatus::Delivered, EscrowStatus::Released),
        (DeliveryStatus::Disputed, EscrowStatus::Paused),
        (DeliveryStatus::Cancelled, EscrowStatus::Refunded),
    ];
    let mut c = initialized();
    c.create_delivery(SENDER, RECIPIENT, metadata(1, false), 0).unwrap();
    let mut rec = c.get_delivery(1).unwrap().clone();
    for d in deliveries {
        rec.status = d;
        for e in escrows {
            assert_eq!(validate_state_sync(&rec, &escrow_in(e)), agreeing.contains(&(d, e)), "{d:?} / {e:?}");
        }
    }
}

#[test]
fn combined_state_reports_agreement() {
    let mut c = with_active();
    let (rec, escrow, in_sync) = c.get_combined_state(1, escrow_in(EscrowStatus::Locked)).unwrap();
    assert_eq!(rec.status, DeliveryStatus::Active);
    assert_eq!(escrow, escrow_in(EscrowStatus::Locked));
    assert!(in_sync);
    let (_, _, in_sync) = c.get_combined_state(1, escrow_in(EscrowStatus::Released)).unwrap();
    assert!(!in_sync);
    c.raise_dispute(RECIPIENT, 1).unwrap();
    let (_, _, in_sync) = c.get_combined_state(1, escrow_in(EscrowStatus::Paused)).unwrap();
    assert!(in_sync);
}

#[test]
fn combined_state_failures() {
    let c = with_pending();
    assert_eq!(
        c.get_combined_state(5, escrow_in(EscrowStatus::Locked)).err(),
        Some(protocol(FaniLabError::DeliveryNotFound))
    );
    let mut unconfigured = DeliveryContract::new(THIS);
    unconfigured.create_delivery(SENDER, RECIPIENT, metadata(1, false), 0).unwrap();
    assert_eq!(
        unconfigured.get_combined_state(1, escrow_in(EscrowStatus::Locked)).err(),
        Some(DeliveryFailure::EscrowNotConfigured)
    );
    assert_eq!(
        unconfigured.get_combined_state(2, escrow_in(EscrowStatus::Locked)).err(),
        Some(protocol(FaniLabError::DeliveryNotFound))
    );
}

#[test]
fn get_delivery_of_unknown_id_fails() {
    let c = initialized();
    assert_eq!(c.get_delivery(1).err(), Some(protocol(FaniLabError::DeliveryNotFound)));
}

#[test]
fn unknown_driver_gets_a_blank_profile() {
    let c = initialized();
    let p = c.get_driver_profile(DRIVER, 4242);
    assert_eq!(p.address, DRIVER);
    assert_eq!(p.deliveries_completed, 0);
    assert_eq!(p.reputation_score, 0);
    assert_eq!(p.registered_at, 4242);
    assert!(!p.kyc_verified);
}

#[test]
fn ids_keep_growing_and_records_are_never_replaced() {
    let mut c = with_active();
    c.mark_in_transit(DRIVER, 1, 10).unwrap();
    let before = c.get_delivery(1).unwrap().clone();
    assert_eq!(c.create_delivery(SENDER, RECIPIENT, metadata(2, false), 11), Ok(2));
    assert_eq!(c.create_deliveries_batch(SENDER, RECIPIENT, vec![metadata(3, false)], 12), Ok(vec![3]));
    let after = c.get_delivery(1).unwrap();
    assert_eq!(after.status, before.status);
    assert_eq!(after.transit_started_at, before.transit_started_at);
    assert_eq!(after.created_at, before.created_at);
    assert_eq!(status(&c, 2), DeliveryStatus::Pending);
    assert_eq!(status(&c, 3), DeliveryStatus::Pending);
}
