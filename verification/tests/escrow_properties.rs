//! Exact values of the escrow contract's formulas, and the properties it
//! keeps across calls, checked on concrete inputs.

use fanilab::escrow::{
    calculate_fee, payout_instructions, EscrowContract, EscrowError, EscrowFailure, FleetRoute,
    Payout, PayoutInstruction, Resolution, SettlementSwap, VolumeTier,
    DEFAULT_ESCROW_EXPIRY_SECONDS, DEFAULT_SLIPPAGE_TOLERANCE_BPS, MAX_PLATFORM_FEE_BPS,
    SETTLEMENT_CONTRACT_TIMELOCK_SECONDS,
};
use fanilab::types::{Addr, EscrowStatus, FaniLabError, Transfer};

const THIS: Addr = 1;
const ADMIN: Addr = 2;
const TOKEN: Addr = 3;
const SENDER: Addr = 10;
const RECIPIENT: Addr = 11;
const DRIVER: Addr = 12;
const STRANGER: Addr = 13;
const DISPUTE: Addr = 14;
const SETTLEMENT: Addr = 15;
const OTHER_ASSET: Addr = 16;

fn protocol(e: FaniLabError) -> EscrowFailure {
    EscrowFailure::Protocol(e)
}

fn escrow(e: EscrowError) -> EscrowFailure {
    EscrowFailure::Escrow(e)
}

fn contract(fee_bps: u32) -> EscrowContract {
    let mut c = EscrowContract::new(THIS);
    c.init(ADMIN, TOKEN, fee_bps).unwrap();
    c
}

fn lock(c: &mut EscrowContract, id: u64, amount: i128, now: u64) -> Transfer {
    c.create_escrow(SENDER, RECIPIENT, DRIVER, id, TOKEN, amount, None, now).unwrap()
}

fn payout(driver_amount: i128, platform_fee: i128) -> Payout {
    Payout {
        token: TOKEN,
        payer: THIS,
        driver: DRIVER,
        driver_amount,
        fleet_route: None,
        settlement_contract: None,
        slippage_tolerance_bps: Some(DEFAULT_SLIPPAGE_TOLERANCE_BPS),
        platform_fee,
        fee_recipient: Some(ADMIN),
    }
}

fn transfer(to: Addr, amount: i128) -> PayoutInstruction {
    PayoutInstruction::Transfer(Transfer { token: TOKEN, from: THIS, to, amount })
}

#[test]
fn fee_formula_values() {
    assert_eq!(calculate_fee(1000, 250), 25);
    assert_eq!(calculate_fee(1000, 0), 0);
    assert_eq!(calculate_fee(10_000, MAX_PLATFORM_FEE_BPS), 1000);
    assert_eq!(calculate_fee(399, 250), 9);
    assert_eq!(calculate_fee(39, 250), 0);
    assert_eq!(calculate_fee(0, 1000), 0);
    assert_eq!(calculate_fee(-1000, 250), -25);
    assert_eq!(calculate_fee(-399, 250), -9);
    // The product saturates before the division.
    assert_eq!(calculate_fee(i128::MAX, 10_000), i128::MAX / 10_000);
    assert_eq!(calculate_fee(i128::MIN, 10_000), i128::MIN / 10_000);
}

#[test]
fn fee_never_exceeds_the_amount() {
    for amount in [0i128, 1, 7, 99, 100, 1000, 123_456_789, i128::MAX] {
        for bps in [0u32, 1, 250, 1000, 9999, 10_000] {
            let fee = calculate_fee(amount, bps);
            assert!(0 <= fee && fee <= amount, "amount {amount} bps {bps}");
        }
    }
}

#[test]
fn release_splits_amount_between_driver_and_fee() {
    let mut c = contract(250);
    lock(&mut c, 1, 1000, 0);
    let p = c.release_escrow(RECIPIENT, 1, 1000).unwrap();
    assert_eq!(p.driver_amount, 975);
    assert_eq!(p.platform_fee, 25);
    assert_eq!(p.driver_amount + p.platform_fee, 1000);
    assert_eq!(p.fee_recipient, Some(ADMIN));
    assert_eq!(payout_instructions(&p, 0, None), Ok(vec![transfer(DRIVER, 975), transfer(ADMIN, 25)]));
}

#[test]
fn volume_discount_lowers_the_fee_paid() {
    let mut c = contract(500);
    c.set_volume_tiers(
        ADMIN,
        vec![
            VolumeTier { volume_threshold: 1, discount_bps: 100 },
            VolumeTier { volume_threshold: 2, discount_bps: 600 },
        ],
    )
    .unwrap();
    assert_eq!(c.effective_fee_bps(500, 0), 500);
    assert_eq!(c.effective_fee_bps(500, 1), 400);
    assert_eq!(c.effective_fee_bps(500, 2), 0);
    assert_eq!(c.effective_fee_bps(500, 50), 0);
    lock(&mut c, 1, 1000, 0);
    lock(&mut c, 2, 1000, 0);
    lock(&mut c, 3, 1000, 0);
    let first = c.release_escrow(ADMIN, 1, 3000).unwrap();
    assert_eq!(first.platform_fee, 50);
    assert_eq!(first.driver_amount, 950);
    assert_eq!(c.get_sender_volume(SENDER), 1);
    let second = c.release_escrow(ADMIN, 2, 2000).unwrap();
    assert_eq!(second.platform_fee, 40);
    assert_eq!(second.driver_amount, 960);
    let third = c.release_escrow(ADMIN, 3, 1000).unwrap();
    assert_eq!(third.platform_fee, 0);
    assert_eq!(third.driver_amount, 1000);
    assert_eq!(payout_instructions(&third, 0, None), Ok(vec![transfer(DRIVER, 1000)]));
    assert_eq!(c.get_sender_volume(SENDER), 3);
    assert_eq!(c.get_volume_tiers().len(), 2);
}

#[test]
fn dispute_released_to_driver_uses_the_discounted_rate() {
    let mut c = contract(1000);
    c.set_volume_tiers(ADMIN, vec![VolumeTier { volume_threshold: 1, discount_bps: 400 }]).unwrap();
    lock(&mut c, 1, 100, 0);
    lock(&mut c, 2, 100, 0);
    c.release_escrow(ADMIN, 1, 200).unwrap();
    c.raise_dispute(SENDER, 2, 3).unwrap();
    match c.resolve_dispute(ADMIN, 2, true, 100).unwrap() {
        Resolution::Released(p) => {
            assert_eq!(p.platform_fee, 6);
            assert_eq!(p.driver_amount, 94);
        }
        other => panic!("expected a release, got {other:?}"),
    }
}

#[test]
fn volume_tiers_are_admin_settings() {
    let mut c = contract(100);
    assert_eq!(c.set_volume_tiers(STRANGER, Vec::new()), Err(protocol(FaniLabError::Unauthorized)));
    let mut fresh = EscrowContract::new(THIS);
    assert_eq!(fresh.set_volume_tiers(ADMIN, Vec::new()), Err(protocol(FaniLabError::NotInitialized)));
}

#[test]
fn payout_swaps_into_preferred_asset_with_slippage_floor() {
    let mut p = payout(1000, 25);
    p.settlement_contract = Some(SETTLEMENT);
    let swap = PayoutInstruction::Swap(SettlementSwap {
        settlement_contract: SETTLEMENT,
        caller: THIS,
        from_token: TOKEN,
        to_token: OTHER_ASSET,
        recipient: DRIVER,
        amount: 1000,
        min_amount_out: 950,
    });
    assert_eq!(payout_instructions(&p, 0, Some(OTHER_ASSET)), Ok(vec![swap, transfer(ADMIN, 25)]));
    // No preference, or a preference for the escrow's own token: a plain transfer.
    assert_eq!(payout_instructions(&p, 0, None), Ok(vec![transfer(DRIVER, 1000), transfer(ADMIN, 25)]));
    assert_eq!(
        payout_instructions(&p, 0, Some(TOKEN)),
        Ok(vec![transfer(DRIVER, 1000), transfer(ADMIN, 25)])
    );
    p.slippage_tolerance_bps = Some(0);
    match &payout_instructions(&p, 0, Some(OTHER_ASSET)).unwrap()[0] {
        PayoutInstruction::Swap(s) => assert_eq!(s.min_amount_out, 1000),
        other => panic!("expected a swap, got {other:?}"),
    }
    p.slippage_tolerance_bps = Some(10_000);
    match &payout_instructions(&p, 0, Some(OTHER_ASSET)).unwrap()[0] {
        PayoutInstruction::Swap(s) => assert_eq!(s.min_amount_out, 0),
        other => panic!("expected a swap, got {other:?}"),
    }
    p.slippage_tolerance_bps = None;
    assert_eq!(
        payout_instructions(&p, 0, Some(OTHER_ASSET)),
        Err(protocol(FaniLabError::NotInitialized))
    );
}

#[test]
fn payout_to_fleet_treasury() {
    let mut p = payout(900, 100);
    p.fleet_route = Some(FleetRoute { fleet_contract: 40, fleet_id: 7 });
    assert_eq!(payout_instructions(&p, 41, None), Ok(vec![transfer(41, 900), transfer(ADMIN, 100)]));
}

#[test]
fn payout_edge_cases() {
    assert_eq!(payout_instructions(&payout(0, 0), 0, None), Ok(Vec::new()));
    assert_eq!(payout_instructions(&payout(500, 0), 0, None), Ok(vec![transfer(DRIVER, 500)]));
    assert_eq!(payout_instructions(&payout(0, 10), 0, None), Ok(vec![transfer(ADMIN, 10)]));
    let mut no_recipient = payout(500, 10);
    no_recipient.fee_recipient = None;
    assert_eq!(payout_instructions(&no_recipient, 0, None), Err(EscrowFailure::NoFeeRecipient));
}

#[test]
fn split_conserves_the_escrowed_amount() {
    for (amount, bps, sender_part) in [(1000i128, 3000u32, 300i128), (1000, 0, 0), (1000, 10_000, 1000), (999, 5000, 499)] {
        let mut c = contract(100);
        c.set_dispute_resolution_contract(ADMIN, DISPUTE).unwrap();
        lock(&mut c, 1, amount, 0);
        c.raise_dispute(SENDER, 1, 5).unwrap();
        let s = c.resolve_dispute_split(ADMIN, 1, bps, amount).unwrap();
        assert_eq!(s.sender_amount, sender_part);
        assert_eq!(s.sender_amount + s.driver_amount, amount);
        assert_eq!(s.to_sender.map(|t| t.amount).unwrap_or(0), s.sender_amount);
        assert_eq!(s.to_driver.map(|t| t.amount).unwrap_or(0), s.driver_amount);
        assert_eq!(s.to_sender.is_some(), s.sender_amount > 0);
        assert_eq!(s.to_driver.is_some(), s.driver_amount > 0);
        assert_eq!(c.get_escrow(1).unwrap().status, EscrowStatus::Split);
        assert_eq!(c.get_total_locked(TOKEN), 0);
    }
}

#[test]
fn split_share_above_whole_is_rejected() {
    let mut c = contract(100);
    lock(&mut c, 1, 1000, 0);
    c.raise_dispute(DRIVER, 1, 5).unwrap();
    assert_eq!(c.resolve_dispute_split(ADMIN, 1, 10_001, 1000).err(), Some(escrow(EscrowError::InvalidFee)));
    assert_eq!(c.resolve_dispute_split(STRANGER, 1, 100, 1000).err(), Some(protocol(FaniLabError::Unauthorized)));
    assert_eq!(c.get_escrow(1).unwrap().status, EscrowStatus::Paused);
}

#[test]
fn total_locked_tracks_live_escrows() {
    let mut c = contract(100);
    assert_eq!(c.get_total_locked(TOKEN), 0);
    lock(&mut c, 1, 100, 0);
    lock(&mut c, 2, 250, 0);
    let (count, deposits) = c
        .create_escrows_batch(SENDER, RECIPIENT, TOKEN, vec![(3, DRIVER, 5), (4, STRANGER, 45)], 0)
        .unwrap();
    assert_eq!(count, 2);
    assert_eq!(deposits.iter().map(|t| t.amount).sum::<i128>(), 50);
    assert_eq!(c.get_total_locked(TOKEN), 400);
    c.mark_holdback_escrow(RECIPIENT, 2).unwrap();
    assert_eq!(c.get_total_locked(TOKEN), 400);
    c.release_escrow(RECIPIENT, 1, 400).unwrap();
    assert_eq!(c.get_total_locked(TOKEN), 300);
    c.refund_escrow(SENDER, 3, 300).unwrap();
    assert_eq!(c.get_total_locked(TOKEN), 295);
    c.release_holdback_escrow(ADMIN, 2, 295).unwrap();
    assert_eq!(c.get_total_locked(TOKEN), 45);
    assert_eq!(c.get_total_locked(OTHER_ASSET), 0);
}

#[test]
fn batch_is_all_or_nothing() {
    let mut c = contract(100);
    lock(&mut c, 2, 10, 0);
    let err = c.create_escrows_batch(SENDER, RECIPIENT, TOKEN, vec![(1, DRIVER, 5), (2, DRIVER, 5)], 0);
    assert_eq!(err.err(), Some(escrow(EscrowError::DuplicateDelivery)));
    assert!(c.get_escrow(1).is_err());
    let err = c.create_escrows_batch(SENDER, RECIPIENT, TOKEN, vec![(5, DRIVER, 5), (5, DRIVER, 5)], 0);
    assert_eq!(err.err(), Some(escrow(EscrowError::DuplicateDelivery)));
    assert!(c.get_escrow(5).is_err());
    let err = c.create_escrows_batch(SENDER, RECIPIENT, TOKEN, vec![(6, DRIVER, 5), (7, DRIVER, 0)], 0);
    assert_eq!(err.err(), Some(escrow(EscrowError::InvalidAmount)));
    let err = c.create_escrows_batch(SENDER, RECIPIENT, OTHER_ASSET, vec![(6, DRIVER, 5)], 0);
    assert_eq!(err.err(), Some(escrow(EscrowError::InvalidToken)));
    assert_eq!(c.get_total_locked(TOKEN), 10);
    assert_eq!(c.get_escrows_by_sender(SENDER), vec![2]);
}

#[test]
fn settled_escrows_accept_no_further_settlement() {
    let mut c = contract(100);
    lock(&mut c, 1, 100, 0);
    lock(&mut c, 2, 100, 0);
    c.release_escrow(ADMIN, 1, 200).unwrap();
    c.refund_escrow(ADMIN, 2, 100).unwrap();
    for id in [1u64, 2] {
        assert_eq!(c.release_escrow(ADMIN, id, 1000).err(), Some(escrow(EscrowError::InvalidState)));
        assert_eq!(c.refund_escrow(ADMIN, id, 1000).err(), Some(escrow(EscrowError::InvalidState)));
        assert_eq!(c.mark_holdback_escrow(RECIPIENT, id).err(), Some(escrow(EscrowError::InvalidState)));
        assert_eq!(c.raise_dispute(SENDER, id, 9).err(), Some(escrow(EscrowError::InvalidState)));
        assert_eq!(c.reclaim_expired_escrow(id, u64::MAX, 1000).err(), Some(escrow(EscrowError::InvalidState)));
    }
    assert_eq!(c.get_escrow(1).unwrap().status, EscrowStatus::Released);
    assert_eq!(c.get_escrow(2).unwrap().status, EscrowStatus::Refunded);
}

#[test]
fn pause_blocks_every_movement_of_funds() {
    let mut c = contract(100);
    lock(&mut c, 1, 100, 0);
    lock(&mut c, 3, 100, 0);
    c.set_paused(ADMIN, true).unwrap();
    assert!(c.is_paused());
    let paused = Some(protocol(FaniLabError::ProtocolPaused));
    assert_eq!(c.create_escrow(SENDER, RECIPIENT, DRIVER, 2, TOKEN, 5, None, 0).err(), paused);
    assert_eq!(c.release_escrow(ADMIN, 1, 100).err(), paused);
    assert_eq!(c.refund_escrow(ADMIN, 1, 100).err(), paused);
    assert_eq!(c.mark_holdback_escrow(ADMIN, 1).err(), paused);
    assert_eq!(c.reclaim_expired_escrow(1, u64::MAX, 100).err(), paused);
    assert_eq!(c.sweep_untracked_balance(ADMIN, TOKEN, ADMIN, 1000).err(), paused);
    assert_eq!(c.get_escrow(1).unwrap().status, EscrowStatus::Locked);
    // A dispute freezes funds rather than moving them, and stays open.
    assert_eq!(c.raise_dispute(SENDER, 3, 1), Ok(()));
    assert_eq!(c.get_escrow(3).unwrap().status, EscrowStatus::Paused);
    c.set_paused(ADMIN, false).unwrap();
    assert!(c.release_escrow(ADMIN, 1, 100).is_ok());
}

#[test]
fn reclaim_only_after_expiry() {
    let mut c = contract(100);
    lock(&mut c, 1, 100, 1000);
    let expiry = 1000 + DEFAULT_ESCROW_EXPIRY_SECONDS;
    assert_eq!(c.get_escrow(1).unwrap().expires_at, Some(expiry));
    assert_eq!(c.reclaim_expired_escrow(1, expiry, 100).err(), Some(escrow(EscrowError::InvalidState)));
    assert_eq!(c.reclaim_expired_escrow(1, expiry + 1, 99).err(), Some(escrow(EscrowError::InsufficientFunds)));
    assert_eq!(
        c.reclaim_expired_escrow(1, expiry + 1, 100),
        Ok(Transfer { token: TOKEN, from: THIS, to: SENDER, amount: 100 })
    );
    assert_eq!(c.get_escrow(1).unwrap().status, EscrowStatus::Refunded);
}

#[test]
fn expiry_saturates_at_the_end_of_time() {
    let mut c = contract(100);
    lock(&mut c, 1, 100, u64::MAX - 5);
    assert_eq!(c.get_escrow(1).unwrap().expires_at, Some(u64::MAX));
}

#[test]
fn settlement_change_waits_for_timelock() {
    let mut c = contract(100);
    let ev = c.set_settlement_contract(ADMIN, SETTLEMENT, 500).unwrap();
    let activates_at = 500 + SETTLEMENT_CONTRACT_TIMELOCK_SECONDS;
    assert_eq!(ev.activates_at, activates_at);
    assert_eq!(ev.old_address, None);
    assert_eq!(c.get_settlement_contract(), None);
    assert_eq!(
        c.confirm_settlement_contract(ADMIN, activates_at - 1).err(),
        Some(escrow(EscrowError::TimelockNotElapsed))
    );
    let done = c.confirm_settlement_contract(ADMIN, activates_at).unwrap();
    assert_eq!(done.new_address, SETTLEMENT);
    assert_eq!(c.get_settlement_contract(), Some(SETTLEMENT));
    assert_eq!(c.get_pending_settlement_contract(), None);
    assert_eq!(
        c.confirm_settlement_contract(ADMIN, activates_at + 10).err(),
        Some(escrow(EscrowError::NoPendingSettlementChange))
    );
    c.clear_settlement_contract(ADMIN).unwrap();
    assert_eq!(c.get_settlement_contract(), None);
}

#[test]
fn admin_handover_takes_two_steps() {
    let mut c = contract(100);
    assert_eq!(c.accept_admin(STRANGER).err(), Some(protocol(FaniLabError::InvalidState)));
    c.propose_admin(ADMIN, STRANGER).unwrap();
    assert_eq!(c.get_admin(), Ok(ADMIN));
    assert_eq!(c.accept_admin(DRIVER).err(), Some(protocol(FaniLabError::Unauthorized)));
    assert_eq!(c.accept_admin(STRANGER), Ok(ADMIN));
    assert_eq!(c.get_admin(), Ok(STRANGER));
    assert_eq!(c.set_paused(ADMIN, true).err(), Some(protocol(FaniLabError::Unauthorized)));
    assert_eq!(c.set_paused(STRANGER, true), Ok(()));
}

#[test]
fn only_admin_refunds_disputed_or_held_back_escrows() {
    let mut c = contract(100);
    lock(&mut c, 1, 100, 0);
    lock(&mut c, 2, 100, 0);
    c.raise_dispute(RECIPIENT, 1, 3).unwrap();
    c.mark_holdback_escrow(RECIPIENT, 2).unwrap();
    for id in [1u64, 2] {
        assert_eq!(c.refund_escrow(SENDER, id, 200).err(), Some(protocol(FaniLabError::Unauthorized)));
    }
    assert!(c.refund_escrow(ADMIN, 1, 200).is_ok());
    assert!(c.refund_escrow(ADMIN, 2, 100).is_ok());
}

#[test]
fn resolve_dispute_either_way() {
    let mut c = contract(1000);
    lock(&mut c, 1, 100, 0);
    lock(&mut c, 2, 100, 0);
    c.raise_dispute(SENDER, 1, 3).unwrap();
    c.raise_dispute(SENDER, 2, 3).unwrap();
    match c.resolve_dispute(ADMIN, 1, true, 200).unwrap() {
        Resolution::Released(p) => {
            assert_eq!(p.driver_amount, 90);
            assert_eq!(p.platform_fee, 10);
        }
        other => panic!("expected a release, got {other:?}"),
    }
    assert_eq!(
        c.resolve_dispute(ADMIN, 2, false, 100).unwrap(),
        Resolution::Refunded(Transfer { token: TOKEN, from: THIS, to: SENDER, amount: 100 })
    );
    assert_eq!(c.get_sender_volume(SENDER), 1);
}

#[test]
fn freeze_funds_by_dispute_contract() {
    let mut c = contract(100);
    lock(&mut c, 1, 100, 0);
    assert_eq!(c.freeze_funds(DISPUTE, 1, 7).err(), Some(protocol(FaniLabError::NotInitialized)));
    c.set_dispute_resolution_contract(ADMIN, DISPUTE).unwrap();
    assert_eq!(c.freeze_funds(STRANGER, 1, 7).err(), Some(protocol(FaniLabError::Unauthorized)));
    assert_eq!(c.freeze_funds(DISPUTE, 9, 7).err(), Some(escrow(EscrowError::DeliveryNotFound)));
    assert_eq!(c.freeze_funds(DISPUTE, 1, 7), Ok(true));
    assert_eq!(c.get_escrow(1).unwrap().disputed_at, Some(7));
    assert_eq!(c.freeze_funds(DISPUTE, 1, 8), Ok(false));
    assert_eq!(c.get_escrow(1).unwrap().disputed_at, Some(7));
}

#[test]
fn pages_of_an_index() {
    let mut c = contract(100);
    for id in 1..=5u64 {
        lock(&mut c, id, 10, 0);
    }
    assert_eq!(c.get_escrows_page(SENDER, 0, 0, 10), vec![1, 2, 3, 4, 5]);
    assert_eq!(c.get_escrows_page(SENDER, 0, 1, 2), vec![2, 3]);
    assert_eq!(c.get_escrows_page(RECIPIENT, 1, 3, 10), vec![4, 5]);
    assert_eq!(c.get_escrows_page(DRIVER, 2, 5, 10), Vec::<u64>::new());
    assert_eq!(c.get_escrows_page(DRIVER, 2, 9, 10), Vec::<u64>::new());
    assert_eq!(c.get_escrows_page(DRIVER, 2, 0, 0), Vec::<u64>::new());
    assert_eq!(c.get_escrows_page(SENDER, 3, 0, 10), Vec::<u64>::new());
    assert_eq!(c.get_escrows_page(SENDER, 0, u32::MAX, u32::MAX), Vec::<u64>::new());
    assert_eq!(c.get_escrows_by_driver(DRIVER), vec![1, 2, 3, 4, 5]);
}

#[test]
fn page_is_capped_at_a_hundred() {
    let mut c = contract(100);
    for id in 1..=120u64 {
        lock(&mut c, id, 1, 0);
    }
    let page = c.get_escrows_page(SENDER, 0, 10, 500);
    assert_eq!(page, (11..=110).collect::<Vec<u64>>());
    assert_eq!(c.get_escrows_by_sender(SENDER), (1..=100).collect::<Vec<u64>>());
}

#[test]
fn sweep_recovers_only_untracked_tokens() {
    let mut c = contract(100);
    lock(&mut c, 1, 100, 0);
    assert_eq!(c.sweep_untracked_balance(STRANGER, TOKEN, STRANGER, 500).err(), Some(protocol(FaniLabError::Unauthorized)));
    assert_eq!(c.sweep_untracked_balance(ADMIN, TOKEN, ADMIN, 100), Ok(None));
    assert_eq!(c.sweep_untracked_balance(ADMIN, TOKEN, ADMIN, 50), Ok(None));
    assert_eq!(
        c.sweep_untracked_balance(ADMIN, TOKEN, ADMIN, 130),
        Ok(Some(Transfer { token: TOKEN, from: THIS, to: ADMIN, amount: 30 }))
    );
    assert_eq!(
        c.sweep_untracked_balance(ADMIN, OTHER_ASSET, DRIVER, 7),
        Ok(Some(Transfer { token: OTHER_ASSET, from: THIS, to: DRIVER, amount: 7 }))
    );
}

#[test]
fn slippage_tolerance_bounds() {
    let mut c = contract(100);
    assert_eq!(c.get_slippage_tolerance(), Ok(DEFAULT_SLIPPAGE_TOLERANCE_BPS));
    assert_eq!(c.update_slippage_tolerance(ADMIN, 10_001).err(), Some(escrow(EscrowError::InvalidFee)));
    assert_eq!(c.update_slippage_tolerance(ADMIN, 10_000), Ok(()));
    assert_eq!(c.get_slippage_tolerance(), Ok(10_000));
    assert_eq!(c.update_slippage_tolerance(STRANGER, 1).err(), Some(protocol(FaniLabError::Unauthorized)));
}

const SAMPLE_AMOUNTS: [i128; 8] = [0, 1, 9, 10_000, 123_456_789, i128::MAX / 10_000, i128::MAX / 2, i128::MAX - 1];
const SAMPLE_BPS: [u32; 7] = [0, 1, 99, 250, 5000, 9999, 10_000];

#[test]
fn test_calculate_fee_non_negative_and_bounded() {
    for amount in SAMPLE_AMOUNTS {
        for bps in SAMPLE_BPS {
            let fee = calculate_fee(amount, bps);
            assert!(fee >= 0, "fee must be non-negative: got {fee} for amount={amount} bps={bps}");
            assert!(fee <= amount, "fee {fee} must not exceed amount {amount} for bps={bps}");
        }
    }
}

#[test]
fn test_calculate_fee_zero_bps_yields_zero() {
    for amount in SAMPLE_AMOUNTS {
        assert_eq!(calculate_fee(amount, 0), 0);
    }
}

#[test]
fn test_calculate_fee_zero_amount_yields_zero() {
    for bps in SAMPLE_BPS {
        assert_eq!(calculate_fee(0, bps), 0);
    }
}

#[test]
fn split_conserves_funds() {
    for amount in SAMPLE_AMOUNTS.into_iter().filter(|a| *a > 0) {
        for bps in SAMPLE_BPS {
            let mut c = contract(0);
            lock(&mut c, 1, amount, 0);
            c.raise_dispute(SENDER, 1, 1).unwrap();
            let s = c.resolve_dispute_split(ADMIN, 1, bps, amount).unwrap();
            assert_eq!(s.sender_amount + s.driver_amount, amount);
            assert!(s.sender_amount >= 0 && s.driver_amount >= 0);
        }
    }
}

#[test]
fn effective_fee_never_exceeds_base() {
    let mut c = contract(0);
    c.set_volume_tiers(
        ADMIN,
        vec![
            VolumeTier { volume_threshold: 0, discount_bps: 5 },
            VolumeTier { volume_threshold: 10, discount_bps: 20_000 },
            VolumeTier { volume_threshold: 20, discount_bps: 0 },
        ],
    )
    .unwrap();
    for base in SAMPLE_BPS {
        for volume in [0u32, 5, 10, 15, 20, u32::MAX] {
            assert!(c.effective_fee_bps(base, volume) <= base);
        }
    }
    assert_eq!(c.effective_fee_bps(250, 5), 245);
    assert_eq!(c.effective_fee_bps(250, 15), 0);
    assert_eq!(c.effective_fee_bps(250, 25), 250);
}
