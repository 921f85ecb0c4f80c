//! The escrow contract: custody of the funds behind each delivery, their
//! release to the driver (less the platform fee), refunds, disputes, expiry,
//! and the protocol's administration.
//!
//! The contract's storage is the state of an [`EscrowContract`]; each entry
//! point is a method that checks its inputs against that state, updates it,
//! and returns the token movements the host must then perform. Facts that
//! only the host knows (the ledger time, the contract's token balance) are
//! arguments. When a method returns an error the state is unchanged, as the
//! host rolls back a failed invocation.

use std::collections::HashMap;
use vstd::prelude::*;
use crate::entries::{entries_of_map, lemma_listed_map, map_from_entries, map_of};
use crate::index::{IdIndex, has_room, ids_of, index_of_entries, page_of, with_pushed};
use crate::math::{clamp_i128, div_toward_zero, sat_add, sat_mul, sat_sub};
use crate::types::{Addr, EscrowRecord, EscrowStatus, FaniLabError, ProtocolConfig, Transfer};

verus! {

broadcast use vstd::std_specs::hash::group_hash_axioms;

/// Version number recorded in the protocol configuration.
pub const PROTOCOL_VERSION: u32 = 1;

/// Most escrows one batch may create.
pub const MAX_BATCH_SIZE: u32 = 100;

/// How long after creation an escrow may be reclaimed by its sender (30 days).
pub const DEFAULT_ESCROW_EXPIRY_SECONDS: u64 = 2592000;

/// Highest platform fee, in basis points (10%).
pub const MAX_PLATFORM_FEE_BPS: u32 = 1000;

/// Delay before a proposed settlement contract may be confirmed (3 days).
pub const SETTLEMENT_CONTRACT_TIMELOCK_SECONDS: u64 = 259200;

/// Slippage tolerance a fresh protocol starts with, in basis points (5%).
pub const DEFAULT_SLIPPAGE_TOLERANCE_BPS: u32 = 500;

/// Errors specific to the escrow contract.
#[derive(Clone, Copy, Debug, PartialEq, Eq, Structural)]
pub enum EscrowError {
    InvalidState,
    DeliveryNotFound,
    InsufficientFunds,
    DuplicateDelivery,
    InvalidFee,
    InvalidToken,
    InvalidAmount,
    NoPendingSettlementChange,
    TimelockNotElapsed,
}

/// Why an escrow entry point failed.
#[derive(Clone, Copy, Debug, PartialEq, Eq, Structural)]
pub enum EscrowFailure {
    Protocol(FaniLabError),
    Escrow(EscrowError),
    /// A platform fee is due but no admin is recorded to receive it.
    NoFeeRecipient,
}

/// Notice that the platform fee changed.
#[derive(Clone, Copy, Debug, PartialEq, Eq, Structural)]
pub struct FeeUpdated {
    pub old_fee: u32,
    pub new_fee: u32,
}

/// Notice that the protocol was initialized.
#[derive(Clone, Copy, Debug, PartialEq, Eq, Structural)]
pub struct ProtocolInitialized {
    pub admin: Addr,
    pub token: Addr,
    pub platform_fee_bps: u32,
    pub protocol_version: u32,
}

/// Notice that a proposed settlement contract took effect.
#[derive(Clone, Copy, Debug, PartialEq, Eq, Structural)]
pub struct SettlementContractUpdated {
    pub old_address: Option<Addr>,
    pub new_address: Addr,
}

/// A settlement contract waiting for its timelock to elapse.
#[derive(Clone, Copy, Debug, PartialEq, Eq, Structural)]
pub struct PendingSettlementContract {
    pub settlement_contract: Addr,
    pub activates_at: u64,
}

/// Notice that a new settlement contract was proposed.
#[derive(Clone, Copy, Debug, PartialEq, Eq, Structural)]
pub struct SettlementContractChangeProposed {
    pub old_address: Option<Addr>,
    pub proposed_address: Addr,
    pub activates_at: u64,
}

/// A fee discount for senders with at least `volume_threshold` completed
/// deliveries.
#[derive(Clone, Copy, Debug, PartialEq, Eq, Structural)]
pub struct VolumeTier {
    pub volume_threshold: u32,
    pub discount_bps: u32,
}

/// A fleet whose treasury may receive a driver's payout.
#[derive(Clone, Copy, Debug, PartialEq, Eq, Structural)]
pub struct FleetRoute {
    pub fleet_contract: Addr,
    pub fleet_id: u64,
}

/// How the funds of a released escrow are to be paid out. The payout may
/// depend on two queries to other contracts: the fleet's payout address
/// (when `fleet_route` is present) and the driver's preferred asset (when
/// `settlement_contract` is present); [`payout_instructions`] turns their
/// answers into instructions.
#[derive(Clone, Copy, Debug, PartialEq, Eq, Structural)]
pub struct Payout {
    pub token: Addr,
    /// The escrow contract, which holds the funds.
    pub payer: Addr,
    pub driver: Addr,
    pub driver_amount: i128,
    pub fleet_route: Option<FleetRoute>,
    pub settlement_contract: Option<Addr>,
    pub slippage_tolerance_bps: Option<u32>,
    pub platform_fee: i128,
    pub fee_recipient: Option<Addr>,
}

/// A swap of the driver's payout into their preferred asset, performed by
/// the settlement contract.
#[derive(Clone, Copy, Debug, PartialEq, Eq, Structural)]
pub struct SettlementSwap {
    pub settlement_contract: Addr,
    pub caller: Addr,
    pub from_token: Addr,
    pub to_token: Addr,
    pub recipient: Addr,
    pub amount: i128,
    pub min_amount_out: i128,
}

/// One step of a payout.
#[derive(Clone, Copy, Debug, PartialEq, Eq, Structural)]
pub enum PayoutInstruction {
    Transfer(Transfer),
    Swap(SettlementSwap),
}

/// How a disputed escrow was resolved.
#[derive(Clone, Copy, Debug, PartialEq, Eq, Structural)]
pub enum Resolution {
    /// Released to the driver.
    Released(Payout),
    /// Refunded to the sender.
    Refunded(Transfer),
}

/// How a disputed escrow was split between sender and driver.
#[derive(Clone, Copy, Debug, PartialEq, Eq, Structural)]
pub struct SplitSettlement {
    pub sender_amount: i128,
    pub driver_amount: i128,
    /// The sender's share, present when positive.
    pub to_sender: Option<Transfer>,
    /// The driver's share, present when positive.
    pub to_driver: Option<Transfer>,
}

/// The contents of the escrow contract's storage.
pub struct EscrowView {
    /// The contract's own address.
    pub this: Addr,
    pub admin: Option<Addr>,
    pub config: Option<ProtocolConfig>,
    pub pending_admin: Option<Addr>,
    pub settlement: Option<Addr>,
    pub pending_settlement: Option<PendingSettlementContract>,
    pub paused: bool,
    pub fleet: Option<Addr>,
    pub dispute: Option<Addr>,
    pub escrows: Map<u64, EscrowRecord>,
    pub by_sender: Map<Addr, Seq<u64>>,
    pub by_recipient: Map<Addr, Seq<u64>>,
    pub by_driver: Map<Addr, Seq<u64>>,
    pub total_locked: Map<Addr, i128>,
    pub sender_volume: Map<Addr, u32>,
    pub volume_tiers: Seq<VolumeTier>,
}

/// `a + b` on `u32`, saturating.
pub open spec fn sat_add_u32(a: u32, b: u32) -> u32 {
    if a + b > u32::MAX { u32::MAX } else { (a + b) as u32 }
}

/// `a - b` on `u32`, saturating at zero.
pub open spec fn sat_sub_u32(a: u32, b: u32) -> u32 {
    if a < b { 0 } else { (a - b) as u32 }
}

/// `a + b` on `u64`, saturating.
pub open spec fn sat_add_u64(a: u64, b: u64) -> u64 {
    if a + b > u64::MAX { u64::MAX } else { (a + b) as u64 }
}

/// The platform fee on `amount` at `bps` basis points: the product saturates
/// in `i128` and the division by 10 000 rounds toward zero.
pub open spec fn fee_of(amount: i128, bps: u32) -> int {
    div_toward_zero(clamp_i128(amount * bps), 10000)
}

/// The fee rate after the volume discount: the last tier whose threshold
/// `volume` reaches takes its discount off `base` (saturating at zero); with
/// no such tier the rate is `base`.
pub open spec fn discounted_fee_bps(tiers: Seq<VolumeTier>, base: u32, volume: u32) -> u32
    decreases tiers.len(),
{
    if tiers.len() == 0 {
        base
    } else if volume >= tiers.last().volume_threshold {
        sat_sub_u32(base, tiers.last().discount_bps)
    } else {
        discounted_fee_bps(tiers.drop_last(), base, volume)
    }
}

/// The failure of an admin-only entry point called by `caller`, if any.
pub open spec fn admin_failure(admin: Option<Addr>, caller: Addr) -> Option<EscrowFailure> {
    match admin {
        None => Some(EscrowFailure::Protocol(FaniLabError::NotInitialized)),
        Some(a) => if a != caller {
            Some(EscrowFailure::Protocol(FaniLabError::Unauthorized))
        } else {
            None
        },
    }
}

impl EscrowView {
    pub open spec fn is_admin(self, who: Addr) -> bool {
        self.admin == Some(who)
    }

    /// Value recorded as locked in `token`.
    pub open spec fn locked_in(self, token: Addr) -> i128 {
        if self.total_locked.contains_key(token) { self.total_locked[token] } else { 0 }
    }

    /// Deliveries released for `sender` so far.
    pub open spec fn volume_of(self, sender: Addr) -> u32 {
        if self.sender_volume.contains_key(sender) { self.sender_volume[sender] } else { 0 }
    }

    /// The base platform fee, zero before initialization.
    pub open spec fn base_fee_bps(self) -> u32 {
        match self.config {
            Some(c) => c.platform_fee_bps,
            None => 0,
        }
    }

    /// The fee rate that applies to `sender`'s next release.
    pub open spec fn fee_bps_for(self, sender: Addr) -> u32 {
        discounted_fee_bps(self.volume_tiers, self.base_fee_bps(), self.volume_of(sender))
    }

    /// The view with the escrow `id` replaced by `rec`.
    pub open spec fn with_escrow(self, id: u64, rec: EscrowRecord) -> EscrowView {
        EscrowView { escrows: self.escrows.insert(id, rec), ..self }
    }

    /// The view with `amount` taken off the value locked in `token`.
    pub open spec fn with_unlocked(self, token: Addr, amount: i128) -> EscrowView {
        EscrowView {
            total_locked: self.total_locked.insert(
                token,
                clamp_i128(self.locked_in(token) - amount) as i128,
            ),
            ..self
        }
    }

    /// The view with `amount` added to the value locked in `token`.
    pub open spec fn with_locked(self, token: Addr, amount: i128) -> EscrowView {
        EscrowView {
            total_locked: self.total_locked.insert(
                token,
                clamp_i128(self.locked_in(token) + amount) as i128,
            ),
            ..self
        }
    }

    /// The view with one more delivery counted for `sender`.
    pub open spec fn with_volume_bumped(self, sender: Addr) -> EscrowView {
        EscrowView {
            sender_volume: self.sender_volume.insert(sender, sat_add_u32(self.volume_of(sender), 1)),
            ..self
        }
    }

    /// Why confirming the proposed settlement contract at `now` would fail,
    /// if it would.
    pub open spec fn confirm_failure(self, admin: Addr, now: u64) -> Option<EscrowFailure> {
        if admin_failure(self.admin, admin) is Some {
            admin_failure(self.admin, admin)
        } else {
            match self.pending_settlement {
                None => Some(EscrowFailure::Escrow(EscrowError::NoPendingSettlementChange)),
                Some(p) => if now < p.activates_at {
                    Some(EscrowFailure::Escrow(EscrowError::TimelockNotElapsed))
                } else {
                    None
                },
            }
        }
    }

    /// Why `new_admin` accepting the admin role would fail, if it would.
    pub open spec fn accept_failure(self, new_admin: Addr) -> Option<EscrowFailure> {
        match self.pending_admin {
            None => Some(EscrowFailure::Protocol(FaniLabError::InvalidState)),
            Some(p) => if p != new_admin {
                Some(EscrowFailure::Protocol(FaniLabError::Unauthorized))
            } else if self.admin is None {
                Some(EscrowFailure::Protocol(FaniLabError::NotInitialized))
            } else {
                None
            },
        }
    }

    /// The ids listed for `owner` under index `kind` (0: sender,
    /// 1: recipient, 2: driver; any other kind lists nothing).
    pub open spec fn index_of(self, owner: Addr, kind: u32) -> Seq<u64> {
        if kind == 0 {
            ids_of(self.by_sender, owner)
        } else if kind == 1 {
            ids_of(self.by_recipient, owner)
        } else if kind == 2 {
            ids_of(self.by_driver, owner)
        } else {
            Seq::empty()
        }
    }
}

/// The state of the escrow contract.
pub struct EscrowContract {
    this: Addr,
    admin: Option<Addr>,
    config: Option<ProtocolConfig>,
    pending_admin: Option<Addr>,
    settlement: Option<Addr>,
    pending_settlement: Option<PendingSettlementContract>,
    paused: bool,
    fleet: Option<Addr>,
    dispute: Option<Addr>,
    escrows: HashMap<u64, EscrowRecord>,
    by_sender: IdIndex,
    by_recipient: IdIndex,
    by_driver: IdIndex,
    total_locked: HashMap<Addr, i128>,
    sender_volume: HashMap<Addr, u32>,
    volume_tiers: Vec<VolumeTier>,
}

impl View for EscrowContract {
    type V = EscrowView;

    closed spec fn view(&self) -> EscrowView {
        EscrowView {
            this: self.this,
            admin: self.admin,
            config: self.config,
            pending_admin: self.pending_admin,
            settlement: self.settlement,
            pending_settlement: self.pending_settlement,
            paused: self.paused,
            fleet: self.fleet,
            dispute: self.dispute,
            escrows: self.escrows@,
            by_sender: self.by_sender@,
            by_recipient: self.by_recipient@,
            by_driver: self.by_driver@,
            total_locked: self.total_locked@,
            sender_volume: self.sender_volume@,
            volume_tiers: self.volume_tiers@,
        }
    }
}

/// The escrow contract's storage written out as plain values, for the host
/// to keep between invocations. Maps are lists of `(key, value)` entries.
pub struct EscrowState {
    pub this: Addr,
    pub admin: Option<Addr>,
    pub config: Option<ProtocolConfig>,
    pub pending_admin: Option<Addr>,
    pub settlement: Option<Addr>,
    pub pending_settlement: Option<PendingSettlementContract>,
    pub paused: bool,
    pub fleet: Option<Addr>,
    pub dispute: Option<Addr>,
    pub escrows: Vec<(u64, EscrowRecord)>,
    pub by_sender: Vec<(Addr, Vec<u64>)>,
    pub by_recipient: Vec<(Addr, Vec<u64>)>,
    pub by_driver: Vec<(Addr, Vec<u64>)>,
    pub total_locked: Vec<(Addr, i128)>,
    pub sender_volume: Vec<(Addr, u32)>,
    pub volume_tiers: Vec<VolumeTier>,
}

impl View for EscrowState {
    type V = EscrowView;

    open spec fn view(&self) -> EscrowView {
        EscrowView {
            this: self.this,
            admin: self.admin,
            config: self.config,
            pending_admin: self.pending_admin,
            settlement: self.settlement,
            pending_settlement: self.pending_settlement,
            paused: self.paused,
            fleet: self.fleet,
            dispute: self.dispute,
            escrows: map_of(self.escrows@),
            by_sender: index_of_entries(self.by_sender@),
            by_recipient: index_of_entries(self.by_recipient@),
            by_driver: index_of_entries(self.by_driver@),
            total_locked: map_of(self.total_locked@),
            sender_volume: map_of(self.sender_volume@),
            volume_tiers: self.volume_tiers@,
        }
    }
}

impl EscrowContract {
    /// The contract whose storage `state` holds.
    pub fn from_state(state: EscrowState) -> (r: Self)
        ensures
            r@ == state@,
    {
        EscrowContract {
            this: state.this,
            admin: state.admin,
            config: state.config,
            pending_admin: state.pending_admin,
            settlement: state.settlement,
            pending_settlement: state.pending_settlement,
            paused: state.paused,
            fleet: state.fleet,
            dispute: state.dispute,
            escrows: map_from_entries(state.escrows),
            by_sender: IdIndex::from_entries(state.by_sender),
            by_recipient: IdIndex::from_entries(state.by_recipient),
            by_driver: IdIndex::from_entries(state.by_driver),
            total_locked: map_from_entries(state.total_locked),
            sender_volume: map_from_entries(state.sender_volume),
            volume_tiers: state.volume_tiers,
        }
    }

    /// The contract's storage, written out.
    pub fn into_state(self) -> (r: EscrowState)
        ensures
            r@ == self@,
    {
        let ghost escrows = self.escrows@;
        let ghost total_locked = self.total_locked@;
        let ghost sender_volume = self.sender_volume@;
        let r = EscrowState {
            this: self.this,
            admin: self.admin,
            config: self.config,
            pending_admin: self.pending_admin,
            settlement: self.settlement,
            pending_settlement: self.pending_settlement,
            paused: self.paused,
            fleet: self.fleet,
            dispute: self.dispute,
            escrows: entries_of_map(self.escrows),
            by_sender: self.by_sender.into_entries(),
            by_recipient: self.by_recipient.into_entries(),
            by_driver: self.by_driver.into_entries(),
            total_locked: entries_of_map(self.total_locked),
            sender_volume: entries_of_map(self.sender_volume),
            volume_tiers: self.volume_tiers,
        };
        proof {
            lemma_listed_map(r.escrows@, escrows);
            lemma_listed_map(r.total_locked@, total_locked);
            lemma_listed_map(r.sender_volume@, sender_volume);
        }
        r
    }
}

/// The platform fee on `amount` at `platform_fee_bps` basis points.
pub fn calculate_fee(amount: i128, platform_fee_bps: u32) -> (r: i128)
    ensures
        r == fee_of(amount, platform_fee_bps),
{
    sat_mul(amount, platform_fee_bps as i128) / 10000
}

impl EscrowContract {
    /// The storage of a freshly deployed escrow contract at address `this`.
    pub fn new(this: Addr) -> (r: Self)
        ensures
            r@.this == this,
            r@.admin is None,
            r@.config is None,
            r@.pending_admin is None,
            r@.settlement is None,
            r@.pending_settlement is None,
            !r@.paused,
            r@.fleet is None,
            r@.dispute is None,
            r@.escrows == Map::<u64, EscrowRecord>::empty(),
            r@.by_sender == Map::<Addr, Seq<u64>>::empty(),
            r@.by_recipient == Map::<Addr, Seq<u64>>::empty(),
            r@.by_driver == Map::<Addr, Seq<u64>>::empty(),
            r@.total_locked == Map::<Addr, i128>::empty(),
            r@.sender_volume == Map::<Addr, u32>::empty(),
            r@.volume_tiers == Seq::<VolumeTier>::empty(),
    {
        EscrowContract {
            this,
            admin: None,
            config: None,
            pending_admin: None,
            settlement: None,
            pending_settlement: None,
            paused: false,
            fleet: None,
            dispute: None,
            escrows: HashMap::new(),
            by_sender: IdIndex::new(),
            by_recipient: IdIndex::new(),
            by_driver: IdIndex::new(),
            total_locked: HashMap::new(),
            sender_volume: HashMap::new(),
            volume_tiers: Vec::new(),
        }
    }

    fn require_admin(&self, caller: Addr) -> (r: Result<(), EscrowFailure>)
        ensures
            match r {
                Ok(()) => admin_failure(self@.admin, caller) is None,
                Err(e) => admin_failure(self@.admin, caller) == Some(e),
            },
    {
        match self.admin {
            None => Err(EscrowFailure::Protocol(FaniLabError::NotInitialized)),
            Some(a) => if a != caller {
                Err(EscrowFailure::Protocol(FaniLabError::Unauthorized))
            } else {
                Ok(())
            },
        }
    }

    fn load_protocol_config(&self) -> (r: Result<ProtocolConfig, EscrowFailure>)
        ensures
            match r {
                Ok(c) => self@.config == Some(c),
                Err(e) => self@.config is None && e == EscrowFailure::Protocol(
                    FaniLabError::NotInitialized,
                ),
            },
    {
        match self.config {
            Some(c) => Ok(c),
            None => Err(EscrowFailure::Protocol(FaniLabError::NotInitialized)),
        }
    }

    /// Writes the protocol configuration.
    pub fn save_protocol_config(&mut self, config: ProtocolConfig)
        ensures
            final(self)@ == (EscrowView { config: Some(config), ..old(self)@ }),
    {
        self.config = Some(config);
    }

    /// Sets the admin and the protocol configuration, once: the fee must not
    /// exceed [`MAX_PLATFORM_FEE_BPS`]; the slippage tolerance starts at
    /// [`DEFAULT_SLIPPAGE_TOLERANCE_BPS`].
    pub fn init(&mut self, admin: Addr, token: Addr, platform_fee_bps: u32) -> (r: Result<
        ProtocolInitialized,
        EscrowFailure,
    >)
        ensures
            match r {
                Ok(ev) => {
                    &&& old(self)@.admin is None
                    &&& platform_fee_bps <= MAX_PLATFORM_FEE_BPS
                    &&& final(self)@ == (EscrowView {
                        admin: Some(admin),
                        config: Some(
                            ProtocolConfig {
                                token,
                                platform_fee_bps,
                                protocol_version: PROTOCOL_VERSION,
                                slippage_tolerance_bps: DEFAULT_SLIPPAGE_TOLERANCE_BPS,
                            },
                        ),
                        ..old(self)@
                    })
                    &&& ev == (ProtocolInitialized {
                        admin,
                        token,
                        platform_fee_bps,
                        protocol_version: PROTOCOL_VERSION,
                    })
                },
                Err(e) => {
                    &&& final(self)@ == old(self)@
                    &&& e == if old(self)@.admin is Some {
                        EscrowFailure::Protocol(FaniLabError::AlreadyInitialized)
                    } else {
                        EscrowFailure::Escrow(EscrowError::InvalidFee)
                    }
                    &&& (old(self)@.admin is Some || platform_fee_bps > MAX_PLATFORM_FEE_BPS)
                },
            },
    {
        if self.admin.is_some() {
            return Err(EscrowFailure::Protocol(FaniLabError::AlreadyInitialized));
        }
        if platform_fee_bps > MAX_PLATFORM_FEE_BPS {
            return Err(EscrowFailure::Escrow(EscrowError::InvalidFee));
        }
        self.admin = Some(admin);
        self.config = Some(
            ProtocolConfig {
                token,
                platform_fee_bps,
                protocol_version: PROTOCOL_VERSION,
                slippage_tolerance_bps: DEFAULT_SLIPPAGE_TOLERANCE_BPS,
            },
        );
        Ok(ProtocolInitialized { admin, token, platform_fee_bps, protocol_version: PROTOCOL_VERSION })
    }
}

impl EscrowContract {
    /// Changes the platform fee; admin only, at most [`MAX_PLATFORM_FEE_BPS`].
    pub fn update_platform_fee(&mut self, admin: Addr, new_fee_bps: u32) -> (r: Result<
        FeeUpdated,
        EscrowFailure,
    >)
        ensures
            match r {
                Ok(ev) => {
                    &&& admin_failure(old(self)@.admin, admin) is None
                    &&& new_fee_bps <= MAX_PLATFORM_FEE_BPS
                    &&& old(self)@.config matches Some(c) && final(self)@ == (EscrowView {
                        config: Some(ProtocolConfig { platform_fee_bps: new_fee_bps, ..c }),
                        ..old(self)@
                    }) && ev == (FeeUpdated { old_fee: c.platform_fee_bps, new_fee: new_fee_bps })
                },
                Err(e) => {
                    &&& final(self)@ == old(self)@
                    &&& if admin_failure(old(self)@.admin, admin) is Some {
                        admin_failure(old(self)@.admin, admin) == Some(e)
                    } else if new_fee_bps > MAX_PLATFORM_FEE_BPS {
                        e == EscrowFailure::Escrow(EscrowError::InvalidFee)
                    } else {
                        old(self)@.config is None && e == EscrowFailure::Protocol(
                            FaniLabError::NotInitialized,
                        )
                    }
                },
            },
    {
        self.require_admin(admin)?;
        if new_fee_bps > MAX_PLATFORM_FEE_BPS {
            return Err(EscrowFailure::Escrow(EscrowError::InvalidFee));
        }
        let config = self.load_protocol_config()?;
        let old_fee = config.platform_fee_bps;
        self.config = Some(ProtocolConfig { platform_fee_bps: new_fee_bps, ..config });
        Ok(FeeUpdated { old_fee, new_fee: new_fee_bps })
    }

    /// The platform fee, in basis points.
    pub fn get_platform_fee(&self) -> (r: Result<u32, EscrowFailure>)
        ensures
            match self@.config {
                Some(c) => r == Ok::<u32, EscrowFailure>(c.platform_fee_bps),
                None => r == Err::<u32, EscrowFailure>(EscrowFailure::Protocol(FaniLabError::NotInitialized)),
            },
    {
        let c = self.load_protocol_config()?;
        Ok(c.platform_fee_bps)
    }

    /// The admin.
    pub fn get_admin(&self) -> (r: Result<Addr, EscrowFailure>)
        ensures
            match self@.admin {
                Some(a) => r == Ok::<Addr, EscrowFailure>(a),
                None => r == Err::<Addr, EscrowFailure>(EscrowFailure::Protocol(FaniLabError::NotInitialized)),
            },
    {
        match self.admin {
            Some(a) => Ok(a),
            None => Err(EscrowFailure::Protocol(FaniLabError::NotInitialized)),
        }
    }

    /// The token the protocol accepts.
    pub fn get_token(&self) -> (r: Result<Addr, EscrowFailure>)
        ensures
            match self@.config {
                Some(c) => r == Ok::<Addr, EscrowFailure>(c.token),
                None => r == Err::<Addr, EscrowFailure>(EscrowFailure::Protocol(FaniLabError::NotInitialized)),
            },
    {
        let c = self.load_protocol_config()?;
        Ok(c.token)
    }

    /// The protocol version.
    pub fn get_protocol_version(&self) -> (r: Result<u32, EscrowFailure>)
        ensures
            match self@.config {
                Some(c) => r == Ok::<u32, EscrowFailure>(c.protocol_version),
                None => r == Err::<u32, EscrowFailure>(EscrowFailure::Protocol(FaniLabError::NotInitialized)),
            },
    {
        let c = self.load_protocol_config()?;
        Ok(c.protocol_version)
    }

    /// Changes the slippage tolerance of settlement swaps; admin only, at
    /// most 10 000 basis points.
    pub fn update_slippage_tolerance(&mut self, admin: Addr, new_slippage_bps: u32) -> (r: Result<
        (),
        EscrowFailure,
    >)
        ensures
            match r {
                Ok(()) => {
                    &&& admin_failure(old(self)@.admin, admin) is None
                    &&& new_slippage_bps <= 10000
                    &&& old(self)@.config matches Some(c) && final(self)@ == (EscrowView {
                        config: Some(ProtocolConfig { slippage_tolerance_bps: new_slippage_bps, ..c }),
                        ..old(self)@
                    })
                },
                Err(e) => {
                    &&& final(self)@ == old(self)@
                    &&& if admin_failure(old(self)@.admin, admin) is Some {
                        admin_failure(old(self)@.admin, admin) == Some(e)
                    } else if new_slippage_bps > 10000 {
                        e == EscrowFailure::Escrow(EscrowError::InvalidFee)
                    } else {
                        old(self)@.config is None && e == EscrowFailure::Protocol(
                            FaniLabError::NotInitialized,
                        )
                    }
                },
            },
    {
        self.require_admin(admin)?;
        if new_slippage_bps > 10000 {
            return Err(EscrowFailure::Escrow(EscrowError::InvalidFee));
        }
        let config = self.load_protocol_config()?;
        self.config = Some(ProtocolConfig { slippage_tolerance_bps: new_slippage_bps, ..config });
        Ok(())
    }

    /// The slippage tolerance of settlement swaps, in basis points.
    pub fn get_slippage_tolerance(&self) -> (r: Result<u32, EscrowFailure>)
        ensures
            match self@.config {
                Some(c) => r == Ok::<u32, EscrowFailure>(c.slippage_tolerance_bps),
                None => r == Err::<u32, EscrowFailure>(EscrowFailure::Protocol(FaniLabError::NotInitialized)),
            },
    {
        let c = self.load_protocol_config()?;
        Ok(c.slippage_tolerance_bps)
    }

    /// Proposes a new settlement contract; admin only. It may be confirmed
    /// once [`SETTLEMENT_CONTRACT_TIMELOCK_SECONDS`] have passed after `now`;
    /// proposing again replaces the proposal and restarts the timelock.
    pub fn set_settlement_contract(&mut self, admin: Addr, settlement_contract: Addr, now: u64) -> (r:
        Result<SettlementContractChangeProposed, EscrowFailure>)
        ensures
            match r {
                Ok(ev) => {
                    let activates_at = sat_add_u64(now, SETTLEMENT_CONTRACT_TIMELOCK_SECONDS);
                    &&& admin_failure(old(self)@.admin, admin) is None
                    &&& final(self)@ == (EscrowView {
                        pending_settlement: Some(
                            PendingSettlementContract { settlement_contract, activates_at },
                        ),
                        ..old(self)@
                    })
                    &&& ev == (SettlementContractChangeProposed {
                        old_address: old(self)@.settlement,
                        proposed_address: settlement_contract,
                        activates_at,
                    })
                },
                Err(e) => final(self)@ == old(self)@ && admin_failure(old(self)@.admin, admin) == Some(
                    e,
                ),
            },
    {
        self.require_admin(admin)?;
        let activates_at = now.saturating_add(SETTLEMENT_CONTRACT_TIMELOCK_SECONDS);
        self.pending_settlement = Some(
            PendingSettlementContract { settlement_contract, activates_at },
        );
        Ok(
            SettlementContractChangeProposed {
                old_address: self.settlement,
                proposed_address: settlement_contract,
                activates_at,
            },
        )
    }

    /// Applies the proposed settlement contract once its timelock has
    /// elapsed at `now`; admin only.
    pub fn confirm_settlement_contract(&mut self, admin: Addr, now: u64) -> (r: Result<
        SettlementContractUpdated,
        EscrowFailure,
    >)
        ensures
            match r {
                Ok(ev) => {
                    &&& old(self)@.confirm_failure(admin, now) is None
                    &&& old(self)@.pending_settlement matches Some(p)
                        && final(self)@ == (EscrowView {
                        settlement: Some(p.settlement_contract),
                        pending_settlement: None,
                        ..old(self)@
                    }) && ev == (SettlementContractUpdated {
                        old_address: old(self)@.settlement,
                        new_address: p.settlement_contract,
                    })
                },
                Err(e) => final(self)@ == old(self)@ && old(self)@.confirm_failure(admin, now) == Some(e),
            },
    {
        self.require_admin(admin)?;
        let pending = match self.pending_settlement {
            Some(p) => p,
            None => {
                return Err(EscrowFailure::Escrow(EscrowError::NoPendingSettlementChange));
            },
        };
        if now < pending.activates_at {
            return Err(EscrowFailure::Escrow(EscrowError::TimelockNotElapsed));
        }
        let old_address = self.settlement;
        self.settlement = Some(pending.settlement_contract);
        self.pending_settlement = None;
        Ok(SettlementContractUpdated { old_address, new_address: pending.settlement_contract })
    }

    /// The proposed settlement contract, if any.
    pub fn get_pending_settlement_contract(&self) -> (r: Option<PendingSettlementContract>)
        ensures
            r == self@.pending_settlement,
    {
        self.pending_settlement
    }

    /// The settlement contract in effect, if any.
    pub fn get_settlement_contract(&self) -> (r: Option<Addr>)
        ensures
            r == self@.settlement,
    {
        self.settlement
    }

    /// Removes the settlement contract and any proposal; admin only.
    pub fn clear_settlement_contract(&mut self, admin: Addr) -> (r: Result<(), EscrowFailure>)
        ensures
            match r {
                Ok(()) => admin_failure(old(self)@.admin, admin) is None && final(self)@ == (
                EscrowView { settlement: None, pending_settlement: None, ..old(self)@ }),
                Err(e) => final(self)@ == old(self)@ && admin_failure(old(self)@.admin, admin) == Some(
                    e,
                ),
            },
    {
        self.require_admin(admin)?;
        self.settlement = None;
        self.pending_settlement = None;
        Ok(())
    }

    /// Sets the fleet management contract; admin only.
    pub fn set_fleet_management_contract(&mut self, admin: Addr, fleet_contract: Addr) -> (r:
        Result<(), EscrowFailure>)
        ensures
            match r {
                Ok(()) => admin_failure(old(self)@.admin, admin) is None && final(self)@ == (
                EscrowView { fleet: Some(fleet_contract), ..old(self)@ }),
                Err(e) => final(self)@ == old(self)@ && admin_failure(old(self)@.admin, admin) == Some(
                    e,
                ),
            },
    {
        self.require_admin(admin)?;
        self.fleet = Some(fleet_contract);
        Ok(())
    }

    /// The fleet management contract, if any.
    pub fn get_fleet_management_contract(&self) -> (r: Option<Addr>)
        ensures
            r == self@.fleet,
    {
        self.fleet
    }

    /// Sets the dispute resolution contract; admin only.
    pub fn set_dispute_resolution_contract(&mut self, admin: Addr, dispute_contract: Addr) -> (r:
        Result<(), EscrowFailure>)
        ensures
            match r {
                Ok(()) => admin_failure(old(self)@.admin, admin) is None && final(self)@ == (
                EscrowView { dispute: Some(dispute_contract), ..old(self)@ }),
                Err(e) => final(self)@ == old(self)@ && admin_failure(old(self)@.admin, admin) == Some(
                    e,
                ),
            },
    {
        self.require_admin(admin)?;
        self.dispute = Some(dispute_contract);
        Ok(())
    }

    /// The dispute resolution contract, if any.
    pub fn get_dispute_resolution_contract(&self) -> (r: Option<Addr>)
        ensures
            r == self@.dispute,
    {
        self.dispute
    }

    /// First step of an admin handover: the current admin names a successor.
    pub fn propose_admin(&mut self, current_admin: Addr, new_admin: Addr) -> (r: Result<
        (),
        EscrowFailure,
    >)
        ensures
            match r {
                Ok(()) => admin_failure(old(self)@.admin, current_admin) is None && final(self)@ == (
                EscrowView { pending_admin: Some(new_admin), ..old(self)@ }),
                Err(e) => final(self)@ == old(self)@ && admin_failure(
                    old(self)@.admin,
                    current_admin,
                ) == Some(e),
            },
    {
        self.require_admin(current_admin)?;
        self.pending_admin = Some(new_admin);
        Ok(())
    }

    /// Second step of an admin handover: the named successor takes over.
    /// Returns the previous admin.
    pub fn accept_admin(&mut self, new_admin: Addr) -> (r: Result<Addr, EscrowFailure>)
        ensures
            match r {
                Ok(previous) => {
                    &&& old(self)@.accept_failure(new_admin) is None
                    &&& old(self)@.admin == Some(previous)
                    &&& final(self)@ == (EscrowView {
                        admin: Some(new_admin),
                        pending_admin: None,
                        ..old(self)@
                    })
                },
                Err(e) => final(self)@ == old(self)@ && old(self)@.accept_failure(new_admin) == Some(e),
            },
    {
        let pending = match self.pending_admin {
            Some(p) => p,
            None => {
                return Err(EscrowFailure::Protocol(FaniLabError::InvalidState));
            },
        };
        if pending != new_admin {
            return Err(EscrowFailure::Protocol(FaniLabError::Unauthorized));
        }
        let previous = match self.admin {
            Some(a) => a,
            None => {
                return Err(EscrowFailure::Protocol(FaniLabError::NotInitialized));
            },
        };
        self.admin = Some(new_admin);
        self.pending_admin = None;
        Ok(previous)
    }

    /// Pauses or resumes the protocol's fund-moving entry points; admin only.
    pub fn set_paused(&mut self, admin: Addr, paused: bool) -> (r: Result<(), EscrowFailure>)
        ensures
            match r {
                Ok(()) => admin_failure(old(self)@.admin, admin) is None && final(self)@ == (
                EscrowView { paused, ..old(self)@ }),
                Err(e) => final(self)@ == old(self)@ && admin_failure(old(self)@.admin, admin) == Some(
                    e,
                ),
            },
    {
        self.require_admin(admin)?;
        self.paused = paused;
        Ok(())
    }

    /// Whether the protocol is paused.
    pub fn is_paused(&self) -> (r: bool)
        ensures
            r == self@.paused,
    {
        self.paused
    }
}

/// The escrow a new deposit creates.
pub open spec fn fresh_escrow(
    sender: Addr,
    recipient: Addr,
    driver: Addr,
    token: Addr,
    amount: i128,
    now: u64,
    fleet_id: Option<u64>,
) -> EscrowRecord {
    EscrowRecord {
        sender,
        recipient,
        driver,
        token,
        amount,
        status: EscrowStatus::Locked,
        created_at: now,
        expires_at: Some(sat_add_u64(now, DEFAULT_ESCROW_EXPIRY_SECONDS)),
        disputed_by: None,
        disputed_at: None,
        fleet_id,
    }
}

/// How many entries of a batch name `driver`.
pub open spec fn count_driver(list: Seq<(u64, Addr, i128)>, driver: Addr) -> nat
    decreases list.len(),
{
    if list.len() == 0 {
        0
    } else {
        count_driver(list.drop_last(), driver) + if list.last().1 == driver { 1nat } else { 0nat }
    }
}

/// The first failing entry of a batch, if any: a non-positive amount, or an
/// id that already has an escrow or that an earlier entry uses.
pub open spec fn batch_entry_failure(escrows: Map<u64, EscrowRecord>, list: Seq<(u64, Addr, i128)>) -> Option<EscrowFailure>
    decreases list.len(),
{
    if list.len() == 0 {
        None
    } else {
        match batch_entry_failure(escrows, list.drop_last()) {
            Some(e) => Some(e),
            None => {
                let (id, driver, amount) = list.last();
                if amount <= 0 {
                    Some(EscrowFailure::Escrow(EscrowError::InvalidAmount))
                } else if escrows.contains_key(id) || exists|j: int|
                    0 <= j < list.len() - 1 && #[trigger] list[j].0 == id {
                    Some(EscrowFailure::Escrow(EscrowError::DuplicateDelivery))
                } else {
                    None
                }
            },
        }
    }
}

/// The sum of a batch's amounts, accumulated with saturation in `i128`.
pub open spec fn batch_total(list: Seq<(u64, Addr, i128)>) -> i128
    decreases list.len(),
{
    if list.len() == 0 {
        0
    } else {
        clamp_i128(batch_total(list.drop_last()) + list.last().2) as i128
    }
}

/// The deposits a batch takes from `sender`, in order.
pub open spec fn batch_transfers(list: Seq<(u64, Addr, i128)>, token: Addr, sender: Addr, this: Addr) -> Seq<Transfer> {
    list.map_values(|e: (u64, Addr, i128)| Transfer { token, from: sender, to: this, amount: e.2 })
}

impl EscrowView {
    /// The view with `rec` stored as the escrow `id` and indexed under its
    /// sender, recipient and driver.
    pub open spec fn with_new_escrow(self, id: u64, rec: EscrowRecord) -> EscrowView {
        EscrowView {
            escrows: self.escrows.insert(id, rec),
            by_sender: with_pushed(self.by_sender, rec.sender, id),
            by_recipient: with_pushed(self.by_recipient, rec.recipient, id),
            by_driver: with_pushed(self.by_driver, rec.driver, id),
            ..self
        }
    }

    /// Why `create_escrow` would fail, if it would.
    pub open spec fn create_failure(self, id: u64, token: Addr, amount: i128) -> Option<EscrowFailure> {
        if self.paused {
            Some(EscrowFailure::Protocol(FaniLabError::ProtocolPaused))
        } else if amount <= 0 {
            Some(EscrowFailure::Escrow(EscrowError::InvalidAmount))
        } else if self.escrows.contains_key(id) {
            Some(EscrowFailure::Escrow(EscrowError::DuplicateDelivery))
        } else {
            match self.config {
                None => Some(EscrowFailure::Protocol(FaniLabError::NotInitialized)),
                Some(c) => if token != c.token {
                    Some(EscrowFailure::Escrow(EscrowError::InvalidToken))
                } else {
                    None
                },
            }
        }
    }

    /// The view after a batch's escrows are stored and indexed, in order.
    pub open spec fn with_batch(
        self,
        sender: Addr,
        recipient: Addr,
        token: Addr,
        list: Seq<(u64, Addr, i128)>,
        now: u64,
    ) -> EscrowView
        decreases list.len(),
    {
        if list.len() == 0 {
            self
        } else {
            let (id, driver, amount) = list.last();
            self.with_batch(sender, recipient, token, list.drop_last(), now).with_new_escrow(
                id,
                fresh_escrow(sender, recipient, driver, token, amount, now, None),
            )
        }
    }

    /// Why `create_escrows_batch` would fail, if it would.
    pub open spec fn batch_failure(self, token: Addr, list: Seq<(u64, Addr, i128)>) -> Option<EscrowFailure> {
        if self.paused {
            Some(EscrowFailure::Protocol(FaniLabError::ProtocolPaused))
        } else if list.len() > MAX_BATCH_SIZE {
            Some(EscrowFailure::Escrow(EscrowError::InvalidState))
        } else {
            match self.config {
                None => Some(EscrowFailure::Protocol(FaniLabError::NotInitialized)),
                Some(c) => if token != c.token {
                    Some(EscrowFailure::Escrow(EscrowError::InvalidToken))
                } else {
                    batch_entry_failure(self.escrows, list)
                },
            }
        }
    }
}

proof fn lemma_count_driver_prefix(list: Seq<(u64, Addr, i128)>, i: int, d: Addr)
    requires
        0 <= i <= list.len(),
    ensures
        count_driver(list.take(i), d) <= count_driver(list, d),
    decreases list.len(),
{
    if i < list.len() {
        assert(list.drop_last().take(i) =~= list.take(i));
        lemma_count_driver_prefix(list.drop_last(), i, d);
    } else {
        assert(list.take(i) =~= list);
    }
}

proof fn lemma_count_driver_witness(list: Seq<(u64, Addr, i128)>, d: Addr)
    requires
        count_driver(list, d) > 0,
    ensures
        exists|k: int| 0 <= k < list.len() && #[trigger] list[k].1 == d,
    decreases list.len(),
{
    if list.last().1 == d {
        assert(list[list.len() - 1].1 == d);
    } else {
        lemma_count_driver_witness(list.drop_last(), d);
        let k = choose|k: int| 0 <= k < list.drop_last().len() && #[trigger] list.drop_last()[k].1 == d;
        assert(list[k].1 == d);
    }
}

/// How many entries of `list` name `d` as their driver.
fn count_of_driver(list: &Vec<(u64, Addr, i128)>, d: Addr) -> (c: usize)
    ensures
        c == count_driver(list@, d),
{
    let mut c: usize = 0;
    let mut j: usize = 0;
    while j < list.len()
        invariant
            j <= list@.len(),
            c <= j,
            c == count_driver(list@.take(j as int), d),
        decreases list@.len() - j,
    {
        assert(list@.take(j + 1).drop_last() =~= list@.take(j as int));
        if list[j].1 == d {
            c += 1;
        }
        j += 1;
    }
    assert(list@.take(list@.len() as int) =~= list@);
    c
}

proof fn lemma_batch_failure_prefix(escrows: Map<u64, EscrowRecord>, list: Seq<(u64, Addr, i128)>, i: int)
    requires
        0 <= i <= list.len(),
        batch_entry_failure(escrows, list.take(i)) is Some,
    ensures
        batch_entry_failure(escrows, list) == batch_entry_failure(escrows, list.take(i)),
    decreases list.len(),
{
    if i < list.len() {
        assert(list.drop_last().take(i) =~= list.take(i));
        lemma_batch_failure_prefix(escrows, list.drop_last(), i);
    } else {
        assert(list.take(i) =~= list);
    }
}

impl EscrowContract {
    /// The fee rate after `sender_volume`'s volume discount, from `base_fee_bps`.
    pub fn effective_fee_bps(&self, base_fee_bps: u32, sender_volume: u32) -> (r: u32)
        ensures
            r == discounted_fee_bps(self@.volume_tiers, base_fee_bps, sender_volume),
    {
        let n = self.volume_tiers.len();
        let mut i = n;
        assert(self@.volume_tiers.take(n as int) =~= self@.volume_tiers);
        while i > 0
            invariant
                i <= n == self@.volume_tiers.len(),
                discounted_fee_bps(self@.volume_tiers, base_fee_bps, sender_volume)
                    == discounted_fee_bps(self@.volume_tiers.take(i as int), base_fee_bps, sender_volume),
            decreases i,
        {
            let tier = self.volume_tiers[i - 1];
            let ghost pre = self@.volume_tiers.take(i as int);
            assert(pre.drop_last() =~= self@.volume_tiers.take(i - 1));
            if sender_volume >= tier.volume_threshold {
                return base_fee_bps.saturating_sub(tier.discount_bps);
            }
            i -= 1;
        }
        assert(self@.volume_tiers.take(0) =~= Seq::<VolumeTier>::empty());
        base_fee_bps
    }

    /// Stores `record` as the escrow of delivery `delivery_id`.
    pub fn save_escrow(&mut self, delivery_id: u64, record: EscrowRecord)
        ensures
            final(self)@ == old(self)@.with_escrow(delivery_id, record),
    {
        self.escrows.insert(delivery_id, record);
    }

    fn load_escrow(&self, delivery_id: u64) -> (r: Result<EscrowRecord, EscrowFailure>)
        ensures
            match r {
                Ok(rec) => self@.escrows.contains_key(delivery_id) && self@.escrows[delivery_id] == rec,
                Err(e) => !self@.escrows.contains_key(delivery_id) && e == EscrowFailure::Escrow(
                    EscrowError::DeliveryNotFound,
                ),
            },
    {
        match self.escrows.get(&delivery_id) {
            Some(rec) => Ok(*rec),
            None => Err(EscrowFailure::Escrow(EscrowError::DeliveryNotFound)),
        }
    }

    fn add_locked(&mut self, token: Addr, amount: i128)
        ensures
            final(self)@ == old(self)@.with_locked(token, amount),
    {
        let current = match self.total_locked.get(&token) {
            Some(v) => *v,
            None => 0,
        };
        self.total_locked.insert(token, sat_add(current, amount));
    }

    fn remove_locked(&mut self, token: Addr, amount: i128)
        ensures
            final(self)@ == old(self)@.with_unlocked(token, amount),
    {
        let current = match self.total_locked.get(&token) {
            Some(v) => *v,
            None => 0,
        };
        self.total_locked.insert(token, sat_sub(current, amount));
    }

    fn store_new_escrow(&mut self, delivery_id: u64, record: EscrowRecord)
        requires
            has_room(old(self)@.by_sender, record.sender, 1),
            has_room(old(self)@.by_recipient, record.recipient, 1),
            has_room(old(self)@.by_driver, record.driver, 1),
        ensures
            final(self)@ == old(self)@.with_new_escrow(delivery_id, record),
    {
        self.escrows.insert(delivery_id, record);
        self.by_sender.push(record.sender, delivery_id);
        self.by_recipient.push(record.recipient, delivery_id);
        self.by_driver.push(record.driver, delivery_id);
    }

    /// Locks `amount` of `token` from `sender` as the escrow of delivery
    /// `delivery_id`, expiring [`DEFAULT_ESCROW_EXPIRY_SECONDS`] after `now`.
    /// Returns the deposit the token contract must make.
    pub fn create_escrow(
        &mut self,
        sender: Addr,
        recipient: Addr,
        driver: Addr,
        delivery_id: u64,
        token: Addr,
        amount: i128,
        fleet_id: Option<u64>,
        now: u64,
    ) -> (r: Result<Transfer, EscrowFailure>)
        requires
            old(self)@.create_failure(delivery_id, token, amount) is None ==> {
                &&& has_room(old(self)@.by_sender, sender, 1)
                &&& has_room(old(self)@.by_recipient, recipient, 1)
                &&& has_room(old(self)@.by_driver, driver, 1)
            },
        ensures
            match r {
                Ok(t) => {
                    &&& old(self)@.create_failure(delivery_id, token, amount) is None
                    &&& final(self)@ == old(self)@.with_new_escrow(
                        delivery_id,
                        fresh_escrow(sender, recipient, driver, token, amount, now, fleet_id),
                    ).with_locked(token, amount)
                    &&& t == (Transfer { token, from: sender, to: old(self)@.this, amount })
                },
                Err(e) => final(self)@ == old(self)@ && old(self)@.create_failure(
                    delivery_id,
                    token,
                    amount,
                ) == Some(e),
            },
    {
        self.check_create(delivery_id, token, amount)?;
        let record = EscrowRecord {
            sender,
            recipient,
            driver,
            token,
            amount,
            status: EscrowStatus::Locked,
            created_at: now,
            expires_at: Some(now.saturating_add(DEFAULT_ESCROW_EXPIRY_SECONDS)),
            disputed_by: None,
            disputed_at: None,
            fleet_id,
        };
        self.store_new_escrow(delivery_id, record);
        self.add_locked(token, amount);
        Ok(Transfer { token, from: sender, to: self.this, amount })
    }

    /// Why `create_escrow` would refuse an escrow of `amount` in `token` for
    /// delivery `delivery_id`, if it would.
    pub fn check_create(&self, delivery_id: u64, token: Addr, amount: i128) -> (r: Result<(), EscrowFailure>)
        ensures
            match r {
                Ok(()) => self@.create_failure(delivery_id, token, amount) is None,
                Err(e) => self@.create_failure(delivery_id, token, amount) == Some(e),
            },
    {
        if self.paused {
            return Err(EscrowFailure::Protocol(FaniLabError::ProtocolPaused));
        }
        if amount <= 0 {
            return Err(EscrowFailure::Escrow(EscrowError::InvalidAmount));
        }
        if self.escrows.contains_key(&delivery_id) {
            return Err(EscrowFailure::Escrow(EscrowError::DuplicateDelivery));
        }
        let config = self.load_protocol_config()?;
        if token != config.token {
            return Err(EscrowFailure::Escrow(EscrowError::InvalidToken));
        }
        Ok(())
    }

    /// Why `create_escrows_batch` would refuse `escrow_list` in `token`, if
    /// it would: every entry is checked.
    pub fn check_batch(&self, token: Addr, escrow_list: &Vec<(u64, Addr, i128)>) -> (r: Result<(), EscrowFailure>)
        ensures
            match r {
                Ok(()) => self@.batch_failure(token, escrow_list@) is None,
                Err(e) => self@.batch_failure(token, escrow_list@) == Some(e),
            },
    {
        if self.paused {
            return Err(EscrowFailure::Protocol(FaniLabError::ProtocolPaused));
        }
        if escrow_list.len() > MAX_BATCH_SIZE as usize {
            return Err(EscrowFailure::Escrow(EscrowError::InvalidState));
        }
        let config = self.load_protocol_config()?;
        if token != config.token {
            return Err(EscrowFailure::Escrow(EscrowError::InvalidToken));
        }
        let n = escrow_list.len();
        let ghost list = escrow_list@;
        let mut i: usize = 0;
        while i < n
            invariant
                n == list.len(),
                list == escrow_list@,
                i <= n,
                batch_entry_failure(self@.escrows, list.take(i as int)) is None,
                self@.batch_failure(token, list) == batch_entry_failure(self@.escrows, list),
            decreases n - i,
        {
            let (id, _driver, amount) = escrow_list[i];
            assert(list.take(i + 1).drop_last() =~= list.take(i as int));
            assert(list.take(i + 1).last() == list[i as int]);
            if amount <= 0 {
                proof { lemma_batch_failure_prefix(self@.escrows, list, i + 1); }
                return Err(EscrowFailure::Escrow(EscrowError::InvalidAmount));
            }
            let mut seen = self.escrows.contains_key(&id);
            let mut j: usize = 0;
            while j < i
                invariant
                    i < n == list.len(),
                    list == escrow_list@,
                    id == list[i as int].0,
                    j <= i,
                    seen <==> (self@.escrows.contains_key(id) || exists|k: int|
                        0 <= k < j && #[trigger] list[k].0 == id),
                decreases i - j,
            {
                if escrow_list[j].0 == id {
                    seen = true;
                }
                j += 1;
            }
            proof {
                let pre = list.take(i + 1);
                assert forall|k: int| 0 <= k < pre.len() - 1 implies #[trigger] pre[k].0 == list[k].0 by {}
                if exists|k: int| 0 <= k < i && #[trigger] list[k].0 == id {
                    let k = choose|k: int| 0 <= k < i && #[trigger] list[k].0 == id;
                    assert(pre[k].0 == id);
                }
                if exists|k: int| 0 <= k < pre.len() - 1 && #[trigger] pre[k].0 == id {
                    let k = choose|k: int| 0 <= k < pre.len() - 1 && #[trigger] pre[k].0 == id;
                    assert(list[k].0 == id);
                }
            }
            if seen {
                proof { lemma_batch_failure_prefix(self@.escrows, list, i + 1); }
                return Err(EscrowFailure::Escrow(EscrowError::DuplicateDelivery));
            }
            i += 1;
        }
        assert(list.take(n as int) =~= list);
        Ok(())
    }

    /// Locks one escrow per entry `(delivery_id, driver, amount)` of `escrow_list`,
    /// all from `sender` to `recipient` in the protocol's token; either every
    /// entry is accepted or none is. Returns the number of escrows created and
    /// the deposits, in order.
    pub fn create_escrows_batch(
        &mut self,
        sender: Addr,
        recipient: Addr,
        token: Addr,
        escrow_list: Vec<(u64, Addr, i128)>,
        now: u64,
    ) -> (r: Result<(u32, Vec<Transfer>), EscrowFailure>)
        requires
            old(self)@.batch_failure(token, escrow_list@) is None ==> {
                &&& has_room(old(self)@.by_sender, sender, escrow_list@.len() as int)
                &&& has_room(old(self)@.by_recipient, recipient, escrow_list@.len() as int)
                &&& forall|d: Addr| #[trigger] count_driver(escrow_list@, d) > 0 ==> has_room(
                    old(self)@.by_driver,
                    d,
                    count_driver(escrow_list@, d) as int,
                )
            },
        ensures
            match r {
                Ok((count, transfers)) => {
                    &&& old(self)@.batch_failure(token, escrow_list@) is None
                    &&& count == escrow_list@.len()
                    &&& transfers@ == batch_transfers(escrow_list@, token, sender, old(self)@.this)
                    &&& final(self)@ == old(self)@.with_batch(
                        sender,
                        recipient,
                        token,
                        escrow_list@,
                        now,
                    ).with_locked(token, batch_total(escrow_list@))
                },
                Err(e) => final(self)@ == old(self)@ && old(self)@.batch_failure(
                    token,
                    escrow_list@,
                ) == Some(e),
            },
    {
        // Every entry is checked before any is applied, so a failing entry
        // leaves no partial state behind.
        self.check_batch(token, &escrow_list)?;
        let n = escrow_list.len();
        let ghost list = escrow_list@;
        assert(list.take(n as int) =~= list);
        let ghost s0 = self@;
        let mut transfers: Vec<Transfer> = Vec::new();
        let mut total: i128 = 0;
        let mut k: usize = 0;
        while k < n
            invariant
                n == list.len(),
                list == escrow_list@,
                k <= n,
                s0.batch_failure(token, list) is None,
                has_room(s0.by_sender, sender, n as int),
                has_room(s0.by_recipient, recipient, n as int),
                forall|d: Addr| #[trigger] count_driver(list, d) > 0 ==> has_room(
                    s0.by_driver,
                    d,
                    count_driver(list, d) as int,
                ),
                self@ == s0.with_batch(sender, recipient, token, list.take(k as int), now),
                ids_of(self@.by_sender, sender).len() == ids_of(s0.by_sender, sender).len() + k,
                ids_of(self@.by_recipient, recipient).len() == ids_of(s0.by_recipient, recipient).len() + k,
                forall|d: Addr| #[trigger] ids_of(self@.by_driver, d).len() == ids_of(s0.by_driver, d).len()
                    + count_driver(list.take(k as int), d),
                transfers@ == batch_transfers(list.take(k as int), token, sender, s0.this),
                total == batch_total(list.take(k as int)),
                self@.this == s0.this,
            decreases n - k,
        {
            let (id, driver, amount) = escrow_list[k];
            let ghost pre = list.take(k + 1);
            assert(pre.drop_last() =~= list.take(k as int));
            assert(pre.last() == list[k as int]);
            proof {
                lemma_count_driver_prefix(list, k + 1, driver);
                assert(count_driver(pre, driver) == count_driver(list.take(k as int), driver) + 1);
            }
            let record = EscrowRecord {
                sender,
                recipient,
                driver,
                token,
                amount,
                status: EscrowStatus::Locked,
                created_at: now,
                expires_at: Some(now.saturating_add(DEFAULT_ESCROW_EXPIRY_SECONDS)),
                disputed_by: None,
                disputed_at: None,
                fleet_id: None,
            };
            let ghost before = self@;
            self.store_new_escrow(id, record);
            transfers.push(Transfer { token, from: sender, to: self.this, amount });
            total = sat_add(total, amount);
            k += 1;
            proof {
                assert forall|d: Addr| #[trigger] ids_of(self@.by_driver, d).len() == ids_of(
                    s0.by_driver,
                    d,
                ).len() + count_driver(list.take(k as int), d) by {
                    if d != driver {
                        assert(ids_of(self@.by_driver, d) == ids_of(before.by_driver, d));
                    }
                }
                assert(transfers@ =~= batch_transfers(list.take(k as int), token, sender, s0.this));
            }
        }
        assert(list.take(n as int) =~= list);
        self.add_locked(token, total);
        Ok((n as u32, transfers))
    }
}

/// The minimum a settlement swap of `amount` must yield at a slippage
/// tolerance of `slippage_bps` basis points.
pub open spec fn min_out_of(amount: i128, slippage_bps: u32) -> int {
    div_toward_zero(clamp_i128(amount * (10000 - slippage_bps)), 10000)
}

/// The instructions that carry out `p`, given the fleet's answer
/// `fleet_payout_address` (used when `p.fleet_route` is present) and the
/// driver's `preferred_asset` (used when `p.settlement_contract` is
/// present). The driver's share goes first: swapped through the settlement
/// contract when the driver prefers another asset, transferred otherwise,
/// and skipped when not positive. The platform fee, when positive, then goes
/// to the fee recipient.
pub open spec fn payout_plan(p: Payout, fleet_payout_address: Addr, preferred_asset: Option<Addr>) -> Result<Seq<PayoutInstruction>, EscrowFailure> {
    let dest = if p.fleet_route is Some { fleet_payout_address } else { p.driver };
    let direct = PayoutInstruction::Transfer(
        Transfer { token: p.token, from: p.payer, to: dest, amount: p.driver_amount },
    );
    let driver_part: Result<Seq<PayoutInstruction>, EscrowFailure> = if p.driver_amount <= 0 {
        Ok(Seq::empty())
    } else {
        match p.settlement_contract {
            None => Ok(seq![direct]),
            Some(sc) => match preferred_asset {
                None => Ok(seq![direct]),
                Some(asset) => if asset == p.token {
                    Ok(seq![direct])
                } else {
                    match p.slippage_tolerance_bps {
                        None => Err(EscrowFailure::Protocol(FaniLabError::NotInitialized)),
                        Some(sl) => Ok(
                            seq![
                                PayoutInstruction::Swap(
                                    SettlementSwap {
                                        settlement_contract: sc,
                                        caller: p.payer,
                                        from_token: p.token,
                                        to_token: asset,
                                        recipient: dest,
                                        amount: p.driver_amount,
                                        min_amount_out: min_out_of(p.driver_amount, sl) as i128,
                                    },
                                ),
                            ],
                        ),
                    }
                },
            },
        }
    };
    match driver_part {
        Err(e) => Err(e),
        Ok(s) => if p.platform_fee > 0 {
            match p.fee_recipient {
                None => Err(EscrowFailure::NoFeeRecipient),
                Some(a) => Ok(
                    s.push(
                        PayoutInstruction::Transfer(
                            Transfer { token: p.token, from: p.payer, to: a, amount: p.platform_fee },
                        ),
                    ),
                ),
            }
        } else {
            Ok(s)
        },
    }
}

/// Carries out a [`Payout`] once the fleet and the settlement contract have
/// answered; see [`payout_plan`].
pub fn payout_instructions(p: &Payout, fleet_payout_address: Addr, preferred_asset: Option<Addr>) -> (r: Result<Vec<PayoutInstruction>, EscrowFailure>)
    ensures
        match r {
            Ok(v) => payout_plan(*p, fleet_payout_address, preferred_asset) == Ok::<Seq<PayoutInstruction>, EscrowFailure>(v@),
            Err(e) => payout_plan(*p, fleet_payout_address, preferred_asset) == Err::<Seq<PayoutInstruction>, EscrowFailure>(e),
        },
{
    let mut out: Vec<PayoutInstruction> = Vec::new();
    let dest = if p.fleet_route.is_some() { fleet_payout_address } else { p.driver };
    if p.driver_amount > 0 {
        let direct = PayoutInstruction::Transfer(
            Transfer { token: p.token, from: p.payer, to: dest, amount: p.driver_amount },
        );
        let mut swap_to: Option<(Addr, Addr)> = None;
        if let Some(sc) = p.settlement_contract {
            if let Some(asset) = preferred_asset {
                if asset != p.token {
                    swap_to = Some((sc, asset));
                }
            }
        }
        match swap_to {
            None => {
                out.push(direct);
            },
            Some((sc, asset)) => {
                let sl = match p.slippage_tolerance_bps {
                    Some(sl) => sl,
                    None => {
                        return Err(EscrowFailure::Protocol(FaniLabError::NotInitialized));
                    },
                };
                let min_amount_out = sat_mul(p.driver_amount, 10000 - sl as i128) / 10000;
                out.push(
                    PayoutInstruction::Swap(
                        SettlementSwap {
                            settlement_contract: sc,
                            caller: p.payer,
                            from_token: p.token,
                            to_token: asset,
                            recipient: dest,
                            amount: p.driver_amount,
                            min_amount_out,
                        },
                    ),
                );
            },
        }
    }
    if p.platform_fee > 0 {
        match p.fee_recipient {
            None => {
                return Err(EscrowFailure::NoFeeRecipient);
            },
            Some(a) => {
                out.push(
                    PayoutInstruction::Transfer(
                        Transfer { token: p.token, from: p.payer, to: a, amount: p.platform_fee },
                    ),
                );
            },
        }
    }
    assert(payout_plan(*p, fleet_payout_address, preferred_asset) == Ok::<Seq<PayoutInstruction>, EscrowFailure>(out@));
    Ok(out)
}

impl EscrowView {
    /// The escrow `id`, which must exist.
    pub open spec fn record(self, id: u64) -> EscrowRecord {
        self.escrows[id]
    }

    /// The payout of escrow `rec`'s funds to its driver: the platform fee, at
    /// the rate that applies to the escrow's sender (the base rate less any
    /// volume discount), goes to the admin, the rest to the driver, routed
    /// through the fleet and the settlement contract when they are set.
    pub open spec fn payout_for(self, rec: EscrowRecord) -> Payout {
        let fee = fee_of(rec.amount, self.fee_bps_for(rec.sender)) as i128;
        let driver_amount = clamp_i128(rec.amount - fee) as i128;
        Payout {
            token: rec.token,
            payer: self.this,
            driver: rec.driver,
            driver_amount,
            fleet_route: if driver_amount > 0 {
                match self.fleet {
                    Some(f) => match rec.fleet_id {
                        Some(fid) => Some(FleetRoute { fleet_contract: f, fleet_id: fid }),
                        None => None,
                    },
                    None => None,
                }
            } else {
                None
            },
            settlement_contract: if driver_amount > 0 { self.settlement } else { None },
            slippage_tolerance_bps: match self.config {
                Some(c) => Some(c.slippage_tolerance_bps),
                None => None,
            },
            platform_fee: fee,
            fee_recipient: self.admin,
        }
    }

    /// The view after escrow `id` is settled with status `status`: its
    /// amount is no longer counted as locked.
    pub open spec fn with_settled(self, id: u64, status: EscrowStatus) -> EscrowView {
        let rec = self.record(id);
        self.with_escrow(id, EscrowRecord { status, ..rec }).with_unlocked(rec.token, rec.amount)
    }

    /// The view after escrow `id` is released to its driver: the sender's
    /// volume counts one more delivery.
    pub open spec fn after_release(self, id: u64) -> EscrowView {
        self.with_volume_bumped(self.record(id).sender).with_settled(id, EscrowStatus::Released)
    }

    /// The refund of escrow `id` to its sender.
    pub open spec fn refund_of(self, id: u64) -> Transfer {
        let rec = self.record(id);
        Transfer { token: rec.token, from: self.this, to: rec.sender, amount: rec.amount }
    }

    /// Why `sweep_untracked_balance` would fail, if it would: it moves funds,
    /// so not while paused, and only for the admin.
    pub open spec fn sweep_failure(self, admin: Addr) -> Option<EscrowFailure> {
        if self.paused {
            Some(EscrowFailure::Protocol(FaniLabError::ProtocolPaused))
        } else {
            admin_failure(self.admin, admin)
        }
    }

    /// Why `mark_holdback_escrow` would fail, if it would.
    pub open spec fn holdback_failure(self, caller: Addr, id: u64) -> Option<EscrowFailure> {
        if self.paused {
            Some(EscrowFailure::Protocol(FaniLabError::ProtocolPaused))
        } else if !self.escrows.contains_key(id) {
            Some(EscrowFailure::Escrow(EscrowError::DeliveryNotFound))
        } else if caller != self.record(id).recipient {
            Some(EscrowFailure::Protocol(FaniLabError::Unauthorized))
        } else if self.record(id).status != EscrowStatus::Locked {
            Some(EscrowFailure::Escrow(EscrowError::InvalidState))
        } else {
            None
        }
    }

    /// Why `release_escrow` would fail, if it would.
    pub open spec fn release_failure(self, caller: Addr, id: u64, balance: i128) -> Option<EscrowFailure> {
        if self.paused {
            Some(EscrowFailure::Protocol(FaniLabError::ProtocolPaused))
        } else if !self.escrows.contains_key(id) {
            Some(EscrowFailure::Escrow(EscrowError::DeliveryNotFound))
        } else if !self.is_admin(caller) && caller != self.record(id).recipient {
            Some(EscrowFailure::Protocol(FaniLabError::Unauthorized))
        } else if self.record(id).status != EscrowStatus::Locked {
            Some(EscrowFailure::Escrow(EscrowError::InvalidState))
        } else if balance < self.record(id).amount {
            Some(EscrowFailure::Escrow(EscrowError::InsufficientFunds))
        } else {
            None
        }
    }

    /// Why `release_holdback_escrow` would fail, if it would.
    pub open spec fn holdback_release_failure(self, caller: Addr, id: u64, balance: i128) -> Option<EscrowFailure> {
        if self.paused {
            Some(EscrowFailure::Protocol(FaniLabError::ProtocolPaused))
        } else if !self.escrows.contains_key(id) {
            Some(EscrowFailure::Escrow(EscrowError::DeliveryNotFound))
        } else if !self.is_admin(caller) && caller != self.record(id).recipient {
            Some(EscrowFailure::Protocol(FaniLabError::Unauthorized))
        } else if self.record(id).status != EscrowStatus::Holdback {
            Some(EscrowFailure::Escrow(EscrowError::InvalidState))
        } else if balance < self.record(id).amount {
            Some(EscrowFailure::Escrow(EscrowError::InsufficientFunds))
        } else {
            None
        }
    }

    /// Why `refund_escrow` would fail, if it would. A disputed (`Paused`) or
    /// delivered (`Holdback`) escrow is refunded only by the admin; a
    /// `Locked` one also by its sender.
    pub open spec fn refund_failure(self, caller: Addr, id: u64, balance: i128) -> Option<EscrowFailure> {
        if self.paused {
            Some(EscrowFailure::Protocol(FaniLabError::ProtocolPaused))
        } else if !self.escrows.contains_key(id) {
            Some(EscrowFailure::Escrow(EscrowError::DeliveryNotFound))
        } else {
            let rec = self.record(id);
            let admin_only = rec.status == EscrowStatus::Paused || rec.status == EscrowStatus::Holdback;
            if (admin_only && !self.is_admin(caller)) || (!admin_only && !self.is_admin(caller)
                && caller != rec.sender) {
                Some(EscrowFailure::Protocol(FaniLabError::Unauthorized))
            } else if rec.status != EscrowStatus::Locked && !admin_only {
                Some(EscrowFailure::Escrow(EscrowError::InvalidState))
            } else if balance < rec.amount {
                Some(EscrowFailure::Escrow(EscrowError::InsufficientFunds))
            } else {
                None
            }
        }
    }

    /// Why `raise_dispute` would fail, if it would: only the sender,
    /// recipient or driver may dispute, and only a `Locked` escrow.
    pub open spec fn dispute_failure(self, caller: Addr, id: u64) -> Option<EscrowFailure> {
        if !self.escrows.contains_key(id) {
            Some(EscrowFailure::Escrow(EscrowError::DeliveryNotFound))
        } else {
            let rec = self.record(id);
            if caller != rec.sender && caller != rec.recipient && caller != rec.driver {
                Some(EscrowFailure::Protocol(FaniLabError::Unauthorized))
            } else if rec.status != EscrowStatus::Locked {
                Some(EscrowFailure::Escrow(EscrowError::InvalidState))
            } else {
                None
            }
        }
    }

    /// Why `resolve_dispute` would fail, if it would.
    pub open spec fn resolve_failure(self, caller: Addr, id: u64, balance: i128) -> Option<EscrowFailure> {
        if self.paused {
            Some(EscrowFailure::Protocol(FaniLabError::ProtocolPaused))
        } else if admin_failure(self.admin, caller) is Some {
            admin_failure(self.admin, caller)
        } else if !self.escrows.contains_key(id) {
            Some(EscrowFailure::Escrow(EscrowError::DeliveryNotFound))
        } else if self.record(id).status != EscrowStatus::Paused {
            Some(EscrowFailure::Escrow(EscrowError::InvalidState))
        } else if balance < self.record(id).amount {
            Some(EscrowFailure::Escrow(EscrowError::InsufficientFunds))
        } else {
            None
        }
    }

    /// Why `resolve_dispute_split` would fail, if it would.
    pub open spec fn split_failure(self, caller: Addr, id: u64, sender_share_bps: u32, balance: i128) -> Option<EscrowFailure> {
        if self.paused {
            Some(EscrowFailure::Protocol(FaniLabError::ProtocolPaused))
        } else if admin_failure(self.admin, caller) is Some {
            admin_failure(self.admin, caller)
        } else if sender_share_bps > 10000 {
            Some(EscrowFailure::Escrow(EscrowError::InvalidFee))
        } else if !self.escrows.contains_key(id) {
            Some(EscrowFailure::Escrow(EscrowError::DeliveryNotFound))
        } else if self.record(id).status != EscrowStatus::Paused {
            Some(EscrowFailure::Escrow(EscrowError::InvalidState))
        } else if balance < self.record(id).amount {
            Some(EscrowFailure::Escrow(EscrowError::InsufficientFunds))
        } else {
            None
        }
    }

    /// The split of escrow `id` giving the sender `sender_share_bps` basis
    /// points (rounded toward zero) and the driver the rest.
    pub open spec fn split_of(self, id: u64, sender_share_bps: u32) -> SplitSettlement {
        let rec = self.record(id);
        let sender_amount = div_toward_zero(clamp_i128(rec.amount * sender_share_bps), 10000) as i128;
        let driver_amount = clamp_i128(rec.amount - sender_amount) as i128;
        SplitSettlement {
            sender_amount,
            driver_amount,
            to_sender: if sender_amount > 0 {
                Some(Transfer { token: rec.token, from: self.this, to: rec.sender, amount: sender_amount })
            } else {
                None
            },
            to_driver: if driver_amount > 0 {
                Some(Transfer { token: rec.token, from: self.this, to: rec.driver, amount: driver_amount })
            } else {
                None
            },
        }
    }

    /// Why `freeze_funds` would fail, if it would: only the dispute
    /// resolution contract may freeze.
    pub open spec fn freeze_failure(self, caller: Addr, id: u64) -> Option<EscrowFailure> {
        match self.dispute {
            None => Some(EscrowFailure::Protocol(FaniLabError::NotInitialized)),
            Some(d) => if caller != d {
                Some(EscrowFailure::Protocol(FaniLabError::Unauthorized))
            } else if !self.escrows.contains_key(id) {
                Some(EscrowFailure::Escrow(EscrowError::DeliveryNotFound))
            } else {
                None
            },
        }
    }

    /// Why `reclaim_expired_escrow` would fail at time `now`, if it would:
    /// only a `Locked` escrow past its expiry may be reclaimed.
    pub open spec fn reclaim_failure(self, id: u64, now: u64, balance: i128) -> Option<EscrowFailure> {
        if self.paused {
            Some(EscrowFailure::Protocol(FaniLabError::ProtocolPaused))
        } else if !self.escrows.contains_key(id) {
            Some(EscrowFailure::Escrow(EscrowError::DeliveryNotFound))
        } else if self.record(id).status != EscrowStatus::Locked {
            Some(EscrowFailure::Escrow(EscrowError::InvalidState))
        } else if !(self.record(id).expires_at matches Some(t) && now > t) {
            Some(EscrowFailure::Escrow(EscrowError::InvalidState))
        } else if balance < self.record(id).amount {
            Some(EscrowFailure::Escrow(EscrowError::InsufficientFunds))
        } else {
            None
        }
    }
}

impl EscrowContract {
    fn is_admin(&self, who: Addr) -> (r: bool)
        ensures
            r == self@.is_admin(who),
    {
        match self.admin {
            Some(a) => a == who,
            None => false,
        }
    }

    fn payout(&self, rec: EscrowRecord) -> (r: Payout)
        ensures
            r == self@.payout_for(rec),
    {
        let base = match self.config {
            Some(c) => c.platform_fee_bps,
            None => 0,
        };
        let rate = self.effective_fee_bps(base, self.get_sender_volume(rec.sender));
        let fee = calculate_fee(rec.amount, rate);
        let driver_amount = sat_sub(rec.amount, fee);
        let fleet_route = if driver_amount > 0 {
            match self.fleet {
                Some(f) => match rec.fleet_id {
                    Some(fid) => Some(FleetRoute { fleet_contract: f, fleet_id: fid }),
                    None => None,
                },
                None => None,
            }
        } else {
            None
        };
        let slippage_tolerance_bps = match self.config {
            Some(c) => Some(c.slippage_tolerance_bps),
            None => None,
        };
        Payout {
            token: rec.token,
            payer: self.this,
            driver: rec.driver,
            driver_amount,
            fleet_route,
            settlement_contract: if driver_amount > 0 { self.settlement } else { None },
            slippage_tolerance_bps,
            platform_fee: fee,
            fee_recipient: self.admin,
        }
    }

    fn bump_volume(&mut self, sender: Addr)
        ensures
            final(self)@ == old(self)@.with_volume_bumped(sender),
    {
        let v = self.get_sender_volume(sender);
        self.sender_volume.insert(sender, v.saturating_add(1));
    }

    fn settle(&mut self, id: u64, status: EscrowStatus)
        requires
            old(self)@.escrows.contains_key(id),
        ensures
            final(self)@ == old(self)@.with_settled(id, status),
    {
        let rec = *self.escrows.get(&id).unwrap();
        self.escrows.insert(id, EscrowRecord { status, ..rec });
        self.remove_locked(rec.token, rec.amount);
    }

    /// The recipient confirms delivery: a `Locked` escrow moves to
    /// `Holdback`, its funds earmarked for the driver.
    pub fn mark_holdback_escrow(&mut self, caller: Addr, delivery_id: u64) -> (r: Result<
        (),
        EscrowFailure,
    >)
        ensures
            match r {
                Ok(()) => old(self)@.holdback_failure(caller, delivery_id) is None && final(self)@
                    == old(self)@.with_escrow(
                    delivery_id,
                    EscrowRecord { status: EscrowStatus::Holdback, ..old(self)@.record(delivery_id) },
                ),
                Err(e) => final(self)@ == old(self)@ && old(self)@.holdback_failure(
                    caller,
                    delivery_id,
                ) == Some(e),
            },
    {
        if self.paused {
            return Err(EscrowFailure::Protocol(FaniLabError::ProtocolPaused));
        }
        let rec = self.load_escrow(delivery_id)?;
        if caller != rec.recipient {
            return Err(EscrowFailure::Protocol(FaniLabError::Unauthorized));
        }
        if rec.status != EscrowStatus::Locked {
            return Err(EscrowFailure::Escrow(EscrowError::InvalidState));
        }
        self.escrows.insert(delivery_id, EscrowRecord { status: EscrowStatus::Holdback, ..rec });
        Ok(())
    }

    /// Releases a `Locked` escrow to its driver; the admin or the recipient
    /// may. `contract_balance` is the contract's balance in the escrow's
    /// token, which must cover the escrow. Returns the payout, its fee at the
    /// rate that applies to the sender before this release; the sender's
    /// volume then counts one more delivery.
    pub fn release_escrow(&mut self, caller: Addr, delivery_id: u64, contract_balance: i128) -> (r:
        Result<Payout, EscrowFailure>)
        ensures
            match r {
                Ok(p) => {
                    &&& old(self)@.release_failure(caller, delivery_id, contract_balance) is None
                    &&& final(self)@ == old(self)@.after_release(delivery_id)
                    &&& p == old(self)@.payout_for(old(self)@.record(delivery_id))
                },
                Err(e) => final(self)@ == old(self)@ && old(self)@.release_failure(
                    caller,
                    delivery_id,
                    contract_balance,
                ) == Some(e),
            },
    {
        if self.paused {
            return Err(EscrowFailure::Protocol(FaniLabError::ProtocolPaused));
        }
        let rec = self.load_escrow(delivery_id)?;
        if !self.is_admin(caller) && caller != rec.recipient {
            return Err(EscrowFailure::Protocol(FaniLabError::Unauthorized));
        }
        if rec.status != EscrowStatus::Locked {
            return Err(EscrowFailure::Escrow(EscrowError::InvalidState));
        }
        if contract_balance < rec.amount {
            return Err(EscrowFailure::Escrow(EscrowError::InsufficientFunds));
        }
        let payout = self.payout(rec);
        self.bump_volume(rec.sender);
        self.settle(delivery_id, EscrowStatus::Released);
        Ok(payout)
    }

    /// Refunds an escrow to its sender. `contract_balance` is the contract's
    /// balance in the escrow's token, which must cover the escrow.
    pub fn refund_escrow(&mut self, caller: Addr, delivery_id: u64, contract_balance: i128) -> (r:
        Result<Transfer, EscrowFailure>)
        ensures
            match r {
                Ok(t) => {
                    &&& old(self)@.refund_failure(caller, delivery_id, contract_balance) is None
                    &&& final(self)@ == old(self)@.with_settled(delivery_id, EscrowStatus::Refunded)
                    &&& t == old(self)@.refund_of(delivery_id)
                },
                Err(e) => final(self)@ == old(self)@ && old(self)@.refund_failure(
                    caller,
                    delivery_id,
                    contract_balance,
                ) == Some(e),
            },
    {
        if self.paused {
            return Err(EscrowFailure::Protocol(FaniLabError::ProtocolPaused));
        }
        let rec = self.load_escrow(delivery_id)?;
        let admin_authorized = self.is_admin(caller);
        let sender_authorized = caller == rec.sender;
        let admin_only = rec.status == EscrowStatus::Paused || rec.status == EscrowStatus::Holdback;
        if admin_only {
            if !admin_authorized {
                return Err(EscrowFailure::Protocol(FaniLabError::Unauthorized));
            }
        } else if !admin_authorized && !sender_authorized {
            return Err(EscrowFailure::Protocol(FaniLabError::Unauthorized));
        }
        if rec.status != EscrowStatus::Locked && !admin_only {
            return Err(EscrowFailure::Escrow(EscrowError::InvalidState));
        }
        if contract_balance < rec.amount {
            return Err(EscrowFailure::Escrow(EscrowError::InsufficientFunds));
        }
        self.settle(delivery_id, EscrowStatus::Refunded);
        Ok(Transfer { token: rec.token, from: self.this, to: rec.sender, amount: rec.amount })
    }

    /// The sender, recipient or driver disputes a `Locked` escrow at `now`:
    /// it is frozen (`Paused`) and the reporter and time recorded.
    pub fn raise_dispute(&mut self, caller: Addr, delivery_id: u64, now: u64) -> (r: Result<
        (),
        EscrowFailure,
    >)
        ensures
            match r {
                Ok(()) => old(self)@.dispute_failure(caller, delivery_id) is None && final(self)@
                    == old(self)@.with_escrow(
                    delivery_id,
                    EscrowRecord {
                        status: EscrowStatus::Paused,
                        disputed_by: Some(caller),
                        disputed_at: Some(now),
                        ..old(self)@.record(delivery_id)
                    },
                ),
                Err(e) => final(self)@ == old(self)@ && old(self)@.dispute_failure(
                    caller,
                    delivery_id,
                ) == Some(e),
            },
    {
        let rec = self.load_escrow(delivery_id)?;
        if caller != rec.sender && caller != rec.recipient && caller != rec.driver {
            return Err(EscrowFailure::Protocol(FaniLabError::Unauthorized));
        }
        if rec.status != EscrowStatus::Locked {
            return Err(EscrowFailure::Escrow(EscrowError::InvalidState));
        }
        self.escrows.insert(
            delivery_id,
            EscrowRecord {
                status: EscrowStatus::Paused,
                disputed_by: Some(caller),
                disputed_at: Some(now),
                ..rec
            },
        );
        Ok(())
    }

    /// The admin settles a disputed (`Paused`) escrow: released to the
    /// driver (counting one more delivery for the sender) or refunded to the
    /// sender. `contract_balance` must cover the escrow.
    pub fn resolve_dispute(
        &mut self,
        caller: Addr,
        delivery_id: u64,
        release_to_driver: bool,
        contract_balance: i128,
    ) -> (r: Result<Resolution, EscrowFailure>)
        ensures
            match r {
                Ok(res) => {
                    &&& old(self)@.resolve_failure(caller, delivery_id, contract_balance) is None
                    &&& if release_to_driver {
                        &&& final(self)@ == old(self)@.after_release(delivery_id)
                        &&& res == Resolution::Released(
                            old(self)@.payout_for(old(self)@.record(delivery_id)),
                        )
                    } else {
                        &&& final(self)@ == old(self)@.with_settled(
                            delivery_id,
                            EscrowStatus::Refunded,
                        )
                        &&& res == Resolution::Refunded(old(self)@.refund_of(delivery_id))
                    }
                },
                Err(e) => final(self)@ == old(self)@ && old(self)@.resolve_failure(
                    caller,
                    delivery_id,
                    contract_balance,
                ) == Some(e),
            },
    {
        if self.paused {
            return Err(EscrowFailure::Protocol(FaniLabError::ProtocolPaused));
        }
        self.require_admin(caller)?;
        let rec = self.load_escrow(delivery_id)?;
        if rec.status != EscrowStatus::Paused {
            return Err(EscrowFailure::Escrow(EscrowError::InvalidState));
        }
        if contract_balance < rec.amount {
            return Err(EscrowFailure::Escrow(EscrowError::InsufficientFunds));
        }
        if release_to_driver {
            let payout = self.payout(rec);
            self.bump_volume(rec.sender);
            self.settle(delivery_id, EscrowStatus::Released);
            Ok(Resolution::Released(payout))
        } else {
            self.settle(delivery_id, EscrowStatus::Refunded);
            Ok(
                Resolution::Refunded(
                    Transfer { token: rec.token, from: self.this, to: rec.sender, amount: rec.amount },
                ),
            )
        }
    }

    /// The admin settles a disputed (`Paused`) escrow by giving the sender
    /// `sender_share_bps` basis points of it and the driver the rest.
    /// `contract_balance` must cover the escrow.
    pub fn resolve_dispute_split(
        &mut self,
        caller: Addr,
        delivery_id: u64,
        sender_share_bps: u32,
        contract_balance: i128,
    ) -> (r: Result<SplitSettlement, EscrowFailure>)
        ensures
            match r {
                Ok(s) => {
                    &&& old(self)@.split_failure(
                        caller,
                        delivery_id,
                        sender_share_bps,
                        contract_balance,
                    ) is None
                    &&& final(self)@ == old(self)@.with_settled(delivery_id, EscrowStatus::Split)
                    &&& s == old(self)@.split_of(delivery_id, sender_share_bps)
                },
                Err(e) => final(self)@ == old(self)@ && old(self)@.split_failure(
                    caller,
                    delivery_id,
                    sender_share_bps,
                    contract_balance,
                ) == Some(e),
            },
    {
        if self.paused {
            return Err(EscrowFailure::Protocol(FaniLabError::ProtocolPaused));
        }
        self.require_admin(caller)?;
        if sender_share_bps > 10000 {
            return Err(EscrowFailure::Escrow(EscrowError::InvalidFee));
        }
        let rec = self.load_escrow(delivery_id)?;
        if rec.status != EscrowStatus::Paused {
            return Err(EscrowFailure::Escrow(EscrowError::InvalidState));
        }
        if contract_balance < rec.amount {
            return Err(EscrowFailure::Escrow(EscrowError::InsufficientFunds));
        }
        let sender_amount = sat_mul(rec.amount, sender_share_bps as i128) / 10000;
        let driver_amount = sat_sub(rec.amount, sender_amount);
        self.settle(delivery_id, EscrowStatus::Split);
        let to_sender = if sender_amount > 0 {
            Some(Transfer { token: rec.token, from: self.this, to: rec.sender, amount: sender_amount })
        } else {
            None
        };
        let to_driver = if driver_amount > 0 {
            Some(Transfer { token: rec.token, from: self.this, to: rec.driver, amount: driver_amount })
        } else {
            None
        };
        Ok(SplitSettlement { sender_amount, driver_amount, to_sender, to_driver })
    }

    /// Releases a `Holdback` escrow to its driver; the admin or the
    /// recipient may. `contract_balance` must cover the escrow. Returns the
    /// payout, its fee at the rate that applies to the sender before this
    /// release; the sender's volume then counts one more delivery.
    pub fn release_holdback_escrow(&mut self, caller: Addr, delivery_id: u64, contract_balance: i128) -> (r:
        Result<Payout, EscrowFailure>)
        ensures
            match r {
                Ok(p) => {
                    &&& old(self)@.holdback_release_failure(caller, delivery_id, contract_balance) is None
                    &&& final(self)@ == old(self)@.after_release(delivery_id)
                    &&& p == old(self)@.payout_for(old(self)@.record(delivery_id))
                },
                Err(e) => final(self)@ == old(self)@ && old(self)@.holdback_release_failure(
                    caller,
                    delivery_id,
                    contract_balance,
                ) == Some(e),
            },
    {
        if self.paused {
            return Err(EscrowFailure::Protocol(FaniLabError::ProtocolPaused));
        }
        let rec = self.load_escrow(delivery_id)?;
        if !self.is_admin(caller) && caller != rec.recipient {
            return Err(EscrowFailure::Protocol(FaniLabError::Unauthorized));
        }
        if rec.status != EscrowStatus::Holdback {
            return Err(EscrowFailure::Escrow(EscrowError::InvalidState));
        }
        if contract_balance < rec.amount {
            return Err(EscrowFailure::Escrow(EscrowError::InsufficientFunds));
        }
        let payout = self.payout(rec);
        self.bump_volume(rec.sender);
        self.settle(delivery_id, EscrowStatus::Released);
        Ok(payout)
    }

    /// The escrow of delivery `delivery_id`.
    pub fn get_escrow(&self, delivery_id: u64) -> (r: Result<EscrowRecord, EscrowFailure>)
        ensures
            match r {
                Ok(rec) => self@.escrows.contains_key(delivery_id) && rec == self@.record(delivery_id),
                Err(e) => !self@.escrows.contains_key(delivery_id) && e == EscrowFailure::Escrow(
                    EscrowError::DeliveryNotFound,
                ),
            },
    {
        self.load_escrow(delivery_id)
    }

    /// The dispute resolution contract freezes an escrow at `now`: a
    /// `Locked` or `Holdback` escrow becomes `Paused` with the time recorded;
    /// one in any other state is left as it is. Available while the
    /// protocol is paused. Returns whether the escrow was frozen.
    pub fn freeze_funds(&mut self, caller: Addr, delivery_id: u64, now: u64) -> (r: Result<
        bool,
        EscrowFailure,
    >)
        ensures
            match r {
                Ok(frozen) => {
                    let rec = old(self)@.record(delivery_id);
                    &&& old(self)@.freeze_failure(caller, delivery_id) is None
                    &&& frozen == (rec.status == EscrowStatus::Locked || rec.status
                        == EscrowStatus::Holdback)
                    &&& final(self)@ == if frozen {
                        old(self)@.with_escrow(
                            delivery_id,
                            EscrowRecord {
                                status: EscrowStatus::Paused,
                                disputed_at: Some(now),
                                ..rec
                            },
                        )
                    } else {
                        old(self)@
                    }
                },
                Err(e) => final(self)@ == old(self)@ && old(self)@.freeze_failure(
                    caller,
                    delivery_id,
                ) == Some(e),
            },
    {
        let dispute_contract = match self.dispute {
            Some(d) => d,
            None => {
                return Err(EscrowFailure::Protocol(FaniLabError::NotInitialized));
            },
        };
        if caller != dispute_contract {
            return Err(EscrowFailure::Protocol(FaniLabError::Unauthorized));
        }
        let rec = self.load_escrow(delivery_id)?;
        if rec.status == EscrowStatus::Locked || rec.status == EscrowStatus::Holdback {
            self.escrows.insert(
                delivery_id,
                EscrowRecord { status: EscrowStatus::Paused, disputed_at: Some(now), ..rec },
            );
            Ok(true)
        } else {
            Ok(false)
        }
    }

    /// Anyone returns a `Locked` escrow whose expiry is before `now` to its
    /// sender. `contract_balance` must cover the escrow.
    pub fn reclaim_expired_escrow(&mut self, delivery_id: u64, now: u64, contract_balance: i128) -> (r:
        Result<Transfer, EscrowFailure>)
        ensures
            match r {
                Ok(t) => {
                    &&& old(self)@.reclaim_failure(delivery_id, now, contract_balance) is None
                    &&& final(self)@ == old(self)@.with_settled(delivery_id, EscrowStatus::Refunded)
                    &&& t == old(self)@.refund_of(delivery_id)
                },
                Err(e) => final(self)@ == old(self)@ && old(self)@.reclaim_failure(
                    delivery_id,
                    now,
                    contract_balance,
                ) == Some(e),
            },
    {
        if self.paused {
            return Err(EscrowFailure::Protocol(FaniLabError::ProtocolPaused));
        }
        let rec = self.load_escrow(delivery_id)?;
        if rec.status != EscrowStatus::Locked {
            return Err(EscrowFailure::Escrow(EscrowError::InvalidState));
        }
        match rec.expires_at {
            Some(expires_at) => {
                if now <= expires_at {
                    return Err(EscrowFailure::Escrow(EscrowError::InvalidState));
                }
            },
            None => {
                return Err(EscrowFailure::Escrow(EscrowError::InvalidState));
            },
        }
        if contract_balance < rec.amount {
            return Err(EscrowFailure::Escrow(EscrowError::InsufficientFunds));
        }
        self.settle(delivery_id, EscrowStatus::Refunded);
        Ok(Transfer { token: rec.token, from: self.this, to: rec.sender, amount: rec.amount })
    }

    /// Up to 100 escrow ids listed for `sender`, oldest first.
    pub fn get_escrows_by_sender(&self, sender: Addr) -> (r: Vec<u64>)
        ensures
            r@ == page_of(self@.index_of(sender, 0), 0, 100),
    {
        self.by_sender.page(sender, 0, 100)
    }

    /// Up to 100 escrow ids listed for `recipient`, oldest first.
    pub fn get_escrows_by_recipient(&self, recipient: Addr) -> (r: Vec<u64>)
        ensures
            r@ == page_of(self@.index_of(recipient, 1), 0, 100),
    {
        self.by_recipient.page(recipient, 0, 100)
    }

    /// Up to 100 escrow ids listed for `driver`, oldest first.
    pub fn get_escrows_by_driver(&self, driver: Addr) -> (r: Vec<u64>)
        ensures
            r@ == page_of(self@.index_of(driver, 2), 0, 100),
    {
        self.by_driver.page(driver, 0, 100)
    }

    /// A page of the escrow ids listed for `owner` under index `kind`
    /// (0: sender, 1: recipient, 2: driver).
    pub fn get_escrows_page(&self, owner: Addr, kind: u32, offset: u32, limit: u32) -> (r: Vec<u64>)
        ensures
            r@ == page_of(self@.index_of(owner, kind), offset, limit),
    {
        if kind == 0 {
            self.by_sender.page(owner, offset, limit)
        } else if kind == 1 {
            self.by_recipient.page(owner, offset, limit)
        } else if kind == 2 {
            self.by_driver.page(owner, offset, limit)
        } else {
            let r: Vec<u64> = Vec::new();
            assert(r@ =~= page_of(Seq::<u64>::empty(), offset, limit));
            r
        }
    }

    /// Whether the indexes have room for one more escrow listed under
    /// `sender`, `recipient` and `driver`.
    pub fn has_room_for_escrow(&self, sender: Addr, recipient: Addr, driver: Addr) -> (r: bool)
        ensures
            r == (has_room(self@.by_sender, sender, 1) && has_room(self@.by_recipient, recipient, 1)
                && has_room(self@.by_driver, driver, 1)),
    {
        let full = u32::MAX as usize;
        self.by_sender.count(sender) < full && self.by_recipient.count(recipient) < full
            && self.by_driver.count(driver) < full
    }

    /// Whether the indexes have room for the escrows of `escrow_list`: each
    /// is listed under `sender`, `recipient` and its driver.
    pub fn has_room_for_batch(&self, sender: Addr, recipient: Addr, escrow_list: &Vec<(u64, Addr, i128)>) -> (r: bool)
        ensures
            r == (has_room(self@.by_sender, sender, escrow_list@.len() as int) && has_room(
                self@.by_recipient,
                recipient,
                escrow_list@.len() as int,
            ) && forall|d: Addr| #[trigger] count_driver(escrow_list@, d) > 0 ==> has_room(
                self@.by_driver,
                d,
                count_driver(escrow_list@, d) as int,
            )),
    {
        let n = escrow_list.len();
        let room = u32::MAX as usize;
        if n > room || self.by_sender.count(sender) > room - n || self.by_recipient.count(recipient)
            > room - n {
            return false;
        }
        let mut i: usize = 0;
        while i < n
            invariant
                n == escrow_list@.len() <= room,
                room == u32::MAX,
                i <= n,
                forall|k: int|
                    0 <= k < i ==> has_room(
                        self@.by_driver,
                        #[trigger] escrow_list@[k].1,
                        count_driver(escrow_list@, escrow_list@[k].1) as int,
                    ),
            decreases n - i,
        {
            let d = escrow_list[i].1;
            let c = count_of_driver(escrow_list, d);
            if c > room || self.by_driver.count(d) > room - c {
                proof {
                    lemma_count_driver_prefix(escrow_list@, i + 1, d);
                    assert(escrow_list@.take(i + 1).drop_last() =~= escrow_list@.take(i as int));
                    assert(escrow_list@.take(i + 1).last() == escrow_list@[i as int]);
                    assert(count_driver(escrow_list@, d) > 0);
                }
                return false;
            }
            i += 1;
        }
        proof {
            assert forall|d: Addr| #[trigger] count_driver(escrow_list@, d) > 0 implies has_room(
                self@.by_driver,
                d,
                count_driver(escrow_list@, d) as int,
            ) by {
                lemma_count_driver_witness(escrow_list@, d);
                let k = choose|k: int| 0 <= k < escrow_list@.len() && #[trigger] escrow_list@[k].1 == d;
                assert(has_room(self@.by_driver, escrow_list@[k].1, count_driver(escrow_list@, escrow_list@[k].1) as int));
            }
        }
        true
    }

    /// The value recorded as locked in `token`.
    pub fn get_total_locked(&self, token: Addr) -> (r: i128)
        ensures
            r == self@.locked_in(token),
    {
        match self.total_locked.get(&token) {
            Some(v) => *v,
            None => 0,
        }
    }

    /// The admin recovers tokens held beyond what the escrows lock, except
    /// while the protocol is paused: `contract_balance` is the contract's
    /// balance in `token`. Returns the
    /// transfer of the surplus to `recipient`, or nothing when there is none.
    pub fn sweep_untracked_balance(
        &self,
        admin: Addr,
        token: Addr,
        recipient: Addr,
        contract_balance: i128,
    ) -> (r: Result<Option<Transfer>, EscrowFailure>)
        ensures
            match r {
                Ok(t) => {
                    &&& self@.sweep_failure(admin) is None
                    &&& t == if contract_balance <= self@.locked_in(token) {
                        None
                    } else {
                        Some(
                            Transfer {
                                token,
                                from: self@.this,
                                to: recipient,
                                amount: clamp_i128(contract_balance - self@.locked_in(token)) as i128,
                            },
                        )
                    }
                },
                Err(e) => self@.sweep_failure(admin) == Some(e),
            },
    {
        if self.paused {
            return Err(EscrowFailure::Protocol(FaniLabError::ProtocolPaused));
        }
        self.require_admin(admin)?;
        let total_locked = self.get_total_locked(token);
        if contract_balance <= total_locked {
            return Ok(None);
        }
        Ok(
            Some(
                Transfer {
                    token,
                    from: self.this,
                    to: recipient,
                    amount: sat_sub(contract_balance, total_locked),
                },
            ),
        )
    }

    /// Replaces the volume discount tiers; admin only.
    pub fn set_volume_tiers(&mut self, admin: Addr, tiers: Vec<VolumeTier>) -> (r: Result<
        (),
        EscrowFailure,
    >)
        ensures
            match r {
                Ok(()) => admin_failure(old(self)@.admin, admin) is None && final(self)@ == (
                EscrowView { volume_tiers: tiers@, ..old(self)@ }),
                Err(e) => final(self)@ == old(self)@ && admin_failure(old(self)@.admin, admin) == Some(
                    e,
                ),
            },
    {
        self.require_admin(admin)?;
        self.volume_tiers = tiers;
        Ok(())
    }

    /// The volume discount tiers.
    pub fn get_volume_tiers(&self) -> (r: Vec<VolumeTier>)
        ensures
            r@ == self@.volume_tiers,
    {
        let mut out: Vec<VolumeTier> = Vec::new();
        let mut i: usize = 0;
        while i < self.volume_tiers.len()
            invariant
                i <= self.volume_tiers@.len(),
                out@ =~= self.volume_tiers@.take(i as int),
            decreases self.volume_tiers@.len() - i,
        {
            out.push(self.volume_tiers[i]);
            i += 1;
        }
        assert(self.volume_tiers@.take(i as int) =~= self.volume_tiers@);
        out
    }

    /// Deliveries released for `sender` so far.
    pub fn get_sender_volume(&self, sender: Addr) -> (r: u32)
        ensures
            r == self@.volume_of(sender),
    {
        match self.sender_volume.get(&sender) {
            Some(v) => *v,
            None => 0,
        }
    }
}

} // verus!
