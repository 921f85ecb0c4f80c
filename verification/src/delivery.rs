//! The delivery contract: the lifecycle of a delivery from creation through
//! driver assignment, transit and confirmation, with cancellation and
//! disputes, and the calls it makes to the escrow and reputation contracts.
//!
//! The contract's storage is the state of a [`DeliveryContract`]; each entry
//! point checks its inputs against that state, updates it, and returns the
//! calls the host must then make to other contracts. The host rolls back the
//! whole invocation when one of those calls fails.

use std::collections::HashMap;
use vstd::prelude::*;
use crate::entries::{entries_of_map, lemma_listed_map, map_from_entries, map_of};
use crate::index::{IdIndex, has_room, ids_of, index_of_entries, with_pushed};
use crate::types::{
    Addr, DeliveryMetadata, DeliveryRecord, DeliveryStatus, DriverProfile, EscrowRecord,
    EscrowStatus, FaniLabError,
};

verus! {

broadcast use vstd::std_specs::hash::group_hash_axioms;

/// Most deliveries one batch may create.
pub const MAX_BATCH_SIZE: u32 = 100;

/// Longest origin or destination, in bytes.
pub const MAX_LOCATION_LEN: u32 = 256;

/// Heaviest cargo, in grams.
pub const MAX_WEIGHT_GRAMS: u32 = 1000000;

/// Errors specific to the delivery contract.
#[derive(Clone, Copy, Debug, PartialEq, Eq, Structural)]
pub enum DeliveryError {
    InvalidState,
    InvalidMetadata,
}

/// Why a delivery entry point failed.
#[derive(Clone, Copy, Debug, PartialEq, Eq, Structural)]
pub enum DeliveryFailure {
    Protocol(FaniLabError),
    Delivery(DeliveryError),
    /// A batch held more than [`MAX_BATCH_SIZE`] deliveries.
    BatchTooLarge,
    /// The driver named is the delivery's sender or recipient.
    InvalidDriver,
    /// The assigned driver is the delivery's sender or recipient.
    InvalidDelivery,
    /// No escrow contract is configured.
    EscrowNotConfigured,
}

/// A call the delivery contract makes to another contract.
#[derive(Clone, Copy, Debug, PartialEq, Eq, Structural)]
pub enum ContractCall {
    /// `refund_escrow(caller, delivery_id)` on the escrow contract.
    RefundEscrow { escrow_contract: Addr, caller: Addr, delivery_id: u64 },
    /// `mark_holdback_escrow(caller, delivery_id)` on the escrow contract.
    MarkHoldbackEscrow { escrow_contract: Addr, caller: Addr, delivery_id: u64 },
    /// `raise_dispute(caller, delivery_id)` on the escrow contract.
    RaiseEscrowDispute { escrow_contract: Addr, caller: Addr, delivery_id: u64 },
    /// `increase_reputation(caller, driver, delivery_id, weight_grams, fragile)`
    /// on the identity/reputation contract.
    IncreaseReputation {
        identity_contract: Addr,
        caller: Addr,
        driver: Addr,
        delivery_id: u64,
        weight_grams: u32,
        fragile: bool,
    },
}

/// Whether the delivery state machine allows moving from `from` to `to`:
/// Pending to Active or Cancelled; Active to InTransit, Disputed or
/// Cancelled; InTransit to Delivered or Disputed; Disputed to Delivered or
/// Cancelled. Delivered and Cancelled are terminal.
pub open spec fn transition_allowed(from: DeliveryStatus, to: DeliveryStatus) -> bool {
    match (from, to) {
        (DeliveryStatus::Pending, DeliveryStatus::Active) => true,
        (DeliveryStatus::Pending, DeliveryStatus::Cancelled) => true,
        (DeliveryStatus::Active, DeliveryStatus::InTransit) => true,
        (DeliveryStatus::Active, DeliveryStatus::Disputed) => true,
        (DeliveryStatus::Active, DeliveryStatus::Cancelled) => true,
        (DeliveryStatus::InTransit, DeliveryStatus::Delivered) => true,
        (DeliveryStatus::InTransit, DeliveryStatus::Disputed) => true,
        (DeliveryStatus::Disputed, DeliveryStatus::Delivered) => true,
        (DeliveryStatus::Disputed, DeliveryStatus::Cancelled) => true,
        _ => false,
    }
}

/// Checks a status transition against the delivery state machine.
pub fn validate_transition(from: DeliveryStatus, to: DeliveryStatus) -> (r: Result<(), FaniLabError>)
    ensures
        r is Ok <==> transition_allowed(from, to),
        r is Err ==> r == Err::<(), FaniLabError>(FaniLabError::InvalidState),
{
    let valid = match (from, to) {
        (DeliveryStatus::Pending, DeliveryStatus::Active) => true,
        (DeliveryStatus::Pending, DeliveryStatus::Cancelled) => true,
        (DeliveryStatus::Active, DeliveryStatus::InTransit) => true,
        (DeliveryStatus::Active, DeliveryStatus::Disputed) => true,
        (DeliveryStatus::Active, DeliveryStatus::Cancelled) => true,
        (DeliveryStatus::InTransit, DeliveryStatus::Delivered) => true,
        (DeliveryStatus::InTransit, DeliveryStatus::Disputed) => true,
        (DeliveryStatus::Disputed, DeliveryStatus::Delivered) => true,
        (DeliveryStatus::Disputed, DeliveryStatus::Cancelled) => true,
        _ => false,
    };
    if valid {
        Ok(())
    } else {
        Err(FaniLabError::InvalidState)
    }
}

/// Whether `metadata` is acceptable: locations of at most
/// [`MAX_LOCATION_LEN`] bytes and cargo of at most [`MAX_WEIGHT_GRAMS`].
pub open spec fn metadata_valid(metadata: DeliveryMetadata) -> bool {
    &&& metadata.origin@.len() <= MAX_LOCATION_LEN
    &&& metadata.destination@.len() <= MAX_LOCATION_LEN
    &&& metadata.cargo_description.weight_grams <= MAX_WEIGHT_GRAMS
}

/// Checks `metadata` against the delivery contract's limits.
pub fn validate_delivery_metadata(metadata: &DeliveryMetadata) -> (r: Result<(), DeliveryError>)
    ensures
        r is Ok <==> metadata_valid(*metadata),
        r is Err ==> r == Err::<(), DeliveryError>(DeliveryError::InvalidMetadata),
{
    if metadata.origin.len() > MAX_LOCATION_LEN as usize {
        return Err(DeliveryError::InvalidMetadata);
    }
    if metadata.destination.len() > MAX_LOCATION_LEN as usize {
        return Err(DeliveryError::InvalidMetadata);
    }
    if metadata.cargo_description.weight_grams > MAX_WEIGHT_GRAMS {
        return Err(DeliveryError::InvalidMetadata);
    }
    Ok(())
}

/// Whether a delivery's status and its escrow's status agree: Pending,
/// Active and InTransit with Locked; Delivered with Released; Disputed with
/// Paused; Cancelled with Refunded.
pub open spec fn states_in_sync(d: DeliveryStatus, e: EscrowStatus) -> bool {
    match (d, e) {
        (DeliveryStatus::Pending, EscrowStatus::Locked) => true,
        (DeliveryStatus::Active, EscrowStatus::Locked) => true,
        (DeliveryStatus::InTransit, EscrowStatus::Locked) => true,
        (DeliveryStatus::Delivered, EscrowStatus::Released) => true,
        (DeliveryStatus::Disputed, EscrowStatus::Paused) => true,
        (DeliveryStatus::Cancelled, EscrowStatus::Refunded) => true,
        _ => false,
    }
}

/// Whether `delivery` and `escrow` are in agreeing states.
pub fn validate_state_sync(delivery: &DeliveryRecord, escrow: &EscrowRecord) -> (r: bool)
    ensures
        r == states_in_sync(delivery.status, escrow.status),
{
    match (delivery.status, escrow.status) {
        (DeliveryStatus::Pending, EscrowStatus::Locked) => true,
        (DeliveryStatus::Active, EscrowStatus::Locked) => true,
        (DeliveryStatus::InTransit, EscrowStatus::Locked) => true,
        (DeliveryStatus::Delivered, EscrowStatus::Released) => true,
        (DeliveryStatus::Disputed, EscrowStatus::Paused) => true,
        (DeliveryStatus::Cancelled, EscrowStatus::Refunded) => true,
        _ => false,
    }
}

/// The contents of the delivery contract's storage.
pub struct DeliveryView {
    /// The contract's own address.
    pub this: Addr,
    pub admin: Option<Addr>,
    pub escrow_contract: Option<Addr>,
    /// The last delivery id handed out.
    pub counter: u64,
    pub identity_contract: Option<Addr>,
    pub deliveries: Map<u64, DeliveryRecord>,
    pub by_sender: Map<Addr, Seq<u64>>,
    pub by_recipient: Map<Addr, Seq<u64>>,
    pub driver_profiles: Map<Addr, DriverProfile>,
}

/// The record a new delivery starts with.
pub open spec fn fresh_delivery(
    id: u64,
    sender: Addr,
    recipient: Addr,
    metadata: DeliveryMetadata,
    now: u64,
) -> DeliveryRecord {
    DeliveryRecord {
        delivery_id: id,
        sender,
        recipient,
        driver: None,
        status: DeliveryStatus::Pending,
        metadata,
        created_at: now,
        delivered_at: None,
        transit_started_at: None,
    }
}

impl DeliveryView {
    pub open spec fn is_admin(self, who: Addr) -> bool {
        self.admin == Some(who)
    }

    /// The delivery `id`, which must exist.
    pub open spec fn record(self, id: u64) -> DeliveryRecord {
        self.deliveries[id]
    }

    /// The view with delivery `id` replaced by `rec`.
    pub open spec fn with_delivery(self, id: u64, rec: DeliveryRecord) -> DeliveryView {
        DeliveryView { deliveries: self.deliveries.insert(id, rec), ..self }
    }

    /// The view after the next delivery is created: the counter advances and
    /// the new delivery is stored and indexed.
    pub open spec fn with_created(self, sender: Addr, recipient: Addr, metadata: DeliveryMetadata, now: u64) -> DeliveryView {
        let id = (self.counter + 1) as u64;
        DeliveryView {
            counter: id,
            deliveries: self.deliveries.insert(id, fresh_delivery(id, sender, recipient, metadata, now)),
            by_sender: with_pushed(self.by_sender, sender, id),
            by_recipient: with_pushed(self.by_recipient, recipient, id),
            ..self
        }
    }

    /// The view after a batch of deliveries is created, in order.
    pub open spec fn with_created_batch(self, sender: Addr, recipient: Addr, list: Seq<DeliveryMetadata>, now: u64) -> DeliveryView
        decreases list.len(),
    {
        if list.len() == 0 {
            self
        } else {
            self.with_created_batch(sender, recipient, list.drop_last(), now).with_created(
                sender,
                recipient,
                list.last(),
                now,
            )
        }
    }

    /// Why a status change of delivery `id` to `to`, requested by a caller
    /// that `authorized` says may request it, would fail, if it would.
    pub open spec fn transition_failure(self, id: u64, authorized: bool, to: DeliveryStatus) -> Option<DeliveryFailure> {
        if !self.deliveries.contains_key(id) {
            Some(DeliveryFailure::Protocol(FaniLabError::DeliveryNotFound))
        } else if !authorized {
            Some(DeliveryFailure::Protocol(FaniLabError::Unauthorized))
        } else if !transition_allowed(self.record(id).status, to) {
            Some(DeliveryFailure::Protocol(FaniLabError::InvalidState))
        } else {
            None
        }
    }

    /// Why `cancel_delivery` would fail, if it would.
    pub open spec fn cancel_failure(self, sender: Addr, id: u64) -> Option<DeliveryFailure> {
        let f = self.transition_failure(
            id,
            self.deliveries.contains_key(id) && self.record(id).sender == sender,
            DeliveryStatus::Cancelled,
        );
        if f is Some {
            f
        } else if self.escrow_contract is None {
            Some(DeliveryFailure::Protocol(FaniLabError::NotInitialized))
        } else {
            None
        }
    }

    /// Why `assign_driver` would fail, if it would. The admin may assign any
    /// driver; anyone else only themselves.
    pub open spec fn assign_failure(self, caller: Addr, id: u64, driver: Addr) -> Option<DeliveryFailure> {
        if !self.is_admin(caller) && caller != driver {
            Some(DeliveryFailure::Protocol(FaniLabError::Unauthorized))
        } else if !self.deliveries.contains_key(id) {
            Some(DeliveryFailure::Protocol(FaniLabError::DeliveryNotFound))
        } else if driver == self.record(id).sender || driver == self.record(id).recipient {
            Some(DeliveryFailure::InvalidDriver)
        } else if !transition_allowed(self.record(id).status, DeliveryStatus::Active) {
            Some(DeliveryFailure::Protocol(FaniLabError::InvalidState))
        } else {
            None
        }
    }

    /// Why `mark_in_transit` would fail, if it would: only the assigned
    /// driver may.
    pub open spec fn transit_failure(self, driver: Addr, id: u64) -> Option<DeliveryFailure> {
        self.transition_failure(
            id,
            self.deliveries.contains_key(id) && self.record(id).driver == Some(driver),
            DeliveryStatus::InTransit,
        )
    }

    /// Why `confirm_delivery` would fail, if it would: only the recipient
    /// may, and a driver who is the sender or recipient voids the delivery.
    pub open spec fn confirm_failure(self, recipient: Addr, id: u64) -> Option<DeliveryFailure> {
        if !self.deliveries.contains_key(id) {
            Some(DeliveryFailure::Protocol(FaniLabError::DeliveryNotFound))
        } else {
            let rec = self.record(id);
            if recipient != rec.recipient {
                Some(DeliveryFailure::Protocol(FaniLabError::Unauthorized))
            } else if rec.driver matches Some(d) && (d == recipient || d == rec.sender) {
                Some(DeliveryFailure::InvalidDelivery)
            } else if !transition_allowed(rec.status, DeliveryStatus::Delivered) {
                Some(DeliveryFailure::Protocol(FaniLabError::InvalidState))
            } else if self.escrow_contract is None {
                Some(DeliveryFailure::Protocol(FaniLabError::NotInitialized))
            } else {
                None
            }
        }
    }

    /// The calls `confirm_delivery` makes: the escrow moves to holdback,
    /// and, when a driver is assigned and a reputation contract configured,
    /// the driver is credited for the cargo.
    pub open spec fn confirm_calls(self, recipient: Addr, id: u64) -> Seq<ContractCall> {
        let rec = self.record(id);
        let holdback = ContractCall::MarkHoldbackEscrow {
            escrow_contract: self.escrow_contract->0,
            caller: recipient,
            delivery_id: id,
        };
        match rec.driver {
            Some(d) => match self.identity_contract {
                Some(ic) => seq![
                    holdback,
                    ContractCall::IncreaseReputation {
                        identity_contract: ic,
                        caller: self.this,
                        driver: d,
                        delivery_id: id,
                        weight_grams: rec.metadata.cargo_description.weight_grams,
                        fragile: rec.metadata.cargo_description.fragile,
                    },
                ],
                None => seq![holdback],
            },
            None => seq![holdback],
        }
    }

    /// Why `raise_dispute` would fail, if it would: only the sender or
    /// recipient may dispute.
    pub open spec fn dispute_failure(self, caller: Addr, id: u64) -> Option<DeliveryFailure> {
        let f = self.transition_failure(
            id,
            self.deliveries.contains_key(id) && (caller == self.record(id).sender || caller
                == self.record(id).recipient),
            DeliveryStatus::Disputed,
        );
        if f is Some {
            f
        } else if self.escrow_contract is None {
            Some(DeliveryFailure::Protocol(FaniLabError::NotInitialized))
        } else {
            None
        }
    }
}

/// The state of the delivery contract.
pub struct DeliveryContract {
    this: Addr,
    admin: Option<Addr>,
    escrow_contract: Option<Addr>,
    counter: u64,
    identity_contract: Option<Addr>,
    deliveries: HashMap<u64, DeliveryRecord>,
    by_sender: IdIndex,
    by_recipient: IdIndex,
    driver_profiles: HashMap<Addr, DriverProfile>,
}

impl View for DeliveryContract {
    type V = DeliveryView;

    closed spec fn view(&self) -> DeliveryView {
        DeliveryView {
            this: self.this,
            admin: self.admin,
            escrow_contract: self.escrow_contract,
            counter: self.counter,
            identity_contract: self.identity_contract,
            deliveries: self.deliveries@,
            by_sender: self.by_sender@,
            by_recipient: self.by_recipient@,
            driver_profiles: self.driver_profiles@,
        }
    }
}

/// The delivery contract's storage written out as plain values, for the
/// host to keep between invocations. Maps are lists of `(key, value)`
/// entries.
pub struct DeliveryState {
    pub this: Addr,
    pub admin: Option<Addr>,
    pub escrow_contract: Option<Addr>,
    pub counter: u64,
    pub identity_contract: Option<Addr>,
    pub deliveries: Vec<(u64, DeliveryRecord)>,
    pub by_sender: Vec<(Addr, Vec<u64>)>,
    pub by_recipient: Vec<(Addr, Vec<u64>)>,
    pub driver_profiles: Vec<(Addr, DriverProfile)>,
}

impl View for DeliveryState {
    type V = DeliveryView;

    open spec fn view(&self) -> DeliveryView {
        DeliveryView {
            this: self.this,
            admin: self.admin,
            escrow_contract: self.escrow_contract,
            counter: self.counter,
            identity_contract: self.identity_contract,
            deliveries: map_of(self.deliveries@),
            by_sender: index_of_entries(self.by_sender@),
            by_recipient: index_of_entries(self.by_recipient@),
            driver_profiles: map_of(self.driver_profiles@),
        }
    }
}

impl DeliveryContract {
    /// The contract whose storage `state` holds.
    pub fn from_state(state: DeliveryState) -> (r: Self)
        ensures
            r@ == state@,
    {
        DeliveryContract {
            this: state.this,
            admin: state.admin,
            escrow_contract: state.escrow_contract,
            counter: state.counter,
            identity_contract: state.identity_contract,
            deliveries: map_from_entries(state.deliveries),
            by_sender: IdIndex::from_entries(state.by_sender),
            by_recipient: IdIndex::from_entries(state.by_recipient),
            driver_profiles: map_from_entries(state.driver_profiles),
        }
    }

    /// The contract's storage, written out.
    pub fn into_state(self) -> (r: DeliveryState)
        ensures
            r@ == self@,
    {
        let ghost deliveries = self.deliveries@;
        let ghost driver_profiles = self.driver_profiles@;
        let r = DeliveryState {
            this: self.this,
            admin: self.admin,
            escrow_contract: self.escrow_contract,
            counter: self.counter,
            identity_contract: self.identity_contract,
            deliveries: entries_of_map(self.deliveries),
            by_sender: self.by_sender.into_entries(),
            by_recipient: self.by_recipient.into_entries(),
            driver_profiles: entries_of_map(self.driver_profiles),
        };
        proof {
            lemma_listed_map(r.deliveries@, deliveries);
            lemma_listed_map(r.driver_profiles@, driver_profiles);
        }
        r
    }
}

impl DeliveryContract {
    /// The storage of a freshly deployed delivery contract at address `this`.
    pub fn new(this: Addr) -> (r: Self)
        ensures
            r@.this == this,
            r@.admin is None,
            r@.escrow_contract is None,
            r@.counter == 0,
            r@.identity_contract is None,
            r@.deliveries == Map::<u64, DeliveryRecord>::empty(),
            r@.by_sender == Map::<Addr, Seq<u64>>::empty(),
            r@.by_recipient == Map::<Addr, Seq<u64>>::empty(),
            r@.driver_profiles == Map::<Addr, DriverProfile>::empty(),
    {
        DeliveryContract {
            this,
            admin: None,
            escrow_contract: None,
            counter: 0,
            identity_contract: None,
            deliveries: HashMap::new(),
            by_sender: IdIndex::new(),
            by_recipient: IdIndex::new(),
            driver_profiles: HashMap::new(),
        }
    }

    fn is_admin(&self, caller: Addr) -> (r: bool)
        ensures
            r == self@.is_admin(caller),
    {
        match self.admin {
            Some(a) => a == caller,
            None => false,
        }
    }

    /// Sets the admin and the escrow contract, once, and resets the
    /// delivery counter.
    pub fn init(&mut self, admin: Addr, escrow_contract: Addr) -> (r: Result<(), DeliveryFailure>)
        ensures
            match r {
                Ok(()) => old(self)@.admin is None && final(self)@ == (DeliveryView {
                    admin: Some(admin),
                    escrow_contract: Some(escrow_contract),
                    counter: 0,
                    ..old(self)@
                }),
                Err(e) => old(self)@.admin is Some && final(self)@ == old(self)@ && e
                    == DeliveryFailure::Protocol(FaniLabError::AlreadyInitialized),
            },
    {
        if self.admin.is_some() {
            return Err(DeliveryFailure::Protocol(FaniLabError::AlreadyInitialized));
        }
        self.admin = Some(admin);
        self.escrow_contract = Some(escrow_contract);
        self.counter = 0;
        Ok(())
    }

    /// Sets the identity/reputation contract; admin only.
    pub fn set_identity_reputation_contract(&mut self, admin: Addr, identity_contract: Addr) -> (r:
        Result<(), DeliveryFailure>)
        ensures
            match r {
                Ok(()) => old(self)@.admin == Some(admin) && final(self)@ == (DeliveryView {
                    identity_contract: Some(identity_contract),
                    ..old(self)@
                }),
                Err(e) => final(self)@ == old(self)@ && e == match old(self)@.admin {
                    None => DeliveryFailure::Protocol(FaniLabError::NotInitialized),
                    Some(_) => DeliveryFailure::Protocol(FaniLabError::Unauthorized),
                } && old(self)@.admin != Some(admin),
            },
    {
        match self.admin {
            None => Err(DeliveryFailure::Protocol(FaniLabError::NotInitialized)),
            Some(a) => {
                if a != admin {
                    return Err(DeliveryFailure::Protocol(FaniLabError::Unauthorized));
                }
                self.identity_contract = Some(identity_contract);
                Ok(())
            },
        }
    }

    /// The identity/reputation contract, if any.
    pub fn get_identity_reputation_contract(&self) -> (r: Option<Addr>)
        ensures
            r == self@.identity_contract,
    {
        self.identity_contract
    }

    /// Whether `count` more deliveries from `sender` to `recipient` fit:
    /// the id counter and both indexes have room for them.
    pub fn has_room_for(&self, sender: Addr, recipient: Addr, count: usize) -> (r: bool)
        ensures
            r == (self@.counter + count <= u64::MAX && has_room(self@.by_sender, sender, count as int)
                && has_room(self@.by_recipient, recipient, count as int)),
    {
        let room = u32::MAX as usize;
        count as u64 <= u64::MAX - self.counter && count <= room && self.by_sender.count(sender)
            <= room - count && self.by_recipient.count(recipient) <= room - count
    }

    /// The escrow contract, if any.
    pub fn get_escrow_contract(&self) -> (r: Option<Addr>)
        ensures
            r == self@.escrow_contract,
    {
        self.escrow_contract
    }

    fn take_record(&mut self, id: u64) -> (r: DeliveryRecord)
        requires
            old(self)@.deliveries.contains_key(id),
        ensures
            r == old(self)@.record(id),
            final(self)@ == (DeliveryView {
                deliveries: old(self)@.deliveries.remove(id),
                ..old(self)@
            }),
    {
        self.deliveries.remove(&id).unwrap()
    }

    fn store_record(&mut self, id: u64, rec: DeliveryRecord)
        ensures
            final(self)@ == old(self)@.with_delivery(id, rec),
    {
        self.deliveries.insert(id, rec);
    }

    fn create_next(&mut self, sender: Addr, recipient: Addr, metadata: DeliveryMetadata, now: u64) -> (r: u64)
        requires
            old(self)@.counter < u64::MAX,
            has_room(old(self)@.by_sender, sender, 1),
            has_room(old(self)@.by_recipient, recipient, 1),
        ensures
            r == old(self)@.counter + 1,
            final(self)@ == old(self)@.with_created(sender, recipient, metadata, now),
    {
        let id = self.counter + 1;
        self.counter = id;
        let record = DeliveryRecord {
            delivery_id: id,
            sender,
            recipient,
            driver: None,
            status: DeliveryStatus::Pending,
            metadata,
            created_at: now,
            delivered_at: None,
            transit_started_at: None,
        };
        self.deliveries.insert(id, record);
        self.by_sender.push(sender, id);
        self.by_recipient.push(recipient, id);
        id
    }

    /// Creates a `Pending` delivery from `sender` to `recipient` at `now`,
    /// numbered one past the last. Returns its id.
    pub fn create_delivery(&mut self, sender: Addr, recipient: Addr, metadata: DeliveryMetadata, now: u64) -> (r:
        Result<u64, DeliveryFailure>)
        requires
            metadata_valid(metadata) ==> {
                &&& old(self)@.counter < u64::MAX
                &&& has_room(old(self)@.by_sender, sender, 1)
                &&& has_room(old(self)@.by_recipient, recipient, 1)
            },
        ensures
            match r {
                Ok(id) => {
                    &&& metadata_valid(metadata)
                    &&& id == old(self)@.counter + 1
                    &&& final(self)@ == old(self)@.with_created(sender, recipient, metadata, now)
                },
                Err(e) => !metadata_valid(metadata) && final(self)@ == old(self)@ && e
                    == DeliveryFailure::Delivery(DeliveryError::InvalidMetadata),
            },
    {
        if validate_delivery_metadata(&metadata).is_err() {
            return Err(DeliveryFailure::Delivery(DeliveryError::InvalidMetadata));
        }
        Ok(self.create_next(sender, recipient, metadata, now))
    }

    /// Creates one `Pending` delivery per entry of `metadata_list`, in
    /// order, all from `sender` to `recipient` at `now`. The entries are not
    /// checked against the metadata limits. Returns the new ids.
    pub fn create_deliveries_batch(
        &mut self,
        sender: Addr,
        recipient: Addr,
        metadata_list: Vec<DeliveryMetadata>,
        now: u64,
    ) -> (r: Result<Vec<u64>, DeliveryFailure>)
        requires
            metadata_list@.len() <= MAX_BATCH_SIZE ==> {
                &&& old(self)@.counter + metadata_list@.len() <= u64::MAX
                &&& has_room(old(self)@.by_sender, sender, metadata_list@.len() as int)
                &&& has_room(old(self)@.by_recipient, recipient, metadata_list@.len() as int)
            },
        ensures
            match r {
                Ok(ids) => {
                    &&& metadata_list@.len() <= MAX_BATCH_SIZE
                    &&& ids@ == Seq::new(
                        metadata_list@.len(),
                        |i: int| (old(self)@.counter + i + 1) as u64,
                    )
                    &&& final(self)@ == old(self)@.with_created_batch(
                        sender,
                        recipient,
                        metadata_list@,
                        now,
                    )
                },
                Err(e) => metadata_list@.len() > MAX_BATCH_SIZE && final(self)@ == old(self)@ && e
                    == DeliveryFailure::BatchTooLarge,
            },
    {
        if metadata_list.len() > MAX_BATCH_SIZE as usize {
            return Err(DeliveryFailure::BatchTooLarge);
        }
        let ghost list = metadata_list@;
        let ghost s0 = self@;
        let n = metadata_list.len();
        let mut rest = metadata_list;
        let mut ids: Vec<u64> = Vec::new();
        let mut k: usize = 0;
        while k < n
            invariant
                n == list.len() <= MAX_BATCH_SIZE,
                k <= n,
                rest@ == list.subrange(k as int, n as int),
                s0.counter + n <= u64::MAX,
                has_room(s0.by_sender, sender, n as int),
                has_room(s0.by_recipient, recipient, n as int),
                self@ == s0.with_created_batch(sender, recipient, list.take(k as int), now),
                self@.counter == s0.counter + k,
                ids_of(self@.by_sender, sender).len() == ids_of(s0.by_sender, sender).len() + k,
                ids_of(self@.by_recipient, recipient).len() == ids_of(s0.by_recipient, recipient).len() + k,
                ids@ == Seq::new(k as nat, |i: int| (s0.counter + i + 1) as u64),
            decreases n - k,
        {
            let metadata = rest.remove(0);
            assert(list.take(k + 1).drop_last() =~= list.take(k as int));
            assert(list.take(k + 1).last() == metadata);
            let id = self.create_next(sender, recipient, metadata, now);
            ids.push(id);
            k += 1;
            assert(rest@ =~= list.subrange(k as int, n as int));
            assert(ids@ =~= Seq::new(k as nat, |i: int| (s0.counter + i + 1) as u64));
        }
        assert(list.take(n as int) =~= list);
        Ok(ids)
    }

    /// The sender cancels a delivery; its escrow is refunded.
    pub fn cancel_delivery(&mut self, sender: Addr, delivery_id: u64) -> (r: Result<
        ContractCall,
        DeliveryFailure,
    >)
        ensures
            match r {
                Ok(call) => {
                    &&& old(self)@.cancel_failure(sender, delivery_id) is None
                    &&& call == (ContractCall::RefundEscrow {
                        escrow_contract: old(self)@.escrow_contract->0,
                        caller: sender,
                        delivery_id,
                    })
                    &&& final(self)@ == old(self)@.with_delivery(
                        delivery_id,
                        DeliveryRecord {
                            status: DeliveryStatus::Cancelled,
                            ..old(self)@.record(delivery_id)
                        },
                    )
                },
                Err(e) => final(self)@ == old(self)@ && old(self)@.cancel_failure(
                    sender,
                    delivery_id,
                ) == Some(e),
            },
    {
        let status = match self.deliveries.get(&delivery_id) {
            None => {
                return Err(DeliveryFailure::Protocol(FaniLabError::DeliveryNotFound));
            },
            Some(rec) => {
                if rec.sender != sender {
                    return Err(DeliveryFailure::Protocol(FaniLabError::Unauthorized));
                }
                rec.status
            },
        };
        if validate_transition(status, DeliveryStatus::Cancelled).is_err() {
            return Err(DeliveryFailure::Protocol(FaniLabError::InvalidState));
        }
        let escrow_contract = match self.escrow_contract {
            Some(a) => a,
            None => {
                return Err(DeliveryFailure::Protocol(FaniLabError::NotInitialized));
            },
        };
        let rec = self.take_record(delivery_id);
        self.store_record(delivery_id, DeliveryRecord { status: DeliveryStatus::Cancelled, ..rec });
        assert(self@.deliveries =~= old(self)@.deliveries.insert(
            delivery_id,
            DeliveryRecord { status: DeliveryStatus::Cancelled, ..old(self)@.record(delivery_id) },
        ));
        Ok(ContractCall::RefundEscrow { escrow_contract, caller: sender, delivery_id })
    }

    /// Assigns `driver` to a `Pending` delivery, which becomes `Active`. The
    /// admin may assign anyone; anyone else only themselves.
    pub fn assign_driver(&mut self, caller: Addr, delivery_id: u64, driver: Addr) -> (r: Result<
        (),
        DeliveryFailure,
    >)
        ensures
            match r {
                Ok(()) => old(self)@.assign_failure(caller, delivery_id, driver) is None
                    && final(self)@ == old(self)@.with_delivery(
                    delivery_id,
                    DeliveryRecord {
                        driver: Some(driver),
                        status: DeliveryStatus::Active,
                        ..old(self)@.record(delivery_id)
                    },
                ),
                Err(e) => final(self)@ == old(self)@ && old(self)@.assign_failure(
                    caller,
                    delivery_id,
                    driver,
                ) == Some(e),
            },
    {
        if !self.is_admin(caller) && caller != driver {
            return Err(DeliveryFailure::Protocol(FaniLabError::Unauthorized));
        }
        let status = match self.deliveries.get(&delivery_id) {
            None => {
                return Err(DeliveryFailure::Protocol(FaniLabError::DeliveryNotFound));
            },
            Some(rec) => {
                if driver == rec.sender || driver == rec.recipient {
                    return Err(DeliveryFailure::InvalidDriver);
                }
                rec.status
            },
        };
        if validate_transition(status, DeliveryStatus::Active).is_err() {
            return Err(DeliveryFailure::Protocol(FaniLabError::InvalidState));
        }
        let rec = self.take_record(delivery_id);
        self.store_record(
            delivery_id,
            DeliveryRecord { driver: Some(driver), status: DeliveryStatus::Active, ..rec },
        );
        assert(self@.deliveries =~= old(self)@.deliveries.insert(
            delivery_id,
            DeliveryRecord {
                driver: Some(driver),
                status: DeliveryStatus::Active,
                ..old(self)@.record(delivery_id)
            },
        ));
        Ok(())
    }

    /// The assigned driver starts transit of an `Active` delivery at `now`.
    pub fn mark_in_transit(&mut self, driver: Addr, delivery_id: u64, now: u64) -> (r: Result<
        (),
        DeliveryFailure,
    >)
        ensures
            match r {
                Ok(()) => old(self)@.transit_failure(driver, delivery_id) is None && final(self)@
                    == old(self)@.with_delivery(
                    delivery_id,
                    DeliveryRecord {
                        status: DeliveryStatus::InTransit,
                        transit_started_at: Some(now),
                        ..old(self)@.record(delivery_id)
                    },
                ),
                Err(e) => final(self)@ == old(self)@ && old(self)@.transit_failure(
                    driver,
                    delivery_id,
                ) == Some(e),
            },
    {
        let status = match self.deliveries.get(&delivery_id) {
            None => {
                return Err(DeliveryFailure::Protocol(FaniLabError::DeliveryNotFound));
            },
            Some(rec) => {
                match rec.driver {
                    Some(assigned) => {
                        if assigned != driver {
                            return Err(DeliveryFailure::Protocol(FaniLabError::Unauthorized));
                        }
                    },
                    None => {
                        return Err(DeliveryFailure::Protocol(FaniLabError::Unauthorized));
                    },
                }
                rec.status
            },
        };
        if validate_transition(status, DeliveryStatus::InTransit).is_err() {
            return Err(DeliveryFailure::Protocol(FaniLabError::InvalidState));
        }
        let rec = self.take_record(delivery_id);
        self.store_record(
            delivery_id,
            DeliveryRecord {
                status: DeliveryStatus::InTransit,
                transit_started_at: Some(now),
                ..rec
            },
        );
        assert(self@.deliveries =~= old(self)@.deliveries.insert(
            delivery_id,
            DeliveryRecord {
                status: DeliveryStatus::InTransit,
                transit_started_at: Some(now),
                ..old(self)@.record(delivery_id)
            },
        ));
        Ok(())
    }

    /// The recipient confirms a delivery at `now`: it becomes `Delivered`,
    /// its escrow moves to holdback, and the driver, if any, is credited.
    /// Returns the calls to make, in order.
    pub fn confirm_delivery(&mut self, recipient: Addr, delivery_id: u64, now: u64) -> (r: Result<
        Vec<ContractCall>,
        DeliveryFailure,
    >)
        ensures
            match r {
                Ok(calls) => {
                    &&& old(self)@.confirm_failure(recipient, delivery_id) is None
                    &&& calls@ == old(self)@.confirm_calls(recipient, delivery_id)
                    &&& final(self)@ == old(self)@.with_delivery(
                        delivery_id,
                        DeliveryRecord {
                            status: DeliveryStatus::Delivered,
                            delivered_at: Some(now),
                            ..old(self)@.record(delivery_id)
                        },
                    )
                },
                Err(e) => final(self)@ == old(self)@ && old(self)@.confirm_failure(
                    recipient,
                    delivery_id,
                ) == Some(e),
            },
    {
        let (status, driver, weight_grams, fragile) = match self.deliveries.get(&delivery_id) {
            None => {
                return Err(DeliveryFailure::Protocol(FaniLabError::DeliveryNotFound));
            },
            Some(rec) => {
                if recipient != rec.recipient {
                    return Err(DeliveryFailure::Protocol(FaniLabError::Unauthorized));
                }
                if let Some(d) = rec.driver {
                    if d == recipient || d == rec.sender {
                        return Err(DeliveryFailure::InvalidDelivery);
                    }
                }
                (
                    rec.status,
                    rec.driver,
                    rec.metadata.cargo_description.weight_grams,
                    rec.metadata.cargo_description.fragile,
                )
            },
        };
        if validate_transition(status, DeliveryStatus::Delivered).is_err() {
            return Err(DeliveryFailure::Protocol(FaniLabError::InvalidState));
        }
        let escrow_contract = match self.escrow_contract {
            Some(a) => a,
            None => {
                return Err(DeliveryFailure::Protocol(FaniLabError::NotInitialized));
            },
        };
        let mut calls: Vec<ContractCall> = Vec::new();
        calls.push(
            ContractCall::MarkHoldbackEscrow { escrow_contract, caller: recipient, delivery_id },
        );
        if let Some(d) = driver {
            if let Some(ic) = self.identity_contract {
                calls.push(
                    ContractCall::IncreaseReputation {
                        identity_contract: ic,
                        caller: self.this,
                        driver: d,
                        delivery_id,
                        weight_grams,
                        fragile,
                    },
                );
            }
        }
        let rec = self.take_record(delivery_id);
        self.store_record(
            delivery_id,
            DeliveryRecord { status: DeliveryStatus::Delivered, delivered_at: Some(now), ..rec },
        );
        assert(self@.deliveries =~= old(self)@.deliveries.insert(
            delivery_id,
            DeliveryRecord {
                status: DeliveryStatus::Delivered,
                delivered_at: Some(now),
                ..old(self)@.record(delivery_id)
            },
        ));
        assert(calls@ =~= old(self)@.confirm_calls(recipient, delivery_id));
        Ok(calls)
    }

    /// The sender or recipient disputes a delivery; its escrow is frozen.
    pub fn raise_dispute(&mut self, caller: Addr, delivery_id: u64) -> (r: Result<
        ContractCall,
        DeliveryFailure,
    >)
        ensures
            match r {
                Ok(call) => {
                    &&& old(self)@.dispute_failure(caller, delivery_id) is None
                    &&& call == (ContractCall::RaiseEscrowDispute {
                        escrow_contract: old(self)@.escrow_contract->0,
                        caller,
                        delivery_id,
                    })
                    &&& final(self)@ == old(self)@.with_delivery(
                        delivery_id,
                        DeliveryRecord {
                            status: DeliveryStatus::Disputed,
                            ..old(self)@.record(delivery_id)
                        },
                    )
                },
                Err(e) => final(self)@ == old(self)@ && old(self)@.dispute_failure(
                    caller,
                    delivery_id,
                ) == Some(e),
            },
    {
        let status = match self.deliveries.get(&delivery_id) {
            None => {
                return Err(DeliveryFailure::Protocol(FaniLabError::DeliveryNotFound));
            },
            Some(rec) => {
                if caller != rec.sender && caller != rec.recipient {
                    return Err(DeliveryFailure::Protocol(FaniLabError::Unauthorized));
                }
                rec.status
            },
        };
        if validate_transition(status, DeliveryStatus::Disputed).is_err() {
            return Err(DeliveryFailure::Protocol(FaniLabError::InvalidState));
        }
        let escrow_contract = match self.escrow_contract {
            Some(a) => a,
            None => {
                return Err(DeliveryFailure::Protocol(FaniLabError::NotInitialized));
            },
        };
        let rec = self.take_record(delivery_id);
        self.store_record(delivery_id, DeliveryRecord { status: DeliveryStatus::Disputed, ..rec });
        assert(self@.deliveries =~= old(self)@.deliveries.insert(
            delivery_id,
            DeliveryRecord { status: DeliveryStatus::Disputed, ..old(self)@.record(delivery_id) },
        ));
        Ok(ContractCall::RaiseEscrowDispute { escrow_contract, caller, delivery_id })
    }

    /// The driver profile stored here for `driver`, or a blank one
    /// registered at `now`.
    pub fn get_driver_profile(&self, driver: Addr, now: u64) -> (r: DriverProfile)
        ensures
            r == if self@.driver_profiles.contains_key(driver) {
                self@.driver_profiles[driver]
            } else {
                DriverProfile {
                    address: driver,
                    deliveries_completed: 0,
                    reputation_score: 0,
                    registered_at: now,
                    kyc_verified: false,
                }
            },
    {
        match self.driver_profiles.get(&driver) {
            Some(p) => *p,
            None => DriverProfile {
                address: driver,
                deliveries_completed: 0,
                reputation_score: 0,
                registered_at: now,
                kyc_verified: false,
            },
        }
    }

    /// The delivery `delivery_id`.
    pub fn get_delivery(&self, delivery_id: u64) -> (r: Result<&DeliveryRecord, DeliveryFailure>)
        ensures
            match r {
                Ok(rec) => self@.deliveries.contains_key(delivery_id) && *rec == self@.record(
                    delivery_id,
                ),
                Err(e) => !self@.deliveries.contains_key(delivery_id) && e
                    == DeliveryFailure::Protocol(FaniLabError::DeliveryNotFound),
            },
    {
        match self.deliveries.get(&delivery_id) {
            Some(rec) => Ok(rec),
            None => Err(DeliveryFailure::Protocol(FaniLabError::DeliveryNotFound)),
        }
    }

    /// The delivery `delivery_id` beside `escrow`, its escrow as the escrow
    /// contract reports it, and whether the two are in agreeing states.
    pub fn get_combined_state(&self, delivery_id: u64, escrow: EscrowRecord) -> (r: Result<
        (&DeliveryRecord, EscrowRecord, bool),
        DeliveryFailure,
    >)
        ensures
            match r {
                Ok((rec, e, in_sync)) => {
                    &&& self@.deliveries.contains_key(delivery_id)
                    &&& self@.escrow_contract is Some
                    &&& *rec == self@.record(delivery_id)
                    &&& e == escrow
                    &&& in_sync == states_in_sync(rec.status, escrow.status)
                },
                Err(e) => if !self@.deliveries.contains_key(delivery_id) {
                    e == DeliveryFailure::Protocol(FaniLabError::DeliveryNotFound)
                } else {
                    self@.escrow_contract is None && e == DeliveryFailure::EscrowNotConfigured
                },
            },
    {
        let rec = self.get_delivery(delivery_id)?;
        if self.escrow_contract.is_none() {
            return Err(DeliveryFailure::EscrowNotConfigured);
        }
        let in_sync = validate_state_sync(rec, &escrow);
        Ok((rec, escrow, in_sync))
    }

    /// The ids of the deliveries `sender` created, oldest first.
    pub fn get_deliveries_by_sender(&self, sender: Addr) -> (r: Vec<u64>)
        ensures
            r@ == ids_of(self@.by_sender, sender),
    {
        self.by_sender.all(sender)
    }

    /// The ids of the deliveries addressed to `recipient`, oldest first.
    pub fn get_deliveries_by_recipient(&self, recipient: Addr) -> (r: Vec<u64>)
        ensures
            r@ == ids_of(self@.by_recipient, recipient),
    {
        self.by_recipient.all(recipient)
    }
}

/// Delivered and Cancelled are terminal: no transition leaves them, and no
/// status may transition to itself.
pub proof fn law_terminal_statuses(to: DeliveryStatus, s: DeliveryStatus)
    ensures
        !transition_allowed(DeliveryStatus::Delivered, to),
        !transition_allowed(DeliveryStatus::Cancelled, to),
        !transition_allowed(s, s),
{
}

/// Every stored delivery's id is at most the last id handed out.
pub open spec fn ids_issued(v: DeliveryView) -> bool {
    forall|id: u64| #[trigger] v.deliveries.contains_key(id) ==> id <= v.counter
}

/// Creating a delivery never replaces an existing one: the new id is past
/// every id handed out, the others keep their records, and the new record
/// is a `Pending` delivery under the new id.
pub proof fn law_creation_never_overwrites(
    v: DeliveryView,
    sender: Addr,
    recipient: Addr,
    metadata: DeliveryMetadata,
    now: u64,
)
    requires
        ids_issued(v),
        v.counter < u64::MAX,
    ensures
        ({
            let w = v.with_created(sender, recipient, metadata, now);
            let id = (v.counter + 1) as u64;
            &&& !v.deliveries.contains_key(id)
            &&& w.deliveries.remove(id) == v.deliveries
            &&& w.deliveries[id].status == DeliveryStatus::Pending
            &&& w.deliveries[id].delivery_id == id
            &&& ids_issued(w)
        }),
{
    let id = (v.counter + 1) as u64;
    let w = v.with_created(sender, recipient, metadata, now);
    assert(w.deliveries.remove(id) =~= v.deliveries);
}

/// Status changes of existing deliveries keep every id issued.
pub proof fn law_updates_keep_ids_issued(v: DeliveryView, id: u64, rec: DeliveryRecord)
    requires
        ids_issued(v),
        v.deliveries.contains_key(id),
    ensures
        ids_issued(v.with_delivery(id, rec)),
{
}

/// A batch of deliveries from `sender` to `recipient` at `now` numbers them
/// consecutively after the last id handed out: the `i`-th entry becomes a
/// `Pending` delivery from `sender` to `recipient` with that entry's
/// metadata, created at `now`, with no driver yet. Deliveries that existed
/// keep their records, and the new ids are appended, in order, to
/// `sender`'s and `recipient`'s lists.
pub proof fn law_batch_creates_each_delivery(
    v: DeliveryView,
    sender: Addr,
    recipient: Addr,
    list: Seq<DeliveryMetadata>,
    now: u64,
)
    requires
        v.counter + list.len() <= u64::MAX,
    ensures
        ({
            let w = v.with_created_batch(sender, recipient, list, now);
            let new_ids = Seq::new(list.len(), |i: int| (v.counter + i + 1) as u64);
            &&& w.counter == v.counter + list.len()
            &&& forall|i: int|
                0 <= i < list.len() ==> w.deliveries.contains_key(#[trigger] new_ids[i])
                    && w.deliveries[new_ids[i]] == (DeliveryRecord {
                    delivery_id: new_ids[i],
                    sender,
                    recipient,
                    driver: None,
                    status: DeliveryStatus::Pending,
                    metadata: list[i],
                    created_at: now,
                    delivered_at: None,
                    transit_started_at: None,
                })
            &&& forall|id: u64|
                id <= v.counter ==> (#[trigger] w.deliveries.contains_key(id) == v.deliveries.contains_key(
                    id,
                ) && (v.deliveries.contains_key(id) ==> w.deliveries[id] == v.deliveries[id]))
            &&& ids_of(w.by_sender, sender) == ids_of(v.by_sender, sender) + new_ids
            &&& ids_of(w.by_recipient, recipient) == ids_of(v.by_recipient, recipient) + new_ids
        }),
    decreases list.len(),
{
    let new_ids = Seq::new(list.len(), |i: int| (v.counter + i + 1) as u64);
    if list.len() == 0 {
        assert(ids_of(v.by_sender, sender) + new_ids =~= ids_of(v.by_sender, sender));
        assert(ids_of(v.by_recipient, recipient) + new_ids =~= ids_of(v.by_recipient, recipient));
    } else {
        let pre = list.drop_last();
        let last = list.len() - 1;
        law_batch_creates_each_delivery(v, sender, recipient, pre, now);
        let u = v.with_created_batch(sender, recipient, pre, now);
        let w = v.with_created_batch(sender, recipient, list, now);
        let pre_ids = Seq::new(pre.len(), |i: int| (v.counter + i + 1) as u64);
        let id = (v.counter + list.len()) as u64;
        assert(w == u.with_created(sender, recipient, list.last(), now));
        assert(new_ids =~= pre_ids.push(id));
        assert forall|i: int| 0 <= i < list.len() implies w.deliveries.contains_key(#[trigger] new_ids[i])
            && w.deliveries[new_ids[i]] == (DeliveryRecord {
            delivery_id: new_ids[i],
            sender,
            recipient,
            driver: None,
            status: DeliveryStatus::Pending,
            metadata: list[i],
            created_at: now,
            delivered_at: None,
            transit_started_at: None,
        }) by {
            if i < last {
                assert(pre_ids[i] == new_ids[i]);
                assert(pre[i] == list[i]);
            }
        }
        assert(ids_of(w.by_sender, sender) =~= ids_of(u.by_sender, sender).push(id));
        assert(ids_of(w.by_sender, sender) =~= ids_of(v.by_sender, sender) + new_ids);
        assert(ids_of(w.by_recipient, recipient) =~= ids_of(u.by_recipient, recipient).push(id));
        assert(ids_of(w.by_recipient, recipient) =~= ids_of(v.by_recipient, recipient) + new_ids);
    }
}

/// Creating a delivery gives it the next id and records it as a `Pending`
/// delivery from `sender` to `recipient` with the given metadata, created
/// at `now`, with no driver yet; its id is appended to `sender`'s and
/// `recipient`'s lists.
pub proof fn law_creation_records_the_delivery(
    v: DeliveryView,
    sender: Addr,
    recipient: Addr,
    metadata: DeliveryMetadata,
    now: u64,
)
    requires
        v.counter < u64::MAX,
    ensures
        ({
            let w = v.with_created(sender, recipient, metadata, now);
            let id = (v.counter + 1) as u64;
            &&& w.counter == id
            &&& w.deliveries.contains_key(id)
            &&& w.deliveries[id] == (DeliveryRecord {
                delivery_id: id,
                sender,
                recipient,
                driver: None,
                status: DeliveryStatus::Pending,
                metadata,
                created_at: now,
                delivered_at: None,
                transit_started_at: None,
            })
            &&& ids_of(w.by_sender, sender) == ids_of(v.by_sender, sender).push(id)
            &&& ids_of(w.by_recipient, recipient) == ids_of(v.by_recipient, recipient).push(id)
        }),
{
}

} // verus!
