//! Domain types shared by the contracts: errors, escrow and delivery records,
//! profiles, and the token transfers the contracts ask their host to make.

use vstd::prelude::*;

verus! {

/// An account or contract identity. The host's address objects are interned
/// to these integers at the contract boundary; two addresses are the same
/// exactly when their identities are equal.
pub type Addr = u64;

/// Errors shared across the protocol's contracts.
#[derive(Clone, Copy, Debug, PartialEq, Eq, Structural)]
pub enum FaniLabError {
    NotInitialized,
    AlreadyInitialized,
    Unauthorized,
    InvalidState,
    DeliveryNotFound,
    ProviderNotFound,
    ProtocolPaused,
}

/// Lifecycle of the funds held for one delivery.
#[derive(Clone, Copy, Debug, PartialEq, Eq, Structural)]
pub enum EscrowStatus {
    /// Funds are held; the delivery is pending, active or in transit.
    Locked,
    /// Funds were paid out to the driver (or the fleet treasury).
    Released,
    /// Funds were returned to the sender.
    Refunded,
    /// Funds are frozen by an active dispute.
    Paused,
    /// The recipient confirmed delivery; funds are earmarked for the driver.
    Holdback,
    /// A dispute was settled by splitting the funds.
    Split,
}

/// The escrow held for one delivery.
#[derive(Clone, Copy, Debug, PartialEq, Eq, Structural)]
pub struct EscrowRecord {
    pub sender: Addr,
    pub recipient: Addr,
    pub driver: Addr,
    pub token: Addr,
    pub amount: i128,
    pub status: EscrowStatus,
    pub created_at: u64,
    pub expires_at: Option<u64>,
    pub disputed_by: Option<Addr>,
    pub disputed_at: Option<u64>,
    pub fleet_id: Option<u64>,
}

/// Protocol-wide settings of the escrow contract.
#[derive(Clone, Copy, Debug, PartialEq, Eq, Structural)]
pub struct ProtocolConfig {
    pub token: Addr,
    pub platform_fee_bps: u32,
    pub protocol_version: u32,
    pub slippage_tolerance_bps: u32,
}

/// A movement of `amount` units of `token` from `from` to `to`, performed by
/// the token contract on the escrow's behalf.
#[derive(Clone, Copy, Debug, PartialEq, Eq, Structural)]
pub struct Transfer {
    pub token: Addr,
    pub from: Addr,
    pub to: Addr,
    pub amount: i128,
}

/// Lifecycle of a delivery.
#[derive(Clone, Copy, Debug, PartialEq, Eq, Structural)]
pub enum DeliveryStatus {
    Pending,
    Active,
    InTransit,
    Delivered,
    Disputed,
    Cancelled,
}

/// What is being shipped.
#[derive(Clone, Copy, Debug, PartialEq, Eq, Structural)]
pub struct CargoDescriptor {
    pub weight_grams: u32,
    /// The cargo category's code; the contracts carry it without reading it.
    pub category: u32,
    pub fragile: bool,
}

/// Caller-supplied description of a delivery. `origin` and `destination`
/// are UTF-8 text, held as bytes.
#[derive(Clone, Debug)]
pub struct DeliveryMetadata {
    pub delivery_id: u64,
    pub origin: Vec<u8>,
    pub destination: Vec<u8>,
    pub cargo_description: CargoDescriptor,
    pub created_at: u64,
    pub estimated_delivery: u64,
}

/// A delivery as the delivery contract stores it.
#[derive(Clone, Debug)]
pub struct DeliveryRecord {
    pub delivery_id: u64,
    pub sender: Addr,
    pub recipient: Addr,
    pub driver: Option<Addr>,
    pub status: DeliveryStatus,
    pub metadata: DeliveryMetadata,
    pub created_at: u64,
    pub delivered_at: Option<u64>,
    pub transit_started_at: Option<u64>,
}

/// A registered driver's standing.
#[derive(Clone, Copy, Debug, PartialEq, Eq, Structural)]
pub struct DriverProfile {
    pub address: Addr,
    pub deliveries_completed: u32,
    pub reputation_score: u32,
    pub registered_at: u64,
    pub kyc_verified: bool,
}

/// A registered user.
#[derive(Clone, Copy, Debug, PartialEq, Eq, Structural)]
pub struct UserProfile {
    pub address: Addr,
    pub registered_at: u64,
}

} // verus!
