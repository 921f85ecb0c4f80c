//! Verified core of the FaniLab logistics protocol: the escrow, delivery and
//! identity/reputation contracts as state machines over plain values.

pub mod math;
pub mod types;
pub mod entries;
pub mod index;
pub mod escrow;
pub mod delivery;
pub mod reputation;
pub mod escrow_laws;
