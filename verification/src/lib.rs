//! A milestone-based escrow engine.
//!
//! One payer locks funds for one performer. The funds leave custody milestone
//! by milestone, as each is approved by the payer or by an elapsed deadline.
//! This crate holds the record and its transition rules; custody, storage,
//! time and identity are the caller's to supply.

pub mod model;
pub mod rules;
pub mod contract;
pub mod laws;

pub use crate::contract::EscrowContract;
pub use crate::model::{
    DataKey, Escrow, EscrowError, EscrowState, EscrowView, Milestone, MilestoneStatus, Payout,
};
