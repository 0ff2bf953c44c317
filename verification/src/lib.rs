//! A prediction-settlement engine.
//!
//! A bidder stakes funds on the future direction (up or down) of an asset's
//! price. After a mandatory holdout period the engine consults a fresh price
//! snapshot and decides whether the prediction was correct. This crate holds
//! the settlement core: the record lifecycle, the fund-sufficiency gate, the
//! oracle-snapshot binding and the outcome rule. The ledger that persists
//! records, the escrow that moves funds and the oracle that publishes
//! snapshots are external collaborators; they hand the engine plain values
//! and receive plain values back.

use vstd::prelude::*;

pub mod error;
pub mod record;
pub mod price;
pub mod engine;
pub mod laws;

verus! {

/// Shortest holdout period, in seconds, that a prediction may be created with.
pub const MINIMUM_HOLDOUT_SEC: u64 = 5;

/// Multiplier that converts a human-denominated stake into its smallest
/// on-ledger unit.
pub const BID_AMOUNT_EXPONENT: u64 = 1000000000;

} // verus!
