//! Data model: predicted direction, record lifecycle and oracle snapshots.

use vstd::prelude::*;

verus! {

/// Predicted direction of the asset's price.
#[derive(Clone, Copy, Debug, PartialEq, Eq, Structural)]
pub enum Direction {
    Up,
    Down,
}

/// Lifecycle state of a prediction record. `Validated` is terminal.
#[derive(Clone, Copy, Debug, PartialEq, Eq, Structural)]
pub enum PredictionState {
    Open,
    Validated,
}

/// Parses the wire form of a direction. Only the exact strings `"UP"` and
/// `"DOWN"` are accepted; anything else is rejected at the boundary.
pub fn parse_direction(s: &String) -> (r: Option<Direction>)
    ensures
        s@ == "UP"@ ==> r == Some(Direction::Up),
        s@ == "DOWN"@ ==> r == Some(Direction::Down),
        s@ != "UP"@ && s@ != "DOWN"@ ==> r is None,
{
    proof {
        reveal_strlit("UP");
        reveal_strlit("DOWN");
        assert("UP"@.len() != "DOWN"@.len());
        assert("UP"@ != "DOWN"@);
    }
    let up: String = "UP".to_owned();
    let down: String = "DOWN".to_owned();
    if *s == up {
        Some(Direction::Up)
    } else if *s == down {
        Some(Direction::Down)
    } else {
        None
    }
}

/// Point-in-time product descriptor published by the price oracle: a stable
/// reference id and key/value metadata that includes the asset symbol.
#[derive(Clone, Debug, PartialEq, Eq)]
pub struct ProductSnapshot {
    pub reference_id: String,
    pub attrs: Vec<(String, String)>,
}

/// Point-in-time price published by the price oracle. The denoted value is
/// `price * 10^expo`.
#[derive(Clone, Debug, PartialEq, Eq)]
pub struct PriceSnapshot {
    pub reference_id: String,
    pub price: i64,
    pub expo: i32,
}

/// One prediction, from creation through settlement. Owned by the ledger once
/// persisted; created by `create_prediction`, mutated at most once by
/// `validate_prediction`, never deleted by this core.
#[derive(Clone, Debug, PartialEq, Eq)]
pub struct PredictionRecord {
    /// Direction the bidder predicted.
    pub direction: Direction,
    /// Asset symbol taken from the product snapshot; empty when the snapshot
    /// carried none.
    pub asset_symbol: String,
    /// Opaque identifier of the bidder's wallet, fixed at creation.
    pub bidder_identity: String,
    /// Reference id of the oracle product consulted at creation.
    pub oracle_product_ref: String,
    /// Reference id of the oracle price feed; the feed presented at
    /// validation must carry this same id.
    pub oracle_price_ref: String,
    /// Fixed-point price captured at creation: value `entry_price * 10^entry_exponent`.
    pub entry_price: i64,
    pub entry_exponent: i32,
    /// Stake size before scaling; always at least 1.
    pub bid_amount: u64,
    /// Timestamp of creation.
    pub created_at: i64,
    /// End of the holdout period; validation needs `now > expiry_at`.
    pub expiry_at: i64,
    /// Set exactly once, at validation.
    pub validation_at: Option<i64>,
    /// Fixed-point price captured at validation.
    pub validation_price: Option<i64>,
    pub validation_exponent: Option<i32>,
    /// Outcome of the prediction; unset until validation, then never revised.
    pub is_correct: Option<bool>,
    pub state: PredictionState,
}

/// Well-formedness of a record: the stake is positive, expiry does not
/// precede creation, and the validation fields are set exactly when the
/// record has reached its validated state.
pub open spec fn record_wf(r: PredictionRecord) -> bool {
    &&& r.bid_amount >= 1
    &&& r.created_at <= r.expiry_at
    &&& (r.state == PredictionState::Open <==> r.is_correct is None)
    &&& (r.state == PredictionState::Open <==> r.validation_at is None)
    &&& (r.state == PredictionState::Open <==> r.validation_price is None)
    &&& (r.state == PredictionState::Open <==> r.validation_exponent is None)
}

/// Diagnostic record written by the wallet-probing entry point.
#[derive(Clone, Debug, PartialEq, Eq)]
pub struct TestRecord {
    pub direction: String,
    pub bid_amount: u64,
    pub bidder_token_wallet_account_amount: u64,
    pub betting_pool_token_wallet_account_amount: u64,
}

} // verus!
