//! The settlement engine: creation and validation of prediction records.
//!
//! Both operations are pure: they read plain inputs — a balance, a pair of
//! oracle snapshots, the current time — and return the resulting record or
//! error. The hosting environment persists records, moves staked funds and
//! supplies snapshots; it must commit the record returned by
//! [`create_prediction`] and the escrow transfer of [`escrow_amount`] as one
//! atomic unit, persisting nothing when the transfer fails.

use vstd::prelude::*;
use crate::error::SettlementError;
use crate::price::{decide_outcome, prediction_correct};
use crate::record::{
    record_wf, Direction, PredictionRecord, PredictionState, PriceSnapshot, ProductSnapshot,
    TestRecord,
};
use crate::{BID_AMOUNT_EXPONENT, MINIMUM_HOLDOUT_SEC};

verus! {

/// Configuration the engine is constructed with, in place of compiled-in
/// globals.
#[derive(Clone, Copy, Debug, PartialEq, Eq, Structural)]
pub struct SettlementConfig {
    /// Shortest holdout period a prediction may be created with, in seconds.
    pub minimum_holdout_sec: u64,
    /// Multiplier from a human-denominated stake to its on-ledger unit.
    pub stake_scale: u64,
}

impl SettlementConfig {
    /// The configuration the deployed program runs with.
    pub fn standard() -> (r: SettlementConfig)
        ensures
            r.minimum_holdout_sec == MINIMUM_HOLDOUT_SEC,
            r.stake_scale == BID_AMOUNT_EXPONENT,
    {
        SettlementConfig { minimum_holdout_sec: MINIMUM_HOLDOUT_SEC, stake_scale: BID_AMOUNT_EXPONENT }
    }
}

/// A balance is sufficient when it strictly exceeds the scaled stake.
pub open spec fn sufficient_funds(balance: int, bid_amount: int, scale: int) -> bool {
    balance > bid_amount * scale
}

/// The fund-sufficiency gate. A balance exactly equal to the scaled stake is
/// insufficient; a stake whose scaling overflows is rejected outright.
pub fn has_enough_funds(balance: u64, bid_amount: u64, scale: u64) -> (r: Result<
    bool,
    SettlementError,
>)
    ensures
        bid_amount * scale > u64::MAX <==> r == Err::<bool, SettlementError>(
            SettlementError::ArithmeticOverflow,
        ),
        bid_amount * scale <= u64::MAX ==> r == Ok::<bool, SettlementError>(
            sufficient_funds(balance as int, bid_amount as int, scale as int),
        ),
{
    match bid_amount.checked_mul(scale) {
        Some(scaled) => Ok(balance > scaled),
        None => Err(SettlementError::ArithmeticOverflow),
    }
}

/// The amount the escrow must move for a stake: the bid scaled to its
/// on-ledger unit, with overflow rejected rather than wrapped.
pub fn escrow_amount(cfg: &SettlementConfig, bid_amount: u64) -> (r: Result<u64, SettlementError>)
    ensures
        bid_amount * cfg.stake_scale > u64::MAX <==> r == Err::<u64, SettlementError>(
            SettlementError::ArithmeticOverflow,
        ),
        bid_amount * cfg.stake_scale <= u64::MAX ==> r == Ok::<u64, SettlementError>(
            (bid_amount * cfg.stake_scale) as u64,
        ),
{
    match bid_amount.checked_mul(cfg.stake_scale) {
        Some(scaled) => Ok(scaled),
        None => Err(SettlementError::ArithmeticOverflow),
    }
}

/// The asset symbol a product snapshot carries: the value of its last
/// `"symbol"` attribute, or the empty string when there is none.
pub open spec fn symbol_of(attrs: Seq<(String, String)>) -> Seq<char>
    decreases attrs.len(),
{
    if attrs.len() == 0 {
        Seq::empty()
    } else if attrs.last().0@ == "symbol"@ {
        attrs.last().1@
    } else {
        symbol_of(attrs.drop_last())
    }
}

/// Scans product metadata for the `"symbol"` key; later entries win.
fn extract_symbol(attrs: &Vec<(String, String)>) -> (r: String)
    ensures
        r@ == symbol_of(attrs@),
{
    let key: String = "symbol".to_owned();
    let mut result: String = String::new();
    let mut i: usize = 0;
    while i < attrs.len()
        invariant
            i <= attrs@.len(),
            key@ == "symbol"@,
            result@ == symbol_of(attrs@.take(i as int)),
        decreases attrs@.len() - i,
    {
        proof {
            assert(attrs@.take(i + 1).drop_last() =~= attrs@.take(i as int));
            assert(attrs@.take(i + 1).last() == attrs@[i as int]);
        }
        if attrs[i].0 == key {
            result = attrs[i].1.clone();
        }
        i = i + 1;
    }
    proof {
        assert(attrs@.take(attrs@.len() as int) =~= attrs@);
    }
    result
}

/// Creates a prediction record.
///
/// The record is rejected when the holdout period is below the configured
/// minimum, when scaling the stake overflows, or when the bidder's balance
/// does not strictly exceed the scaled stake; no partial state arises on any
/// error. On success the record binds the oracle references, the entry price
/// and the expiry time, and is handed back open, ready to be persisted
/// together with the escrow transfer.
pub fn create_prediction(
    cfg: &SettlementConfig,
    direction: Direction,
    holdout_period_sec: u64,
    bid_amount: u64,
    product: &ProductSnapshot,
    price: &PriceSnapshot,
    bidder_identity: &String,
    bidder_balance: u64,
    now: i64,
) -> (result: Result<PredictionRecord, SettlementError>)
    requires
        bid_amount >= 1,
        now + holdout_period_sec <= i64::MAX,
    ensures
        holdout_period_sec < cfg.minimum_holdout_sec <==> result == Err::<
            PredictionRecord,
            SettlementError,
        >(SettlementError::InsufficientHoldout),
        (holdout_period_sec >= cfg.minimum_holdout_sec && bid_amount * cfg.stake_scale
            > u64::MAX) <==> result == Err::<PredictionRecord, SettlementError>(
            SettlementError::ArithmeticOverflow,
        ),
        (holdout_period_sec >= cfg.minimum_holdout_sec && bid_amount * cfg.stake_scale <= u64::MAX
            && !sufficient_funds(
            bidder_balance as int,
            bid_amount as int,
            cfg.stake_scale as int,
        )) <==> result == Err::<PredictionRecord, SettlementError>(
            SettlementError::InsufficientFunds,
        ),
        (holdout_period_sec >= cfg.minimum_holdout_sec && bid_amount * cfg.stake_scale <= u64::MAX
            && sufficient_funds(
            bidder_balance as int,
            bid_amount as int,
            cfg.stake_scale as int,
        )) <==> result is Ok,
        result matches Ok(r) ==> {
            &&& r.direction == direction
            &&& r.asset_symbol@ == symbol_of(product.attrs@)
            &&& r.bidder_identity@ == bidder_identity@
            &&& r.oracle_product_ref@ == product.reference_id@
            &&& r.oracle_price_ref@ == price.reference_id@
            &&& r.entry_price == price.price
            &&& r.entry_exponent == price.expo
            &&& r.bid_amount == bid_amount
            &&& r.created_at == now
            &&& r.expiry_at == now + holdout_period_sec
            &&& r.validation_at is None
            &&& r.validation_price is None
            &&& r.validation_exponent is None
            &&& r.is_correct is None
            &&& r.state == PredictionState::Open
            &&& record_wf(r)
        },
{
    if holdout_period_sec < cfg.minimum_holdout_sec {
        return Err(SettlementError::InsufficientHoldout);
    }
    let sufficient = match has_enough_funds(bidder_balance, bid_amount, cfg.stake_scale) {
        Ok(b) => b,
        Err(e) => {
            return Err(e);
        },
    };
    if !sufficient {
        return Err(SettlementError::InsufficientFunds);
    }
    let asset_symbol = extract_symbol(&product.attrs);
    let expiry_at: i64 = now.checked_add_unsigned(holdout_period_sec).unwrap();
    Ok(
        PredictionRecord {
            direction,
            asset_symbol,
            bidder_identity: bidder_identity.clone(),
            oracle_product_ref: product.reference_id.clone(),
            oracle_price_ref: price.reference_id.clone(),
            entry_price: price.price,
            entry_exponent: price.expo,
            bid_amount,
            created_at: now,
            expiry_at,
            validation_at: None,
            validation_price: None,
            validation_exponent: None,
            is_correct: None,
            state: PredictionState::Open,
        },
    )
}

/// A record is ready for validation when it is still open, carries an asset
/// symbol, its holdout has elapsed, and the presented price feed is the one
/// captured at creation.
pub open spec fn validation_ready(r: PredictionRecord, price_ref: Seq<char>, now: int) -> bool {
    &&& r.state == PredictionState::Open
    &&& r.asset_symbol@.len() > 0
    &&& now > r.expiry_at
    &&& price_ref == r.oracle_price_ref@
}

/// What validation does to a record: nothing unless the record is ready;
/// otherwise it captures the validation snapshot, decides the outcome and
/// moves the record to its terminal state.
pub open spec fn validate_model(r: PredictionRecord, price: PriceSnapshot, now: i64) -> PredictionRecord {
    if validation_ready(r, price.reference_id@, now as int) {
        PredictionRecord {
            validation_at: Some(now),
            validation_price: Some(price.price),
            validation_exponent: Some(price.expo),
            is_correct: Some(
                prediction_correct(
                    r.direction,
                    r.entry_price as int,
                    r.entry_exponent as int,
                    price.price as int,
                    price.expo as int,
                ),
            ),
            state: PredictionState::Validated,
            ..r
        }
    } else {
        r
    }
}

/// Validates a prediction record against a fresh price snapshot.
///
/// When the record is not ready — not yet due, already validated, missing
/// its symbol, or presented with the wrong price feed — the record comes
/// back unchanged; [`validation_status`] tells those cases apart. When it is
/// ready, the outcome is decided by exact fixed-point comparison of the
/// entry and validation prices and the record becomes terminal. A correct
/// outcome is the hosting environment's cue to pay out; that hook is an
/// extension point outside this engine.
pub fn validate_prediction(record: PredictionRecord, price: &PriceSnapshot, now: i64) -> (result:
    PredictionRecord)
    ensures
        result == validate_model(record, *price, now),
        !validation_ready(record, price.reference_id@, now as int) ==> result == record,
        validation_ready(record, price.reference_id@, now as int) ==> result.state
            == PredictionState::Validated && result.is_correct == Some(
            prediction_correct(
                record.direction,
                record.entry_price as int,
                record.entry_exponent as int,
                price.price as int,
                price.expo as int,
            ),
        ),
        record_wf(record) ==> record_wf(result),
{
    let ready = record.state == PredictionState::Open && !record.asset_symbol.as_str().is_empty()
        && now > record.expiry_at && price.reference_id == record.oracle_price_ref;
    if !ready {
        return record;
    }
    let is_correct = decide_outcome(
        record.direction,
        record.entry_price,
        record.entry_exponent,
        price.price,
        price.expo,
    );
    PredictionRecord {
        validation_at: Some(now),
        validation_price: Some(price.price),
        validation_exponent: Some(price.expo),
        is_correct: Some(is_correct),
        state: PredictionState::Validated,
        ..record
    }
}

/// Why a record cannot be validated right now, or `Ok` when it can.
///
/// Closes the signalling gap of the silent no-op: callers can tell a record
/// that is not yet due from one whose price feed does not match, from one
/// that is already terminal.
pub fn validation_status(record: &PredictionRecord, price_ref: &String, now: i64) -> (result:
    Result<(), SettlementError>)
    ensures
        record.state == PredictionState::Validated <==> result == Err::<(), SettlementError>(
            SettlementError::AlreadyValidated,
        ),
        (record.state == PredictionState::Open && record.asset_symbol@.len() == 0) <==> result
            == Err::<(), SettlementError>(SettlementError::MissingAssetSymbol),
        (record.state == PredictionState::Open && record.asset_symbol@.len() > 0 && now
            <= record.expiry_at) <==> result == Err::<(), SettlementError>(
            SettlementError::NotYetDue,
        ),
        (record.state == PredictionState::Open && record.asset_symbol@.len() > 0 && now
            > record.expiry_at && price_ref@ != record.oracle_price_ref@) <==> result == Err::<
            (),
            SettlementError,
        >(SettlementError::OracleReferenceMismatch),
        result is Ok <==> validation_ready(*record, price_ref@, now as int),
{
    if record.state == PredictionState::Validated {
        return Err(SettlementError::AlreadyValidated);
    }
    if record.asset_symbol.as_str().is_empty() {
        return Err(SettlementError::MissingAssetSymbol);
    }
    if now <= record.expiry_at {
        return Err(SettlementError::NotYetDue);
    }
    if !(*price_ref == record.oracle_price_ref) {
        return Err(SettlementError::OracleReferenceMismatch);
    }
    Ok(())
}

/// Probes the two wallets involved in a bid and records what they hold,
/// beside a ten-unit reference stake in on-ledger units.
pub fn checking_it(
    cfg: &SettlementConfig,
    user_token_wallet_amount: u64,
    betting_pool_token_wallet_amount: u64,
) -> (r: TestRecord)
    requires
        10 * cfg.stake_scale <= u64::MAX,
    ensures
        r.direction@ == Seq::<char>::empty(),
        r.bid_amount == 10 * cfg.stake_scale,
        r.bidder_token_wallet_account_amount == user_token_wallet_amount,
        r.betting_pool_token_wallet_account_amount == betting_pool_token_wallet_amount,
{
    TestRecord {
        direction: String::new(),
        bid_amount: 10 * cfg.stake_scale,
        bidder_token_wallet_account_amount: user_token_wallet_amount,
        betting_pool_token_wallet_account_amount: betting_pool_token_wallet_amount,
    }
}

} // verus!
