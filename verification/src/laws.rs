//! Laws of the settlement engine, each stated and proved over the spec
//! functions that the public contracts use.

use vstd::prelude::*;
use crate::engine::{sufficient_funds, validate_model, validation_ready};
use crate::price::{fixed_eq, fixed_lt, pow10, prediction_correct};
use crate::record::{Direction, PredictionRecord, PredictionState, PriceSnapshot};

verus! {

/// The fund-sufficiency boundary is exclusive: a balance exactly equal to
/// the scaled stake is insufficient, for every stake and scale.
pub proof fn lemma_exact_scaled_balance_insufficient(stake: int, scale: int)
    ensures
        !sufficient_funds(stake * scale, stake, scale),
{
}

/// A tie is never correct: when the entry and validation prices denote the
/// same value, the outcome is `false` for either direction.
pub proof fn lemma_tie_never_correct(
    d: Direction,
    entry_price: int,
    entry_expo: int,
    validation_price: int,
    validation_expo: int,
)
    requires
        fixed_eq(entry_price, entry_expo, validation_price, validation_expo),
    ensures
        !prediction_correct(d, entry_price, entry_expo, validation_price, validation_expo),
{
}

/// The outcome is deterministic and exclusive: at most one direction can be
/// correct for a given pair of prices.
pub proof fn lemma_outcome_exclusive(
    entry_price: int,
    entry_expo: int,
    validation_price: int,
    validation_expo: int,
)
    ensures
        !(prediction_correct(
            Direction::Up,
            entry_price,
            entry_expo,
            validation_price,
            validation_expo,
        ) && prediction_correct(
            Direction::Down,
            entry_price,
            entry_expo,
            validation_price,
            validation_expo,
        )),
{
    assert(pow10(0) == 1);
    if entry_expo == validation_expo {
        vstd::arithmetic::mul::lemma_mul_basics(entry_price);
        vstd::arithmetic::mul::lemma_mul_basics(validation_price);
        assert(entry_price * pow10((entry_expo - validation_expo) as nat) == entry_price);
        assert(validation_price * pow10((validation_expo - entry_expo) as nat)
            == validation_price);
    }
}

/// A validated record is terminal: validating it again, with any snapshot
/// and at any time, changes nothing — in particular its recorded outcome.
pub proof fn lemma_validation_terminal(r: PredictionRecord, price: PriceSnapshot, now: i64)
    requires
        r.state == PredictionState::Validated,
    ensures
        validate_model(r, price, now) == r,
        validate_model(r, price, now).is_correct == r.is_correct,
{
}

/// Before its expiry has passed, validation leaves a record unchanged.
pub proof fn lemma_not_due_unchanged(r: PredictionRecord, price: PriceSnapshot, now: i64)
    requires
        now <= r.expiry_at,
    ensures
        validate_model(r, price, now) == r,
{
}

/// A price feed other than the one captured at creation cannot settle the
/// record: validation against it changes nothing.
pub proof fn lemma_reference_mismatch_unchanged(
    r: PredictionRecord,
    price: PriceSnapshot,
    now: i64,
)
    requires
        price.reference_id@ != r.oracle_price_ref@,
    ensures
        validate_model(r, price, now) == r,
{
}

/// Validation never touches what creation fixed: the direction, the oracle
/// references, the entry price, the stake and the two creation timestamps.
pub proof fn lemma_validation_preserves_creation_fields(
    r: PredictionRecord,
    price: PriceSnapshot,
    now: i64,
)
    ensures
        validate_model(r, price, now).direction == r.direction,
        validate_model(r, price, now).asset_symbol == r.asset_symbol,
        validate_model(r, price, now).bidder_identity == r.bidder_identity,
        validate_model(r, price, now).oracle_product_ref == r.oracle_product_ref,
        validate_model(r, price, now).oracle_price_ref == r.oracle_price_ref,
        validate_model(r, price, now).entry_price == r.entry_price,
        validate_model(r, price, now).entry_exponent == r.entry_exponent,
        validate_model(r, price, now).bid_amount == r.bid_amount,
        validate_model(r, price, now).created_at == r.created_at,
        validate_model(r, price, now).expiry_at == r.expiry_at,
{
}

/// When a record is ready, validation records the snapshot it was shown and
/// the outcome the fixed-point comparison dictates, and closes the record.
pub proof fn lemma_validation_settles(r: PredictionRecord, price: PriceSnapshot, now: i64)
    requires
        validation_ready(r, price.reference_id@, now as int),
    ensures
        validate_model(r, price, now).state == PredictionState::Validated,
        validate_model(r, price, now).validation_at == Some(now),
        validate_model(r, price, now).validation_price == Some(price.price),
        validate_model(r, price, now).validation_exponent == Some(price.expo),
        validate_model(r, price, now).is_correct == Some(
            prediction_correct(
                r.direction,
                r.entry_price as int,
                r.entry_exponent as int,
                price.price as int,
                price.expo as int,
            ),
        ),
        fixed_lt(
            r.entry_price as int,
            r.entry_exponent as int,
            price.price as int,
            price.expo as int,
        ) && r.direction == Direction::Up ==> validate_model(r, price, now).is_correct == Some(
            true,
        ),
{
}

} // verus!
