//! Exact comparison of fixed-point prices.
//!
//! An oracle price is a pair of a signed mantissa `p` and a power-of-ten
//! exponent `e`, denoting the value `p * 10^e`. Settlement must compare two
//! such values exactly — a tie decided the wrong way moves funds — so the
//! comparison here is carried out on integers, never on floating point.

use vstd::prelude::*;
use vstd::arithmetic::mul::{
    lemma_mul_inequality, lemma_mul_strictly_positive, lemma_mul_unary_negation,
    lemma_mul_upper_bound,
};
use crate::record::Direction;

verus! {

/// `10^e`, as a mathematical integer.
pub open spec fn pow10(e: nat) -> int
    decreases e,
{
    if e == 0 {
        1
    } else {
        10 * pow10((e - 1) as nat)
    }
}

pub proof fn lemma_pow10_pos(e: nat)
    ensures
        pow10(e) >= 1,
    decreases e,
{
    if e > 0 {
        lemma_pow10_pos((e - 1) as nat);
    }
}

pub proof fn lemma_pow10_mono(a: nat, b: nat)
    requires
        a <= b,
    ensures
        pow10(a) <= pow10(b),
    decreases b,
{
    if a < b {
        lemma_pow10_mono(a, (b - 1) as nat);
        lemma_pow10_pos((b - 1) as nat);
    }
}

proof fn lemma_pow10_constants()
    ensures
        pow10(18) == 1000000000000000000,
        pow10(19) == 10000000000000000000,
{
    assert(pow10(0) == 1);
    assert(pow10(1) == 10);
    assert(pow10(2) == 100);
    assert(pow10(3) == 1000);
    assert(pow10(4) == 10000);
    assert(pow10(5) == 100000);
    assert(pow10(6) == 1000000);
    assert(pow10(7) == 10000000);
    assert(pow10(8) == 100000000);
    assert(pow10(9) == 1000000000);
    assert(pow10(10) == 10000000000);
    assert(pow10(11) == 100000000000);
    assert(pow10(12) == 1000000000000);
    assert(pow10(13) == 10000000000000);
    assert(pow10(14) == 100000000000000);
    assert(pow10(15) == 1000000000000000);
    assert(pow10(16) == 10000000000000000);
    assert(pow10(17) == 100000000000000000);
    assert(pow10(18) == 1000000000000000000);
    assert(pow10(19) == 10000000000000000000);
}

/// `p1 * 10^e1 < p2 * 10^e2`, after both values are brought to the smaller
/// of the two exponents, where both sides are integers.
pub open spec fn fixed_lt(p1: int, e1: int, p2: int, e2: int) -> bool {
    if e1 < e2 {
        p1 < p2 * pow10((e2 - e1) as nat)
    } else {
        p1 * pow10((e1 - e2) as nat) < p2
    }
}

/// `p1 * 10^e1 == p2 * 10^e2`, compared the same way as [`fixed_lt`].
pub open spec fn fixed_eq(p1: int, e1: int, p2: int, e2: int) -> bool {
    if e1 < e2 {
        p1 == p2 * pow10((e2 - e1) as nat)
    } else {
        p1 * pow10((e1 - e2) as nat) == p2
    }
}

/// With equal exponents, the comparison is the plain comparison of the
/// mantissas.
pub proof fn lemma_same_exponent_compares_mantissas(p1: int, p2: int, e: int)
    ensures
        fixed_lt(p1, e, p2, e) <==> p1 < p2,
        fixed_eq(p1, e, p2, e) <==> p1 == p2,
{
    assert(pow10(0) == 1);
    vstd::arithmetic::mul::lemma_mul_basics(p1);
    assert(p1 * pow10((e - e) as nat) == p1);
}

/// Shifting a digit from the exponent into the mantissa leaves the denoted
/// value unchanged.
pub proof fn lemma_digit_shift_same_value(p: int, e: int)
    ensures
        fixed_eq(10 * p, e, p, e + 1),
{
    assert(pow10(0) == 1);
    assert(pow10(1) == 10);
    assert(p * pow10(((e + 1) - e) as nat) == p * 10);
}

/// How the first fixed-point value stands to the second.
#[derive(Clone, Copy, Debug, PartialEq, Eq, Structural)]
pub enum PriceOrder {
    Below,
    Same,
    Above,
}

/// Magnitude of a signed 64-bit mantissa, wide enough to hold `|i64::MIN|`.
fn magnitude(x: i64) -> (r: u128)
    ensures
        x >= 0 ==> r == x,
        x < 0 ==> r == -(x as int),
{
    if x >= 0 {
        x as u128
    } else {
        (-(x as i128)) as u128
    }
}

/// `10^e`, computed exactly; the bound keeps the result far below `u128::MAX`.
fn pow10_u128(e: u64) -> (r: u128)
    requires
        e <= 18,
    ensures
        r == pow10(e as nat),
{
    let mut r: u128 = 1;
    let mut i: u64 = 0;
    while i < e
        invariant
            i <= e <= 18,
            r == pow10(i as nat),
        decreases e - i,
    {
        proof {
            assert(pow10((i + 1) as nat) == 10 * pow10(i as nat));
            lemma_pow10_mono((i + 1) as nat, 18);
            lemma_pow10_constants();
        }
        r = r * 10;
        i = i + 1;
    }
    r
}

/// Compares `a * 10^d` with `b`, exactly, for any shift `d`.
fn cmp_shifted(a: i64, d: u64, b: i64) -> (r: PriceOrder)
    ensures
        (r == PriceOrder::Below) <==> a * pow10(d as nat) < b,
        (r == PriceOrder::Same) <==> a * pow10(d as nat) == b,
        (r == PriceOrder::Above) <==> a * pow10(d as nat) > b,
{
    proof {
        lemma_pow10_pos(d as nat);
    }
    if a == 0 {
        if b > 0 {
            PriceOrder::Below
        } else if b < 0 {
            PriceOrder::Above
        } else {
            PriceOrder::Same
        }
    } else if a > 0 && b <= 0 {
        proof {
            lemma_mul_strictly_positive(a as int, pow10(d as nat));
        }
        PriceOrder::Above
    } else if a < 0 && b >= 0 {
        proof {
            lemma_mul_strictly_positive(-(a as int), pow10(d as nat));
            lemma_mul_unary_negation(a as int, pow10(d as nat));
        }
        PriceOrder::Below
    } else {
        // a and b are both nonzero and share a sign.
        let am = magnitude(a);
        let bm = magnitude(b);
        proof {
            // Relate the signed product to the product of magnitudes.
            lemma_mul_unary_negation(am as int, pow10(d as nat));
        }
        if d >= 19 {
            // |a| * 10^d >= 10^19, which exceeds any 64-bit magnitude.
            proof {
                lemma_pow10_constants();
                lemma_pow10_mono(19, d as nat);
                lemma_mul_inequality(1, am as int, pow10(d as nat));
            }
            if a > 0 {
                PriceOrder::Above
            } else {
                PriceOrder::Below
            }
        } else {
            let p = pow10_u128(d);
            proof {
                lemma_pow10_constants();
                lemma_pow10_mono(d as nat, 18);
                lemma_mul_upper_bound(
                    am as int,
                    0x8000000000000000,
                    p as int,
                    1000000000000000000,
                );
            }
            let lhs = am * p;
            if a > 0 {
                if lhs < bm {
                    PriceOrder::Below
                } else if lhs == bm {
                    PriceOrder::Same
                } else {
                    PriceOrder::Above
                }
            } else {
                if lhs > bm {
                    PriceOrder::Below
                } else if lhs == bm {
                    PriceOrder::Same
                } else {
                    PriceOrder::Above
                }
            }
        }
    }
}

/// Compares `p1 * 10^e1` with `p2 * 10^e2`, exactly.
pub fn fixed_cmp(p1: i64, e1: i32, p2: i64, e2: i32) -> (r: PriceOrder)
    ensures
        (r == PriceOrder::Below) <==> fixed_lt(p1 as int, e1 as int, p2 as int, e2 as int),
        (r == PriceOrder::Same) <==> fixed_eq(p1 as int, e1 as int, p2 as int, e2 as int),
        (r == PriceOrder::Above) <==> fixed_lt(p2 as int, e2 as int, p1 as int, e1 as int),
{
    let d: i64 = (e1 as i64) - (e2 as i64);
    proof {
        assert(pow10(0) == 1);
        if d == 0 {
            vstd::arithmetic::mul::lemma_mul_basics(p1 as int);
            vstd::arithmetic::mul::lemma_mul_basics(p2 as int);
            assert((p1 as int) * pow10(((e1 as int) - (e2 as int)) as nat) == p1 as int);
            assert((p2 as int) * pow10(((e2 as int) - (e1 as int)) as nat) == p2 as int);
        }
    }
    if d >= 0 {
        cmp_shifted(p1, d as u64, p2)
    } else {
        let swapped = cmp_shifted(p2, (-d) as u64, p1);
        match swapped {
            PriceOrder::Below => PriceOrder::Above,
            PriceOrder::Same => PriceOrder::Same,
            PriceOrder::Above => PriceOrder::Below,
        }
    }
}

/// Whether a prediction turned out right: `Up` is correct exactly when the
/// validation value strictly exceeds the entry value, `Down` exactly when it
/// is strictly below it. A tie is never correct.
pub open spec fn prediction_correct(
    d: Direction,
    entry_price: int,
    entry_expo: int,
    validation_price: int,
    validation_expo: int,
) -> bool {
    ||| (d == Direction::Up && fixed_lt(entry_price, entry_expo, validation_price, validation_expo))
    ||| (d == Direction::Down && fixed_lt(validation_price, validation_expo, entry_price, entry_expo))
}

/// Decides the outcome of a prediction from the entry and validation prices.
pub fn decide_outcome(
    d: Direction,
    entry_price: i64,
    entry_expo: i32,
    validation_price: i64,
    validation_expo: i32,
) -> (r: bool)
    ensures
        r == prediction_correct(
            d,
            entry_price as int,
            entry_expo as int,
            validation_price as int,
            validation_expo as int,
        ),
{
    let ord = fixed_cmp(entry_price, entry_expo, validation_price, validation_expo);
    match d {
        Direction::Up => ord == PriceOrder::Below,
        Direction::Down => ord == PriceOrder::Above,
    }
}

} // verus!
