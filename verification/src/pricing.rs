//! Constant-product swap pricing.
//!
//! Pricing charges no trading fee: the full input amount enters the reserve
//! update, so the pool's reserve product never grows across a swap. That
//! choice is deliberate and is pinned by the contracts and the proofs here.
//! All multiplicative intermediates are carried in 128-bit width, wide
//! enough that no pricing step can overflow for 64-bit reserves and
//! amounts; `SwapError::CalculationOverflow` is therefore never returned.

use crate::errors::SwapError;
use vstd::arithmetic::div_mod::{
    lemma_div_is_ordered_by_denominator, lemma_div_multiples_vanish, lemma_div_pos_is_pos,
    lemma_fundamental_div_mod, lemma_mod_division_less_than_divisor,
};
use vstd::arithmetic::mul::lemma_mul_inequality;
use vstd::prelude::*;

verus! {

/// A single trade may move the output reserve by at most a tenth,
/// measured in basis points of the pre-swap output reserve.
pub const MAX_PRICE_IMPACT_BPS: u128 = 1000;

/// The exact output amount of a swap: with `k = reserve_in * reserve_out`
/// and the input reserve updated by the full input amount, the output
/// reserve becomes `k / (reserve_in + amount_in)` (integer division,
/// truncating toward zero, the remainder retained by the pool) and the
/// difference is paid out.
pub open spec fn spec_amount_out(reserve_in: u64, reserve_out: u64, amount_in: u64) -> int {
    reserve_out - (reserve_in * reserve_out) / (reserve_in + amount_in)
}

/// The price impact of a trade in basis points of the pre-swap output
/// reserve, truncating toward zero.
pub open spec fn spec_price_impact_bps(reserve_in: u64, reserve_out: u64, amount_in: u64) -> int {
    spec_amount_out(reserve_in, reserve_out, amount_in) * 10000 / (reserve_out as int)
}

/// The pricing checks, in the order they are applied: reserves present,
/// a positive input, the slippage guard, then the price-impact guard.
pub open spec fn spec_swap_succeeds(
    reserve_in: u64,
    reserve_out: u64,
    amount_in: u64,
    min_amount_out: u64,
) -> bool {
    &&& reserve_in > 0
    &&& reserve_out > 0
    &&& amount_in > 0
    &&& spec_amount_out(reserve_in, reserve_out, amount_in) >= min_amount_out
    &&& spec_price_impact_bps(reserve_in, reserve_out, amount_in) <= MAX_PRICE_IMPACT_BPS
}

/// With no fee charged, a successful swap never grows the reserve product:
/// the post-swap reserves `(reserve_in + amount_in, k / (reserve_in +
/// amount_in))` have a product of at most `k = reserve_in * reserve_out`,
/// and within one divisor of it; the output amount is exactly the
/// truncated-division difference and never exceeds the pre-swap output
/// reserve.
pub proof fn lemma_swap_product_bounds(reserve_in: u64, reserve_out: u64, amount_in: u64)
    requires
        reserve_in > 0,
        reserve_out > 0,
    ensures
        ({
            let k = reserve_in * reserve_out;
            let new_reserve_in = reserve_in + amount_in;
            let new_reserve_out = k / new_reserve_in;
            &&& 0 <= new_reserve_out <= reserve_out
            &&& new_reserve_in * new_reserve_out <= k
            &&& k - new_reserve_in < new_reserve_in * new_reserve_out
            &&& 0 <= spec_amount_out(reserve_in, reserve_out, amount_in) <= reserve_out
        }),
{
    let k = reserve_in * reserve_out;
    let new_reserve_in = reserve_in + amount_in;
    let new_reserve_out = k / new_reserve_in;
    assert(reserve_in * reserve_out >= 0) by (nonlinear_arith)
        requires
            reserve_in >= 0,
            reserve_out >= 0,
    ;
    lemma_div_pos_is_pos(k, new_reserve_in);
    lemma_div_is_ordered_by_denominator(k, reserve_in as int, new_reserve_in);
    lemma_div_multiples_vanish(reserve_out as int, reserve_in as int);
    assert(k / (reserve_in as int) == reserve_out);
    lemma_fundamental_div_mod(k, new_reserve_in);
    lemma_mod_division_less_than_divisor(k, new_reserve_in);
    assert(new_reserve_in * new_reserve_out == k - k % new_reserve_in);
}

/// Computes a swap against fresh reserves. The checks run in order:
/// an empty pool is refused, then a zero input, then the constant-product
/// output is computed exactly and held against the caller's minimum and
/// against the price-impact bound. The contract pins the result for every
/// input: each error comes on exactly the stated inputs, and success
/// returns exactly the truncated constant-product output, which never
/// exceeds the pre-swap output reserve — the pool can always pay it.
pub fn compute_swap(reserve_in: u64, reserve_out: u64, amount_in: u64, min_amount_out: u64) -> (r:
    Result<u64, SwapError>)
    ensures
        (reserve_in == 0 || reserve_out == 0) ==> r == Err::<u64, SwapError>(
            SwapError::PoolIsEmpty,
        ),
        reserve_in > 0 && reserve_out > 0 && amount_in == 0 ==> r == Err::<u64, SwapError>(
            SwapError::ZeroAmount,
        ),
        reserve_in > 0 && reserve_out > 0 && amount_in > 0 && spec_amount_out(
            reserve_in,
            reserve_out,
            amount_in,
        ) < min_amount_out ==> r == Err::<u64, SwapError>(SwapError::SlippageExceeded),
        reserve_in > 0 && reserve_out > 0 && amount_in > 0 && spec_amount_out(
            reserve_in,
            reserve_out,
            amount_in,
        ) >= min_amount_out && spec_price_impact_bps(reserve_in, reserve_out, amount_in)
            > MAX_PRICE_IMPACT_BPS ==> r == Err::<u64, SwapError>(SwapError::ExcessivePriceImpact),
        spec_swap_succeeds(reserve_in, reserve_out, amount_in, min_amount_out) ==> (r matches Ok(v)
            && v == spec_amount_out(reserve_in, reserve_out, amount_in)),
        r is Ok <==> spec_swap_succeeds(reserve_in, reserve_out, amount_in, min_amount_out),
        r matches Ok(v) ==> v <= reserve_out,
{
    if reserve_in == 0 || reserve_out == 0 {
        return Err(SwapError::PoolIsEmpty);
    }
    if amount_in == 0 {
        return Err(SwapError::ZeroAmount);
    }
    let reserve_in_wide: u128 = reserve_in as u128;
    let reserve_out_wide: u128 = reserve_out as u128;
    let amount_in_wide: u128 = amount_in as u128;
    proof {
        lemma_swap_product_bounds(reserve_in, reserve_out, amount_in);
        assert(reserve_in * reserve_out <= u64::MAX * u64::MAX) by (nonlinear_arith)
            requires
                0 <= reserve_in <= u64::MAX,
                0 <= reserve_out <= u64::MAX,
        ;
    }
    let constant_product: u128 = reserve_in_wide * reserve_out_wide;
    let new_reserve_in: u128 = reserve_in_wide + amount_in_wide;
    let new_reserve_out: u128 = constant_product / new_reserve_in;
    let amount_out_wide: u128 = reserve_out_wide - new_reserve_out;
    let amount_out: u64 = amount_out_wide as u64;
    if amount_out < min_amount_out {
        return Err(SwapError::SlippageExceeded);
    }
    proof {
        lemma_mul_inequality(amount_out_wide as int, u64::MAX as int, 10000);
    }
    let price_impact_bps: u128 = amount_out_wide * 10000 / reserve_out_wide;
    if price_impact_bps > MAX_PRICE_IMPACT_BPS {
        return Err(SwapError::ExcessivePriceImpact);
    }
    Ok(amount_out)
}

} // verus!
