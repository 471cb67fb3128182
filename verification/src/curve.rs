use vstd::prelude::*;

use crate::errors::LedgerError;

verus! {

/// Decimal scale of the pool's fixed-point math: six decimal places.
pub const PRECISION: u64 = 1000000;

/// Basis-point denominator for fees.
pub const FEE_DENOMINATOR: u64 = 10000;

/// The fixed-point ratio `amount / supply`, scaled by `PRECISION`,
/// rounded down.
pub open spec fn spec_share_ratio(amount: u64, supply: u64) -> int
    recommends
        supply > 0,
{
    (amount * PRECISION) / (supply as int)
}

/// A balance scaled by the fixed-point share ratio, rounded down: the
/// proportional part of `balance` that `amount` out of `supply` shares
/// lays claim to.  `None` when the scaled product cannot be represented.
pub open spec fn spec_proportional(balance: u64, amount: u64, supply: u64) -> Option<u64>
    recommends
        supply > 0,
{
    let v = (balance * spec_share_ratio(amount, supply)) / (PRECISION as int);
    if v > u64::MAX {
        None
    } else {
        Some(v as u64)
    }
}

/// The pair of pool balances that `amount` out of `supply` liquidity
/// shares corresponds to, both rounded down.  `None` on overflow.
pub open spec fn spec_pair_amounts(x: u64, y: u64, supply: u64, amount: u64) -> Option<(u64, u64)>
    recommends
        supply > 0,
{
    match (spec_proportional(x, amount, supply), spec_proportional(y, amount, supply)) {
        (Some(xa), Some(ya)) => Some((xa, ya)),
        _ => None,
    }
}

/// One proportional amount, computed in 128-bit fixed-point arithmetic.
fn proportional(balance: u64, amount: u64, supply: u64) -> (r: Result<u64, LedgerError>)
    requires
        supply > 0,
    ensures
        r is Ok <==> spec_proportional(balance, amount, supply) is Some,
        r is Err ==> r == Err::<u64, LedgerError>(LedgerError::ArithmeticOverflow),
        r is Ok ==> Some(r.unwrap()) == spec_proportional(balance, amount, supply),
{
    proof {
        assert(amount * PRECISION < u128::MAX) by (nonlinear_arith)
            requires
                amount <= u64::MAX,
        ;
    }
    let ratio: u128 = (amount as u128) * (PRECISION as u128) / (supply as u128);
    assert(ratio == spec_share_ratio(amount, supply));
    if ratio != 0 && balance as u128 > u128::MAX / ratio {
        proof {
            let q = u128::MAX as int / ratio as int;
            assert(balance * ratio > u128::MAX) by (nonlinear_arith)
                requires
                    ratio > 0,
                    balance > q,
                    q == u128::MAX as int / ratio as int,
            ;
            assert(balance * ratio / (PRECISION as int) >= (u128::MAX - PRECISION + 1) / (
            PRECISION as int)) by (nonlinear_arith)
                requires
                    balance * ratio > u128::MAX,
                    PRECISION > 0,
            ;
            assert((u128::MAX as int - PRECISION + 1) / (PRECISION as int) > u64::MAX);
        }
        return Err(LedgerError::ArithmeticOverflow);
    }
    proof {
        if ratio != 0 {
            let q = u128::MAX as int / ratio as int;
            assert(balance * ratio <= q * ratio) by (nonlinear_arith)
                requires
                    ratio > 0,
                    balance <= q,
            ;
            assert(q * ratio <= u128::MAX) by {
                vstd::arithmetic::div_mod::lemma_fundamental_div_mod(
                    u128::MAX as int,
                    ratio as int,
                );
                assert(ratio * q <= u128::MAX);
                assert(q * ratio == ratio * q) by (nonlinear_arith);
            }
        } else {
            assert(balance * ratio == 0) by (nonlinear_arith)
                requires
                    ratio == 0,
            ;
        }
    }
    let scaled: u128 = (balance as u128) * ratio;
    let v: u128 = scaled / (PRECISION as u128);
    if v > u64::MAX as u128 {
        return Err(LedgerError::ArithmeticOverflow);
    }
    Ok(v as u64)
}

/// The pool balances owed to `amount` out of `supply` liquidity shares:
/// proportional in both assets, rounded down, in fixed-point precision of
/// six decimals.  Fails `ArithmeticOverflow` when a scaled product cannot
/// be represented.
pub fn pair_amounts_from_shares(x: u64, y: u64, supply: u64, amount: u64) -> (r: Result<
    (u64, u64),
    LedgerError,
>)
    requires
        supply > 0,
    ensures
        r is Ok <==> spec_pair_amounts(x, y, supply, amount) is Some,
        r is Err ==> r == Err::<(u64, u64), LedgerError>(LedgerError::ArithmeticOverflow),
        r is Ok ==> Some(r.unwrap()) == spec_pair_amounts(x, y, supply, amount),
{
    let xa = match proportional(x, amount, supply) {
        Ok(v) => v,
        Err(e) => { return Err(e) },
    };
    let ya = match proportional(y, amount, supply) {
        Ok(v) => v,
        Err(e) => { return Err(e) },
    };
    Ok((xa, ya))
}

/// The input amount that remains after the fee, in basis points, is taken
/// off, rounded down.
pub open spec fn spec_after_fee(amount_in: u64, fee: u16) -> int
    recommends
        fee < FEE_DENOMINATOR,
{
    (amount_in * (FEE_DENOMINATOR - fee)) / (FEE_DENOMINATOR as int)
}

/// The output the constant-product rule grants for `amount_in` of the
/// input-side reserve: `reserve_out * a / (reserve_in + a)` with `a` the
/// input after fee, rounded down.  `None` when the pool is empty on the
/// input side and the trade brings nothing in.
pub open spec fn spec_swap_output(reserve_in: u64, reserve_out: u64, fee: u16, amount_in: u64) ->
    Option<u64>
    recommends
        fee < FEE_DENOMINATOR,
{
    let a = spec_after_fee(amount_in, fee);
    if reserve_in + a == 0 {
        None
    } else {
        Some(((reserve_out * a) / (reserve_in + a)) as u64)
    }
}

/// Computes the constant-product output for a trade.
///
/// The output never exceeds the output-side reserve, so the pool can
/// always pay it.  A trade into a pool whose input side is empty and
/// which brings nothing in has no quote — its division has nothing to
/// divide by — and fails `ArithmeticOverflow`, the code under which every
/// failure of the curve arithmetic surfaces.
pub fn swap_output(reserve_in: u64, reserve_out: u64, fee: u16, amount_in: u64) -> (r: Result<
    u64,
    LedgerError,
>)
    requires
        fee < FEE_DENOMINATOR,
    ensures
        r is Ok <==> spec_swap_output(reserve_in, reserve_out, fee, amount_in) is Some,
        r is Err ==> r == Err::<u64, LedgerError>(LedgerError::ArithmeticOverflow),
        r is Ok ==> Some(r.unwrap()) == spec_swap_output(reserve_in, reserve_out, fee, amount_in),
        r is Ok ==> r.unwrap() <= reserve_out,
{
    let keep: u64 = FEE_DENOMINATOR - (fee as u64);
    proof {
        assert(amount_in * keep < u128::MAX) by (nonlinear_arith)
            requires
                amount_in <= u64::MAX,
                keep <= 10000,
        ;
    }
    let a: u128 = (amount_in as u128) * (keep as u128) / (FEE_DENOMINATOR as u128);
    proof {
        assert(a == spec_after_fee(amount_in, fee));
        assert(amount_in * keep <= amount_in * FEE_DENOMINATOR) by (nonlinear_arith)
            requires
                keep <= FEE_DENOMINATOR,
                amount_in >= 0,
        ;
        vstd::arithmetic::div_mod::lemma_div_is_ordered(
            (amount_in * keep) as int,
            (amount_in * FEE_DENOMINATOR) as int,
            FEE_DENOMINATOR as int,
        );
        vstd::arithmetic::div_mod::lemma_div_multiples_vanish(
            amount_in as int,
            FEE_DENOMINATOR as int,
        );
        assert(amount_in * FEE_DENOMINATOR == FEE_DENOMINATOR * amount_in) by (nonlinear_arith);
        assert(a <= amount_in);
    }
    let denom: u128 = (reserve_in as u128) + a;
    if denom == 0 {
        return Err(LedgerError::ArithmeticOverflow);
    }
    proof {
        assert(reserve_out * a < u128::MAX) by (nonlinear_arith)
            requires
                reserve_out <= u64::MAX,
                0 <= a <= u64::MAX,
        ;
    }
    let num: u128 = (reserve_out as u128) * a;
    let out: u128 = num / denom;
    proof {
        assert(reserve_out * a <= reserve_out * denom) by (nonlinear_arith)
            requires
                0 <= a <= denom,
                reserve_out >= 0,
        ;
        vstd::arithmetic::div_mod::lemma_div_is_ordered(
            (reserve_out * a) as int,
            (reserve_out * denom) as int,
            denom as int,
        );
        vstd::arithmetic::div_mod::lemma_div_multiples_vanish(reserve_out as int, denom as int);
        assert(reserve_out * denom == denom * reserve_out) by (nonlinear_arith);
        assert(out <= reserve_out);
    }
    Ok(out as u64)
}

} // verus!
