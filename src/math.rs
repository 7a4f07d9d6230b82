//! Deposit sizing and withdrawal shares, over exact integers.
use vstd::arithmetic::div_mod::{
    lemma_div_is_ordered,
    lemma_fundamental_div_mod,
    lemma_multiply_divide_le,
    lemma_multiply_divide_lt,
};
use vstd::arithmetic::mul::{lemma_mul_inequality, lemma_mul_strict_inequality};
use vstd::prelude::*;

use crate::convert::u128_to_u64;
use crate::state::{Amm, ErrorCode};
use crate::BPS_SCALE;

verus! {

/// What a deposit moves into the pool and the ownership it mints.
#[derive(Clone, Copy, Debug, PartialEq, Eq, Structural)]
pub struct Deposit {
    pub base_amount: u64,
    pub quote_amount: u64,
    pub ownership: u64,
}

/// What a withdrawal moves out of the pool and the ownership it burns.
#[derive(Clone, Copy, Debug, PartialEq, Eq, Structural)]
pub struct Withdrawal {
    pub base_amount: u64,
    pub quote_amount: u64,
    pub ownership: u64,
}

/// The deposit `(base, quote, minted ownership)` under caps `max_base` and
/// `max_quote`, or `None` when neither direction of the ratio solve meets both
/// caps. An empty pool takes both caps and mints the larger of them; otherwise
/// the base cap is tried first and the quote cap is the fallback.
pub open spec fn deposit_spec(base: int, quote: int, total: int, max_base: int, max_quote: int) -> Option<
    (int, int, int),
> {
    if total == 0 {
        Some((max_base, max_quote, if max_base >= max_quote { max_base } else { max_quote }))
    } else {
        let quote_required = max_base * quote / base;
        if quote_required <= max_quote {
            Some((max_base, quote_required, max_base * total / base))
        } else {
            let base_required = max_quote * base / quote;
            if base_required > max_base {
                None
            } else {
                Some((base_required, max_quote, base_required * total / base))
            }
        }
    }
}

/// `deposit_spec` on a pool, with the minted ownership required to fit in a `u64`.
pub open spec fn deposit_result(amm: Amm, max_base: u64, max_quote: u64) -> Result<
    (int, int, int),
    ErrorCode,
> {
    match deposit_spec(
        amm.base_amount as int,
        amm.quote_amount as int,
        amm.total_ownership as int,
        max_base as int,
        max_quote as int,
    ) {
        None => Err(ErrorCode::AddLiquidityCalculationError),
        Some(d) => if d.2 > u64::MAX {
            Err(ErrorCode::MathOverflow)
        } else {
            Ok(d)
        },
    }
}

/// The withdrawal `(base out, quote out, burned ownership)` of `bps` basis
/// points of a position owning `ownership`, or `None` when a reserve times the
/// ownership times `bps` does not fit in a `u128`.
pub open spec fn withdraw_spec(base: int, quote: int, total: int, ownership: int, bps: int) -> Option<
    (int, int, int),
> {
    if base * ownership * bps > u128::MAX || quote * ownership * bps > u128::MAX {
        None
    } else {
        Some(
            (
                base * ownership * bps / (BPS_SCALE as int) / total,
                quote * ownership * bps / (BPS_SCALE as int) / total,
                ownership * bps / (BPS_SCALE as int),
            ),
        )
    }
}

pub(crate) proof fn lemma_u64_product_fits(x: u64, y: u64)
    ensures
        0 <= x * y <= u128::MAX,
{
    assert(0 <= x * y <= 0xffff_ffff_ffff_ffffu64 * 0xffff_ffff_ffff_ffffu64) by (nonlinear_arith)
        requires
            x <= 0xffff_ffff_ffff_ffffu64,
            y <= 0xffff_ffff_ffff_ffffu64,
    ;
}

/// A share `num / den` of `x`, rounded down, is at most `x`.
pub proof fn lemma_share_le(x: int, num: int, den: int)
    requires
        0 <= x,
        0 <= num <= den,
        0 < den,
    ensures
        0 <= x * num / den <= x,
{
    lemma_mul_inequality(num, den, x);
    assert(x * num <= den * x) by (nonlinear_arith)
        requires
            num * x <= den * x,
    ;
    lemma_multiply_divide_le(x * num, den, x);
    assert(0 <= x * num) by (nonlinear_arith)
        requires
            0 <= x,
            0 <= num,
    ;
    lemma_div_is_ordered(0, x * num, den);
}

/// A share `num / den` of a positive `x` with `num < den`, rounded down, is
/// below `x`.
pub proof fn lemma_share_lt(x: int, num: int, den: int)
    requires
        0 < x,
        0 <= num < den,
    ensures
        x * num / den < x,
{
    lemma_mul_strict_inequality(num, den, x);
    assert(x * num < den * x) by (nonlinear_arith)
        requires
            num * x < den * x,
    ;
    lemma_multiply_divide_lt(x * num, den, x);
}

/// When the base-first direction exceeds the quote cap, the quote-capped
/// direction always stays within the base cap, so on a non-empty pool
/// `deposit_spec` never reports an infeasible deposit.
pub proof fn lemma_fallback_within_base_cap(base: int, quote: int, max_base: int, max_quote: int)
    requires
        0 < base,
        0 < quote,
        0 <= max_base,
        0 <= max_quote,
        max_base * quote / base > max_quote,
    ensures
        max_quote * base / quote < max_base,
{
    let qr = max_base * quote / base;
    lemma_fundamental_div_mod(max_base * quote, base);
    assert(base * qr <= max_base * quote);
    lemma_mul_inequality(max_quote + 1, qr, base);
    assert(max_quote * base < quote * max_base) by (nonlinear_arith)
        requires
            base * qr <= max_base * quote,
            (max_quote + 1) * base <= qr * base,
            0 < base,
    ;
    lemma_multiply_divide_lt(max_quote * base, quote, max_base);
}

/// Sizes a deposit against the pool's current reserves.
pub fn plan_deposit(amm: &Amm, max_base: u64, max_quote: u64) -> (r: Result<Deposit, ErrorCode>)
    requires
        amm.wf(),
    ensures
        match deposit_result(*amm, max_base, max_quote) {
            Ok(d) => r matches Ok(p) && p.base_amount == d.0 && p.quote_amount == d.1
                && p.ownership == d.2,
            Err(e) => r == Err::<Deposit, ErrorCode>(e),
        },
{
    if amm.total_ownership == 0 {
        let ownership = if max_base >= max_quote {
            max_base
        } else {
            max_quote
        };
        return Ok(Deposit { base_amount: max_base, quote_amount: max_quote, ownership });
    }
    let base = amm.base_amount as u128;
    let quote = amm.quote_amount as u128;
    proof {
        lemma_u64_product_fits(max_base, amm.quote_amount);
        lemma_u64_product_fits(max_quote, amm.base_amount);
    }
    let quote_required = (max_base as u128) * quote / base;
    let mut base_in: u64 = max_base;
    let mut quote_in: u64 = max_quote;
    if quote_required <= max_quote as u128 {
        quote_in = quote_required as u64;
    } else {
        let base_required = (max_quote as u128) * base / quote;
        if base_required > max_base as u128 {
            return Err(ErrorCode::AddLiquidityCalculationError);
        }
        base_in = base_required as u64;
    }
    proof {
        lemma_u64_product_fits(base_in, amm.total_ownership);
    }
    let minted = (base_in as u128) * (amm.total_ownership as u128) / base;
    match u128_to_u64(minted) {
        Some(ownership) => Ok(Deposit { base_amount: base_in, quote_amount: quote_in, ownership }),
        None => Err(ErrorCode::MathOverflow),
    }
}

/// The base or quote amount that a withdrawal hands out is at most the reserve;
/// strictly less while ownership remains, and the whole reserve once none does.
pub proof fn lemma_withdraw_bounds(reserve: int, total: int, ownership: int, bps: int)
    requires
        0 < reserve,
        0 < ownership <= total,
        0 < bps <= BPS_SCALE,
    ensures
        0 <= reserve * ownership * bps / (BPS_SCALE as int) / total <= reserve,
        total - ownership * bps / (BPS_SCALE as int) > 0 ==> reserve * ownership * bps / (
        BPS_SCALE as int) / total < reserve,
        total - ownership * bps / (BPS_SCALE as int) == 0 ==> reserve * ownership * bps / (
        BPS_SCALE as int) / total == reserve,
        0 <= ownership * bps / (BPS_SCALE as int) <= ownership,
{
    let s = BPS_SCALE as int;
    let held = reserve * ownership;
    assert(0 < held) by (nonlinear_arith)
        requires
            held == reserve * ownership,
            0 < reserve,
            0 < ownership,
    ;
    lemma_share_le(held, bps, s);
    lemma_share_le(ownership, bps, s);
    let scaled = held * bps / s;
    lemma_div_is_ordered(scaled, held, total);
    lemma_share_le(reserve, ownership, total);
    lemma_div_is_ordered(0, scaled, total);
    let burned = ownership * bps / s;
    if bps < s {
        lemma_share_lt(held, bps, s);
        lemma_share_lt(ownership, bps, s);
        lemma_div_is_ordered(scaled, held - 1, total);
        lemma_mul_inequality(ownership, total, reserve);
        assert(held - 1 < total * reserve) by (nonlinear_arith)
            requires
                ownership * reserve <= total * reserve,
                held == reserve * ownership,
        ;
        lemma_multiply_divide_lt(held - 1, total, reserve);
    } else {
        assert(ownership * bps / s == ownership) by (nonlinear_arith)
            requires
                bps == s,
                s > 0,
        ;
        assert(scaled == held) by (nonlinear_arith)
            requires
                bps == s,
                s > 0,
                scaled == held * bps / s,
        ;
        if ownership < total {
            lemma_share_lt(reserve, ownership, total);
        } else {
            assert(held / total == reserve) by (nonlinear_arith)
                requires
                    ownership == total,
                    total > 0,
                    held == reserve * ownership,
            ;
        }
    }
}

/// `withdraw_spec` on a pool, with an overflowing product reported as such.
pub open spec fn withdraw_result(amm: Amm, ownership: u64, bps: u64) -> Result<
    (int, int, int),
    ErrorCode,
> {
    match withdraw_spec(
        amm.base_amount as int,
        amm.quote_amount as int,
        amm.total_ownership as int,
        ownership as int,
        bps as int,
    ) {
        None => Err(ErrorCode::MathOverflow),
        Some(w) => Ok(w),
    }
}

/// Sizes the withdrawal of `bps` basis points of a position owning `ownership`.
pub fn plan_withdraw(amm: &Amm, ownership: u64, bps: u64) -> (r: Result<Withdrawal, ErrorCode>)
    requires
        amm.wf(),
        0 < ownership <= amm.total_ownership,
        0 < bps <= BPS_SCALE,
    ensures
        match withdraw_result(*amm, ownership, bps) {
            Ok(w) => r matches Ok(p) && p.base_amount == w.0 && p.quote_amount == w.1
                && p.ownership == w.2,
            Err(e) => r == Err::<Withdrawal, ErrorCode>(e),
        },
{
    proof {
        lemma_u64_product_fits(amm.base_amount, ownership);
        lemma_u64_product_fits(amm.quote_amount, ownership);
        lemma_u64_product_fits(ownership, bps);
        lemma_withdraw_bounds(
            amm.base_amount as int,
            amm.total_ownership as int,
            ownership as int,
            bps as int,
        );
        lemma_withdraw_bounds(
            amm.quote_amount as int,
            amm.total_ownership as int,
            ownership as int,
            bps as int,
        );
    }
    let base_scaled = match ((amm.base_amount as u128) * (ownership as u128)).checked_mul(
        bps as u128,
    ) {
        Some(v) => v,
        None => {
            return Err(ErrorCode::MathOverflow);
        },
    };
    let quote_scaled = match ((amm.quote_amount as u128) * (ownership as u128)).checked_mul(
        bps as u128,
    ) {
        Some(v) => v,
        None => {
            return Err(ErrorCode::MathOverflow);
        },
    };
    let scale = BPS_SCALE as u128;
    let total = amm.total_ownership as u128;
    let base_out = base_scaled / scale / total;
    let quote_out = quote_scaled / scale / total;
    let burned = (ownership as u128) * (bps as u128) / scale;
    Ok(
        Withdrawal {
            base_amount: base_out as u64,
            quote_amount: quote_out as u64,
            ownership: burned as u64,
        },
    )
}

} // verus!
