//! Deposits into a pool, bounded by the caller's caps on each asset.
use vstd::prelude::*;

use crate::math::{deposit_result, plan_deposit};
use crate::oracle::{ltwap_refresh, refresh_ltwap};
use crate::state::{Address, Amm, AmmPosition, ErrorCode, Transfer};

verus! {

/// The records a deposit works on, with the calling program and the current slot.
#[derive(Clone, Copy, Debug)]
pub struct AddLiquidity {
    pub amm: Amm,
    pub amm_position: AmmPosition,
    pub caller_program: Address,
    pub current_slot: u64,
}

impl AddLiquidity {
    /// The pool is well formed and the position owns no more than the pool's total.
    pub open spec fn wf(&self) -> bool {
        self.amm.wf() && self.amm_position.ownership <= self.amm.total_ownership
    }
}

/// The error a deposit with these caps ends in, checked in this order, or
/// `None` when it goes through.
pub open spec fn add_liquidity_error(ctx: AddLiquidity, max_base: u64, max_quote: u64) -> Option<
    ErrorCode,
> {
    if max_base == 0 || max_quote == 0 {
        Some(ErrorCode::InvalidAmount)
    } else if !ctx.amm.admits(ctx.caller_program) {
        Some(ErrorCode::UnauthorizedCaller)
    } else if ltwap_refresh(ctx.amm, ctx.current_slot) is None {
        Some(ErrorCode::MathOverflow)
    } else {
        match deposit_result(ctx.amm, max_base, max_quote) {
            Err(e) => Some(e),
            Ok(d) => if ctx.amm.total_ownership + d.2 > u64::MAX || ctx.amm.base_amount + d.0
                > u64::MAX || ctx.amm.quote_amount + d.1 > u64::MAX {
                Some(ErrorCode::MathOverflow)
            } else {
                None
            },
        }
    }
}

/// How a deposit relates the records before (`pre`) and after (`post`) to its
/// result `r`. A rejected deposit changes nothing. An accepted one refreshes the
/// accumulator from the reserves as they stood before, adds the deposit to the
/// reserves and the minted ownership to the position and to the pool's total,
/// and returns what the user sends to the vaults.
pub open spec fn add_liquidity_post(
    pre: AddLiquidity,
    post: AddLiquidity,
    max_base: u64,
    max_quote: u64,
    r: Result<Transfer, ErrorCode>,
) -> bool {
    match add_liquidity_error(pre, max_base, max_quote) {
        Some(e) => r == Err::<Transfer, ErrorCode>(e) && post == pre,
        None => {
            let d = deposit_result(pre.amm, max_base, max_quote)->Ok_0;
            let refreshed = ltwap_refresh(pre.amm, pre.current_slot)->Some_0;
            &&& r matches Ok(t) && t.base_amount == d.0 && t.quote_amount == d.1
            &&& post.amm.same_identity(pre.amm)
            &&& post.amm.base_amount == pre.amm.base_amount + d.0
            &&& post.amm.quote_amount == pre.amm.quote_amount + d.1
            &&& post.amm.total_ownership == pre.amm.total_ownership + d.2
            &&& post.amm.ltwap_last_updated_slot == refreshed.0
            &&& post.amm.ltwap_cumulative_price == refreshed.1
            &&& post.amm_position.user == pre.amm_position.user
            &&& post.amm_position.amm == pre.amm_position.amm
            &&& post.amm_position.ownership == pre.amm_position.ownership + d.2
            &&& post.caller_program == pre.caller_program
            &&& post.current_slot == pre.current_slot
        },
    }
}

/// Deposits at most `max_base_amount` base and `max_quote_amount` quote into
/// the pool, in proportion to its reserves, and mints ownership for them.
pub fn handler(ctx: &mut AddLiquidity, max_base_amount: u64, max_quote_amount: u64) -> (r: Result<
    Transfer,
    ErrorCode,
>)
    requires
        old(ctx).wf(),
    ensures
        add_liquidity_post(*old(ctx), *final(ctx), max_base_amount, max_quote_amount, r),
        final(ctx).wf(),
{
    if max_base_amount == 0 || max_quote_amount == 0 {
        return Err(ErrorCode::InvalidAmount);
    }
    if let Err(e) = ctx.amm.check_caller(&ctx.caller_program) {
        return Err(e);
    }
    let (slot, cumulative) = match refresh_ltwap(&ctx.amm, ctx.current_slot) {
        Some(v) => v,
        None => {
            return Err(ErrorCode::MathOverflow);
        },
    };
    let deposit = match plan_deposit(&ctx.amm, max_base_amount, max_quote_amount) {
        Ok(d) => d,
        Err(e) => {
            return Err(e);
        },
    };
    let total = match ctx.amm.total_ownership.checked_add(deposit.ownership) {
        Some(v) => v,
        None => {
            return Err(ErrorCode::MathOverflow);
        },
    };
    let base = match ctx.amm.base_amount.checked_add(deposit.base_amount) {
        Some(v) => v,
        None => {
            return Err(ErrorCode::MathOverflow);
        },
    };
    let quote = match ctx.amm.quote_amount.checked_add(deposit.quote_amount) {
        Some(v) => v,
        None => {
            return Err(ErrorCode::MathOverflow);
        },
    };
    // An empty pool has no other owner: the position takes the whole total.
    let position = if ctx.amm.total_ownership == 0 {
        deposit.ownership
    } else {
        ctx.amm_position.ownership + deposit.ownership
    };
    ctx.amm.ltwap_last_updated_slot = slot;
    ctx.amm.ltwap_cumulative_price = cumulative;
    ctx.amm.total_ownership = total;
    ctx.amm.base_amount = base;
    ctx.amm.quote_amount = quote;
    ctx.amm_position.ownership = position;
    Ok(Transfer { base_amount: deposit.base_amount, quote_amount: deposit.quote_amount })
}

} // verus!
