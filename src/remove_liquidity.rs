//! Withdraws a share of a position, and the same share of the reserves it owns.
use vstd::prelude::*;

use crate::math::{lemma_withdraw_bounds, plan_withdraw, withdraw_result};
use crate::oracle::{ltwap_refresh, refresh_ltwap};
use crate::state::{Address, Amm, AmmPosition, ErrorCode, Transfer};
use crate::BPS_SCALE;

verus! {

/// The records a withdrawal works on, with the calling program and the current slot.
#[derive(Clone, Copy, Debug)]
pub struct RemoveLiquidity {
    pub amm: Amm,
    pub amm_position: AmmPosition,
    pub caller_program: Address,
    pub current_slot: u64,
}

impl RemoveLiquidity {
    /// The pool is well formed and the position owns no more than the pool's total.
    pub open spec fn wf(&self) -> bool {
        self.amm.wf() && self.amm_position.ownership <= self.amm.total_ownership
    }
}

/// The error a withdrawal of `withdraw_bps` ends in, checked in this order, or
/// `None` when it goes through.
pub open spec fn remove_liquidity_error(ctx: RemoveLiquidity, withdraw_bps: u64) -> Option<
    ErrorCode,
> {
    if ctx.amm_position.ownership == 0 {
        Some(ErrorCode::EmptyPosition)
    } else if withdraw_bps == 0 || withdraw_bps > BPS_SCALE {
        Some(ErrorCode::InvalidWithdrawBps)
    } else if !ctx.amm.admits(ctx.caller_program) {
        Some(ErrorCode::UnauthorizedCaller)
    } else if ltwap_refresh(ctx.amm, ctx.current_slot) is None {
        Some(ErrorCode::MathOverflow)
    } else {
        match withdraw_result(ctx.amm, ctx.amm_position.ownership, withdraw_bps) {
            Err(e) => Some(e),
            Ok(_) => None,
        }
    }
}

/// How a withdrawal relates the records before (`pre`) and after (`post`) to
/// its result `r`. A rejected withdrawal changes nothing. An accepted one
/// refreshes the accumulator from the reserves as they stood before, takes the
/// amounts out of the reserves and the burned ownership off the position and
/// the pool's total, and returns what the vaults send to the user.
pub open spec fn remove_liquidity_post(
    pre: RemoveLiquidity,
    post: RemoveLiquidity,
    withdraw_bps: u64,
    r: Result<Transfer, ErrorCode>,
) -> bool {
    match remove_liquidity_error(pre, withdraw_bps) {
        Some(e) => r == Err::<Transfer, ErrorCode>(e) && post == pre,
        None => {
            let w = withdraw_result(pre.amm, pre.amm_position.ownership, withdraw_bps)->Ok_0;
            let refreshed = ltwap_refresh(pre.amm, pre.current_slot)->Some_0;
            &&& r matches Ok(t) && t.base_amount == w.0 && t.quote_amount == w.1
            &&& post.amm.same_identity(pre.amm)
            &&& post.amm.base_amount == pre.amm.base_amount - w.0
            &&& post.amm.quote_amount == pre.amm.quote_amount - w.1
            &&& post.amm.total_ownership == pre.amm.total_ownership - w.2
            &&& post.amm.ltwap_last_updated_slot == refreshed.0
            &&& post.amm.ltwap_cumulative_price == refreshed.1
            &&& post.amm_position.user == pre.amm_position.user
            &&& post.amm_position.amm == pre.amm_position.amm
            &&& post.amm_position.ownership == pre.amm_position.ownership - w.2
            &&& post.caller_program == pre.caller_program
            &&& post.current_slot == pre.current_slot
        },
    }
}

/// Withdraws `withdraw_bps` basis points of the position: burns that share of
/// its ownership and hands out the same share of the reserves it owns.
pub fn handler(ctx: &mut RemoveLiquidity, withdraw_bps: u64) -> (r: Result<Transfer, ErrorCode>)
    requires
        old(ctx).wf(),
    ensures
        remove_liquidity_post(*old(ctx), *final(ctx), withdraw_bps, r),
        final(ctx).wf(),
{
    if ctx.amm_position.ownership == 0 {
        return Err(ErrorCode::EmptyPosition);
    }
    if withdraw_bps == 0 || withdraw_bps > BPS_SCALE {
        return Err(ErrorCode::InvalidWithdrawBps);
    }
    if let Err(e) = ctx.amm.check_caller(&ctx.caller_program) {
        return Err(e);
    }
    let (slot, cumulative) = match refresh_ltwap(&ctx.amm, ctx.current_slot) {
        Some(v) => v,
        None => {
            return Err(ErrorCode::MathOverflow);
        },
    };
    let withdrawal = match plan_withdraw(&ctx.amm, ctx.amm_position.ownership, withdraw_bps) {
        Ok(w) => w,
        Err(e) => {
            return Err(e);
        },
    };
    proof {
        lemma_withdraw_bounds(
            ctx.amm.base_amount as int,
            ctx.amm.total_ownership as int,
            ctx.amm_position.ownership as int,
            withdraw_bps as int,
        );
        lemma_withdraw_bounds(
            ctx.amm.quote_amount as int,
            ctx.amm.total_ownership as int,
            ctx.amm_position.ownership as int,
            withdraw_bps as int,
        );
    }
    ctx.amm.ltwap_last_updated_slot = slot;
    ctx.amm.ltwap_cumulative_price = cumulative;
    ctx.amm_position.ownership = ctx.amm_position.ownership - withdrawal.ownership;
    ctx.amm.total_ownership = ctx.amm.total_ownership - withdrawal.ownership;
    ctx.amm.base_amount = ctx.amm.base_amount - withdrawal.base_amount;
    ctx.amm.quote_amount = ctx.amm.quote_amount - withdrawal.quote_amount;
    Ok(Transfer { base_amount: withdrawal.base_amount, quote_amount: withdrawal.quote_amount })
}

} // verus!
