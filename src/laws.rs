//! Properties that hold across calls: the ownership ledger, the reserves, and
//! a deposit followed by a full withdrawal.
use vstd::arithmetic::div_mod::lemma_div_by_multiple;
use vstd::prelude::*;

use crate::add_liquidity::{add_liquidity_post, AddLiquidity};
use crate::math::lemma_withdraw_bounds;
use crate::remove_liquidity::{remove_liquidity_post, RemoveLiquidity};
use crate::state::Transfer;
use crate::BPS_SCALE;

verus! {

/// The ownership held by a sequence of positions.
pub open spec fn sum_ownership(s: Seq<u64>) -> int
    decreases s.len(),
{
    if s.len() == 0 {
        0
    } else {
        sum_ownership(s.drop_last()) + s.last()
    }
}

/// A deposit keeps the pool's total ownership equal to the sum over its
/// positions. `others` holds the ownership of every other position of the
/// pool; a deposit does not touch them.
pub proof fn lemma_add_liquidity_keeps_ledger(
    pre: AddLiquidity,
    post: AddLiquidity,
    others: Seq<u64>,
    max_base: u64,
    max_quote: u64,
    r: Result<Transfer, crate::state::ErrorCode>,
)
    requires
        pre.amm.total_ownership == sum_ownership(others) + pre.amm_position.ownership,
        add_liquidity_post(pre, post, max_base, max_quote, r),
    ensures
        post.amm.total_ownership == sum_ownership(others) + post.amm_position.ownership,
{
}

/// A withdrawal keeps the pool's total ownership equal to the sum over its
/// positions. `others` holds the ownership of every other position of the
/// pool; a withdrawal does not touch them.
pub proof fn lemma_remove_liquidity_keeps_ledger(
    pre: RemoveLiquidity,
    post: RemoveLiquidity,
    others: Seq<u64>,
    withdraw_bps: u64,
    r: Result<Transfer, crate::state::ErrorCode>,
)
    requires
        pre.amm.total_ownership == sum_ownership(others) + pre.amm_position.ownership,
        remove_liquidity_post(pre, post, withdraw_bps, r),
    ensures
        post.amm.total_ownership == sum_ownership(others) + post.amm_position.ownership,
{
}

/// After a deposit both reserves are positive whenever the total ownership is.
pub proof fn lemma_add_liquidity_keeps_reserves(
    pre: AddLiquidity,
    post: AddLiquidity,
    max_base: u64,
    max_quote: u64,
    r: Result<Transfer, crate::state::ErrorCode>,
)
    requires
        pre.wf(),
        add_liquidity_post(pre, post, max_base, max_quote, r),
    ensures
        post.amm.total_ownership > 0 ==> post.amm.base_amount > 0 && post.amm.quote_amount > 0,
        post.wf(),
{
}

/// After a withdrawal both reserves are positive whenever the total ownership is.
pub proof fn lemma_remove_liquidity_keeps_reserves(
    pre: RemoveLiquidity,
    post: RemoveLiquidity,
    withdraw_bps: u64,
    r: Result<Transfer, crate::state::ErrorCode>,
)
    requires
        pre.wf(),
        remove_liquidity_post(pre, post, withdraw_bps, r),
    ensures
        post.amm.total_ownership > 0 ==> post.amm.base_amount > 0 && post.amm.quote_amount > 0,
        post.wf(),
{
    if r is Ok {
        lemma_withdraw_bounds(
            pre.amm.base_amount as int,
            pre.amm.total_ownership as int,
            pre.amm_position.ownership as int,
            withdraw_bps as int,
        );
        lemma_withdraw_bounds(
            pre.amm.quote_amount as int,
            pre.amm.total_ownership as int,
            pre.amm_position.ownership as int,
            withdraw_bps as int,
        );
    }
}

/// A deposit into a pool that no one owns yet, followed by a withdrawal of
/// the whole of that sole position, hands back exactly the deposited amounts
/// (so no more than one unit short on either asset) and returns the pool's
/// total ownership to what it was before the deposit.
pub proof fn lemma_round_trip(
    pre: AddLiquidity,
    deposited: AddLiquidity,
    max_base: u64,
    max_quote: u64,
    added: Transfer,
    withdraw_from: RemoveLiquidity,
    post: RemoveLiquidity,
    removed: Transfer,
)
    requires
        pre.wf(),
        pre.amm.total_ownership == 0,
        add_liquidity_post(pre, deposited, max_base, max_quote, Ok(added)),
        withdraw_from.amm == deposited.amm,
        withdraw_from.amm_position == deposited.amm_position,
        remove_liquidity_post(withdraw_from, post, BPS_SCALE, Ok(removed)),
    ensures
        removed == added,
        added.base_amount - 1 <= removed.base_amount <= added.base_amount,
        added.quote_amount - 1 <= removed.quote_amount <= added.quote_amount,
        post.amm.total_ownership == pre.amm.total_ownership,
{
    let own = deposited.amm.total_ownership as int;
    let s = BPS_SCALE as int;
    assert(own > 0);
    lemma_div_by_multiple(own, s);
    lemma_div_by_multiple(deposited.amm.base_amount as int, own);
    lemma_div_by_multiple(deposited.amm.quote_amount as int, own);
    lemma_div_by_multiple(deposited.amm.base_amount * own, s);
    lemma_div_by_multiple(deposited.amm.quote_amount * own, s);
}

} // verus!
