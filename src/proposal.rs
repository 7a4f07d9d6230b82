//! Liquidity deposits made on behalf of a governance proposal into one of its
//! two markets. The proposal layer only authorizes; the accounting is the
//! pool's own.
use vstd::prelude::*;

use crate::add_liquidity::{self, add_liquidity_post};
use crate::state::{Address, ErrorCode, Transfer};

verus! {

#[derive(Clone, Copy, Debug, PartialEq, Eq, Structural)]
pub enum ProposalState {
    Pending,
    Passed,
    Failed,
}

/// The part of a proposal that decides which pools may take deposits.
#[derive(Clone, Copy, Debug)]
pub struct Proposal {
    pub pass_market_amm: Address,
    pub fail_market_amm: Address,
    pub state: ProposalState,
}

/// A proposal, the address of the target pool, and the records of the deposit.
#[derive(Clone, Copy, Debug)]
pub struct AddLiquidity {
    pub proposal: Proposal,
    pub amm_key: Address,
    pub amm_accounts: add_liquidity::AddLiquidity,
}

/// The error the proposal's own checks end in, or `None` when they pass.
pub open spec fn proposal_error(proposal: Proposal, amm_key: Address) -> Option<ErrorCode> {
    if proposal.pass_market_amm.bytes@ != amm_key.bytes@ && proposal.fail_market_amm.bytes@
        != amm_key.bytes@ {
        Some(ErrorCode::AmmProposalMismatch)
    } else if proposal.state != ProposalState::Pending {
        Some(ErrorCode::ProposalIsNoLongerPending)
    } else {
        None
    }
}

/// Checks that the pool is one of the proposal's two markets and that the
/// proposal is pending, then deposits with the same caps.
pub fn handler(ctx: &mut AddLiquidity, max_base_amount: u64, max_quote_amount: u64) -> (r: Result<
    Transfer,
    ErrorCode,
>)
    requires
        old(ctx).amm_accounts.wf(),
    ensures
        final(ctx).proposal == old(ctx).proposal,
        final(ctx).amm_key == old(ctx).amm_key,
        final(ctx).amm_accounts.wf(),
        match proposal_error(old(ctx).proposal, old(ctx).amm_key) {
            Some(e) => r == Err::<Transfer, ErrorCode>(e) && *final(ctx) == *old(ctx),
            None => add_liquidity_post(
                old(ctx).amm_accounts,
                final(ctx).amm_accounts,
                max_base_amount,
                max_quote_amount,
                r,
            ),
        },
{
    if !ctx.proposal.pass_market_amm.same_as(&ctx.amm_key) && !ctx.proposal.fail_market_amm.same_as(
        &ctx.amm_key,
    ) {
        return Err(ErrorCode::AmmProposalMismatch);
    }
    if ctx.proposal.state != ProposalState::Pending {
        return Err(ErrorCode::ProposalIsNoLongerPending);
    }
    add_liquidity::handler(&mut ctx.amm_accounts, max_base_amount, max_quote_amount)
}

} // verus!
