//! Creation of an empty pool.
use vstd::prelude::*;

use crate::state::{le_bytes, to_le_bytes, Address, Amm, ErrorCode};
use crate::BPS_SCALE;

verus! {

/// What the creator chooses for a new pool.
#[derive(Clone, Copy, Debug)]
pub struct CreateAmmParams {
    pub permissioned: bool,
    pub permissioned_caller: Option<Address>,
    pub swap_fee_bps: u64,
    pub ltwap_decimals: u8,
}

/// The assets of a new pool, with the current slot and the derivation nonce of
/// the pool's address.
#[derive(Clone, Copy, Debug)]
pub struct CreateAmm {
    pub base_mint: Address,
    pub quote_mint: Address,
    pub base_mint_decimals: u8,
    pub quote_mint_decimals: u8,
    pub current_slot: u64,
    pub bump: u8,
}

impl CreateAmm {
    /// The seeds from which the new pool's address is derived: base asset,
    /// quote asset, swap fee, and the designated caller or the all-zero identity.
    pub open spec fn amm_seeds_spec(&self, params: CreateAmmParams) -> Seq<Seq<u8>> {
        seq![
            self.base_mint.bytes@,
            self.quote_mint.bytes@,
            le_bytes(params.swap_fee_bps),
            match params.permissioned_caller {
                Some(c) => c.bytes@,
                None => Seq::new(32, |i: int| 0u8),
            },
        ]
    }

    /// Builds the seeds of the new pool's address.
    pub fn amm_seeds(&self, params: &CreateAmmParams) -> (r: Vec<Vec<u8>>)
        ensures
            r@.len() == 4,
            forall|i: int| 0 <= i < 4 ==> #[trigger] r@[i]@ == self.amm_seeds_spec(*params)[i],
    {
        let caller = match params.permissioned_caller {
            Some(c) => c,
            None => Address::zero(),
        };
        let mut seeds: Vec<Vec<u8>> = Vec::new();
        seeds.push(self.base_mint.to_vec());
        seeds.push(self.quote_mint.to_vec());
        seeds.push(to_le_bytes(params.swap_fee_bps));
        let last = caller.to_vec();
        proof {
            if params.permissioned_caller is None {
                assert(last@ =~= Seq::new(32, |i: int| 0u8));
            }
        }
        seeds.push(last);
        seeds
    }
}

pub open spec fn is_zero(a: Address) -> bool {
    forall|i: int| 0 <= i < 32 ==> a.bytes[i] == 0u8
}

/// The error a pool creation ends in, checked in this order, or `None`.
pub open spec fn create_amm_error(ctx: CreateAmm, params: CreateAmmParams) -> Option<ErrorCode> {
    if params.permissioned && params.permissioned_caller is None {
        Some(ErrorCode::MissingPermissionedCaller)
    } else if params.swap_fee_bps >= BPS_SCALE || params.swap_fee_bps == 0 {
        Some(ErrorCode::InvalidSwapFee)
    } else if ctx.base_mint.bytes@ == ctx.quote_mint.bytes@ {
        Some(ErrorCode::SameMint)
    } else {
        None
    }
}

/// Creates an empty pool for the two assets. A pool that is not permissioned
/// keeps the all-zero identity as its designated caller.
pub fn handler(ctx: &CreateAmm, create_amm_params: CreateAmmParams) -> (r: Result<Amm, ErrorCode>)
    ensures
        match create_amm_error(*ctx, create_amm_params) {
            Some(e) => r == Err::<Amm, ErrorCode>(e),
            None => r matches Ok(amm) && {
                &&& amm.wf()
                &&& amm.base_amount == 0 && amm.quote_amount == 0 && amm.total_ownership == 0
                &&& amm.permissioned == create_amm_params.permissioned
                &&& (if create_amm_params.permissioned {
                    amm.permissioned_caller == create_amm_params.permissioned_caller->Some_0
                } else {
                    is_zero(amm.permissioned_caller)
                })
                &&& amm.base_mint == ctx.base_mint && amm.quote_mint == ctx.quote_mint
                &&& amm.base_mint_decimals == ctx.base_mint_decimals
                &&& amm.quote_mint_decimals == ctx.quote_mint_decimals
                &&& amm.swap_fee_bps == create_amm_params.swap_fee_bps
                &&& amm.ltwap_decimals == create_amm_params.ltwap_decimals
                &&& amm.created_at_slot == ctx.current_slot
                &&& amm.ltwap_last_updated_slot == ctx.current_slot
                &&& amm.ltwap_cumulative_price == 0
                &&& amm.bump == ctx.bump
            },
        },
{
    let permissioned_caller = if create_amm_params.permissioned {
        match create_amm_params.permissioned_caller {
            Some(caller) => caller,
            None => {
                return Err(ErrorCode::MissingPermissionedCaller);
            },
        }
    } else {
        Address::zero()
    };
    if create_amm_params.swap_fee_bps >= BPS_SCALE || create_amm_params.swap_fee_bps == 0 {
        return Err(ErrorCode::InvalidSwapFee);
    }
    if ctx.base_mint.same_as(&ctx.quote_mint) {
        return Err(ErrorCode::SameMint);
    }
    Ok(
        Amm {
            bump: ctx.bump,
            created_at_slot: ctx.current_slot,
            permissioned: create_amm_params.permissioned,
            permissioned_caller,
            base_mint: ctx.base_mint,
            quote_mint: ctx.quote_mint,
            base_mint_decimals: ctx.base_mint_decimals,
            quote_mint_decimals: ctx.quote_mint_decimals,
            base_amount: 0,
            quote_amount: 0,
            total_ownership: 0,
            swap_fee_bps: create_amm_params.swap_fee_bps,
            ltwap_decimals: create_amm_params.ltwap_decimals,
            ltwap_last_updated_slot: ctx.current_slot,
            ltwap_cumulative_price: 0,
        },
    )
}

} // verus!
