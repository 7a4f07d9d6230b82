use vstd::prelude::*;

verus! {

/// A 32-byte account or program identity.
#[derive(Clone, Copy, Debug)]
pub struct Address {
    pub bytes: [u8; 32],
}

impl Address {
    /// The all-zero identity, used where no identity is set.
    pub fn zero() -> (r: Address)
        ensures
            forall|i: int| 0 <= i < 32 ==> r.bytes[i] == 0u8,
    {
        Address { bytes: [0u8; 32] }
    }

    /// The identity's bytes, in order.
    pub fn to_vec(&self) -> (r: Vec<u8>)
        ensures
            r@ == self.bytes@,
    {
        let mut v: Vec<u8> = Vec::new();
        let mut i: usize = 0;
        while i < 32
            invariant
                0 <= i <= 32,
                self.bytes@.len() == 32,
                v@ == self.bytes@.take(i as int),
            decreases 32 - i,
        {
            v.push(self.bytes[i]);
            i = i + 1;
            assert(v@ =~= self.bytes@.take(i as int));
        }
        assert(self.bytes@.take(32) =~= self.bytes@);
        v
    }

    /// Byte-wise equality of two identities.
    pub fn same_as(&self, other: &Address) -> (r: bool)
        ensures
            r == (self.bytes@ == other.bytes@),
    {
        let mut i: usize = 0;
        while i < 32
            invariant
                0 <= i <= 32,
                self.bytes@.len() == 32,
                other.bytes@.len() == 32,
                forall|j: int| 0 <= j < i ==> self.bytes@[j] == other.bytes@[j],
            decreases 32 - i,
        {
            if self.bytes[i] != other.bytes[i] {
                return false;
            }
            i = i + 1;
        }
        assert(self.bytes@ =~= other.bytes@);
        true
    }
}

/// Why an engine call was rejected. A rejected call changes nothing.
#[derive(Clone, Copy, Debug, PartialEq, Eq, Structural)]
pub enum ErrorCode {
    /// A deposit cap is zero.
    InvalidAmount,
    /// The withdrawal share is zero or above `BPS_SCALE`.
    InvalidWithdrawBps,
    /// The position owns nothing.
    EmptyPosition,
    /// The pool is permissioned and the calling program is not its designated caller.
    UnauthorizedCaller,
    /// Neither direction of the ratio solve meets both deposit caps.
    AddLiquidityCalculationError,
    /// A checked arithmetic step overflowed or underflowed.
    MathOverflow,
    /// The swap fee is not strictly between zero and `BPS_SCALE`.
    InvalidSwapFee,
    /// The base and quote assets are the same.
    SameMint,
    /// A permissioned pool was requested without a designated caller.
    MissingPermissionedCaller,
    /// The pool is neither market of the proposal.
    AmmProposalMismatch,
    /// The proposal is no longer pending.
    ProposalIsNoLongerPending,
}

/// A two-asset pool: reserves, aggregate ownership, identity and the
/// time-weighted price accumulator.
#[derive(Clone, Copy, Debug)]
pub struct Amm {
    pub bump: u8,
    pub created_at_slot: u64,
    pub permissioned: bool,
    pub permissioned_caller: Address,
    pub base_mint: Address,
    pub quote_mint: Address,
    pub base_mint_decimals: u8,
    pub quote_mint_decimals: u8,
    pub base_amount: u64,
    pub quote_amount: u64,
    pub total_ownership: u64,
    pub swap_fee_bps: u64,
    pub ltwap_decimals: u8,
    pub ltwap_last_updated_slot: u64,
    pub ltwap_cumulative_price: u128,
}

impl Amm {
    /// Reserves and ownership are zero together, and positive together.
    pub open spec fn wf(&self) -> bool {
        &&& (self.base_amount == 0 <==> self.total_ownership == 0)
        &&& (self.quote_amount == 0 <==> self.total_ownership == 0)
    }

    /// Everything but the reserves, the ownership total and the accumulator.
    pub open spec fn same_identity(&self, other: Amm) -> bool {
        &&& self.bump == other.bump
        &&& self.created_at_slot == other.created_at_slot
        &&& self.permissioned == other.permissioned
        &&& self.permissioned_caller == other.permissioned_caller
        &&& self.base_mint == other.base_mint
        &&& self.quote_mint == other.quote_mint
        &&& self.base_mint_decimals == other.base_mint_decimals
        &&& self.quote_mint_decimals == other.quote_mint_decimals
        &&& self.swap_fee_bps == other.swap_fee_bps
        &&& self.ltwap_decimals == other.ltwap_decimals
    }

    /// Whether `caller` may run liquidity operations on this pool.
    pub open spec fn admits(&self, caller: Address) -> bool {
        !self.permissioned || self.permissioned_caller.bytes@ == caller.bytes@
    }

    /// Checks the calling program against the pool's designated caller.
    pub fn check_caller(&self, caller: &Address) -> (r: Result<(), ErrorCode>)
        ensures
            r is Ok <==> self.admits(*caller),
            r is Err ==> r == Err::<(), ErrorCode>(ErrorCode::UnauthorizedCaller),
    {
        if self.permissioned && !self.permissioned_caller.same_as(caller) {
            Err(ErrorCode::UnauthorizedCaller)
        } else {
            Ok(())
        }
    }
}

/// The little-endian bytes of `x`.
pub open spec fn le_bytes(x: u64) -> Seq<u8> {
    Seq::new(8, |i: int| ((x >> ((8 * i) as u64)) & 0xffu64) as u8)
}

/// Writes `x` as eight little-endian bytes.
pub fn to_le_bytes(x: u64) -> (r: Vec<u8>)
    ensures
        r@ == le_bytes(x),
{
    let mut v: Vec<u8> = Vec::new();
    let mut i: u64 = 0;
    while i < 8
        invariant
            i <= 8,
            v@ == le_bytes(x).take(i as int),
        decreases 8 - i,
    {
        v.push(((x >> (8 * i)) & 0xff) as u8);
        i = i + 1;
        assert(v@ =~= le_bytes(x).take(i as int));
    }
    assert(le_bytes(x).take(8) =~= le_bytes(x));
    v
}

impl Amm {
    /// The seeds from which the pool's signing authority is derived: base
    /// asset, quote asset, swap fee, designated caller and derivation nonce.
    pub open spec fn vault_seeds_spec(&self) -> Seq<Seq<u8>> {
        seq![
            self.base_mint.bytes@,
            self.quote_mint.bytes@,
            le_bytes(self.swap_fee_bps),
            self.permissioned_caller.bytes@,
            seq![self.bump],
        ]
    }

    /// Builds the seeds that sign the transfers out of the pool's vaults.
    pub fn vault_seeds(&self) -> (r: Vec<Vec<u8>>)
        ensures
            r@.len() == 5,
            forall|i: int| 0 <= i < 5 ==> #[trigger] r@[i]@ == self.vault_seeds_spec()[i],
    {
        let mut seeds: Vec<Vec<u8>> = Vec::new();
        seeds.push(self.base_mint.to_vec());
        seeds.push(self.quote_mint.to_vec());
        seeds.push(to_le_bytes(self.swap_fee_bps));
        seeds.push(self.permissioned_caller.to_vec());
        let mut nonce: Vec<u8> = Vec::new();
        nonce.push(self.bump);
        seeds.push(nonce);
        proof {
            assert(nonce@ =~= seq![self.bump]);
        }
        seeds
    }
}

/// One user's share of one pool.
#[derive(Clone, Copy, Debug)]
pub struct AmmPosition {
    pub user: Address,
    pub amm: Address,
    pub ownership: u64,
}

/// Amounts that move between the user and the pool's vaults.
#[derive(Clone, Copy, Debug, PartialEq, Eq, Structural)]
pub struct Transfer {
    pub base_amount: u64,
    pub quote_amount: u64,
}

} // verus!
