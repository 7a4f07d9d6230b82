//! The time-weighted price accumulator. Each refresh adds the pool's current
//! price, `quote * 10^ltwap_decimals / base`, once for every slot elapsed since
//! the last refresh; a refresh at a slot that is not later changes nothing, so
//! the recorded slot never goes back.
use vstd::prelude::*;

use crate::state::Amm;

verus! {

pub open spec fn pow10(n: nat) -> nat
    decreases n,
{
    if n == 0 {
        1
    } else {
        10 * pow10((n - 1) as nat)
    }
}

proof fn lemma_pow10_grows(a: nat, b: nat)
    requires
        a <= b,
    ensures
        pow10(a) <= pow10(b),
    decreases b - a,
{
    if a < b {
        lemma_pow10_grows(a, (b - 1) as nat);
    }
}

/// The pool's price scaled by `10^decimals`, or `None` when the scaled
/// numerator does not fit in a `u128`. An empty pool has price zero.
pub open spec fn ltwap_price(base: u64, quote: u64, decimals: u8) -> Option<int> {
    if base == 0 {
        Some(0)
    } else if pow10(decimals as nat) > u128::MAX || quote * pow10(decimals as nat) > u128::MAX {
        None
    } else {
        Some((quote * pow10(decimals as nat)) as int / base as int)
    }
}

/// The accumulator `(last updated slot, cumulative price)` after a refresh at
/// `slot`, or `None` when a step overflows.
pub open spec fn ltwap_refresh(amm: Amm, slot: u64) -> Option<(u64, u128)> {
    if slot <= amm.ltwap_last_updated_slot {
        Some((amm.ltwap_last_updated_slot, amm.ltwap_cumulative_price))
    } else {
        match ltwap_price(amm.base_amount, amm.quote_amount, amm.ltwap_decimals) {
            None => None,
            Some(p) => {
                let step = p * (slot - amm.ltwap_last_updated_slot);
                if step > u128::MAX || amm.ltwap_cumulative_price + step > u128::MAX {
                    None
                } else {
                    Some((slot, (amm.ltwap_cumulative_price + step) as u128))
                }
            },
        }
    }
}

fn checked_pow10(d: u8) -> (r: Option<u128>)
    ensures
        r is None <==> pow10(d as nat) > u128::MAX,
        r matches Some(v) ==> v == pow10(d as nat),
{
    let mut acc: u128 = 1;
    let mut i: u8 = 0;
    while i < d
        invariant
            i <= d,
            acc == pow10(i as nat),
        decreases d - i,
    {
        match acc.checked_mul(10) {
            Some(v) => {
                acc = v;
            },
            None => {
                proof {
                    lemma_pow10_grows((i + 1) as nat, d as nat);
                }
                return None;
            },
        }
        i = i + 1;
    }
    Some(acc)
}

/// Computes the accumulator after a refresh at `slot`, from the reserves as
/// they stand; the pool itself is not changed.
pub fn refresh_ltwap(amm: &Amm, slot: u64) -> (r: Option<(u64, u128)>)
    ensures
        r == ltwap_refresh(*amm, slot),
{
    if slot <= amm.ltwap_last_updated_slot {
        return Some((amm.ltwap_last_updated_slot, amm.ltwap_cumulative_price));
    }
    let price: u128 = if amm.base_amount == 0 {
        0
    } else {
        let scale = match checked_pow10(amm.ltwap_decimals) {
            Some(v) => v,
            None => {
                return None;
            },
        };
        let scaled = match (amm.quote_amount as u128).checked_mul(scale) {
            Some(v) => v,
            None => {
                return None;
            },
        };
        scaled / (amm.base_amount as u128)
    };
    let elapsed: u128 = (slot - amm.ltwap_last_updated_slot) as u128;
    let step = match price.checked_mul(elapsed) {
        Some(v) => v,
        None => {
            return None;
        },
    };
    match amm.ltwap_cumulative_price.checked_add(step) {
        Some(v) => Some((slot, v)),
        None => None,
    }
}

} // verus!
