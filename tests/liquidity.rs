use amm::add_liquidity::{self, AddLiquidity};
use amm::create_amm::{self, CreateAmm, CreateAmmParams};
use amm::math::{plan_deposit, plan_withdraw};
use amm::oracle::refresh_ltwap;
use amm::proposal::{self, Proposal, ProposalState};
use amm::remove_liquidity::{self, RemoveLiquidity};
use amm::state::{to_le_bytes, Address, Amm, AmmPosition, ErrorCode, Transfer};
use amm::BPS_SCALE;

fn addr(b: u8) -> Address {
    Address { bytes: [b; 32] }
}

fn pool(base: u64, quote: u64, total: u64) -> Amm {
    Amm {
        bump: 254,
        created_at_slot: 1,
        permissioned: false,
        permissioned_caller: Address::zero(),
        base_mint: addr(1),
        quote_mint: addr(2),
        base_mint_decimals: 9,
        quote_mint_decimals: 6,
        base_amount: base,
        quote_amount: quote,
        total_ownership: total,
        swap_fee_bps: 30,
        ltwap_decimals: 0,
        ltwap_last_updated_slot: 1,
        ltwap_cumulative_price: 0,
    }
}

fn position(ownership: u64) -> AmmPosition {
    AmmPosition { user: addr(7), amm: addr(9), ownership }
}

fn add_ctx(amm: Amm, ownership: u64) -> AddLiquidity {
    AddLiquidity { amm, amm_position: position(ownership), caller_program: addr(5), current_slot: 1 }
}

fn remove_ctx(amm: Amm, ownership: u64) -> RemoveLiquidity {
    RemoveLiquidity { amm, amm_position: position(ownership), caller_program: addr(5), current_slot: 1 }
}

fn same_state(a: &Amm, b: &Amm) -> bool {
    a.base_amount == b.base_amount
        && a.quote_amount == b.quote_amount
        && a.total_ownership == b.total_ownership
        && a.ltwap_last_updated_slot == b.ltwap_last_updated_slot
        && a.ltwap_cumulative_price == b.ltwap_cumulative_price
}

#[test]
fn empty_pool_mints_larger_cap() {
    let mut ctx = add_ctx(pool(0, 0, 0), 0);
    let r = add_liquidity::handler(&mut ctx, 1000, 500);
    assert_eq!(r, Ok(Transfer { base_amount: 1000, quote_amount: 500 }));
    assert_eq!(ctx.amm_position.ownership, 1000);
    assert_eq!(ctx.amm.total_ownership, 1000);
    assert_eq!((ctx.amm.base_amount, ctx.amm.quote_amount), (1000, 500));
}

#[test]
fn empty_pool_quote_cap_larger() {
    let mut ctx = add_ctx(pool(0, 0, 0), 0);
    let r = add_liquidity::handler(&mut ctx, 3, 8);
    assert_eq!(r, Ok(Transfer { base_amount: 3, quote_amount: 8 }));
    assert_eq!(ctx.amm.total_ownership, 8);
    assert_eq!(ctx.amm_position.ownership, 8);
}

#[test]
fn proportional_deposit() {
    let mut ctx = add_ctx(pool(1000, 500, 1000), 0);
    let r = add_liquidity::handler(&mut ctx, 100, 1000);
    assert_eq!(r, Ok(Transfer { base_amount: 100, quote_amount: 50 }));
    assert_eq!(ctx.amm_position.ownership, 100);
    assert_eq!(ctx.amm.total_ownership, 1100);
    assert_eq!((ctx.amm.base_amount, ctx.amm.quote_amount), (1100, 550));
}

#[test]
fn quote_capped_deposit_falls_back_to_quote() {
    // The base-first direction needs 50 quote; the cap is 1, so the deposit is
    // sized from the quote cap instead: 1 quote, floor(1 * 1000 / 500) = 2 base.
    let mut ctx = add_ctx(pool(1000, 500, 1000), 0);
    let r = add_liquidity::handler(&mut ctx, 100, 1);
    assert_eq!(r, Ok(Transfer { base_amount: 2, quote_amount: 1 }));
    assert_eq!(ctx.amm_position.ownership, 2);
    assert_eq!(ctx.amm.total_ownership, 1002);
    assert_eq!((ctx.amm.base_amount, ctx.amm.quote_amount), (1002, 501));
}

#[test]
fn plan_deposit_exact_values() {
    let p = plan_deposit(&pool(1000, 500, 1000), 100, 1000).unwrap();
    assert_eq!((p.base_amount, p.quote_amount, p.ownership), (100, 50, 100));
    let p = plan_deposit(&pool(3, 7, 5), 10, 100).unwrap();
    // quote: floor(10 * 7 / 3) = 23; ownership: floor(10 * 5 / 3) = 16
    assert_eq!((p.base_amount, p.quote_amount, p.ownership), (10, 23, 16));
}

#[test]
fn minted_ownership_overflow_is_rejected() {
    let amm = pool(1, 1, u64::MAX);
    assert_eq!(plan_deposit(&amm, 2, 2), Err(ErrorCode::MathOverflow));
    let mut ctx = add_ctx(amm, 5);
    let before = ctx;
    assert_eq!(add_liquidity::handler(&mut ctx, 2, 2), Err(ErrorCode::MathOverflow));
    assert!(same_state(&ctx.amm, &before.amm));
    assert_eq!(ctx.amm_position.ownership, 5);
}

#[test]
fn reserve_overflow_is_rejected() {
    let mut ctx = add_ctx(pool(u64::MAX - 1, u64::MAX - 1, 10), 3);
    let before = ctx;
    assert_eq!(add_liquidity::handler(&mut ctx, 2, 2), Err(ErrorCode::MathOverflow));
    assert!(same_state(&ctx.amm, &before.amm));
}

#[test]
fn zero_cap_is_rejected() {
    let mut ctx = add_ctx(pool(1000, 500, 1000), 0);
    assert_eq!(add_liquidity::handler(&mut ctx, 0, 5), Err(ErrorCode::InvalidAmount));
    assert_eq!(add_liquidity::handler(&mut ctx, 5, 0), Err(ErrorCode::InvalidAmount));
    assert_eq!(ctx.amm.total_ownership, 1000);
}

#[test]
fn permissioned_add_from_other_caller_is_rejected() {
    let mut amm = pool(1000, 500, 1000);
    amm.permissioned = true;
    amm.permissioned_caller = addr(42);
    let mut ctx = add_ctx(amm, 10);
    let before = ctx;
    assert_eq!(add_liquidity::handler(&mut ctx, 100, 100), Err(ErrorCode::UnauthorizedCaller));
    assert!(same_state(&ctx.amm, &before.amm));
    assert_eq!(ctx.amm_position.ownership, 10);
    ctx.caller_program = addr(42);
    assert!(add_liquidity::handler(&mut ctx, 100, 100).is_ok());
}

#[test]
fn permissioned_remove_from_other_caller_is_rejected() {
    let mut amm = pool(1000, 500, 1000);
    amm.permissioned = true;
    amm.permissioned_caller = addr(42);
    let mut ctx = remove_ctx(amm, 1000);
    let before = ctx;
    assert_eq!(remove_liquidity::handler(&mut ctx, 5000), Err(ErrorCode::UnauthorizedCaller));
    assert!(same_state(&ctx.amm, &before.amm));
    assert_eq!(ctx.amm_position.ownership, 1000);
}

#[test]
fn withdraw_above_full_scale_is_rejected() {
    let mut ctx = remove_ctx(pool(1000, 500, 1000), 1000);
    let before = ctx;
    assert_eq!(remove_liquidity::handler(&mut ctx, BPS_SCALE + 1), Err(ErrorCode::InvalidWithdrawBps));
    assert_eq!(remove_liquidity::handler(&mut ctx, 0), Err(ErrorCode::InvalidWithdrawBps));
    assert!(same_state(&ctx.amm, &before.amm));
    assert_eq!(ctx.amm_position.ownership, 1000);
}

#[test]
fn withdraw_from_empty_position_is_rejected() {
    let mut ctx = remove_ctx(pool(1000, 500, 1000), 0);
    assert_eq!(remove_liquidity::handler(&mut ctx, 100), Err(ErrorCode::EmptyPosition));
}

#[test]
fn partial_withdrawal_exact_values() {
    // position 300 of 1000; half of it: base floor(1000*300*5000/10000/1000) = 150
    let mut ctx = remove_ctx(pool(1000, 501, 1000), 300);
    let r = remove_liquidity::handler(&mut ctx, 5000);
    assert_eq!(r, Ok(Transfer { base_amount: 150, quote_amount: 75 }));
    assert_eq!(ctx.amm_position.ownership, 150);
    assert_eq!(ctx.amm.total_ownership, 850);
    assert_eq!((ctx.amm.base_amount, ctx.amm.quote_amount), (850, 426));
}

#[test]
fn withdrawal_product_overflow_is_rejected() {
    let amm = pool(u64::MAX, 5, u64::MAX);
    assert_eq!(plan_withdraw(&amm, u64::MAX, BPS_SCALE), Err(ErrorCode::MathOverflow));
    let mut ctx = remove_ctx(amm, u64::MAX);
    assert_eq!(remove_liquidity::handler(&mut ctx, BPS_SCALE), Err(ErrorCode::MathOverflow));
    assert_eq!(ctx.amm.total_ownership, u64::MAX);
}

#[test]
fn deposit_then_full_withdrawal_round_trip() {
    let mut add = add_ctx(pool(0, 0, 0), 0);
    let added = add_liquidity::handler(&mut add, 1234, 567).unwrap();
    let mut remove = remove_ctx(add.amm, add.amm_position.ownership);
    let removed = remove_liquidity::handler(&mut remove, BPS_SCALE).unwrap();
    assert_eq!(removed, added);
    assert_eq!(remove.amm.total_ownership, 0);
    assert_eq!((remove.amm.base_amount, remove.amm.quote_amount), (0, 0));
    assert_eq!(remove.amm_position.ownership, 0);
}

#[test]
fn ledger_matches_positions_over_a_sequence() {
    // Two users share a pool; the total always equals the sum of their positions
    // and the reserves stay positive while anything is owned.
    let mut a = add_ctx(pool(0, 0, 0), 0);
    add_liquidity::handler(&mut a, 1000, 500).unwrap();
    let mut b = add_ctx(a.amm, 0);
    add_liquidity::handler(&mut b, 300, 1000).unwrap();
    let (mut own_a, mut own_b) = (a.amm_position.ownership, b.amm_position.ownership);
    assert_eq!(b.amm.total_ownership, own_a + own_b);
    let mut ra = remove_ctx(b.amm, own_a);
    remove_liquidity::handler(&mut ra, 3333).unwrap();
    own_a = ra.amm_position.ownership;
    assert_eq!(ra.amm.total_ownership, own_a + own_b);
    let mut rb = remove_ctx(ra.amm, own_b);
    remove_liquidity::handler(&mut rb, BPS_SCALE).unwrap();
    own_b = rb.amm_position.ownership;
    assert_eq!(own_b, 0);
    assert_eq!(rb.amm.total_ownership, own_a + own_b);
    assert!(rb.amm.base_amount > 0 && rb.amm.quote_amount > 0);
    let mut rest = remove_ctx(rb.amm, own_a);
    remove_liquidity::handler(&mut rest, BPS_SCALE).unwrap();
    assert_eq!(rest.amm.total_ownership, 0);
    assert_eq!((rest.amm.base_amount, rest.amm.quote_amount), (0, 0));
}

#[test]
fn accumulator_refreshes_from_pre_call_reserves() {
    let mut amm = pool(1000, 500, 1000);
    amm.ltwap_decimals = 2;
    amm.ltwap_last_updated_slot = 10;
    amm.ltwap_cumulative_price = 7;
    // price floor(500 * 100 / 1000) = 50 for 10 slots
    assert_eq!(refresh_ltwap(&amm, 20), Some((20, 507)));
    assert_eq!(refresh_ltwap(&amm, 5), Some((10, 7)));
    let mut ctx = add_ctx(amm, 0);
    ctx.current_slot = 20;
    add_liquidity::handler(&mut ctx, 1000, 1000).unwrap();
    assert_eq!(ctx.amm.ltwap_last_updated_slot, 20);
    assert_eq!(ctx.amm.ltwap_cumulative_price, 507);
}

#[test]
fn accumulator_overflow_is_rejected() {
    let mut amm = pool(1, u64::MAX, 1);
    amm.ltwap_decimals = 40;
    assert_eq!(refresh_ltwap(&amm, 2), None);
    let mut ctx = add_ctx(amm, 1);
    ctx.current_slot = 2;
    assert_eq!(add_liquidity::handler(&mut ctx, 1, 1), Err(ErrorCode::MathOverflow));
}

fn creation() -> CreateAmm {
    CreateAmm {
        base_mint: addr(1),
        quote_mint: addr(2),
        base_mint_decimals: 9,
        quote_mint_decimals: 6,
        current_slot: 77,
        bump: 250,
    }
}

fn params(permissioned: bool, caller: Option<Address>, fee: u64) -> CreateAmmParams {
    CreateAmmParams { permissioned, permissioned_caller: caller, swap_fee_bps: fee, ltwap_decimals: 4 }
}

#[test]
fn create_amm_makes_empty_pool() {
    let amm = create_amm::handler(&creation(), params(true, Some(addr(3)), 30)).unwrap();
    assert_eq!((amm.base_amount, amm.quote_amount, amm.total_ownership), (0, 0, 0));
    assert!(amm.permissioned);
    assert_eq!(amm.permissioned_caller.bytes, [3u8; 32]);
    assert_eq!(amm.created_at_slot, 77);
    assert_eq!(amm.swap_fee_bps, 30);
    let open = create_amm::handler(&creation(), params(false, Some(addr(3)), 30)).unwrap();
    assert_eq!(open.permissioned_caller.bytes, [0u8; 32]);
}

#[test]
fn create_amm_rejections() {
    assert_eq!(
        create_amm::handler(&creation(), params(true, None, 30)).err(),
        Some(ErrorCode::MissingPermissionedCaller)
    );
    assert_eq!(create_amm::handler(&creation(), params(false, None, 0)).err(), Some(ErrorCode::InvalidSwapFee));
    assert_eq!(
        create_amm::handler(&creation(), params(false, None, BPS_SCALE)).err(),
        Some(ErrorCode::InvalidSwapFee)
    );
    let mut same = creation();
    same.quote_mint = addr(1);
    assert_eq!(create_amm::handler(&same, params(false, None, 30)).err(), Some(ErrorCode::SameMint));
}

#[test]
fn seeds_hold_identity_fields() {
    let amm = pool(0, 0, 0);
    let seeds = amm.vault_seeds();
    assert_eq!(seeds.len(), 5);
    assert_eq!(seeds[0], vec![1u8; 32]);
    assert_eq!(seeds[1], vec![2u8; 32]);
    assert_eq!(seeds[2], 30u64.to_le_bytes().to_vec());
    assert_eq!(seeds[3], vec![0u8; 32]);
    assert_eq!(seeds[4], vec![254u8]);
    assert_eq!(to_le_bytes(0x0102_0304_0506_0708), vec![8, 7, 6, 5, 4, 3, 2, 1]);
    let ctx = creation();
    let s = ctx.amm_seeds(&params(false, Some(addr(3)), 31));
    assert_eq!(s.len(), 4);
    assert_eq!(s[2], 31u64.to_le_bytes().to_vec());
    assert_eq!(s[3], vec![3u8; 32]);
}

fn proposal_ctx(state: ProposalState) -> proposal::AddLiquidity {
    proposal::AddLiquidity {
        proposal: Proposal { pass_market_amm: addr(9), fail_market_amm: addr(10), state },
        amm_key: addr(10),
        amm_accounts: add_ctx(pool(1000, 500, 1000), 0),
    }
}

#[test]
fn proposal_deposit_into_its_market() {
    let mut ctx = proposal_ctx(ProposalState::Pending);
    let r = proposal::handler(&mut ctx, 100, 1000);
    assert_eq!(r, Ok(Transfer { base_amount: 100, quote_amount: 50 }));
    assert_eq!(ctx.amm_accounts.amm.total_ownership, 1100);
}

#[test]
fn proposal_rejections() {
    let mut ctx = proposal_ctx(ProposalState::Passed);
    assert_eq!(proposal::handler(&mut ctx, 100, 100), Err(ErrorCode::ProposalIsNoLongerPending));
    let mut other = proposal_ctx(ProposalState::Pending);
    other.amm_key = addr(11);
    assert_eq!(proposal::handler(&mut other, 100, 100), Err(ErrorCode::AmmProposalMismatch));
    assert_eq!(other.amm_accounts.amm.total_ownership, 1000);
}
