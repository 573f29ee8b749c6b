use banger_program::buy::Buy;
use banger_program::claim::Claim;
use banger_program::error::CurveError;
use banger_program::init_curve::InitCurve;
use banger_program::init_pool::InitPool;
use banger_program::ledger::{move_lamports, LamportAccount, MintAccount};
use banger_program::pda::{authority_address, creator_vault_address, curve_address, pool_address};
use banger_program::pricing::Quote;
use banger_program::sell::Sell;
use banger_program::state::{Address, Curve, Pool};

const CREATOR: &str = "some_creator";

fn program_id() -> Address {
    Address { bytes: [7u8; 32] }
}

fn key(b: u8) -> Address {
    Address { bytes: [b; 32] }
}

fn mint_key() -> Address {
    key(1)
}

fn treasury_key() -> Address {
    key(3)
}

fn curve_key() -> Address {
    curve_address(&program_id()).unwrap().0
}

fn init_pool_accounts() -> InitPool {
    let pid = program_id();
    InitPool {
        program_id: pid,
        admin: key(2),
        mint: mint_key(),
        authority: authority_address(&pid).unwrap().0,
        curve_key: curve_key(),
        treasury: treasury_key(),
        pool_key: pool_address(&pid, &mint_key()).unwrap().0,
        creator_vault: creator_vault_address(&pid, &CREATOR.to_string()).unwrap().0,
    }
}

fn pool() -> Pool {
    init_pool_accounts().init_pool(CREATOR.to_string(), 500, 500).unwrap()
}

fn square() -> Curve {
    Curve { pow: 2, frac: 1 }
}

fn buy_accounts(supply: u64, buyer_lamports: u64) -> Buy {
    let init = init_pool_accounts();
    Buy {
        program_id: init.program_id,
        buyer: LamportAccount { key: key(4), lamports: buyer_lamports },
        buyer_tokens: 0,
        mint: MintAccount { key: init.mint, supply },
        authority: init.authority,
        curve_key: init.curve_key,
        curve: square(),
        treasury: LamportAccount { key: init.treasury, lamports: 0 },
        creator_vault: LamportAccount { key: init.creator_vault, lamports: 0 },
        pool_account: LamportAccount { key: init.pool_key, lamports: 1_000_000 },
        pool: pool(),
    }
}

fn sell_accounts(supply: u64, pool_lamports: u64) -> Sell {
    let init = init_pool_accounts();
    Sell {
        program_id: init.program_id,
        seller: LamportAccount { key: key(5), lamports: 0 },
        seller_tokens: supply,
        mint: MintAccount { key: init.mint, supply },
        authority: init.authority,
        curve_key: init.curve_key,
        curve: square(),
        treasury: LamportAccount { key: init.treasury, lamports: 0 },
        creator_vault: LamportAccount { key: init.creator_vault, lamports: 0 },
        pool_account: LamportAccount { key: init.pool_key, lamports: pool_lamports },
        pool: pool(),
        pool_rent_minimum: 1_000_000,
    }
}

fn buy_lamports(b: &Buy) -> u128 {
    b.buyer.lamports as u128
        + b.pool_account.lamports as u128
        + b.treasury.lamports as u128
        + b.creator_vault.lamports as u128
}

fn sell_lamports(s: &Sell) -> u128 {
    s.seller.lamports as u128
        + s.pool_account.lamports as u128
        + s.treasury.lamports as u128
        + s.creator_vault.lamports as u128
}

#[test]
fn first_buy_from_empty_supply() {
    let mut b = buy_accounts(0, 10_000_000_000);
    let before = buy_lamports(&b);
    let q = b.buy(5_500_000_000, 3).unwrap();
    assert_eq!(q, Quote { scaled: 5_000_000_000, banger_fee: 250_000_000, creator_fee: 250_000_000 });
    assert_eq!(b.mint.supply, 3);
    assert_eq!(b.buyer_tokens, 3);
    assert_eq!(b.buyer.lamports, 10_000_000_000 - 5_500_000_000);
    assert_eq!(b.pool_account.lamports, 1_000_000 + 5_000_000_000);
    assert_eq!(b.treasury.lamports, 250_000_000);
    assert_eq!(b.creator_vault.lamports, 250_000_000);
    assert_eq!(buy_lamports(&b), before);
}

#[test]
fn buy_with_insufficient_slippage() {
    let mut b = buy_accounts(0, 10_000_000_000);
    assert_eq!(b.buy(5_499_999_999, 3), Err(CurveError::Slippage));
    assert_eq!(b.mint.supply, 0);
    assert_eq!(b.buyer_tokens, 0);
    assert_eq!(b.buyer.lamports, 10_000_000_000);
    assert_eq!(b.pool_account.lamports, 1_000_000);
    assert_eq!(b.treasury.lamports, 0);
    assert_eq!(b.creator_vault.lamports, 0);
}

#[test]
fn buy_passes_above_the_total() {
    let mut b = buy_accounts(0, 10_000_000_000);
    assert!(b.buy(5_500_000_001, 3).is_ok());
    assert_eq!(b.buyer.lamports, 4_500_000_000);
}

#[test]
fn sell_two_units_from_supply_five() {
    let mut s = sell_accounts(5, 30_000_000_000);
    let before = sell_lamports(&s);
    let q = s.sell(2, 22_500_000_000).unwrap();
    assert_eq!(q, Quote { scaled: 25_000_000_000, banger_fee: 1_250_000_000, creator_fee: 1_250_000_000 });
    assert_eq!(s.mint.supply, 3);
    assert_eq!(s.seller_tokens, 3);
    assert_eq!(s.pool_account.lamports, 30_000_000_000 - 25_000_000_000);
    assert_eq!(s.seller.lamports, 22_500_000_000);
    assert_eq!(s.treasury.lamports, 1_250_000_000);
    assert_eq!(s.creator_vault.lamports, 1_250_000_000);
    assert_eq!(sell_lamports(&s), before);
}

#[test]
fn sell_with_overly_optimistic_minimum() {
    let mut s = sell_accounts(5, 30_000_000_000);
    assert_eq!(s.sell(2, 22_500_000_001), Err(CurveError::Slippage));
    assert_eq!(s.mint.supply, 5);
    assert_eq!(s.pool_account.lamports, 30_000_000_000);
    assert_eq!(s.seller.lamports, 0);
}

#[test]
fn sell_passes_below_the_total() {
    let mut s = sell_accounts(5, 30_000_000_000);
    assert!(s.sell(2, 0).is_ok());
    assert_eq!(s.seller.lamports, 22_500_000_000);
}

#[test]
fn zero_unit_buy_and_sell_change_nothing() {
    let mut b = buy_accounts(4, 1_000);
    let zero = Quote { scaled: 0, banger_fee: 0, creator_fee: 0 };
    assert_eq!(b.buy(0, 0), Ok(zero));
    assert_eq!(b.mint.supply, 4);
    assert_eq!(b.buyer.lamports, 1_000);
    assert_eq!(b.pool_account.lamports, 1_000_000);
    let mut s = sell_accounts(4, 1_000_000);
    assert_eq!(s.sell(0, 0), Ok(zero));
    assert_eq!(s.mint.supply, 4);
    assert_eq!(s.pool_account.lamports, 1_000_000);
    assert_eq!(s.seller.lamports, 0);
}

#[test]
fn first_unit_bought_for_nothing() {
    let mut b = buy_accounts(0, 0);
    assert_eq!(b.buy(0, 1), Ok(Quote { scaled: 0, banger_fee: 0, creator_fee: 0 }));
    assert_eq!(b.mint.supply, 1);
    assert_eq!(b.buyer_tokens, 1);
}

#[test]
fn buy_then_sell_round_trip_loses_twice_the_fees() {
    let mut b = buy_accounts(2, 100_000_000_000);
    let qb = b.buy(u64::MAX, 3).unwrap();
    let mut s = sell_accounts(5, b.pool_account.lamports);
    let qs = s.sell(3, 0).unwrap();
    assert_eq!(qb, qs);
    let paid = 100_000_000_000 - b.buyer.lamports;
    assert_eq!(paid - s.seller.lamports, 2 * (qb.banger_fee + qb.creator_fee));
}

#[test]
fn claim_drains_vault() {
    let mut b = buy_accounts(0, 10_000_000_000);
    b.buy(5_500_000_000, 3).unwrap();
    assert_eq!(b.creator_vault.lamports, 250_000_000);
    let mut c = Claim {
        program_id: program_id(),
        creator: LamportAccount { key: key(9), lamports: 10 },
        creator_vault: b.creator_vault,
    };
    assert_eq!(c.claim(CREATOR.to_string()), Ok(250_000_000));
    assert_eq!(c.creator_vault.lamports, 0);
    assert_eq!(c.creator.lamports, 250_000_010);
}

#[test]
fn claim_with_another_id_is_refused() {
    let vault = creator_vault_address(&program_id(), &CREATOR.to_string()).unwrap().0;
    let mut c = Claim {
        program_id: program_id(),
        creator: LamportAccount { key: key(9), lamports: 10 },
        creator_vault: LamportAccount { key: vault, lamports: 500 },
    };
    assert_eq!(c.claim("someone_else".to_string()), Err(CurveError::PdaMismatch));
    assert_eq!(c.creator_vault.lamports, 500);
    assert_eq!(c.creator.lamports, 10);
}

#[test]
fn buy_beyond_balance_is_insufficient_funds() {
    let mut b = buy_accounts(0, 5_499_999_999);
    assert_eq!(b.buy(5_500_000_000, 3), Err(CurveError::InsufficientFunds));
    assert_eq!(b.buyer.lamports, 5_499_999_999);
    assert_eq!(b.mint.supply, 0);
}

#[test]
fn sell_below_rent_is_insufficient_funds() {
    let mut s = sell_accounts(5, 25_000_999_999);
    assert_eq!(s.sell(2, 0), Err(CurveError::InsufficientFunds));
    let mut s = sell_accounts(5, 25_001_000_000);
    assert!(s.sell(2, 0).is_ok());
    assert_eq!(s.pool_account.lamports, 1_000_000);
}

#[test]
fn sell_without_tokens_is_insufficient_funds() {
    let mut s = sell_accounts(5, 30_000_000_000);
    s.seller_tokens = 1;
    assert_eq!(s.sell(2, 0), Err(CurveError::InsufficientFunds));
    assert_eq!(s.mint.supply, 5);
}

#[test]
fn sell_past_supply_is_overflow() {
    let mut s = sell_accounts(1, 30_000_000_000);
    assert_eq!(s.sell(2, 0), Err(CurveError::Overflow));
}

#[test]
fn wrong_treasury_is_authority_mismatch() {
    let mut b = buy_accounts(0, 10_000_000_000);
    b.treasury.key = key(8);
    assert_eq!(b.buy(5_500_000_000, 3), Err(CurveError::AuthorityMismatch));
    let mut b = buy_accounts(0, 10_000_000_000);
    b.curve_key = key(8);
    assert_eq!(b.buy(5_500_000_000, 3), Err(CurveError::AuthorityMismatch));
}

#[test]
fn wrong_pool_address_is_pda_mismatch() {
    let mut b = buy_accounts(0, 10_000_000_000);
    b.pool_account.key = key(8);
    assert_eq!(b.buy(5_500_000_000, 3), Err(CurveError::PdaMismatch));
    let mut b = buy_accounts(0, 10_000_000_000);
    b.pool.bump = b.pool.bump.wrapping_sub(1);
    assert_eq!(b.buy(5_500_000_000, 3), Err(CurveError::PdaMismatch));
    let mut b = buy_accounts(0, 10_000_000_000);
    b.authority = key(8);
    assert_eq!(b.buy(5_500_000_000, 3), Err(CurveError::PdaMismatch));
    let mut s = sell_accounts(5, 30_000_000_000);
    s.creator_vault.key = key(8);
    assert_eq!(s.sell(2, 0), Err(CurveError::PdaMismatch));
}

#[test]
fn derived_addresses_differ_from_their_inputs() {
    let pid = program_id();
    let (pool_key, bump) = pool_address(&pid, &mint_key()).unwrap();
    assert!(pool_key != pid);
    assert!(pool_key != mint_key());
    assert!(bump >= 1);
    let other = pool_address(&pid, &key(2)).unwrap().0;
    assert!(other != pool_key);
    let a = creator_vault_address(&pid, &"a".to_string()).unwrap().0;
    let b = creator_vault_address(&pid, &"b".to_string()).unwrap().0;
    assert!(a != b);
}

#[test]
fn creator_id_longer_than_a_seed_has_no_vault() {
    let long = "x".repeat(33);
    assert_eq!(creator_vault_address(&program_id(), &long), None);
    let init = init_pool_accounts();
    assert_eq!(init.init_pool(long, 500, 500).map(|_| ()), Err(CurveError::PdaMismatch));
}

#[test]
fn init_pool_binds_the_accounts() {
    let init = init_pool_accounts();
    let p = init.init_pool(CREATOR.to_string(), 300, 200).unwrap();
    assert!(p.admin == key(2));
    assert!(p.mint == mint_key());
    assert!(p.curve == curve_key());
    assert!(p.treasury == treasury_key());
    assert_eq!(p.creator_id, CREATOR);
    assert_eq!(p.creator_fee, 300);
    assert_eq!(p.banger_fee, 200);
    assert_eq!(p.bump, pool_address(&program_id(), &mint_key()).unwrap().1);
    assert_eq!(p.authority_bump, authority_address(&program_id()).unwrap().1);
}

#[test]
fn init_pool_refuses_full_fees() {
    let init = init_pool_accounts();
    assert_eq!(init.init_pool(CREATOR.to_string(), 5_000, 5_000).map(|_| ()), Err(CurveError::InvalidFee));
    assert!(init.init_pool(CREATOR.to_string(), 5_000, 4_999).is_ok());
}

#[test]
fn init_pool_refuses_wrong_addresses() {
    let mut init = init_pool_accounts();
    init.pool_key = key(8);
    assert_eq!(init.init_pool(CREATOR.to_string(), 500, 500).map(|_| ()), Err(CurveError::PdaMismatch));
    let mut init = init_pool_accounts();
    init.authority = key(8);
    assert_eq!(init.init_pool(CREATOR.to_string(), 500, 500).map(|_| ()), Err(CurveError::PdaMismatch));
}

#[test]
fn init_curve_checks_divisor_and_address() {
    let init = InitCurve { program_id: program_id(), curve_key: curve_key() };
    assert_eq!(init.init_curve(2, 1), Ok(Curve { pow: 2, frac: 1 }));
    assert_eq!(init.init_curve(2, 0), Err(CurveError::InvalidCurve));
    let wrong = InitCurve { program_id: program_id(), curve_key: key(8) };
    assert_eq!(wrong.init_curve(2, 1), Err(CurveError::PdaMismatch));
}

#[test]
fn move_lamports_checks_both_sides() {
    let mut a = LamportAccount { key: key(1), lamports: 10 };
    let mut b = LamportAccount { key: key(2), lamports: u64::MAX - 5 };
    assert_eq!(move_lamports(&mut a, &mut b, 11), Err(CurveError::InsufficientFunds));
    assert_eq!(move_lamports(&mut a, &mut b, 6), Err(CurveError::Overflow));
    assert_eq!(move_lamports(&mut a, &mut b, 5), Ok(()));
    assert_eq!(a.lamports, 5);
    assert_eq!(b.lamports, u64::MAX);
}

#[test]
fn long_creator_id_is_refused_at_pool_creation() {
    let init = init_pool_accounts();
    let id = "y".repeat(40);
    assert_eq!(init.init_pool(id, 100, 100).map(|_| ()), Err(CurveError::PdaMismatch));
}
