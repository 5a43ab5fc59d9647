use pallet_w4t::ledger::{ArithmeticPolicy, Ledger, LedgerError};
use pallet_w4t::origin::{ensure_signed, BadOrigin, Origin};
use pallet_w4t::pallet::{MintError, Pallet};
use pallet_w4t::reward::RewardFeed;

const ALICE: u64 = 1;
const BOB: u64 = 2;
const CALLER: u64 = 9;

#[test]
fn genesis_is_empty() {
    let p = Pallet::new();
    assert_eq!(p.get_total_supply(), 0);
    assert_eq!(p.get_balance(ALICE), 0);
    assert_eq!(p.ledger().get_policy(), ArithmeticPolicy::Saturating);
}

#[test]
fn never_credited_account_reads_zero() {
    let mut p = Pallet::new();
    assert_eq!(p.mint(Origin::Signed(CALLER), ALICE, 40), Ok(()));
    assert_eq!(p.get_balance(BOB), 0);
    assert_eq!(p.get_balance(u64::MAX), 0);
}

#[test]
fn mint_alice_then_bob() {
    let mut p = Pallet::new();
    assert_eq!(p.mint(Origin::Signed(CALLER), ALICE, 100), Ok(()));
    assert_eq!(p.get_balance(ALICE), 100);
    assert_eq!(p.get_total_supply(), 100);
    assert_eq!(p.mint(Origin::Signed(CALLER), BOB, 50), Ok(()));
    assert_eq!(p.get_balance(BOB), 50);
    assert_eq!(p.get_balance(ALICE), 100);
    assert_eq!(p.get_total_supply(), 150);
}

#[test]
fn supply_tracks_sum_of_balances() {
    let mut p = Pallet::new();
    let mints: [(u64, u64); 6] = [(ALICE, 5), (BOB, 7), (ALICE, 11), (3, 0), (4, 1000), (BOB, 1)];
    for (to, amount) in mints {
        assert_eq!(p.mint(Origin::Signed(CALLER), to, amount), Ok(()));
        let sum: u64 = [ALICE, BOB, 3, 4].iter().map(|a| p.get_balance(*a)).sum();
        assert_eq!(p.get_total_supply(), sum);
    }
    assert_eq!(p.get_total_supply(), 1024);
}

#[test]
fn minting_twice_is_not_idempotent() {
    let mut p = Pallet::new();
    assert_eq!(p.mint(Origin::Signed(CALLER), ALICE, 30), Ok(()));
    assert_eq!(p.get_balance(ALICE), 30);
    assert_eq!(p.get_total_supply(), 30);
    assert_eq!(p.mint(Origin::Signed(CALLER), ALICE, 30), Ok(()));
    assert_eq!(p.get_balance(ALICE), 60);
    assert_eq!(p.get_total_supply(), 60);
}

#[test]
fn saturates_at_ceiling() {
    let mut p = Pallet::new();
    assert_eq!(p.mint(Origin::Signed(CALLER), ALICE, u64::MAX - 5), Ok(()));
    let before = p.get_total_supply();
    assert_eq!(p.mint(Origin::Signed(CALLER), ALICE, 10), Ok(()));
    assert_eq!(p.get_balance(ALICE), u64::MAX);
    assert_eq!(p.get_total_supply(), u64::MAX);
    assert!(p.get_total_supply() - before <= 5);
    assert_eq!(p.get_total_supply() - before, 5);
}

#[test]
fn supply_saturates_before_balance() {
    let mut p = Pallet::new();
    assert_eq!(p.mint(Origin::Signed(CALLER), BOB, 10), Ok(()));
    assert_eq!(p.mint(Origin::Signed(CALLER), ALICE, u64::MAX - 20), Ok(()));
    assert_eq!(p.mint(Origin::Signed(CALLER), ALICE, 15), Ok(()));
    assert_eq!(p.get_balance(ALICE), u64::MAX - 5);
    assert_eq!(p.get_total_supply(), u64::MAX);
}

#[test]
fn unsigned_origin_is_unauthorized() {
    let mut p = Pallet::new();
    assert_eq!(p.mint(Origin::Signed(CALLER), ALICE, 8), Ok(()));
    assert_eq!(p.mint(Origin::Unsigned, ALICE, 100), Err(MintError::Unauthorized));
    assert_eq!(p.get_balance(ALICE), 8);
    assert_eq!(p.get_total_supply(), 8);
}

#[test]
fn root_origin_is_unauthorized() {
    let mut p = Pallet::new();
    assert_eq!(p.mint(Origin::Root, BOB, 100), Err(MintError::Unauthorized));
    assert_eq!(p.get_balance(BOB), 0);
    assert_eq!(p.get_total_supply(), 0);
}

#[test]
fn ensure_signed_yields_the_signer() {
    assert_eq!(ensure_signed(Origin::Signed(42)), Ok(42));
    assert_eq!(ensure_signed(Origin::Root), Err(BadOrigin::NotSigned));
    assert_eq!(ensure_signed(Origin::Unsigned), Err(BadOrigin::NotSigned));
}

#[test]
fn zero_amount_leaves_sums_alone() {
    let mut p = Pallet::new();
    assert_eq!(p.mint(Origin::Signed(CALLER), ALICE, 0), Ok(()));
    assert_eq!(p.get_balance(ALICE), 0);
    assert_eq!(p.get_total_supply(), 0);
}

#[test]
fn checked_policy_refuses_overflow() {
    let mut p = Pallet::with_policy(ArithmeticPolicy::Checked);
    assert_eq!(p.mint(Origin::Signed(CALLER), ALICE, u64::MAX - 5), Ok(()));
    assert_eq!(
        p.mint(Origin::Signed(CALLER), BOB, 10),
        Err(MintError::Ledger(LedgerError::Overflow))
    );
    assert_eq!(p.get_balance(BOB), 0);
    assert_eq!(p.get_balance(ALICE), u64::MAX - 5);
    assert_eq!(p.get_total_supply(), u64::MAX - 5);
    assert_eq!(p.mint(Origin::Signed(CALLER), BOB, 5), Ok(()));
    assert_eq!(p.get_total_supply(), u64::MAX);
}

#[test]
fn checked_policy_unsigned_still_unauthorized() {
    let mut p = Pallet::with_policy(ArithmeticPolicy::Checked);
    assert_eq!(p.mint(Origin::Unsigned, ALICE, u64::MAX), Err(MintError::Unauthorized));
    assert_eq!(p.get_total_supply(), 0);
}

#[test]
fn ledger_credit_direct() {
    let mut l = Ledger::new(ArithmeticPolicy::Saturating);
    assert_eq!(l.credit(ALICE, 3), Ok(()));
    assert_eq!(l.credit(BOB, 4), Ok(()));
    assert_eq!(l.get_balance(ALICE), 3);
    assert_eq!(l.get_balance(BOB), 4);
    assert_eq!(l.get_total_supply(), 7);
}

#[test]
fn ledger_checked_credit_overflow_changes_nothing() {
    let mut l = Ledger::new(ArithmeticPolicy::Checked);
    assert_eq!(l.credit(ALICE, u64::MAX), Ok(()));
    assert_eq!(l.credit(ALICE, 1), Err(LedgerError::Overflow));
    assert_eq!(l.get_balance(ALICE), u64::MAX);
    assert_eq!(l.get_total_supply(), u64::MAX);
}

#[test]
fn reward_feed_pays_recipient() {
    let mut p = Pallet::new();
    let feed = RewardFeed::new(CALLER);
    assert_eq!(feed.get_authority(), CALLER);
    assert_eq!(feed.pay(&mut p, ALICE, 10_000_000_000), Ok(()));
    assert_eq!(feed.pay(&mut p, ALICE, 10_000_000_000), Ok(()));
    assert_eq!(p.get_balance(ALICE), 20_000_000_000);
    assert_eq!(p.get_total_supply(), 20_000_000_000);
    assert_eq!(p.get_balance(CALLER), 0);
}
