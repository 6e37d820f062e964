use dynamic_amm::error::PoolError;
use dynamic_amm::escrow::{move_locked_lp, MoveLockedLp};
use dynamic_amm::key::Key;
use dynamic_amm::ledger::{AccountData, Ledger};
use dynamic_amm::seed::token_program_id;

fn k(n: u8) -> Key {
    Key::new([n; 32])
}

const POOL: u8 = 1;
const LP: u8 = 2;
const FROM: u8 = 3;
const TO: u8 = 4;
const OWNER: u8 = 5;
const FROM_VAULT: u8 = 6;
const TO_VAULT: u8 = 7;

fn accounts() -> MoveLockedLp {
    MoveLockedLp {
        pool: k(POOL),
        lp_mint: k(LP),
        from_lock_escrow: k(FROM),
        to_lock_escrow: k(TO),
        owner: k(OWNER),
        from_escrow_vault: k(FROM_VAULT),
        to_escrow_vault: k(TO_VAULT),
        token_program: token_program_id(),
        a_vault: k(10),
        b_vault: k(11),
        a_vault_lp: k(12),
        b_vault_lp: k(13),
        a_vault_lp_mint: k(14),
        b_vault_lp_mint: k(15),
    }
}

fn ledger(to_owner: u8, from_amount: u64, to_amount: u64) -> Ledger {
    Ledger::from_accounts(vec![
        (k(FROM), AccountData::LockEscrow { pool: k(POOL), owner: k(OWNER), escrow_vault: k(FROM_VAULT) }),
        (k(TO), AccountData::LockEscrow { pool: k(POOL), owner: k(to_owner), escrow_vault: k(TO_VAULT) }),
        (k(FROM_VAULT), AccountData::Token { mint: k(LP), authority: k(FROM), amount: from_amount }),
        (k(TO_VAULT), AccountData::Token { mint: k(LP), authority: k(TO), amount: to_amount }),
    ])
    .unwrap()
}

fn amount(l: &Ledger, n: u8) -> u64 {
    match l.get(&k(n)) {
        Some(AccountData::Token { amount, .. }) => amount,
        other => panic!("not a token account: {:?}", other),
    }
}

#[test]
fn move_takes_the_ceiling_when_less_than_movable() {
    let mut l = ledger(OWNER, 100, 5);
    assert_eq!(move_locked_lp(&mut l, &accounts(), 30, 80), Ok(()));
    assert_eq!(amount(&l, FROM_VAULT), 70);
    assert_eq!(amount(&l, TO_VAULT), 35);
}

#[test]
fn move_takes_the_movable_balance_when_less_than_ceiling() {
    let mut l = ledger(OWNER, 100, 5);
    assert_eq!(move_locked_lp(&mut l, &accounts(), 90, 40), Ok(()));
    assert_eq!(amount(&l, FROM_VAULT), 60);
    assert_eq!(amount(&l, TO_VAULT), 45);
}

#[test]
fn zero_ceiling_is_a_no_op() {
    let mut l = ledger(OWNER, 100, 5);
    assert_eq!(move_locked_lp(&mut l, &accounts(), 0, 100), Ok(()));
    assert_eq!(amount(&l, FROM_VAULT), 100);
    assert_eq!(amount(&l, TO_VAULT), 5);
}

#[test]
fn escrows_of_different_owners_are_refused() {
    let mut l = ledger(9, 100, 5);
    assert_eq!(move_locked_lp(&mut l, &accounts(), 10, 10), Err(PoolError::AuthorizationMismatch));
    assert_eq!(amount(&l, FROM_VAULT), 100);
}

#[test]
fn non_owning_signer_is_refused() {
    let mut l = ledger(OWNER, 100, 5);
    let mut a = accounts();
    a.owner = k(9);
    assert_eq!(move_locked_lp(&mut l, &a, 10, 10), Err(PoolError::AuthorizationMismatch));
}

#[test]
fn movable_beyond_holding_is_a_ceiling_violation() {
    let mut l = ledger(OWNER, 100, 5);
    assert_eq!(move_locked_lp(&mut l, &accounts(), 10, 101), Err(PoolError::CeilingViolation));
    assert_eq!(amount(&l, FROM_VAULT), 100);
    assert_eq!(amount(&l, TO_VAULT), 5);
}

#[test]
fn destination_overflow_is_refused() {
    let mut l = ledger(OWNER, 100, u64::MAX - 1);
    assert_eq!(move_locked_lp(&mut l, &accounts(), 2, 100), Err(PoolError::MathOverflow));
    assert_eq!(move_locked_lp(&mut l, &accounts(), 1, 100), Ok(()));
    assert_eq!(amount(&l, TO_VAULT), u64::MAX);
}

#[test]
fn wrong_vault_or_pool_is_an_identity_mismatch() {
    let mut l = ledger(OWNER, 100, 5);
    let mut a = accounts();
    a.pool = k(40);
    assert_eq!(move_locked_lp(&mut l, &a, 1, 1), Err(PoolError::IdentityMismatch));
    let mut b = accounts();
    b.to_escrow_vault = k(FROM_VAULT);
    assert_eq!(move_locked_lp(&mut l, &b, 1, 1), Err(PoolError::IdentityMismatch));
}

#[test]
fn missing_escrow_is_reported() {
    let mut l = ledger(OWNER, 100, 5);
    let mut a = accounts();
    a.to_lock_escrow = k(41);
    assert_eq!(move_locked_lp(&mut l, &a, 1, 1), Err(PoolError::AccountNotFound));
}
