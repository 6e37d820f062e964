use crate::error::PoolError;
use crate::key::Key;
use crate::ledger::{AccountData, Ledger};
use crate::seed::{token_program, token_program_id};
use vstd::prelude::*;

verus! {

/// The accounts that a move of locked LP between two escrows reads and changes.
#[derive(Clone, Copy, Debug, PartialEq, Eq)]
pub struct MoveLockedLp {
    /// The pool whose LP is locked.
    pub pool: Key,
    /// LP mint of the pool.
    pub lp_mint: Key,
    /// The escrow the LP leaves.
    pub from_lock_escrow: Key,
    /// The escrow the LP joins.
    pub to_lock_escrow: Key,
    /// Owner of both escrows, and signer.
    pub owner: Key,
    /// Token account of the source escrow.
    pub from_escrow_vault: Key,
    /// Token account of the destination escrow.
    pub to_escrow_vault: Key,
    /// The token program.
    pub token_program: Key,
    /// Yield vault of token A.
    pub a_vault: Key,
    /// Yield vault of token B.
    pub b_vault: Key,
    /// The pool's holding of vault A's shares.
    pub a_vault_lp: Key,
    /// The pool's holding of vault B's shares.
    pub b_vault_lp: Key,
    /// Share mint of vault A.
    pub a_vault_lp_mint: Key,
    /// Share mint of vault B.
    pub b_vault_lp_mint: Key,
}

pub open spec fn is_escrow(l: Map<Key, AccountData>, k: Key) -> bool {
    l.contains_key(k) && l[k] is LockEscrow
}

pub open spec fn is_token_account(l: Map<Key, AccountData>, k: Key) -> bool {
    l.contains_key(k) && l[k] is Token
}

/// The balance of a token account.
pub open spec fn token_amount(l: Map<Key, AccountData>, k: Key) -> u64 {
    match l[k] {
        AccountData::Token { amount, .. } => amount,
        _ => 0,
    }
}

/// The token account with another balance.
pub open spec fn with_amount(d: AccountData, amount: u64) -> AccountData {
    match d {
        AccountData::Token { mint, authority, .. } => AccountData::Token { mint, authority, amount },
        _ => d,
    }
}

/// Whether the escrow record is of the pool, the owner and the vault.
pub open spec fn escrow_is(d: AccountData, pool: Key, owner: Key, vault: Key) -> bool {
    d == AccountData::LockEscrow { pool, owner, escrow_vault: vault }
}

/// Whether the token account holds the mint under the authority.
pub open spec fn token_is(d: AccountData, mint: Key, authority: Key) -> bool {
    d matches AccountData::Token { mint: m, authority: au, .. } && m == mint && au == authority
}

pub open spec fn escrow_owner(d: AccountData) -> Key {
    match d {
        AccountData::LockEscrow { owner, .. } => owner,
        _ => arbitrary(),
    }
}

/// What moves: the ceiling, or the movable balance if that is less.
pub open spec fn moved_amount(max_amount: u64, movable: u64) -> u64 {
    if max_amount <= movable {
        max_amount
    } else {
        movable
    }
}

/// The outcome of a move: the first check that fails gives the error.
pub open spec fn move_outcome(l: Map<Key, AccountData>, a: MoveLockedLp, max_amount: u64, movable: u64) -> Result<(), PoolError> {
    if !is_escrow(l, a.from_lock_escrow) || !is_escrow(l, a.to_lock_escrow)
        || !is_token_account(l, a.from_escrow_vault) || !is_token_account(l, a.to_escrow_vault) {
        Err(PoolError::AccountNotFound)
    } else if escrow_owner(l[a.from_lock_escrow]) != a.owner || escrow_owner(l[a.to_lock_escrow]) != a.owner {
        Err(PoolError::AuthorizationMismatch)
    } else if a.token_program != token_program()
        || a.from_escrow_vault == a.to_escrow_vault
        || !escrow_is(l[a.from_lock_escrow], a.pool, a.owner, a.from_escrow_vault)
        || !escrow_is(l[a.to_lock_escrow], a.pool, a.owner, a.to_escrow_vault)
        || !token_is(l[a.from_escrow_vault], a.lp_mint, a.from_lock_escrow)
        || !token_is(l[a.to_escrow_vault], a.lp_mint, a.to_lock_escrow) {
        Err(PoolError::IdentityMismatch)
    } else if movable > token_amount(l, a.from_escrow_vault) {
        Err(PoolError::CeilingViolation)
    } else if token_amount(l, a.to_escrow_vault) + moved_amount(max_amount, movable) > u64::MAX {
        Err(PoolError::MathOverflow)
    } else {
        Ok(())
    }
}

/// The ledger after a move that passed its checks.
pub open spec fn after_move(l: Map<Key, AccountData>, a: MoveLockedLp, max_amount: u64, movable: u64) -> Map<Key, AccountData> {
    let amount = moved_amount(max_amount, movable);
    l.insert(
        a.from_escrow_vault,
        with_amount(l[a.from_escrow_vault], (token_amount(l, a.from_escrow_vault) - amount) as u64),
    ).insert(
        a.to_escrow_vault,
        with_amount(l[a.to_escrow_vault], (token_amount(l, a.to_escrow_vault) + amount) as u64),
    )
}

fn keys_equal(x: &Key, y: &Key) -> (r: bool)
    ensures
        r == (*x == *y),
{
    x.same(y)
}

/// Moves locked LP from one escrow of an owner to another of the same owner:
/// `min(max_amount, movable)`, where `movable` is what the source escrow's
/// vesting schedule lets go. Both escrows must be of the pool and the signer,
/// each with its own token account of the LP mint; the movable balance may not
/// exceed what the source holds. On any error the ledger is left as it was.
pub fn move_locked_lp(ledger: &mut Ledger, accounts: &MoveLockedLp, max_amount: u64, movable: u64) -> (r: Result<(), PoolError>)
    requires
        old(ledger).wf(),
    ensures
        final(ledger).wf(),
        r == move_outcome(old(ledger)@, *accounts, max_amount, movable),
        r is Ok ==> final(ledger)@ == after_move(old(ledger)@, *accounts, max_amount, movable),
        r is Err ==> final(ledger)@ == old(ledger)@,
{
    let a = accounts;
    let from = ledger.get(&a.from_lock_escrow);
    let to = ledger.get(&a.to_lock_escrow);
    let from_vault = ledger.get(&a.from_escrow_vault);
    let to_vault = ledger.get(&a.to_escrow_vault);
    let (from_pool, from_owner, from_ev, to_pool, to_owner, to_ev) = match (from, to) {
        (
            Some(AccountData::LockEscrow { pool: p1, owner: o1, escrow_vault: v1 }),
            Some(AccountData::LockEscrow { pool: p2, owner: o2, escrow_vault: v2 }),
        ) => (p1, o1, v1, p2, o2, v2),
        _ => {
            return Err(PoolError::AccountNotFound);
        },
    };
    let (from_mint, from_auth, from_amount, to_mint, to_auth, to_amount) = match (from_vault, to_vault) {
        (
            Some(AccountData::Token { mint: m1, authority: au1, amount: x1 }),
            Some(AccountData::Token { mint: m2, authority: au2, amount: x2 }),
        ) => (m1, au1, x1, m2, au2, x2),
        _ => {
            return Err(PoolError::AccountNotFound);
        },
    };
    if !keys_equal(&from_owner, &a.owner) || !keys_equal(&to_owner, &a.owner) {
        return Err(PoolError::AuthorizationMismatch);
    }
    let identities = keys_equal(&a.token_program, &token_program_id())
        && !keys_equal(&a.from_escrow_vault, &a.to_escrow_vault)
        && keys_equal(&from_pool, &a.pool) && keys_equal(&from_ev, &a.from_escrow_vault)
        && keys_equal(&to_pool, &a.pool) && keys_equal(&to_ev, &a.to_escrow_vault)
        && keys_equal(&from_mint, &a.lp_mint) && keys_equal(&from_auth, &a.from_lock_escrow)
        && keys_equal(&to_mint, &a.lp_mint) && keys_equal(&to_auth, &a.to_lock_escrow);
    if !identities {
        return Err(PoolError::IdentityMismatch);
    }
    if movable > from_amount {
        return Err(PoolError::CeilingViolation);
    }
    let amount = if max_amount <= movable {
        max_amount
    } else {
        movable
    };
    if to_amount > u64::MAX - amount {
        return Err(PoolError::MathOverflow);
    }
    ledger.replace(
        a.from_escrow_vault,
        AccountData::Token { mint: from_mint, authority: from_auth, amount: from_amount - amount },
    );
    ledger.replace(
        a.to_escrow_vault,
        AccountData::Token { mint: to_mint, authority: to_auth, amount: to_amount + amount },
    );
    Ok(())
}

/// A move never takes more than its ceiling out of the source, puts into the
/// destination what it takes out, and with a ceiling of zero changes nothing.
pub proof fn lemma_transfer_ceiling(l: Map<Key, AccountData>, a: MoveLockedLp, max_amount: u64, movable: u64)
    requires
        move_outcome(l, a, max_amount, movable) is Ok,
    ensures
        token_amount(l, a.from_escrow_vault) - token_amount(after_move(l, a, max_amount, movable), a.from_escrow_vault) <= max_amount,
        token_amount(l, a.from_escrow_vault) - token_amount(after_move(l, a, max_amount, movable), a.from_escrow_vault)
            == token_amount(after_move(l, a, max_amount, movable), a.to_escrow_vault) - token_amount(l, a.to_escrow_vault),
        max_amount == 0 ==> after_move(l, a, max_amount, movable) == l,
{
    if max_amount == 0 {
        assert(with_amount(l[a.from_escrow_vault], token_amount(l, a.from_escrow_vault)) == l[a.from_escrow_vault]);
        assert(with_amount(l[a.to_escrow_vault], token_amount(l, a.to_escrow_vault)) == l[a.to_escrow_vault]);
        assert(after_move(l, a, max_amount, movable) =~= l);
    }
}

} // verus!
