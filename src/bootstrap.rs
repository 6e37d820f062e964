use crate::derive::{
    associated_token_key, derive_associated_token_key, derive_pool_lp_mint_key,
    derive_protocol_fee_key, derive_vault_lp_key, pool_lp_mint_key, protocol_fee_key,
    vault_lp_key,
};
use crate::error::PoolError;
use crate::key::{lemma_key_view_injective, Key};
use crate::ledger::{AccountData, Ledger};
use crate::pda::opt_key_view;
use crate::seed::{associated_token_program, associated_token_program_id, token_program, token_program_id};
use crate::table::{find_duplicate_key, has_duplicate_keys};
use vstd::prelude::*;

verus! {

/// The accounts that the creation of a pool reads and creates.
#[derive(Clone, Copy, Debug, PartialEq, Eq)]
pub struct InitializeCustomizablePermissionlessConstantProductPool {
    /// The pool record.
    pub pool: Key,
    /// LP mint of the pool; created here.
    pub lp_mint: Key,
    /// Mint of token A.
    pub token_a_mint: Key,
    /// Mint of token B.
    pub token_b_mint: Key,
    /// Yield vault of token A.
    pub a_vault: Key,
    /// Yield vault of token B.
    pub b_vault: Key,
    /// Token-holding account of vault A.
    pub a_token_vault: Key,
    /// Token-holding account of vault B.
    pub b_token_vault: Key,
    /// Share mint of vault A.
    pub a_vault_lp_mint: Key,
    /// Share mint of vault B.
    pub b_vault_lp_mint: Key,
    /// The pool's holding of vault A's shares; created here.
    pub a_vault_lp: Key,
    /// The pool's holding of vault B's shares; created here.
    pub b_vault_lp: Key,
    /// Payer's account of token A, for the first deposit.
    pub payer_token_a: Key,
    /// Payer's account of token B, for the first deposit.
    pub payer_token_b: Key,
    /// Payer's account of the pool's LP; created here.
    pub payer_pool_lp: Key,
    /// Protocol fee account of token A; created here.
    pub protocol_token_a_fee: Key,
    /// Protocol fee account of token B; created here.
    pub protocol_token_b_fee: Key,
    /// The payer and signer.
    pub payer: Key,
    /// The token program.
    pub token_program: Key,
    /// The associated-token-account program.
    pub associated_token_program: Key,
}

pub open spec fn is_mint(l: Map<Key, AccountData>, k: Key) -> bool {
    l.contains_key(k) && l[k] is Mint
}

pub open spec fn is_token(l: Map<Key, AccountData>, k: Key) -> bool {
    l.contains_key(k) && l[k] is Token
}

pub open spec fn decimals_of(l: Map<Key, AccountData>, k: Key) -> u8 {
    match l[k] {
        AccountData::Mint { decimals, .. } => decimals,
        _ => 0,
    }
}

pub open spec fn max_u8(a: u8, b: u8) -> u8 {
    if a >= b {
        a
    } else {
        b
    }
}

/// Whether the supplied key is the derived one.
pub open spec fn is_derived(supplied: Key, derived: Option<Seq<u8>>) -> bool {
    derived == Some(supplied@)
}

/// Whether every account that must already exist does, with the right kind of record.
pub open spec fn inputs_exist(l: Map<Key, AccountData>, a: InitializeCustomizablePermissionlessConstantProductPool) -> bool {
    &&& is_mint(l, a.token_a_mint)
    &&& is_mint(l, a.token_b_mint)
    &&& is_mint(l, a.a_vault_lp_mint)
    &&& is_mint(l, a.b_vault_lp_mint)
    &&& is_token(l, a.a_token_vault)
    &&& is_token(l, a.b_token_vault)
    &&& is_token(l, a.payer_token_a)
    &&& is_token(l, a.payer_token_b)
}

/// Whether the programs are the expected ones and each account to be created
/// is at its derived address.
pub open spec fn identities_match(a: InitializeCustomizablePermissionlessConstantProductPool) -> bool {
    &&& a.token_program == token_program()
    &&& a.associated_token_program == associated_token_program()
    &&& is_derived(a.lp_mint, pool_lp_mint_key(a.pool@))
    &&& is_derived(a.a_vault_lp, vault_lp_key(a.a_vault@, a.pool@))
    &&& is_derived(a.b_vault_lp, vault_lp_key(a.b_vault@, a.pool@))
    &&& is_derived(a.payer_pool_lp, associated_token_key(a.payer@, a.lp_mint@))
    &&& is_derived(a.protocol_token_a_fee, protocol_fee_key(a.token_a_mint@, a.pool@))
    &&& is_derived(a.protocol_token_b_fee, protocol_fee_key(a.token_b_mint@, a.pool@))
}

/// The six accounts that the creation of a pool adds, in order. The LP mint
/// has the larger decimals of the two tokens, and the pool's holding of vault
/// A's shares is the authority of the LP mint and of every created token account
/// but the payer's.
pub open spec fn new_accounts(l: Map<Key, AccountData>, a: InitializeCustomizablePermissionlessConstantProductPool) -> Seq<(Key, AccountData)> {
    seq![
        (a.lp_mint, AccountData::Mint {
            decimals: max_u8(decimals_of(l, a.token_a_mint), decimals_of(l, a.token_b_mint)),
            authority: a.a_vault_lp,
        }),
        (a.a_vault_lp, AccountData::Token { mint: a.a_vault_lp_mint, authority: a.a_vault_lp, amount: 0 }),
        (a.b_vault_lp, AccountData::Token { mint: a.b_vault_lp_mint, authority: a.a_vault_lp, amount: 0 }),
        (a.payer_pool_lp, AccountData::Token { mint: a.lp_mint, authority: a.payer, amount: 0 }),
        (a.protocol_token_a_fee, AccountData::Token { mint: a.token_a_mint, authority: a.a_vault_lp, amount: 0 }),
        (a.protocol_token_b_fee, AccountData::Token { mint: a.token_b_mint, authority: a.a_vault_lp, amount: 0 }),
    ]
}

/// Whether the six addresses are distinct and none is in use.
pub open spec fn targets_free(l: Map<Key, AccountData>, s: Seq<(Key, AccountData)>) -> bool {
    &&& !has_duplicate_keys(s)
    &&& forall|i: int| 0 <= i < s.len() ==> !l.contains_key(#[trigger] s[i].0)
}

/// The outcome of creating a pool: the first check that fails gives the error.
pub open spec fn bootstrap_outcome(l: Map<Key, AccountData>, a: InitializeCustomizablePermissionlessConstantProductPool) -> Result<(), PoolError> {
    if a.token_a_mint == a.token_b_mint {
        Err(PoolError::InvalidMintPair)
    } else if !inputs_exist(l, a) {
        Err(PoolError::AccountNotFound)
    } else if !identities_match(a) {
        Err(PoolError::IdentityMismatch)
    } else if !targets_free(l, new_accounts(l, a)) {
        Err(PoolError::AccountAlreadyExists)
    } else {
        Ok(())
    }
}

/// The ledger with the accounts added.
pub open spec fn with_accounts(l: Map<Key, AccountData>, s: Seq<(Key, AccountData)>) -> Map<Key, AccountData>
    decreases s.len(),
{
    if s.len() == 0 {
        l
    } else {
        with_accounts(l, s.drop_last()).insert(s.last().0, s.last().1)
    }
}

/// The larger of two decimal precisions: that of a pool's LP mint.
pub fn get_lp_mint_decimal(a: u8, b: u8) -> (r: u8)
    ensures
        r == max_u8(a, b),
{
    if a >= b {
        a
    } else {
        b
    }
}

/// Checks that an LP mint's decimals are the larger of the two tokens'.
pub fn check_lp_mint_precision(lp_decimals: u8, a_decimals: u8, b_decimals: u8) -> (r: Result<(), PoolError>)
    ensures
        r is Ok <==> lp_decimals == max_u8(a_decimals, b_decimals),
        r is Err ==> r == Err::<(), PoolError>(PoolError::PrecisionMismatch),
{
    if lp_decimals == get_lp_mint_decimal(a_decimals, b_decimals) {
        Ok(())
    } else {
        Err(PoolError::PrecisionMismatch)
    }
}

/// Checks that a supplied key is the derived one.
pub fn validate_derived_equals(supplied: &Key, derived: Option<Key>) -> (r: Result<(), PoolError>)
    ensures
        r is Ok <==> is_derived(*supplied, opt_key_view(derived)),
        r is Err ==> r == Err::<(), PoolError>(PoolError::IdentityMismatch),
{
    match derived {
        Some(d) => {
            proof {
                lemma_key_view_injective(d, *supplied);
            }
            if d.same(supplied) {
                Ok(())
            } else {
                Err(PoolError::IdentityMismatch)
            }
        },
        None => Err(PoolError::IdentityMismatch),
    }
}

fn mint_decimals(ledger: &Ledger, k: &Key) -> (r: Option<u8>)
    requires
        ledger.wf(),
    ensures
        r is Some <==> is_mint(ledger@, *k),
        r matches Some(d) ==> d == decimals_of(ledger@, *k),
{
    match ledger.get(k) {
        Some(AccountData::Mint { decimals, .. }) => Some(decimals),
        _ => None,
    }
}

fn is_token_account(ledger: &Ledger, k: &Key) -> (r: bool)
    requires
        ledger.wf(),
    ensures
        r == is_token(ledger@, *k),
{
    match ledger.get(k) {
        Some(AccountData::Token { .. }) => true,
        _ => false,
    }
}

/// Creates a pool's accounts: checks, in order, that the mints differ, that
/// the accounts it reads exist, that the programs are the expected ones and
/// every account it creates is at its derived address, and that those addresses
/// are distinct and free; then adds the six accounts. On any error the ledger
/// is left as it was.
pub fn initialize_pool(
    ledger: &mut Ledger,
    accounts: &InitializeCustomizablePermissionlessConstantProductPool,
) -> (r: Result<(), PoolError>)
    requires
        old(ledger).wf(),
    ensures
        final(ledger).wf(),
        r == bootstrap_outcome(old(ledger)@, *accounts),
        r is Ok ==> final(ledger)@ == with_accounts(
            old(ledger)@,
            new_accounts(old(ledger)@, *accounts),
        ),
        r is Err ==> final(ledger)@ == old(ledger)@,
{
    let a = accounts;
    if a.token_a_mint.same(&a.token_b_mint) {
        return Err(PoolError::InvalidMintPair);
    }
    let (a_decimals, b_decimals) = match (
        mint_decimals(ledger, &a.token_a_mint),
        mint_decimals(ledger, &a.token_b_mint),
    ) {
        (Some(x), Some(y)) => (x, y),
        _ => {
            return Err(PoolError::AccountNotFound);
        },
    };
    let exist = mint_decimals(ledger, &a.a_vault_lp_mint).is_some() && mint_decimals(
        ledger,
        &a.b_vault_lp_mint,
    ).is_some() && is_token_account(ledger, &a.a_token_vault) && is_token_account(
        ledger,
        &a.b_token_vault,
    ) && is_token_account(ledger, &a.payer_token_a) && is_token_account(
        ledger,
        &a.payer_token_b,
    );
    if !exist {
        return Err(PoolError::AccountNotFound);
    }
    proof {
        lemma_key_view_injective(a.token_program, token_program());
        lemma_key_view_injective(a.associated_token_program, associated_token_program());
    }
    let identities = a.token_program.same(&token_program_id())
        && a.associated_token_program.same(&associated_token_program_id())
        && validate_derived_equals(&a.lp_mint, derive_pool_lp_mint_key(a.pool)).is_ok()
        && validate_derived_equals(&a.a_vault_lp, derive_vault_lp_key(a.a_vault, a.pool)).is_ok()
        && validate_derived_equals(&a.b_vault_lp, derive_vault_lp_key(a.b_vault, a.pool)).is_ok()
        && validate_derived_equals(
        &a.payer_pool_lp,
        derive_associated_token_key(a.payer, a.lp_mint),
    ).is_ok() && validate_derived_equals(
        &a.protocol_token_a_fee,
        derive_protocol_fee_key(a.token_a_mint, a.pool),
    ).is_ok() && validate_derived_equals(
        &a.protocol_token_b_fee,
        derive_protocol_fee_key(a.token_b_mint, a.pool),
    ).is_ok();
    if !identities {
        return Err(PoolError::IdentityMismatch);
    }
    let mut created: Vec<(Key, AccountData)> = Vec::new();
    created.push(
        (
            a.lp_mint,
            AccountData::Mint {
                decimals: get_lp_mint_decimal(a_decimals, b_decimals),
                authority: a.a_vault_lp,
            },
        ),
    );
    created.push(
        (
            a.a_vault_lp,
            AccountData::Token { mint: a.a_vault_lp_mint, authority: a.a_vault_lp, amount: 0 },
        ),
    );
    created.push(
        (
            a.b_vault_lp,
            AccountData::Token { mint: a.b_vault_lp_mint, authority: a.a_vault_lp, amount: 0 },
        ),
    );
    created.push(
        (a.payer_pool_lp, AccountData::Token { mint: a.lp_mint, authority: a.payer, amount: 0 }),
    );
    created.push(
        (
            a.protocol_token_a_fee,
            AccountData::Token { mint: a.token_a_mint, authority: a.a_vault_lp, amount: 0 },
        ),
    );
    created.push(
        (
            a.protocol_token_b_fee,
            AccountData::Token { mint: a.token_b_mint, authority: a.a_vault_lp, amount: 0 },
        ),
    );
    let ghost l0 = ledger@;
    assert(created@ =~= new_accounts(l0, *a));
    if find_duplicate_key(&created) {
        return Err(PoolError::AccountAlreadyExists);
    }
    let n = created.len();
    let mut i: usize = 0;
    while i < n
        invariant
            n == created@.len(),
            0 <= i <= n,
            ledger.wf(),
            ledger@ == l0,
            l0 == old(ledger)@,
            *a == *accounts,
            a.token_a_mint != a.token_b_mint,
            inputs_exist(l0, *a),
            identities_match(*a),
            created@ == new_accounts(l0, *a),
            forall|j: int| 0 <= j < i ==> !l0.contains_key(#[trigger] created@[j].0),
        decreases n - i,
    {
        if ledger.get(&created[i].0).is_some() {
            assert(l0.contains_key(created@[i as int].0));
            assert(!targets_free(l0, created@));
            return Err(PoolError::AccountAlreadyExists);
        }
        i = i + 1;
    }
    assert(targets_free(l0, created@));
    let mut i: usize = 0;
    while i < n
        invariant
            n == created@.len(),
            0 <= i <= n,
            ledger.wf(),
            targets_free(l0, created@),
            l0 == old(ledger)@,
            *a == *accounts,
            a.token_a_mint != a.token_b_mint,
            inputs_exist(l0, *a),
            identities_match(*a),
            created@ == new_accounts(l0, *a),
            ledger@ == with_accounts(l0, created@.subrange(0, i as int)),
            forall|j: int| i <= j < n ==> !ledger@.contains_key(#[trigger] created@[j].0),
        decreases n - i,
    {
        let (k, d) = created[i];
        ledger.create(k, d);
        proof {
            let s = created@.subrange(0, i + 1);
            assert(s.drop_last() =~= created@.subrange(0, i as int));
            assert forall|j: int| i + 1 <= j < n implies !ledger@.contains_key(
                #[trigger] created@[j].0,
            ) by {
                assert(created@[i as int].0 != created@[j].0);
            }
        }
        i = i + 1;
    }
    assert(created@.subrange(0, n as int) =~= created@);
    Ok(())
}

/// Accounts added with distinct addresses are all found in the result.
proof fn lemma_with_accounts_at(l: Map<Key, AccountData>, s: Seq<(Key, AccountData)>, i: int)
    requires
        !has_duplicate_keys(s),
        0 <= i < s.len(),
    ensures
        with_accounts(l, s).contains_key(s[i].0),
        with_accounts(l, s)[s[i].0] == s[i].1,
    decreases s.len(),
{
    let t = s.drop_last();
    if i < s.len() - 1 {
        assert(!has_duplicate_keys(t)) by {
            if exists|p: int, q: int| 0 <= p < q < t.len() && t[p].0 == t[q].0 {
                let (p, q) = choose|p: int, q: int| 0 <= p < q < t.len() && t[p].0 == t[q].0;
                assert(s[p].0 == s[q].0);
            }
        }
        lemma_with_accounts_at(l, t, i);
        assert(t[i] == s[i]);
        assert(s[i].0 != s[s.len() - 1].0);
    }
}

/// A pool is created only where every rule of its account graph holds: the
/// mints differ; the LP mint has the larger decimals of the two tokens and the
/// pool's holding of vault A's shares as its authority; every created account
/// is at its derived address and was free; each fee account is of its own
/// side's mint; the payer's LP account is of the LP mint and the payer's.
pub proof fn lemma_bootstrap_establishes_invariants(
    l: Map<Key, AccountData>,
    a: InitializeCustomizablePermissionlessConstantProductPool,
)
    requires
        bootstrap_outcome(l, a) is Ok,
    ensures
        a.token_a_mint != a.token_b_mint,
        identities_match(a),
        targets_free(l, new_accounts(l, a)),
        with_accounts(l, new_accounts(l, a))[a.lp_mint] == (AccountData::Mint {
            decimals: max_u8(decimals_of(l, a.token_a_mint), decimals_of(l, a.token_b_mint)),
            authority: a.a_vault_lp,
        }),
        with_accounts(l, new_accounts(l, a))[a.protocol_token_a_fee] == (AccountData::Token {
            mint: a.token_a_mint,
            authority: a.a_vault_lp,
            amount: 0,
        }),
        with_accounts(l, new_accounts(l, a))[a.protocol_token_b_fee] == (AccountData::Token {
            mint: a.token_b_mint,
            authority: a.a_vault_lp,
            amount: 0,
        }),
        with_accounts(l, new_accounts(l, a))[a.payer_pool_lp] == (AccountData::Token {
            mint: a.lp_mint,
            authority: a.payer,
            amount: 0,
        }),
{
    let s = new_accounts(l, a);
    lemma_with_accounts_at(l, s, 0);
    lemma_with_accounts_at(l, s, 3);
    lemma_with_accounts_at(l, s, 4);
    lemma_with_accounts_at(l, s, 5);
}

/// The LP mint of every created pool has the larger decimals of its two tokens.
pub proof fn lemma_lp_decimals_rule(
    l: Map<Key, AccountData>,
    a: InitializeCustomizablePermissionlessConstantProductPool,
)
    requires
        bootstrap_outcome(l, a) is Ok,
    ensures
        with_accounts(l, new_accounts(l, a))[a.lp_mint] matches AccountData::Mint {
            decimals,
            ..
        } && decimals == max_u8(decimals_of(l, a.token_a_mint), decimals_of(l, a.token_b_mint)),
{
    lemma_with_accounts_at(l, new_accounts(l, a), 0);
}

} // verus!
