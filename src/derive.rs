use crate::key::{lemma_key_view_injective, Key};
use crate::registry::OverrideRegistry;
use crate::pda::{derived_address, find_derived_key, opt_key_view, seeds_view};
use crate::seed::{
    amm_program, amm_program_id, associated_token_program, associated_token_program_id,
    lp_mint_prefix, lp_mint_prefix_bytes, protocol_fee_prefix, protocol_fee_prefix_bytes,
    token_program, token_program_id, token_vault_prefix, token_vault_prefix_bytes, vault_base,
    vault_base_key, vault_prefix, vault_prefix_bytes, vault_program, vault_program_id,
};
use vstd::prelude::*;

verus! {

/// Seeds of a yield vault: the vault prefix, the token mint, the base authority.
pub open spec fn vault_seeds(mint: Seq<u8>) -> Seq<Seq<u8>> {
    seq![vault_prefix(), mint, vault_base()@]
}

/// Seeds of a vault's token-holding account.
pub open spec fn token_vault_seeds(vault: Seq<u8>) -> Seq<Seq<u8>> {
    seq![token_vault_prefix(), vault]
}

/// Seeds of a vault's share mint (and, under the pool program, of a pool's LP mint).
pub open spec fn lp_mint_seeds(owner: Seq<u8>) -> Seq<Seq<u8>> {
    seq![lp_mint_prefix(), owner]
}

/// Seeds of a pool's claim account on a vault's shares.
pub open spec fn vault_lp_seeds(vault: Seq<u8>, pool: Seq<u8>) -> Seq<Seq<u8>> {
    seq![vault, pool]
}

/// Seeds of a pool's protocol fee account for one token.
pub open spec fn protocol_fee_seeds(mint: Seq<u8>, pool: Seq<u8>) -> Seq<Seq<u8>> {
    seq![protocol_fee_prefix(), mint, pool]
}

/// Seeds of a wallet's associated token account for a mint.
pub open spec fn associated_token_seeds(wallet: Seq<u8>, mint: Seq<u8>) -> Seq<Seq<u8>> {
    seq![wallet, token_program()@, mint]
}

pub open spec fn vault_key(mint: Seq<u8>) -> Option<Seq<u8>> {
    derived_address(vault_seeds(mint), vault_program()@)
}

pub open spec fn token_vault_key(vault: Seq<u8>) -> Option<Seq<u8>> {
    derived_address(token_vault_seeds(vault), vault_program()@)
}

pub open spec fn vault_lp_mint_key(vault: Seq<u8>) -> Option<Seq<u8>> {
    derived_address(lp_mint_seeds(vault), vault_program()@)
}

pub open spec fn pool_lp_mint_key(pool: Seq<u8>) -> Option<Seq<u8>> {
    derived_address(lp_mint_seeds(pool), amm_program()@)
}

pub open spec fn vault_lp_key(vault: Seq<u8>, pool: Seq<u8>) -> Option<Seq<u8>> {
    derived_address(vault_lp_seeds(vault, pool), amm_program()@)
}

pub open spec fn protocol_fee_key(mint: Seq<u8>, pool: Seq<u8>) -> Option<Seq<u8>> {
    derived_address(protocol_fee_seeds(mint, pool), amm_program()@)
}

pub open spec fn associated_token_key(wallet: Seq<u8>, mint: Seq<u8>) -> Option<Seq<u8>> {
    derived_address(associated_token_seeds(wallet, mint), associated_token_program()@)
}

fn two_seeds(a: Vec<u8>, b: Vec<u8>) -> (r: Vec<Vec<u8>>)
    ensures
        seeds_view(r@) == seq![a@, b@],
{
    let ghost (va, vb) = (a@, b@);
    let mut r: Vec<Vec<u8>> = Vec::new();
    r.push(a);
    r.push(b);
    assert(seeds_view(r@) =~= seq![va, vb]);
    r
}

fn three_seeds(a: Vec<u8>, b: Vec<u8>, c: Vec<u8>) -> (r: Vec<Vec<u8>>)
    ensures
        seeds_view(r@) == seq![a@, b@, c@],
{
    let ghost (va, vb, vc) = (a@, b@, c@);
    let mut r: Vec<Vec<u8>> = Vec::new();
    r.push(a);
    r.push(b);
    r.push(c);
    assert(seeds_view(r@) =~= seq![va, vb, vc]);
    r
}

/// The yield vault of a token mint: one per mint, shared by every pool.
/// `None` only where the bump search finds no address.
pub fn derive_vault_key(mint: Key) -> (r: Option<Key>)
    ensures
        opt_key_view(r) == vault_key(mint@),
{
    let seeds = three_seeds(vault_prefix_bytes(), mint.to_vec(), vault_base_key().to_vec());
    find_derived_key(&seeds, &vault_program_id())
}

/// The token-holding account of a yield vault.
pub fn derive_token_vault_key(vault: Key) -> (r: Option<Key>)
    ensures
        opt_key_view(r) == token_vault_key(vault@),
{
    let seeds = two_seeds(token_vault_prefix_bytes(), vault.to_vec());
    find_derived_key(&seeds, &vault_program_id())
}

/// The share mint of a yield vault by the derivation alone.
pub fn derive_vault_lp_mint_key(vault: Key) -> (r: Option<Key>)
    ensures
        opt_key_view(r) == vault_lp_mint_key(vault@),
{
    let seeds = two_seeds(lp_mint_prefix_bytes(), vault.to_vec());
    find_derived_key(&seeds, &vault_program_id())
}

/// The LP mint of a pool.
pub fn derive_pool_lp_mint_key(pool: Key) -> (r: Option<Key>)
    ensures
        opt_key_view(r) == pool_lp_mint_key(pool@),
{
    let seeds = two_seeds(lp_mint_prefix_bytes(), pool.to_vec());
    find_derived_key(&seeds, &amm_program_id())
}

/// The account through which a pool holds a vault's shares.
pub fn derive_vault_lp_key(vault: Key, pool: Key) -> (r: Option<Key>)
    ensures
        opt_key_view(r) == vault_lp_key(vault@, pool@),
{
    let seeds = two_seeds(vault.to_vec(), pool.to_vec());
    find_derived_key(&seeds, &amm_program_id())
}

/// The protocol fee account of a pool for one of its tokens.
pub fn derive_protocol_fee_key(mint: Key, pool: Key) -> (r: Option<Key>)
    ensures
        opt_key_view(r) == protocol_fee_key(mint@, pool@),
{
    let seeds = three_seeds(protocol_fee_prefix_bytes(), mint.to_vec(), pool.to_vec());
    find_derived_key(&seeds, &amm_program_id())
}

/// The associated token account of a wallet for a mint.
pub fn derive_associated_token_key(wallet: Key, mint: Key) -> (r: Option<Key>)
    ensures
        opt_key_view(r) == associated_token_key(wallet@, mint@),
{
    let seeds = three_seeds(wallet.to_vec(), token_program_id().to_vec(), mint.to_vec());
    find_derived_key(&seeds, &associated_token_program_id())
}

/// The LP mint of a vault: the registered one for a listed legacy vault, else
/// the derived one.
pub open spec fn lp_mint_key(registry: Map<Key, Key>, vault: Key) -> Option<Seq<u8>> {
    if registry.contains_key(vault) {
        Some(registry[vault]@)
    } else {
        vault_lp_mint_key(vault@)
    }
}

/// The LP mint of a vault. A vault listed in the registry gets its registered
/// mint verbatim and no derivation takes place.
pub fn derive_lp_mint_key(registry: &OverrideRegistry, vault: Key) -> (r: Option<Key>)
    ensures
        opt_key_view(r) == lp_mint_key(registry@, vault),
        registry@.contains_key(vault) ==> r == Some(registry@[vault]),
{
    match registry.get(&vault) {
        Some(lp_mint) => Some(lp_mint),
        None => derive_vault_lp_mint_key(vault),
    }
}

/// A derivation is a function of its seeds and program: the same inputs give
/// the same identifier, on every call.
pub proof fn lemma_derivation_deterministic(
    seeds1: Seq<Seq<u8>>,
    program1: Seq<u8>,
    seeds2: Seq<Seq<u8>>,
    program2: Seq<u8>,
)
    requires
        seeds1 == seeds2,
        program1 == program2,
    ensures
        derived_address(seeds1, program1) == derived_address(seeds2, program2),
{
}

/// Distinct token mints give distinct vault seeds, so their vault identifiers
/// are the outputs of the derivation on distinct inputs.
pub proof fn lemma_vault_seeds_distinct(m1: Key, m2: Key)
    requires
        m1 != m2,
    ensures
        vault_seeds(m1@) != vault_seeds(m2@),
{
    lemma_key_view_injective(m1, m2);
    assert(vault_seeds(m1@)[1] == m1@);
    assert(vault_seeds(m2@)[1] == m2@);
}

/// A vault listed in the registry has its registered LP mint, whatever the
/// derivation would give.
pub proof fn lemma_override_precedence(registry: Map<Key, Key>, vault: Key)
    requires
        registry.contains_key(vault),
    ensures
        lp_mint_key(registry, vault) == Some(registry[vault]@),
{
}

} // verus!
