use dynamic_amm::derive::{
    derive_associated_token_key, derive_lp_mint_key, derive_pool_lp_mint_key,
    derive_protocol_fee_key, derive_token_vault_key, derive_vault_key, derive_vault_lp_key,
    derive_vault_lp_mint_key,
};
use dynamic_amm::key::Key;
use dynamic_amm::registry::OverrideRegistry;
use dynamic_amm::seed::{
    amm_program_id, associated_token_program_id, token_program_id, vault_base_key,
    vault_program_id,
};
use solana_sdk::pubkey::Pubkey;
use std::str::FromStr;

fn pk(s: &str) -> Pubkey {
    Pubkey::from_str(s).unwrap()
}

fn key(p: Pubkey) -> Key {
    Key::new(p.to_bytes())
}

fn pda(seeds: &[&[u8]], program: &Pubkey) -> Key {
    key(Pubkey::find_program_address(seeds, program).0)
}

#[test]
fn program_ids_decode_to_their_addresses() {
    assert_eq!(vault_program_id(), key(pk("24Uqj9JCLxUeoC3hGfh5W3s9FM9uCHDS2SG3LYwBpyTi")));
    assert_eq!(vault_base_key(), key(pk("HWzXGcGHy4tcpYfaRDCyLNzXqBTv3E6BttpCH2vJxArv")));
    assert_eq!(amm_program_id(), key(pk("Eo7WjKq67rjJQSZxS6z3YkapzY3eMj6Xy8X5EQVn5UaB")));
    assert_eq!(token_program_id(), key(pk("TokenkegQfeZyiNwAJbNbGKPFXCWuBvf9Ss623VQ5DA")));
    assert_eq!(
        associated_token_program_id(),
        key(pk("ATokenGPvbdGVxr1b2hvZbsiqW5xWH25efTNsLJA8knL"))
    );
}

#[test]
fn vault_key_uses_prefix_mint_and_base() {
    let mint = pk("EPjFWdd5AufqSSqeM2qN1xzybapC8G4wEGGkZwyTDt1v");
    let vault_program = pk("24Uqj9JCLxUeoC3hGfh5W3s9FM9uCHDS2SG3LYwBpyTi");
    let base = pk("HWzXGcGHy4tcpYfaRDCyLNzXqBTv3E6BttpCH2vJxArv");
    let expected = pda(&[b"vault", mint.as_ref(), base.as_ref()], &vault_program);
    let got = derive_vault_key(key(mint)).unwrap();
    assert_eq!(got, expected);
    assert_ne!(got, key(mint));
}

#[test]
fn token_vault_and_lp_mint_keys_follow_their_seeds() {
    let vault = pk("3ESUFCnRNgZ7Mn2mPPUMmXYaKU8jpnV9VtA17M7t2mHQ");
    let vault_program = pk("24Uqj9JCLxUeoC3hGfh5W3s9FM9uCHDS2SG3LYwBpyTi");
    assert_eq!(
        derive_token_vault_key(key(vault)).unwrap(),
        pda(&[b"token_vault", vault.as_ref()], &vault_program)
    );
    assert_eq!(
        derive_vault_lp_mint_key(key(vault)).unwrap(),
        pda(&[b"lp_mint", vault.as_ref()], &vault_program)
    );
}

#[test]
fn pool_scoped_keys_follow_their_seeds() {
    let amm = pk("Eo7WjKq67rjJQSZxS6z3YkapzY3eMj6Xy8X5EQVn5UaB");
    let pool = Pubkey::new_from_array([7; 32]);
    let vault = Pubkey::new_from_array([8; 32]);
    let mint = Pubkey::new_from_array([9; 32]);
    let payer = Pubkey::new_from_array([10; 32]);
    assert_eq!(
        derive_pool_lp_mint_key(key(pool)).unwrap(),
        pda(&[b"lp_mint", pool.as_ref()], &amm)
    );
    assert_eq!(
        derive_vault_lp_key(key(vault), key(pool)).unwrap(),
        pda(&[vault.as_ref(), pool.as_ref()], &amm)
    );
    assert_eq!(
        derive_protocol_fee_key(key(mint), key(pool)).unwrap(),
        pda(&[b"fee", mint.as_ref(), pool.as_ref()], &amm)
    );
    let token = pk("TokenkegQfeZyiNwAJbNbGKPFXCWuBvf9Ss623VQ5DA");
    let ata = pk("ATokenGPvbdGVxr1b2hvZbsiqW5xWH25efTNsLJA8knL");
    assert_eq!(
        derive_associated_token_key(key(payer), key(mint)).unwrap(),
        pda(&[payer.as_ref(), token.as_ref(), mint.as_ref()], &ata)
    );
}

#[test]
fn derivation_is_deterministic() {
    let mint = Key::new([42; 32]);
    assert_eq!(derive_vault_key(mint), derive_vault_key(mint));
    assert_eq!(derive_token_vault_key(mint), derive_token_vault_key(mint));
    let pool = Key::new([43; 32]);
    assert_eq!(derive_protocol_fee_key(mint, pool), derive_protocol_fee_key(mint, pool));
}

#[test]
fn distinct_mints_give_distinct_vaults() {
    let m1 = Key::new([1; 32]);
    let m2 = Key::new([2; 32]);
    assert_ne!(derive_vault_key(m1).unwrap(), derive_vault_key(m2).unwrap());
}

#[test]
fn registry_overrides_lp_mint_derivation() {
    let legacy_vault = Key::new([3; 32]);
    let legacy_mint = Key::new([4; 32]);
    let other_vault = Key::new([5; 32]);
    let registry = OverrideRegistry::from_entries(vec![(legacy_vault, legacy_mint)]).unwrap();
    assert_eq!(derive_lp_mint_key(&registry, legacy_vault), Some(legacy_mint));
    assert_ne!(derive_vault_lp_mint_key(legacy_vault), Some(legacy_mint));
    assert_eq!(
        derive_lp_mint_key(&registry, other_vault),
        derive_vault_lp_mint_key(other_vault)
    );
    let empty = OverrideRegistry::empty();
    assert_eq!(
        derive_lp_mint_key(&empty, legacy_vault),
        derive_vault_lp_mint_key(legacy_vault)
    );
}

#[test]
fn registry_refuses_a_vault_listed_twice() {
    let v = Key::new([3; 32]);
    let entries = vec![(v, Key::new([4; 32])), (Key::new([6; 32]), Key::new([7; 32])), (v, Key::new([5; 32]))];
    assert!(OverrideRegistry::from_entries(entries).is_none());
    let ok = vec![(v, Key::new([4; 32])), (Key::new([6; 32]), Key::new([7; 32]))];
    let reg = OverrideRegistry::from_entries(ok).unwrap();
    assert_eq!(reg.get(&Key::new([6; 32])), Some(Key::new([7; 32])));
    assert_eq!(reg.get(&Key::new([8; 32])), None);
}

#[test]
fn keys_compare_by_every_byte() {
    let mut b = [0u8; 32];
    let a = Key::new(b);
    b[31] = 1;
    let c = Key::new(b);
    assert!(a.same(&a));
    assert!(!a.same(&c));
    assert_eq!(c.to_vec().len(), 32);
    assert_eq!(c.to_vec()[31], 1);
}
