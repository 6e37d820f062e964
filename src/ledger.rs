use crate::key::Key;
use crate::table::{
    entries_map, find_duplicate_key, has_duplicate_keys, lemma_entries_map_at,
    lemma_entries_map_push, lemma_entries_map_update, position_of,
};
use vstd::prelude::*;

verus! {

/// What an account on the ledger holds.
#[derive(Clone, Copy, Debug, PartialEq, Eq)]
pub enum AccountData {
    /// A token mint.
    Mint { decimals: u8, authority: Key },
    /// A token account: a balance of one mint, under an authority.
    Token { mint: Key, authority: Key, amount: u64 },
    /// A lock escrow: vesting LP of a pool held for an owner in a vault.
    LockEscrow { pool: Key, owner: Key, escrow_vault: Key },
}

/// The accounts of the ledger, by address.
pub struct Ledger {
    accounts: Vec<(Key, AccountData)>,
}

impl Ledger {
    /// Every address occurs once.
    pub closed spec fn wf(&self) -> bool {
        !has_duplicate_keys(self.accounts@)
    }

    pub closed spec fn view(&self) -> Map<Key, AccountData> {
        entries_map(self.accounts@)
    }

    /// A ledger without accounts.
    pub fn new() -> (r: Ledger)
        ensures
            r.wf(),
            r@ == Map::<Key, AccountData>::empty(),
    {
        let r = Ledger { accounts: Vec::new() };
        assert(r@ =~= Map::<Key, AccountData>::empty());
        r
    }

    /// A ledger with the given accounts; `None` if an address is listed twice.
    pub fn from_accounts(accounts: Vec<(Key, AccountData)>) -> (r: Option<Ledger>)
        ensures
            r is None <==> has_duplicate_keys(accounts@),
            r matches Some(l) ==> l.wf() && l@ == entries_map(accounts@),
    {
        if find_duplicate_key(&accounts) {
            None
        } else {
            Some(Ledger { accounts })
        }
    }

    /// The account at the address, if there is one.
    pub fn get(&self, k: &Key) -> (r: Option<AccountData>)
        requires
            self.wf(),
        ensures
            r == (if self@.contains_key(*k) {
                Some(self@[*k])
            } else {
                None::<AccountData>
            }),
    {
        match position_of(&self.accounts, k) {
            Some(i) => {
                proof {
                    lemma_entries_map_at(self.accounts@, i as int);
                }
                Some(self.accounts[i].1)
            },
            None => None,
        }
    }

    /// Adds an account at a free address.
    pub(crate) fn create(&mut self, k: Key, data: AccountData)
        requires
            old(self).wf(),
            !old(self)@.contains_key(k),
        ensures
            final(self).wf(),
            final(self)@ == old(self)@.insert(k, data),
    {
        proof {
            lemma_entries_map_push(self.accounts@, k, data);
        }
        self.accounts.push((k, data));
    }

    /// Replaces what the account at an address holds.
    pub(crate) fn replace(&mut self, k: Key, data: AccountData)
        requires
            old(self).wf(),
            old(self)@.contains_key(k),
        ensures
            final(self).wf(),
            final(self)@ == old(self)@.insert(k, data),
    {
        match position_of(&self.accounts, &k) {
            Some(i) => {
                proof {
                    lemma_entries_map_update(self.accounts@, i as int, data);
                }
                self.accounts.set(i, (k, data));
            },
            None => {},
        }
    }
}

} // verus!
