use crate::key::Key;
use crate::table::{
    entries_map, find_duplicate_key, has_duplicate_keys, lemma_entries_map_at, position_of,
};
use vstd::prelude::*;

verus! {

/// A fixed table of legacy pools whose LP mint predates the derivation scheme,
/// from the vault identifier to its registered LP mint. It is built once and
/// offers no way to change it.
pub struct OverrideRegistry {
    entries: Vec<(Key, Key)>,
}

impl OverrideRegistry {
    #[verifier::type_invariant]
    spec fn keys_unique(self) -> bool {
        !has_duplicate_keys(self.entries@)
    }

    pub closed spec fn view(&self) -> Map<Key, Key> {
        entries_map(self.entries@)
    }

    /// The empty table.
    pub fn empty() -> (r: OverrideRegistry)
        ensures
            r@ == Map::<Key, Key>::empty(),
    {
        let r = OverrideRegistry { entries: Vec::new() };
        assert(r@ =~= Map::<Key, Key>::empty());
        r
    }

    /// Builds the table from `(vault, lp_mint)` pairs; `None` if a vault is
    /// listed twice.
    pub fn from_entries(entries: Vec<(Key, Key)>) -> (r: Option<OverrideRegistry>)
        ensures
            r is None <==> has_duplicate_keys(entries@),
            r matches Some(reg) ==> reg@ == entries_map(entries@),
    {
        if find_duplicate_key(&entries) {
            None
        } else {
            Some(OverrideRegistry { entries })
        }
    }

    /// The registered LP mint of a vault, if it is listed.
    pub fn get(&self, vault: &Key) -> (r: Option<Key>)
        ensures
            r == (if self@.contains_key(*vault) {
                Some(self@[*vault])
            } else {
                None::<Key>
            }),
    {
        proof {
            use_type_invariant(self);
        }
        match position_of(&self.entries, vault) {
            Some(i) => {
                proof {
                    lemma_entries_map_at(self.entries@, i as int);
                }
                Some(self.entries[i].1)
            },
            None => None,
        }
    }
}

} // verus!
