use crate::key::Key;
use solana_sdk::pubkey::Pubkey;
use vstd::prelude::*;

verus! {

/// Most seeds a derivation may take, the bump seed excluded.
pub const MAX_SEEDS: usize = 15;

/// Longest single seed, in bytes.
pub const MAX_SEED_LEN: usize = 32;

/// What the bump-seed search of the ledger's address scheme yields for the
/// given seeds under the given program: an address off the signable curve and
/// its bump byte, or nothing.
pub uninterp spec fn program_address_search(seeds: Seq<Seq<u8>>, program_id: Seq<u8>) -> Option<(Seq<u8>, u8)>;

/// The seeds as byte sequences.
pub open spec fn seeds_view(seeds: Seq<Vec<u8>>) -> Seq<Seq<u8>> {
    Seq::new(seeds.len(), |i: int| seeds[i]@)
}

/// Whether the seeds are within the counts and lengths that a derivation takes.
pub open spec fn seeds_within_limits(seeds: Seq<Seq<u8>>) -> bool {
    &&& seeds.len() <= MAX_SEEDS
    &&& forall|i: int| 0 <= i < seeds.len() ==> seeds[i].len() <= MAX_SEED_LEN
}

/// The derived address for the seeds under the program, if the search finds one.
pub open spec fn derived_address(seeds: Seq<Seq<u8>>, program_id: Seq<u8>) -> Option<Seq<u8>> {
    match program_address_search(seeds, program_id) {
        Some((a, _)) => Some(a),
        None => None,
    }
}

/// An optional key, as optional bytes.
pub open spec fn opt_key_view(k: Option<Key>) -> Option<Seq<u8>> {
    match k {
        Some(k) => Some(k@),
        None => None,
    }
}

/// Relies on `Pubkey::try_find_program_address` (solana-pubkey): its result
/// depends on the seeds and the program id alone, and it is `None` when there
/// are too many seeds or one of them is too long.
#[verifier::external_body]
fn try_find_program_address(seeds: &Vec<Vec<u8>>, program_id: &Key) -> (r: Option<(Key, u8)>)
    ensures
        match r {
            Some((k, b)) => program_address_search(seeds_view(seeds@), program_id@) == Some(
                (k@, b),
            ),
            None => program_address_search(seeds_view(seeds@), program_id@) is None,
        },
        !seeds_within_limits(seeds_view(seeds@)) ==> r is None,
{
    let s: Vec<&[u8]> = seeds.iter().map(|v| v.as_slice()).collect();
    match Pubkey::try_find_program_address(&s, &Pubkey::new_from_array(program_id.bytes)) {
        Some((k, b)) => Some((Key { bytes: k.to_bytes() }, b)),
        None => None,
    }
}

/// Finds the derived address for the seeds under the program.
pub fn find_derived_key(seeds: &Vec<Vec<u8>>, program_id: &Key) -> (r: Option<Key>)
    ensures
        opt_key_view(r) == derived_address(seeds_view(seeds@), program_id@),
{
    match try_find_program_address(seeds, program_id) {
        Some((k, _)) => Some(k),
        None => None,
    }
}

} // verus!
