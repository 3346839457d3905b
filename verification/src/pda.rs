use vstd::prelude::*;

use crate::keys::AccountId;

verus! {

/// What `Pubkey::try_find_program_address` returns for given seeds under a
/// given program identity: the derived address and its canonical bump, or
/// nothing when no bump yields a valid derivation. The result is a pure
/// function of the seeds and the program identity alone.
pub uninterp spec fn found_pda(seeds: Seq<Seq<u8>>, program: Seq<u8>) -> Option<(Seq<u8>, u8)>;

/// What `Pubkey::create_program_address` returns for given seeds (the last
/// of which is conventionally a one-byte bump) under a given program
/// identity, or nothing when the seeds are rejected or the derivation lands
/// on the curve. A pure function of the seeds and the program identity alone.
pub uninterp spec fn created_pda(seeds: Seq<Seq<u8>>, program: Seq<u8>) -> Option<Seq<u8>>;

/// Relies on `Pubkey::try_find_program_address` (solana-program): it searches
/// bumps downward from 255 and returns the first address that
/// `create_program_address` accepts for `seeds` plus that bump, so the
/// returned pair re-creates the returned address; addresses are 32 bytes.
#[verifier::external_body]
pub(crate) fn try_find_pda(seeds: &Vec<Vec<u8>>, program: &AccountId) -> (r: Option<(AccountId, u8)>)
    requires
        program.wf(),
    ensures
        r is Some <==> found_pda(seeds.deep_view(), program@) is Some,
        r matches Some(p) ==> found_pda(seeds.deep_view(), program@) == Some((p.0@, p.1))
            && p.0@.len() == 32
            && created_pda(seeds.deep_view().push(seq![p.1]), program@) == Some(p.0@),
{
    let seed_refs: Vec<&[u8]> = seeds.iter().map(|s| s.as_slice()).collect();
    let program_key = solana_program::pubkey::Pubkey::new_from_array(
        program.bytes.as_slice().try_into().unwrap(),
    );
    match solana_program::pubkey::Pubkey::try_find_program_address(&seed_refs, &program_key) {
        Some((address, bump)) => Some((AccountId { bytes: address.to_bytes().to_vec() }, bump)),
        None => None,
    }
}

/// Relies on `Pubkey::create_program_address` (solana-program): it hashes the
/// seeds under the program identity and either returns the 32-byte derived
/// address or an error (over-long seeds, or an on-curve result), which this
/// wrapper maps to `None`.
#[verifier::external_body]
pub(crate) fn create_pda(seeds: &Vec<Vec<u8>>, program: &AccountId) -> (r: Option<AccountId>)
    requires
        program.wf(),
    ensures
        r is Some <==> created_pda(seeds.deep_view(), program@) is Some,
        r matches Some(a) ==> created_pda(seeds.deep_view(), program@) == Some(a@)
            && a@.len() == 32,
{
    let seed_refs: Vec<&[u8]> = seeds.iter().map(|s| s.as_slice()).collect();
    let program_key = solana_program::pubkey::Pubkey::new_from_array(
        program.bytes.as_slice().try_into().unwrap(),
    );
    match solana_program::pubkey::Pubkey::create_program_address(&seed_refs, &program_key) {
        Ok(address) => Some(AccountId { bytes: address.to_bytes().to_vec() }),
        Err(_) => None,
    }
}

} // verus!
