//! Program-derived addresses: the derivation itself is Solana's, reached through
//! `anchor_lang`; what the library states about it is below.
use vstd::prelude::*;
use crate::pubkey::Pubkey;
use anchor_lang::prelude::Pubkey as Address;

verus! {

/// The address that Solana's `create_program_address` derives from `seeds` (each seed as
/// its bytes) under `program_id`, or `None` where it refuses them (too many seeds, a seed
/// longer than 32 bytes, or a hash that lies on the ed25519 curve).
pub uninterp spec fn program_address(seeds: Seq<Seq<u8>>, program_id: Seq<u8>) -> Option<Seq<u8>>;

/// The address derived from `seeds` followed by the one-byte seed `bump`.
pub open spec fn pda_with_bump(seeds: Seq<Seq<u8>>, program_id: Seq<u8>, bump: u8) -> Option<Seq<u8>> {
    program_address(seeds.push(seq![bump]), program_id)
}

/// `bump` is the canonical bump of `seeds` and `address` the address it derives: the
/// largest bump in `1..=255` for which a derivation exists.
pub open spec fn is_canonical_pda(seeds: Seq<Seq<u8>>, program_id: Seq<u8>, bump: u8, address: Seq<u8>) -> bool {
    &&& 1 <= bump
    &&& pda_with_bump(seeds, program_id, bump) == Some(address)
    &&& forall|c: u8| bump < c ==> (#[trigger] pda_with_bump(seeds, program_id, c)) is None
}

pub open spec fn key_view_opt(k: Option<Pubkey>) -> Option<Seq<u8>> {
    match k {
        Some(k) => Some(k@),
        None => None,
    }
}

/// Calls `Pubkey::create_program_address` (solana-address, re-exported by anchor_lang).
/// Claimed: the result is the named derivation of exactly these seeds and this program id;
/// every error of the outside function comes back as `None`.
#[verifier::external_body]
pub(crate) fn create_program_address(seeds: &Vec<Vec<u8>>, program_id: &Pubkey) -> (r: Option<Pubkey>)
    ensures
        key_view_opt(r) == program_address(seeds.deep_view(), program_id@),
{
    let slices: Vec<&[u8]> = seeds.iter().map(|s| s.as_slice()).collect();
    match Address::create_program_address(&slices, &Address::new_from_array(program_id.bytes)) {
        Ok(a) => Some(Pubkey { bytes: a.to_bytes() }),
        Err(_) => None,
    }
}

/// Calls `Pubkey::try_find_program_address` (solana-address, re-exported by anchor_lang),
/// which tries the bumps 255, 254, ..., 1 in turn with `create_program_address` and returns
/// the first that derives an address. Claimed: a returned bump is canonical for the
/// returned address; `None` means that no bump in `1..=255` derives one.
#[verifier::external_body]
pub(crate) fn try_find_program_address(seeds: &Vec<Vec<u8>>, program_id: &Pubkey) -> (r: Option<(Pubkey, u8)>)
    ensures
        match r {
            Some((k, b)) => is_canonical_pda(seeds.deep_view(), program_id@, b, k@),
            None => forall|c: u8| 1 <= c ==> (#[trigger] pda_with_bump(seeds.deep_view(), program_id@, c)) is None,
        },
{
    let slices: Vec<&[u8]> = seeds.iter().map(|s| s.as_slice()).collect();
    match Address::try_find_program_address(&slices, &Address::new_from_array(program_id.bytes)) {
        Some((a, b)) => Some((Pubkey { bytes: a.to_bytes() }, b)),
        None => None,
    }
}

/// At most one bump is canonical for given seeds, and it fixes the address.
pub proof fn lemma_canonical_pda_unique(seeds: Seq<Seq<u8>>, program_id: Seq<u8>, b1: u8, a1: Seq<u8>, b2: u8, a2: Seq<u8>)
    requires
        is_canonical_pda(seeds, program_id, b1, a1),
        is_canonical_pda(seeds, program_id, b2, a2),
    ensures
        b1 == b2,
        a1 == a2,
{
    if b1 < b2 {
        assert(pda_with_bump(seeds, program_id, b2) is None);
    } else if b2 < b1 {
        assert(pda_with_bump(seeds, program_id, b1) is None);
    }
}

} // verus!
