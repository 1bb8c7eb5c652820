//! The addresses of the Solana programs and sysvars that instructions name.
use vstd::prelude::*;
use crate::pubkey::Pubkey;

verus! {

/// The System Program (`11111111111111111111111111111111`).
pub open spec fn system_program_id() -> Seq<u8> {
    seq![0, 0, 0, 0, 0, 0, 0, 0, 0, 0, 0, 0, 0, 0, 0, 0, 0, 0, 0, 0, 0, 0, 0, 0, 0, 0, 0, 0, 0, 0, 0, 0]
}

pub fn system_program_key() -> (k: Pubkey)
    ensures
        k@ == system_program_id(),
{
    let k = Pubkey { bytes: [0, 0, 0, 0, 0, 0, 0, 0, 0, 0, 0, 0, 0, 0, 0, 0, 0, 0, 0, 0, 0, 0, 0, 0, 0, 0, 0, 0, 0, 0, 0, 0] };
    assert(k@ =~= system_program_id());
    k
}

/// The SPL Token program (`TokenkegQfeZyiNwAJbNbGKPFXCWuBvf9Ss623VQ5DA`).
pub open spec fn token_program_id() -> Seq<u8> {
    seq![6, 221, 246, 225, 215, 101, 161, 147, 217, 203, 225, 70, 206, 235, 121, 172, 28, 180, 133, 237, 95, 91, 55, 145, 58, 140, 245, 133, 126, 255, 0, 169]
}

pub fn token_program_key() -> (k: Pubkey)
    ensures
        k@ == token_program_id(),
{
    let k = Pubkey { bytes: [6, 221, 246, 225, 215, 101, 161, 147, 217, 203, 225, 70, 206, 235, 121, 172, 28, 180, 133, 237, 95, 91, 55, 145, 58, 140, 245, 133, 126, 255, 0, 169] };
    assert(k@ =~= token_program_id());
    k
}

/// The Token-2022 program (`TokenzQdBNbLqP5VEhdkAS6EPFLC1PHnBqCXEpPxuEb`).
pub open spec fn token_2022_program_id() -> Seq<u8> {
    seq![6, 221, 246, 225, 238, 117, 143, 222, 24, 66, 93, 188, 228, 108, 205, 218, 182, 26, 252, 77, 131, 185, 13, 39, 254, 189, 249, 40, 216, 161, 139, 252]
}

pub fn token_2022_program_key() -> (k: Pubkey)
    ensures
        k@ == token_2022_program_id(),
{
    let k = Pubkey { bytes: [6, 221, 246, 225, 238, 117, 143, 222, 24, 66, 93, 188, 228, 108, 205, 218, 182, 26, 252, 77, 131, 185, 13, 39, 254, 189, 249, 40, 216, 161, 139, 252] };
    assert(k@ =~= token_2022_program_id());
    k
}

/// The rent sysvar (`SysvarRent111111111111111111111111111111111`).
pub open spec fn rent_sysvar_id() -> Seq<u8> {
    seq![6, 167, 213, 23, 25, 44, 92, 81, 33, 140, 201, 76, 61, 74, 241, 127, 88, 218, 238, 8, 155, 161, 253, 68, 227, 219, 217, 138, 0, 0, 0, 0]
}

pub fn rent_sysvar_key() -> (k: Pubkey)
    ensures
        k@ == rent_sysvar_id(),
{
    let k = Pubkey { bytes: [6, 167, 213, 23, 25, 44, 92, 81, 33, 140, 201, 76, 61, 74, 241, 127, 88, 218, 238, 8, 155, 161, 253, 68, 227, 219, 217, 138, 0, 0, 0, 0] };
    assert(k@ =~= rent_sysvar_id());
    k
}

} // verus!
