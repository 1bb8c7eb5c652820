//! The account rules that every instruction's accounts are held to: signers, addresses
//! derived from seeds, and fields that must name another account of the instruction.
use vstd::prelude::*;
use crate::pubkey::{Pubkey, zero_key};
use crate::pda::{
    create_program_address, try_find_program_address, pda_with_bump, is_canonical_pda,
    lemma_canonical_pda_unique,
};

verus! {

/// Why an instruction's accounts were refused.
#[derive(Clone, Copy, Debug, PartialEq, Eq, Structural)]
pub enum AccountError {
    /// An account that must sign the transaction did not.
    AccountNotSigner,
    /// An account's address is not the one its seeds derive.
    ConstraintSeeds,
    /// A field of an account does not name the account it must name.
    ConstraintHasOne,
    /// An account to be created already holds data or belongs to a program.
    AccountAlreadyInUse,
    /// A program account is not the program the instruction names.
    InvalidProgramId,
    /// A sysvar account is not the sysvar the instruction names.
    AccountSysvarMismatch,
    /// A token account does not belong to the holder it must belong to.
    ConstraintTokenOwner,
}

/// An account that the instruction creates: its address, and whether it is already in use
/// (it holds data, or a program other than the System Program owns it).
#[derive(Clone, Copy, Debug)]
pub struct NewAccount {
    pub key: Pubkey,
    pub in_use: bool,
}

/// `first`, and where it passes, `rest`.
pub open spec fn after<T>(first: Result<(), AccountError>, rest: Result<T, AccountError>) -> Result<T, AccountError> {
    match first {
        Ok(_) => rest,
        Err(e) => Err(e),
    }
}

/// `Ok` where `key` is the program or sysvar `id`.
pub open spec fn program_outcome(key: Pubkey, id: Seq<u8>) -> Result<(), AccountError> {
    if key@ == id {
        Ok(())
    } else {
        Err(AccountError::InvalidProgramId)
    }
}

/// `Ok` where `key` is the sysvar `id`.
pub open spec fn sysvar_outcome(key: Pubkey, id: Seq<u8>) -> Result<(), AccountError> {
    if key@ == id {
        Ok(())
    } else {
        Err(AccountError::AccountSysvarMismatch)
    }
}

/// `Ok` where `key` is the program `configured`, and that program is set (not the
/// all-zero address).
pub open spec fn configured_program_outcome(key: Pubkey, configured: Pubkey) -> Result<(), AccountError> {
    if configured@ != zero_key() && key@ == configured@ {
        Ok(())
    } else {
        Err(AccountError::InvalidProgramId)
    }
}

/// `Ok` where `key` is either of the programs `a` and `b`.
pub open spec fn program_either_outcome(key: Pubkey, a: Seq<u8>, b: Seq<u8>) -> Result<(), AccountError> {
    if key@ == a || key@ == b {
        Ok(())
    } else {
        Err(AccountError::InvalidProgramId)
    }
}

/// An account to be created must sit at the canonical address of `seeds` and be unused;
/// its canonical bump is the result.
pub open spec fn init_outcome(seeds: Seq<Seq<u8>>, program_id: Seq<u8>, account: NewAccount) -> Result<u8, AccountError> {
    match find_outcome(seeds, program_id, account.key@) {
        Ok(b) => if account.in_use {
            Err(AccountError::AccountAlreadyInUse)
        } else {
            Ok(b)
        },
        Err(e) => Err(e),
    }
}

/// An account that must sign the transaction.
#[derive(Clone, Copy, Debug)]
pub struct Signer {
    pub key: Pubkey,
    pub is_signer: bool,
}

/// An account of the program, with its address and its decoded data.
#[derive(Debug)]
pub struct Account<T> {
    pub key: Pubkey,
    pub data: T,
}

/// The canonical bump of `seeds` if it derives `address`, else the seeds error.
pub open spec fn find_outcome(seeds: Seq<Seq<u8>>, program_id: Seq<u8>, address: Seq<u8>) -> Result<u8, AccountError> {
    if exists|b: u8| is_canonical_pda(seeds, program_id, b, address) {
        Ok(choose|b: u8| is_canonical_pda(seeds, program_id, b, address))
    } else {
        Err(AccountError::ConstraintSeeds)
    }
}

/// `Ok` where `seeds` with `bump` derive `address`.
pub open spec fn seeds_outcome(seeds: Seq<Seq<u8>>, program_id: Seq<u8>, bump: u8, address: Seq<u8>) -> Result<(), AccountError> {
    if pda_with_bump(seeds, program_id, bump) == Some(address) {
        Ok(())
    } else {
        Err(AccountError::ConstraintSeeds)
    }
}

pub open spec fn signer_outcome(s: Signer) -> Result<(), AccountError> {
    if s.is_signer {
        Ok(())
    } else {
        Err(AccountError::AccountNotSigner)
    }
}

pub open spec fn has_one_outcome(field: Pubkey, target: Pubkey) -> Result<(), AccountError> {
    if field@ == target@ {
        Ok(())
    } else {
        Err(AccountError::ConstraintHasOne)
    }
}

/// `key` must be the program or sysvar whose address is `id`.
pub fn check_program(key: &Pubkey, id: &Pubkey) -> (r: Result<(), AccountError>)
    ensures
        r == program_outcome(*key, id@),
{
    if key.eq_key(id) {
        Ok(())
    } else {
        Err(AccountError::InvalidProgramId)
    }
}

/// `key` must be the sysvar whose address is `id`.
pub fn check_sysvar(key: &Pubkey, id: &Pubkey) -> (r: Result<(), AccountError>)
    ensures
        r == sysvar_outcome(*key, id@),
{
    if key.eq_key(id) {
        Ok(())
    } else {
        Err(AccountError::AccountSysvarMismatch)
    }
}

/// `key` must be the program that a configuration names, and that program must be set.
pub fn check_configured_program(key: &Pubkey, configured: &Pubkey) -> (r: Result<(), AccountError>)
    ensures
        r == configured_program_outcome(*key, *configured),
{
    if !configured.eq_key(&Pubkey::default_key()) && key.eq_key(configured) {
        Ok(())
    } else {
        Err(AccountError::InvalidProgramId)
    }
}

/// `key` must be program `a` or program `b`.
pub fn check_program_either(key: &Pubkey, a: &Pubkey, b: &Pubkey) -> (r: Result<(), AccountError>)
    ensures
        r == program_either_outcome(*key, a@, b@),
{
    if key.eq_key(a) || key.eq_key(b) {
        Ok(())
    } else {
        Err(AccountError::InvalidProgramId)
    }
}

/// The instruction runs inside a cross-program call made by `program`, a configured
/// program: its address is not the all-zero "not set" address.
pub open spec fn invoked_by(invoker: Option<Pubkey>, program: Pubkey) -> bool {
    &&& program@ != zero_key()
    &&& invoker matches Some(k) && k@ == program@
}

/// Whether the calling program `invoker` (`None`: no cross-program call) is the
/// configured `program`.
pub fn is_invoked_by(invoker: &Option<Pubkey>, program: &Pubkey) -> (r: bool)
    ensures
        r == invoked_by(*invoker, *program),
{
    if program.eq_key(&Pubkey::default_key()) {
        return false;
    }
    match invoker {
        Some(k) => k.eq_key(program),
        None => false,
    }
}

/// The account must have signed.
pub fn check_signer(s: &Signer) -> (r: Result<(), AccountError>)
    ensures
        r == signer_outcome(*s),
{
    if s.is_signer {
        Ok(())
    } else {
        Err(AccountError::AccountNotSigner)
    }
}

/// `field` must name `target`.
pub fn check_has_one(field: &Pubkey, target: &Pubkey) -> (r: Result<(), AccountError>)
    ensures
        r == has_one_outcome(*field, *target),
{
    if field.eq_key(target) {
        Ok(())
    } else {
        Err(AccountError::ConstraintHasOne)
    }
}

/// The verdict on an account whose seeds with its stored bump derived `derived`: it must
/// be that address.
pub fn seeds_verdict(derived: Option<Pubkey>, address: &Pubkey) -> (r: Result<(), AccountError>)
    ensures
        r == (if derived matches Some(k) && k@ == address@ {
            Ok::<(), AccountError>(())
        } else {
            Err(AccountError::ConstraintSeeds)
        }),
{
    match derived {
        Some(k) => {
            if k.eq_key(address) {
                Ok(())
            } else {
                Err(AccountError::ConstraintSeeds)
            }
        },
        None => Err(AccountError::ConstraintSeeds),
    }
}

/// `address` must be the address that `seeds` and the stored `bump` derive.
pub fn check_seeds(address: &Pubkey, seeds: Vec<Vec<u8>>, bump: u8, program_id: &Pubkey) -> (r: Result<(), AccountError>)
    ensures
        r == seeds_outcome(seeds.deep_view(), program_id@, bump, address@),
{
    let ghost s = seeds.deep_view();
    let mut with_bump = seeds;
    let mut b: Vec<u8> = Vec::new();
    b.push(bump);
    proof {
        assert(b.deep_view() =~= seq![bump]);
        assert(with_bump.deep_view().push(b.deep_view()) =~= s.push(seq![bump]));
    }
    with_bump.push(b);
    proof {
        assert(with_bump.deep_view() =~= s.push(seq![bump]));
    }
    let derived = create_program_address(&with_bump, program_id);
    seeds_verdict(derived, address)
}

/// The verdict on an account whose seeds' search for a bump found `found`: the address
/// found must be the account's, and its bump is returned.
pub fn bump_verdict(found: Option<(Pubkey, u8)>, address: &Pubkey) -> (r: Result<u8, AccountError>)
    ensures
        r == (if found matches Some((k, b)) && k@ == address@ {
            Ok::<u8, AccountError>(found->Some_0.1)
        } else {
            Err(AccountError::ConstraintSeeds)
        }),
{
    match found {
        Some((k, b)) => {
            if k.eq_key(address) {
                Ok(b)
            } else {
                Err(AccountError::ConstraintSeeds)
            }
        },
        None => Err(AccountError::ConstraintSeeds),
    }
}

/// `address` must be the address that `seeds` derive with their canonical bump, which is
/// returned (the bump of an account that is being created, or one checked without a
/// stored bump).
pub fn find_seeds(address: &Pubkey, seeds: &Vec<Vec<u8>>, program_id: &Pubkey) -> (r: Result<u8, AccountError>)
    ensures
        r == find_outcome(seeds.deep_view(), program_id@, address@),
{
    let ghost s = seeds.deep_view();
    let found = try_find_program_address(seeds, program_id);
    proof {
        if exists|c: u8| is_canonical_pda(s, program_id@, c, address@) {
            let c = choose|c: u8| is_canonical_pda(s, program_id@, c, address@);
            match found {
                Some((k, b)) => lemma_canonical_pda_unique(s, program_id@, b, k@, c, address@),
                None => assert(pda_with_bump(s, program_id@, c) is None),
            }
        }
    }
    bump_verdict(found, address)
}

/// An account to be created must sit at the canonical address of `seeds` and be unused.
pub fn check_init(account: &NewAccount, seeds: &Vec<Vec<u8>>, program_id: &Pubkey) -> (r: Result<u8, AccountError>)
    ensures
        r == init_outcome(seeds.deep_view(), program_id@, *account),
{
    let b = find_seeds(&account.key, seeds, program_id)?;
    if account.in_use {
        return Err(AccountError::AccountAlreadyInUse);
    }
    Ok(b)
}

/// Two accounts accepted for creation from the same seeds are the same account.
pub proof fn lemma_init_address_unique(seeds: Seq<Seq<u8>>, program_id: Seq<u8>, a: NewAccount, b: NewAccount)
    requires
        init_outcome(seeds, program_id, a) is Ok,
        init_outcome(seeds, program_id, b) is Ok,
    ensures
        a.key@ == b.key@,
{
    let ba = choose|c: u8| is_canonical_pda(seeds, program_id, c, a.key@);
    let bb = choose|c: u8| is_canonical_pda(seeds, program_id, c, b.key@);
    lemma_canonical_pda_unique(seeds, program_id, ba, a.key@, bb, b.key@);
}

} // verus!
