//! MagicToken, the marketplace's currency: its mint authority is a program-derived
//! address, and only the marketplace program may have tokens minted.
use vstd::prelude::*;
use crate::pubkey::{Pubkey, zero_key};
use crate::accounts::{
    Account, AccountError, NewAccount, Signer, after, check_has_one, check_init, check_program,
    check_program_either, check_seeds, check_signer, check_sysvar, find_outcome, find_seeds,
    has_one_outcome, init_outcome, invoked_by, is_invoked_by, lemma_init_address_unique,
    program_either_outcome, program_outcome, seeds_outcome, signer_outcome, sysvar_outcome,
};
use crate::program_ids::{
    rent_sysvar_id, rent_sysvar_key, system_program_id, system_program_key, token_2022_program_id,
    token_2022_program_key, token_program_id, token_program_key,
};
use crate::seeds::{
    seeds1, seeds2, magic_config_seed, magic_config_tag, magic_mint_seed, magic_mint_tag,
    magic_authority_seed, magic_authority_tag,
};
use crate::token::{InitializeMint, MintTo};

verus! {

/// MagicToken's configuration account.
#[derive(Debug, Clone, Copy)]
pub struct MagicConfig {
    pub admin: Pubkey,
    pub mint: Pubkey,
    pub marketplace_program: Pubkey,
    pub bump: u8,
    pub mint_bump: u8,
}

/// The decimals of MagicToken.
pub const MAGIC_DECIMALS: u8 = 6;

#[derive(Debug, Clone, Copy, PartialEq, Eq, Structural)]
pub enum MagicTokenError {
    /// Only the marketplace program can mint MagicToken.
    UnauthorizedCaller,
}

pub open spec fn magic_config_seeds() -> Seq<Seq<u8>> {
    seq![magic_config_tag()]
}

pub open spec fn magic_mint_seeds() -> Seq<Seq<u8>> {
    seq![magic_mint_tag()]
}

pub open spec fn magic_authority_seeds() -> Seq<Seq<u8>> {
    seq![magic_authority_tag()]
}

/// Accounts of `initialize_magic_token`.
#[derive(Debug)]
pub struct InitializeMagicToken {
    pub magic_config: NewAccount,
    pub magic_mint: NewAccount,
    pub magic_authority: Pubkey,
    pub admin: Signer,
    pub token_program: Pubkey,
    pub system_program: Pubkey,
    pub rent: Pubkey,
}

#[derive(Debug, Clone, Copy, PartialEq, Eq, Structural)]
pub struct InitializeMagicTokenBumps {
    pub magic_config: u8,
    pub magic_mint: u8,
    pub magic_authority: u8,
}

impl InitializeMagicToken {
    pub open spec fn outcome(&self, program_id: Seq<u8>) -> Result<InitializeMagicTokenBumps, AccountError> {
        after(signer_outcome(self.admin),
        after(program_either_outcome(self.token_program, token_program_id(), token_2022_program_id()),
        after(program_outcome(self.system_program, system_program_id()),
        after(sysvar_outcome(self.rent, rent_sysvar_id()),
            match init_outcome(magic_config_seeds(), program_id, self.magic_config) {
                Err(e) => Err(e),
                Ok(c) => match init_outcome(magic_mint_seeds(), program_id, self.magic_mint) {
                    Err(e) => Err(e),
                    Ok(m) => match find_outcome(magic_authority_seeds(), program_id, self.magic_authority@) {
                        Err(e) => Err(e),
                        Ok(a) => Ok(InitializeMagicTokenBumps { magic_config: c, magic_mint: m, magic_authority: a }),
                    },
                },
            }))))
    }

    /// The admin must sign, a token program (SPL Token or Token-2022), the System Program
    /// and the rent sysvar be named; the configuration and the mint must be unused and sit at
    /// the canonical addresses of `["magic_config"]` and `["magic_mint"]`, and the mint
    /// authority at that of `["magic_authority"]`, checked in that order.
    pub fn validate(&self, program_id: &Pubkey) -> (r: Result<InitializeMagicTokenBumps, AccountError>)
        ensures
            r == self.outcome(program_id@),
    {
        check_signer(&self.admin)?;
        check_program_either(&self.token_program, &token_program_key(), &token_2022_program_key())?;
        check_program(&self.system_program, &system_program_key())?;
        check_sysvar(&self.rent, &rent_sysvar_key())?;
        let c = check_init(&self.magic_config, &seeds1(magic_config_seed()), program_id)?;
        let m = check_init(&self.magic_mint, &seeds1(magic_mint_seed()), program_id)?;
        let a = find_seeds(&self.magic_authority, &seeds1(magic_authority_seed()), program_id)?;
        Ok(InitializeMagicTokenBumps { magic_config: c, magic_mint: m, magic_authority: a })
    }
}

/// The configuration sits at the address of `["magic_config"]` with its stored bump.
pub open spec fn config_outcome(config: Account<MagicConfig>, program_id: Seq<u8>) -> Result<(), AccountError> {
    seeds_outcome(magic_config_seeds(), program_id, config.data.bump, config.key@)
}

fn check_config(config: &Account<MagicConfig>, program_id: &Pubkey) -> (r: Result<(), AccountError>)
    ensures
        r == config_outcome(*config, program_id@),
{
    check_seeds(&config.key, seeds1(magic_config_seed()), config.data.bump, program_id)
}

/// Accounts of `set_marketplace_program`.
#[derive(Debug)]
pub struct SetMarketplace {
    pub magic_config: Account<MagicConfig>,
    pub admin: Signer,
}

impl SetMarketplace {
    pub open spec fn outcome(&self, program_id: Seq<u8>) -> Result<(), AccountError> {
        if !self.admin.is_signer {
            Err(AccountError::AccountNotSigner)
        } else if config_outcome(self.magic_config, program_id) is Err {
            Err(AccountError::ConstraintSeeds)
        } else {
            has_one_outcome(self.magic_config.data.admin, self.admin.key)
        }
    }

    /// The admin must sign, the configuration must sit at its address and name the signer
    /// as its admin.
    pub fn validate(&self, program_id: &Pubkey) -> (r: Result<(), AccountError>)
        ensures
            r == self.outcome(program_id@),
    {
        check_signer(&self.admin)?;
        check_config(&self.magic_config, program_id)?;
        check_has_one(&self.magic_config.data.admin, &self.admin.key)
    }
}

/// Accounts of `mint_magic_token`.
#[derive(Debug)]
pub struct MintMagicToken {
    pub magic_config: Account<MagicConfig>,
    pub magic_mint: Pubkey,
    pub magic_authority: Pubkey,
    pub recipient_token_account: Pubkey,
    pub caller_program: Pubkey,
    pub token_program: Pubkey,
}

#[derive(Debug, Clone, Copy, PartialEq, Eq, Structural)]
pub struct MintMagicTokenBumps {
    pub magic_authority: u8,
}

impl MintMagicToken {
    pub open spec fn outcome(&self, program_id: Seq<u8>) -> Result<MintMagicTokenBumps, AccountError> {
        after(program_either_outcome(self.token_program, token_program_id(), token_2022_program_id()),
            self.constraints_outcome(program_id))
    }

    pub open spec fn constraints_outcome(&self, program_id: Seq<u8>) -> Result<MintMagicTokenBumps, AccountError> {
        if config_outcome(self.magic_config, program_id) is Err {
            Err(AccountError::ConstraintSeeds)
        } else if seeds_outcome(magic_mint_seeds(), program_id, self.magic_config.data.mint_bump, self.magic_mint@) is Err {
            Err(AccountError::ConstraintSeeds)
        } else {
            match find_outcome(magic_authority_seeds(), program_id, self.magic_authority@) {
                Ok(a) => Ok(MintMagicTokenBumps { magic_authority: a }),
                Err(e) => Err(e),
            }
        }
    }

    /// A token program (SPL Token or Token-2022) must be named; the configuration must sit
    /// at its address, the mint at that of `["magic_mint"]` with the stored mint bump, and
    /// the authority at the canonical address of `["magic_authority"]`.
    pub fn validate(&self, program_id: &Pubkey) -> (r: Result<MintMagicTokenBumps, AccountError>)
        ensures
            r == self.outcome(program_id@),
    {
        check_program_either(&self.token_program, &token_program_key(), &token_2022_program_key())?;
        check_config(&self.magic_config, program_id)?;
        check_seeds(&self.magic_mint, seeds1(magic_mint_seed()), self.magic_config.data.mint_bump, program_id)?;
        let a = find_seeds(&self.magic_authority, &seeds1(magic_authority_seed()), program_id)?;
        Ok(MintMagicTokenBumps { magic_authority: a })
    }
}

/// What `initialize_magic_token` sets up: the configuration, and the mint to create.
#[derive(Debug)]
pub struct MagicTokenInit {
    pub config: MagicConfig,
    pub mint: InitializeMint,
}

/// Initialize MagicToken: the signer becomes its admin and the created mint is recorded;
/// no marketplace is set yet. The mint has `MAGIC_DECIMALS` decimals and the
/// program-derived authority as its mint authority.
pub fn initialize_magic_token(accounts: &InitializeMagicToken, bumps: &InitializeMagicTokenBumps) -> (init: MagicTokenInit)
    ensures
        init.config.admin == accounts.admin.key,
        init.config.mint == accounts.magic_mint.key,
        init.config.marketplace_program@ == zero_key(),
        init.config.bump == bumps.magic_config,
        init.config.mint_bump == bumps.magic_mint,
        init.mint.mint == accounts.magic_mint.key,
        init.mint.decimals == MAGIC_DECIMALS,
        init.mint.mint_authority == accounts.magic_authority,
{
    MagicTokenInit {
        config: MagicConfig {
            admin: accounts.admin.key,
            mint: accounts.magic_mint.key,
            marketplace_program: Pubkey::default_key(),
            bump: bumps.magic_config,
            mint_bump: bumps.magic_mint,
        },
        mint: InitializeMint {
            mint: accounts.magic_mint.key,
            decimals: MAGIC_DECIMALS,
            mint_authority: accounts.magic_authority,
        },
    }
}

/// Set the marketplace program, the one caller allowed to mint MagicToken.
pub fn set_marketplace_program(accounts: &mut SetMarketplace, marketplace_program: Pubkey)
    ensures
        final(accounts).magic_config.data == (MagicConfig { marketplace_program, ..old(accounts).magic_config.data }),
        final(accounts).magic_config.key == old(accounts).magic_config.key,
        final(accounts).admin == old(accounts).admin,
{
    accounts.magic_config.data.marketplace_program = marketplace_program;
}

/// The seeds by which the mint authority signs: `["magic_authority", [bump]]`.
pub open spec fn magic_authority_signer_seeds(bump: u8) -> Seq<Seq<u8>> {
    seq![magic_authority_tag(), seq![bump]]
}

/// A mint of MagicToken may proceed: the registered marketplace program makes the call
/// (`invoker`) and is named as the caller.
pub open spec fn may_mint_magic(config: MagicConfig, caller: Pubkey, invoker: Option<Pubkey>) -> bool {
    caller@ == config.marketplace_program@ && invoked_by(invoker, config.marketplace_program)
}

/// Decide a mint of `amount` MagicToken into the recipient's token account; only the
/// registered marketplace program, calling this one, may ask for one. The
/// program-derived authority signs.
pub fn mint_magic_token(accounts: &MintMagicToken, bumps: &MintMagicTokenBumps, invoker: Option<Pubkey>, amount: u64) -> (r: Result<MintTo, MagicTokenError>)
    ensures
        r is Ok <==> may_mint_magic(accounts.magic_config.data, accounts.caller_program, invoker),
        r is Err ==> r == Err::<MintTo, MagicTokenError>(MagicTokenError::UnauthorizedCaller),
        r matches Ok(m) ==> {
            &&& m.mint == accounts.magic_mint
            &&& m.to == accounts.recipient_token_account
            &&& m.authority == accounts.magic_authority
            &&& m.amount == amount
            &&& m.signer_seeds.deep_view() == magic_authority_signer_seeds(bumps.magic_authority)
        },
{
    let marketplace = &accounts.magic_config.data.marketplace_program;
    if !(accounts.caller_program.eq_key(marketplace) && is_invoked_by(&invoker, marketplace)) {
        return Err(MagicTokenError::UnauthorizedCaller);
    }
    let bump: Vec<u8> = vec![bumps.magic_authority];
    assert(bump@ =~= seq![bumps.magic_authority]);
    Ok(MintTo {
        mint: accounts.magic_mint,
        to: accounts.recipient_token_account,
        authority: accounts.magic_authority,
        amount,
        signer_seeds: seeds2(magic_authority_seed(), bump),
    })
}


/// Accepted accounts make the mint authority's signature valid: the signer seeds that
/// `mint_magic_token` hands out derive exactly the authority's address.
pub proof fn lemma_authority_seeds_sign(accounts: MintMagicToken, program_id: Seq<u8>)
    requires
        accounts.outcome(program_id) is Ok,
    ensures
        crate::pda::program_address(
            magic_authority_signer_seeds(accounts.outcome(program_id)->Ok_0.magic_authority), program_id)
            == Some(accounts.magic_authority@),
{
    let b = accounts.outcome(program_id)->Ok_0.magic_authority;
    assert(magic_authority_seeds().push(seq![b]) =~= magic_authority_signer_seeds(b));
}

/// Only the admin recorded in the configuration, signing, may change it; and a change
/// keeps that admin.
pub proof fn lemma_only_admin_configures(accounts: SetMarketplace, program_id: Seq<u8>)
    requires
        accounts.outcome(program_id) is Ok,
    ensures
        accounts.admin.is_signer,
        accounts.magic_config.data.admin@ == accounts.admin.key@,
{
}

/// Before a marketplace is set nothing mints MagicToken, and a direct transaction never
/// does.
pub proof fn lemma_no_mint_without_marketplace(config: MagicConfig, caller: Pubkey, invoker: Option<Pubkey>)
    ensures
        config.marketplace_program@ == zero_key() ==> !may_mint_magic(config, caller, invoker),
        invoker is None ==> !may_mint_magic(config, caller, invoker),
{
}

/// MagicToken is set up once: every accepted initialization names the same configuration
/// account, and once it is in use a new initialization is refused, so the first admin
/// stays.
pub proof fn lemma_initialized_once(a: InitializeMagicToken, b: InitializeMagicToken, program_id: Seq<u8>)
    ensures
        a.outcome(program_id) is Ok && b.outcome(program_id) is Ok ==> a.magic_config.key@ == b.magic_config.key@,
        a.magic_config.in_use ==> a.outcome(program_id) is Err,
{
    if a.outcome(program_id) is Ok && b.outcome(program_id) is Ok {
        lemma_init_address_unique(magic_config_seeds(), program_id, a.magic_config, b.magic_config);
    }
}

} // verus!
