//! Item NFTs: the crafting program mints them, the marketplace burns them.
use vstd::prelude::*;
use crate::pubkey::{Pubkey, zero_key};
use crate::accounts::{
    Account, AccountError, NewAccount, Signer, after, check_has_one, check_init, check_program,
    check_seeds, check_signer, has_one_outcome, init_outcome,
    lemma_init_address_unique, program_outcome, seeds_outcome, signer_outcome,
};
use crate::program_ids::{system_program_id, system_program_key, token_program_id, token_program_key};
use crate::seeds::{seeds1, seeds2, item_config_seed, item_config_tag, item_metadata_seed, item_metadata_tag};
use crate::token::Burn;

verus! {

/// The number of item types that can be minted.
pub const ITEM_TYPES: u8 = 4;

/// The item NFT program's configuration account.
#[derive(Debug, Clone, Copy)]
pub struct ItemConfig {
    pub admin: Pubkey,
    pub marketplace_program: Pubkey,
    pub crafting_program: Pubkey,
    pub bump: u8,
}

/// What an item NFT is: its type, owner and mint.
#[derive(Debug, Clone, Copy)]
pub struct ItemMetadata {
    pub item_type: u8,
    pub owner: Pubkey,
    pub mint: Pubkey,
    pub bump: u8,
}

#[derive(Debug, Clone, Copy, PartialEq, Eq, Structural)]
pub enum ItemNftError {
    InvalidItemType,
    UnauthorizedCaller,
}

pub open spec fn item_config_seeds() -> Seq<Seq<u8>> {
    seq![item_config_tag()]
}

pub open spec fn item_metadata_seeds(mint: Seq<u8>) -> Seq<Seq<u8>> {
    seq![item_metadata_tag(), mint]
}

/// The configuration sits at the address of `["item_config"]` with its stored bump.
pub open spec fn config_outcome(config: Account<ItemConfig>, program_id: Seq<u8>) -> Result<(), AccountError> {
    seeds_outcome(item_config_seeds(), program_id, config.data.bump, config.key@)
}

fn check_config(config: &Account<ItemConfig>, program_id: &Pubkey) -> (r: Result<(), AccountError>)
    ensures
        r == config_outcome(*config, program_id@),
{
    check_seeds(&config.key, seeds1(item_config_seed()), config.data.bump, program_id)
}

/// Accounts of `initialize_item_config`.
#[derive(Debug)]
pub struct InitializeItemConfig {
    pub item_config: NewAccount,
    pub admin: Signer,
    pub system_program: Pubkey,
}

#[derive(Debug, Clone, Copy, PartialEq, Eq, Structural)]
pub struct InitializeItemConfigBumps {
    pub item_config: u8,
}

impl InitializeItemConfig {
    pub open spec fn outcome(&self, program_id: Seq<u8>) -> Result<InitializeItemConfigBumps, AccountError> {
        after(signer_outcome(self.admin),
        after(program_outcome(self.system_program, system_program_id()),
            match init_outcome(item_config_seeds(), program_id, self.item_config) {
                Ok(b) => Ok(InitializeItemConfigBumps { item_config: b }),
                Err(e) => Err(e),
            }))
    }

    /// The admin must sign and the System Program be named; the configuration account must
    /// be unused and sit at the canonical address of `["item_config"]`.
    pub fn validate(&self, program_id: &Pubkey) -> (r: Result<InitializeItemConfigBumps, AccountError>)
        ensures
            r == self.outcome(program_id@),
    {
        check_signer(&self.admin)?;
        check_program(&self.system_program, &system_program_key())?;
        let b = check_init(&self.item_config, &seeds1(item_config_seed()), program_id)?;
        Ok(InitializeItemConfigBumps { item_config: b })
    }
}

/// Accounts of the admin's setters.
#[derive(Debug)]
pub struct SetProgram {
    pub item_config: Account<ItemConfig>,
    pub admin: Signer,
}

impl SetProgram {
    pub open spec fn outcome(&self, program_id: Seq<u8>) -> Result<(), AccountError> {
        if !self.admin.is_signer {
            Err(AccountError::AccountNotSigner)
        } else if config_outcome(self.item_config, program_id) is Err {
            Err(AccountError::ConstraintSeeds)
        } else {
            has_one_outcome(self.item_config.data.admin, self.admin.key)
        }
    }

    /// The admin must sign, the configuration must sit at its address and name the signer
    /// as its admin.
    pub fn validate(&self, program_id: &Pubkey) -> (r: Result<(), AccountError>)
        ensures
            r == self.outcome(program_id@),
    {
        check_signer(&self.admin)?;
        check_config(&self.item_config, program_id)?;
        check_has_one(&self.item_config.data.admin, &self.admin.key)
    }
}

/// Accounts of `mint_item_nft`.
#[derive(Debug)]
pub struct MintItemNft {
    pub item_config: Account<ItemConfig>,
    pub item_mint: Pubkey,
    pub item_metadata: NewAccount,
    pub recipient: Signer,
    pub caller_program: Pubkey,
    pub system_program: Pubkey,
}

#[derive(Debug, Clone, Copy, PartialEq, Eq, Structural)]
pub struct MintItemNftBumps {
    pub item_metadata: u8,
}

impl MintItemNft {
    pub open spec fn outcome(&self, program_id: Seq<u8>) -> Result<MintItemNftBumps, AccountError> {
        after(signer_outcome(self.recipient),
        after(program_outcome(self.system_program, system_program_id()),
            match init_outcome(item_metadata_seeds(self.item_mint@), program_id, self.item_metadata) {
                Ok(b) => match config_outcome(self.item_config, program_id) {
                    Ok(_) => Ok(MintItemNftBumps { item_metadata: b }),
                    Err(e) => Err(e),
                },
                Err(e) => Err(e),
            }))
    }

    /// The recipient must sign and the System Program be named; the new metadata account
    /// must be unused and sit at the canonical address of `["item_metadata", item_mint]`;
    /// the configuration must sit at its address.
    pub fn validate(&self, program_id: &Pubkey) -> (r: Result<MintItemNftBumps, AccountError>)
        ensures
            r == self.outcome(program_id@),
    {
        check_signer(&self.recipient)?;
        check_program(&self.system_program, &system_program_key())?;
        let seeds = seeds2(item_metadata_seed(), self.item_mint.to_seed());
        let b = check_init(&self.item_metadata, &seeds, program_id)?;
        check_config(&self.item_config, program_id)?;
        Ok(MintItemNftBumps { item_metadata: b })
    }
}

/// Accounts of `burn_item_nft`.
#[derive(Debug)]
pub struct BurnItemNft {
    pub item_config: Account<ItemConfig>,
    pub item_mint: Pubkey,
    pub owner_token_account: Pubkey,
    pub caller_program: Pubkey,
    pub owner: Signer,
    pub token_program: Pubkey,
}

impl BurnItemNft {
    pub open spec fn outcome(&self, program_id: Seq<u8>) -> Result<(), AccountError> {
        after(signer_outcome(self.owner),
        after(program_outcome(self.token_program, token_program_id()),
            config_outcome(self.item_config, program_id)))
    }

    /// The owner must sign and the SPL Token program be named; the configuration must sit
    /// at its address.
    pub fn validate(&self, program_id: &Pubkey) -> (r: Result<(), AccountError>)
        ensures
            r == self.outcome(program_id@),
    {
        check_signer(&self.owner)?;
        check_program(&self.token_program, &token_program_key())?;
        check_config(&self.item_config, program_id)
    }
}

/// Initialize the item configuration: the signer becomes its admin, no program is set yet.
pub fn initialize_item_config(accounts: &InitializeItemConfig, bumps: &InitializeItemConfigBumps) -> (config: ItemConfig)
    ensures
        config.admin == accounts.admin.key,
        config.marketplace_program@ == zero_key(),
        config.crafting_program@ == zero_key(),
        config.bump == bumps.item_config,
{
    ItemConfig {
        admin: accounts.admin.key,
        marketplace_program: Pubkey::default_key(),
        crafting_program: Pubkey::default_key(),
        bump: bumps.item_config,
    }
}

/// Set the marketplace program, the one caller allowed to burn items.
pub fn set_marketplace_program(accounts: &mut SetProgram, marketplace_program: Pubkey)
    ensures
        final(accounts).item_config.data == (ItemConfig { marketplace_program, ..old(accounts).item_config.data }),
        final(accounts).item_config.key == old(accounts).item_config.key,
        final(accounts).admin == old(accounts).admin,
{
    accounts.item_config.data.marketplace_program = marketplace_program;
}

/// Set the crafting program, the one caller allowed to mint items.
pub fn set_crafting_program(accounts: &mut SetProgram, crafting_program: Pubkey)
    ensures
        final(accounts).item_config.data == (ItemConfig { crafting_program, ..old(accounts).item_config.data }),
        final(accounts).item_config.key == old(accounts).item_config.key,
        final(accounts).admin == old(accounts).admin,
{
    accounts.item_config.data.crafting_program = crafting_program;
}

/// What `mint_item_nft` records, or why it refuses: the type is checked first, then that
/// the caller account names the registered crafting program.
pub open spec fn mint_item_outcome(config: ItemConfig, caller: Pubkey, item_type: u8, recipient: Pubkey, mint: Pubkey, bump: u8) -> Result<ItemMetadata, ItemNftError> {
    if item_type >= ITEM_TYPES {
        Err(ItemNftError::InvalidItemType)
    } else if caller@ != config.crafting_program@ {
        Err(ItemNftError::UnauthorizedCaller)
    } else {
        Ok(ItemMetadata { item_type, owner: recipient, mint, bump })
    }
}

/// Record a minted item of `item_type` for the recipient; the caller account must name
/// the registered crafting program.
pub fn mint_item_nft(accounts: &MintItemNft, bumps: &MintItemNftBumps, item_type: u8) -> (r: Result<ItemMetadata, ItemNftError>)
    ensures
        r == mint_item_outcome(accounts.item_config.data, accounts.caller_program, item_type,
            accounts.recipient.key, accounts.item_mint, bumps.item_metadata),
{
    if item_type >= ITEM_TYPES {
        return Err(ItemNftError::InvalidItemType);
    }
    if !accounts.caller_program.eq_key(&accounts.item_config.data.crafting_program) {
        return Err(ItemNftError::UnauthorizedCaller);
    }
    Ok(ItemMetadata {
        item_type,
        owner: accounts.recipient.key,
        mint: accounts.item_mint,
        bump: bumps.item_metadata,
    })
}

/// Decide the burn of the one token of an item, signed by its owner; the caller account
/// must name the registered marketplace program.
pub fn burn_item_nft(accounts: &BurnItemNft) -> (r: Result<Burn, ItemNftError>)
    ensures
        r is Ok <==> accounts.caller_program@ == accounts.item_config.data.marketplace_program@,
        r is Err ==> r == Err::<Burn, ItemNftError>(ItemNftError::UnauthorizedCaller),
        r matches Ok(b) ==> {
            &&& b.mint == accounts.item_mint
            &&& b.from == accounts.owner_token_account
            &&& b.authority == accounts.owner.key
            &&& b.amount == 1
        },
{
    if !accounts.caller_program.eq_key(&accounts.item_config.data.marketplace_program) {
        return Err(ItemNftError::UnauthorizedCaller);
    }
    Ok(Burn {
        mint: accounts.item_mint,
        from: accounts.owner_token_account,
        authority: accounts.owner.key,
        amount: 1,
    })
}


/// Only the admin recorded in the configuration, signing, may change it; the setters keep
/// that admin.
pub proof fn lemma_only_admin_configures(accounts: SetProgram, program_id: Seq<u8>)
    requires
        accounts.outcome(program_id) is Ok,
    ensures
        accounts.admin.is_signer,
        accounts.item_config.data.admin@ == accounts.admin.key@,
{
}

/// An item mint has at most one metadata account: every accepted mint of an item names the
/// same metadata account, and once that account is in use a mint naming it is refused.
pub proof fn lemma_one_metadata_per_mint(a: MintItemNft, b: MintItemNft, program_id: Seq<u8>)
    ensures
        a.outcome(program_id) is Ok && b.outcome(program_id) is Ok && a.item_mint@ == b.item_mint@
            ==> a.item_metadata.key@ == b.item_metadata.key@,
        a.item_metadata.in_use ==> a.outcome(program_id) is Err,
{
    if a.outcome(program_id) is Ok && b.outcome(program_id) is Ok && a.item_mint@ == b.item_mint@ {
        lemma_init_address_unique(item_metadata_seeds(a.item_mint@), program_id, a.item_metadata, b.item_metadata);
    }
}

/// A mint of an item is recorded exactly when the type is one of the four craftable items
/// and the caller account names the configured crafting program; the metadata then holds
/// the requested type, the recipient as owner, the item's mint and the metadata bump.
pub proof fn lemma_mint_records_request(config: ItemConfig, caller: Pubkey, item_type: u8, recipient: Pubkey,
    mint: Pubkey, bump: u8)
    ensures
        mint_item_outcome(config, caller, item_type, recipient, mint, bump) is Ok
            <==> item_type < 4 && caller@ == config.crafting_program@,
        mint_item_outcome(config, caller, item_type, recipient, mint, bump) matches Ok(m) ==> {
            &&& m.item_type == item_type
            &&& m.owner == recipient
            &&& m.mint == mint
            &&& m.bump == bump
        },
        item_type >= 4 ==> mint_item_outcome(config, caller, item_type, recipient, mint, bump)
            == Err::<ItemMetadata, ItemNftError>(ItemNftError::InvalidItemType),
        item_type < 4 && caller@ != config.crafting_program@
            ==> mint_item_outcome(config, caller, item_type, recipient, mint, bump)
                == Err::<ItemMetadata, ItemNftError>(ItemNftError::UnauthorizedCaller),
{
}

} // verus!
