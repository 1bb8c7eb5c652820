//! The marketplace: sellers list items for a price in MagicToken, may cancel a listing,
//! and a buyer takes an active listing.
use vstd::prelude::*;
use crate::pubkey::{Pubkey, zero_key};
use crate::accounts::{
    Account, AccountError, NewAccount, Signer, after, check_has_one, check_init, check_program,
    check_configured_program, check_seeds, check_signer, configured_program_outcome, has_one_outcome,
    init_outcome, lemma_init_address_unique, program_outcome, seeds_outcome, signer_outcome,
};
use crate::program_ids::{system_program_id, system_program_key, token_program_id, token_program_key};
use crate::token::{ItemBurnOrder, MagicMintOrder};
use crate::seeds::{seeds1, seeds2, marketplace_config_seed, marketplace_config_tag, listing_seed, listing_tag};
use crate::pda::{is_canonical_pda, pda_with_bump};

verus! {

/// The marketplace's configuration account.
#[derive(Debug, Clone, Copy)]
pub struct MarketplaceConfig {
    pub admin: Pubkey,
    pub magic_token_program: Pubkey,
    pub item_nft_program: Pubkey,
    pub bump: u8,
}

/// An item offered for sale.
#[derive(Debug, Clone, Copy)]
pub struct Listing {
    pub seller: Pubkey,
    pub item_mint: Pubkey,
    pub price: u64,
    pub is_active: bool,
    pub bump: u8,
}

#[derive(Debug, Clone, Copy, PartialEq, Eq, Structural)]
pub enum MarketplaceError {
    InvalidPrice,
    ListingNotActive,
    NotSeller,
}

/// A completed sale: the item's token is to be burned (through the item NFT program) and
/// the seller paid `price` MagicToken (minted through the MagicToken program).
#[derive(Debug, Clone, Copy)]
pub struct Sale {
    pub seller: Pubkey,
    pub price: u64,
    pub burn: ItemBurnOrder,
    pub payment: MagicMintOrder,
}

pub open spec fn marketplace_config_seeds() -> Seq<Seq<u8>> {
    seq![marketplace_config_tag()]
}

pub open spec fn listing_seeds(item_mint: Seq<u8>) -> Seq<Seq<u8>> {
    seq![listing_tag(), item_mint]
}

fn listing_seed_list(item_mint: &Pubkey) -> (r: Vec<Vec<u8>>)
    ensures
        r.deep_view() == listing_seeds(item_mint@),
{
    seeds2(listing_seed(), item_mint.to_seed())
}

/// Accounts of `initialize_marketplace`.
#[derive(Debug)]
pub struct InitializeMarketplace {
    pub marketplace_config: NewAccount,
    pub admin: Signer,
    pub system_program: Pubkey,
}

#[derive(Debug, Clone, Copy, PartialEq, Eq, Structural)]
pub struct InitializeMarketplaceBumps {
    pub marketplace_config: u8,
}

impl InitializeMarketplace {
    pub open spec fn outcome(&self, program_id: Seq<u8>) -> Result<InitializeMarketplaceBumps, AccountError> {
        after(signer_outcome(self.admin),
        after(program_outcome(self.system_program, system_program_id()),
            match init_outcome(marketplace_config_seeds(), program_id, self.marketplace_config) {
                Ok(b) => Ok(InitializeMarketplaceBumps { marketplace_config: b }),
                Err(e) => Err(e),
            }))
    }

    /// The admin must sign and the System Program be named; the configuration account must
    /// be unused and sit at the canonical address of `["marketplace_config"]`.
    pub fn validate(&self, program_id: &Pubkey) -> (r: Result<InitializeMarketplaceBumps, AccountError>)
        ensures
            r == self.outcome(program_id@),
    {
        check_signer(&self.admin)?;
        check_program(&self.system_program, &system_program_key())?;
        let b = check_init(&self.marketplace_config, &seeds1(marketplace_config_seed()), program_id)?;
        Ok(InitializeMarketplaceBumps { marketplace_config: b })
    }
}

/// The configuration sits at the address of `["marketplace_config"]` with its stored bump.
pub open spec fn config_outcome(config: Account<MarketplaceConfig>, program_id: Seq<u8>) -> Result<(), AccountError> {
    seeds_outcome(marketplace_config_seeds(), program_id, config.data.bump, config.key@)
}

fn check_config(config: &Account<MarketplaceConfig>, program_id: &Pubkey) -> (r: Result<(), AccountError>)
    ensures
        r == config_outcome(*config, program_id@),
{
    check_seeds(&config.key, seeds1(marketplace_config_seed()), config.data.bump, program_id)
}

/// Accounts of the admin's setters.
#[derive(Debug)]
pub struct SetProgram {
    pub marketplace_config: Account<MarketplaceConfig>,
    pub admin: Signer,
}

impl SetProgram {
    pub open spec fn outcome(&self, program_id: Seq<u8>) -> Result<(), AccountError> {
        if !self.admin.is_signer {
            Err(AccountError::AccountNotSigner)
        } else if config_outcome(self.marketplace_config, program_id) is Err {
            Err(AccountError::ConstraintSeeds)
        } else {
            has_one_outcome(self.marketplace_config.data.admin, self.admin.key)
        }
    }

    /// The admin must sign, the configuration must sit at its address and name the signer
    /// as its admin.
    pub fn validate(&self, program_id: &Pubkey) -> (r: Result<(), AccountError>)
        ensures
            r == self.outcome(program_id@),
    {
        check_signer(&self.admin)?;
        check_config(&self.marketplace_config, program_id)?;
        check_has_one(&self.marketplace_config.data.admin, &self.admin.key)
    }
}

/// Accounts of `list_item`.
#[derive(Debug)]
pub struct ListItem {
    pub marketplace_config: Account<MarketplaceConfig>,
    pub listing: NewAccount,
    pub item_mint: Pubkey,
    pub seller: Signer,
    pub system_program: Pubkey,
}

#[derive(Debug, Clone, Copy, PartialEq, Eq, Structural)]
pub struct ListItemBumps {
    pub listing: u8,
}

impl ListItem {
    pub open spec fn outcome(&self, program_id: Seq<u8>) -> Result<ListItemBumps, AccountError> {
        after(signer_outcome(self.seller),
        after(program_outcome(self.system_program, system_program_id()),
            match init_outcome(listing_seeds(self.item_mint@), program_id, self.listing) {
                Ok(b) => match config_outcome(self.marketplace_config, program_id) {
                    Ok(_) => Ok(ListItemBumps { listing: b }),
                    Err(e) => Err(e),
                },
                Err(e) => Err(e),
            }))
    }

    /// The seller must sign and the System Program be named; the new listing must be
    /// unused and sit at the canonical address of `["listing", item_mint]`; the
    /// configuration must sit at its address.
    pub fn validate(&self, program_id: &Pubkey) -> (r: Result<ListItemBumps, AccountError>)
        ensures
            r == self.outcome(program_id@),
    {
        check_signer(&self.seller)?;
        check_program(&self.system_program, &system_program_key())?;
        let b = check_init(&self.listing, &listing_seed_list(&self.item_mint), program_id)?;
        check_config(&self.marketplace_config, program_id)?;
        Ok(ListItemBumps { listing: b })
    }
}

/// Accounts of `cancel_listing`.
#[derive(Debug)]
pub struct CancelListing {
    pub listing: Account<Listing>,
    pub seller: Signer,
}

impl CancelListing {
    pub open spec fn outcome(&self, program_id: Seq<u8>) -> Result<(), AccountError> {
        if !self.seller.is_signer {
            Err(AccountError::AccountNotSigner)
        } else {
            seeds_outcome(listing_seeds(self.listing.data.item_mint@), program_id, self.listing.data.bump, self.listing.key@)
        }
    }

    /// The seller must sign; the listing must sit at the address of
    /// `["listing", listing.item_mint]` with its stored bump.
    pub fn validate(&self, program_id: &Pubkey) -> (r: Result<(), AccountError>)
        ensures
            r == self.outcome(program_id@),
    {
        check_signer(&self.seller)?;
        check_seeds(&self.listing.key, listing_seed_list(&self.listing.data.item_mint), self.listing.data.bump, program_id)
    }
}

/// Accounts of `buy_item`.
#[derive(Debug)]
pub struct BuyItem {
    pub marketplace_config: Account<MarketplaceConfig>,
    pub listing: Account<Listing>,
    pub item_mint: Pubkey,
    pub buyer: Signer,
    pub token_program: Pubkey,
    pub system_program: Pubkey,
}

impl BuyItem {
    pub open spec fn outcome(&self, program_id: Seq<u8>) -> Result<(), AccountError> {
        after(signer_outcome(self.buyer),
        after(program_outcome(self.token_program, token_program_id()),
        after(program_outcome(self.system_program, system_program_id()),
        after(config_outcome(self.marketplace_config, program_id),
            seeds_outcome(listing_seeds(self.item_mint@), program_id, self.listing.data.bump, self.listing.key@)))))
    }

    /// The buyer must sign, the SPL Token program and the System Program be named; the
    /// configuration must sit at its address and the listing at that of
    /// `["listing", item_mint]` with its stored bump.
    pub fn validate(&self, program_id: &Pubkey) -> (r: Result<(), AccountError>)
        ensures
            r == self.outcome(program_id@),
    {
        check_signer(&self.buyer)?;
        check_program(&self.token_program, &token_program_key())?;
        check_program(&self.system_program, &system_program_key())?;
        check_config(&self.marketplace_config, program_id)?;
        check_seeds(&self.listing.key, listing_seed_list(&self.item_mint), self.listing.data.bump, program_id)
    }
}

/// Initialize the marketplace: the signer becomes its admin, no program is set yet.
pub fn initialize_marketplace(accounts: &InitializeMarketplace, bumps: &InitializeMarketplaceBumps) -> (config: MarketplaceConfig)
    ensures
        config.admin == accounts.admin.key,
        config.magic_token_program@ == zero_key(),
        config.item_nft_program@ == zero_key(),
        config.bump == bumps.marketplace_config,
{
    MarketplaceConfig {
        admin: accounts.admin.key,
        magic_token_program: Pubkey::default_key(),
        item_nft_program: Pubkey::default_key(),
        bump: bumps.marketplace_config,
    }
}

/// Set the MagicToken program.
pub fn set_magic_token_program(accounts: &mut SetProgram, program: Pubkey)
    ensures
        final(accounts).marketplace_config.data == (MarketplaceConfig {
            magic_token_program: program,
            ..old(accounts).marketplace_config.data
        }),
        final(accounts).marketplace_config.key == old(accounts).marketplace_config.key,
        final(accounts).admin == old(accounts).admin,
{
    accounts.marketplace_config.data.magic_token_program = program;
}

/// Set the item NFT program.
pub fn set_item_nft_program(accounts: &mut SetProgram, program: Pubkey)
    ensures
        final(accounts).marketplace_config.data == (MarketplaceConfig {
            item_nft_program: program,
            ..old(accounts).marketplace_config.data
        }),
        final(accounts).marketplace_config.key == old(accounts).marketplace_config.key,
        final(accounts).admin == old(accounts).admin,
{
    accounts.marketplace_config.data.item_nft_program = program;
}

/// The listing that `list_item` creates, or why it refuses.
pub open spec fn list_outcome(seller: Pubkey, item_mint: Pubkey, price: u64, bump: u8) -> Result<Listing, MarketplaceError> {
    if price > 0 {
        Ok(Listing { seller, item_mint, price, is_active: true, bump })
    } else {
        Err(MarketplaceError::InvalidPrice)
    }
}

/// List an item for `price` MagicToken; the price must be positive.
pub fn list_item(accounts: &ListItem, bumps: &ListItemBumps, price: u64) -> (r: Result<Listing, MarketplaceError>)
    ensures
        r == list_outcome(accounts.seller.key, accounts.item_mint, price, bumps.listing),
{
    if price == 0 {
        return Err(MarketplaceError::InvalidPrice);
    }
    Ok(Listing {
        seller: accounts.seller.key,
        item_mint: accounts.item_mint,
        price,
        is_active: true,
        bump: bumps.listing,
    })
}

/// What `cancel_listing` by `seller` makes of `listing`, or why it refuses.
pub open spec fn cancel_outcome(listing: Listing, seller: Pubkey) -> Result<Listing, MarketplaceError> {
    if !listing.is_active {
        Err(MarketplaceError::ListingNotActive)
    } else if listing.seller@ != seller@ {
        Err(MarketplaceError::NotSeller)
    } else {
        Ok(Listing { is_active: false, ..listing })
    }
}

/// Cancel an active listing; only its seller may.
pub fn cancel_listing(accounts: &mut CancelListing) -> (r: Result<(), MarketplaceError>)
    ensures
        match cancel_outcome(old(accounts).listing.data, old(accounts).seller.key) {
            Ok(l) => r is Ok && final(accounts).listing.data == l,
            Err(e) => r == Err::<(), MarketplaceError>(e) && final(accounts).listing.data == old(accounts).listing.data,
        },
        final(accounts).listing.key == old(accounts).listing.key,
        final(accounts).seller == old(accounts).seller,
{
    if !accounts.listing.data.is_active {
        return Err(MarketplaceError::ListingNotActive);
    }
    if !accounts.listing.data.seller.eq_key(&accounts.seller.key) {
        return Err(MarketplaceError::NotSeller);
    }
    accounts.listing.data.is_active = false;
    Ok(())
}

/// The sale of `listing`: its one item token is burned and its seller paid its price.
pub open spec fn sale_of(listing: Listing) -> Sale {
    Sale {
        seller: listing.seller,
        price: listing.price,
        burn: ItemBurnOrder { item_mint: listing.item_mint, amount: 1 },
        payment: MagicMintOrder { recipient: listing.seller, amount: listing.price },
    }
}

/// What `buy_item` makes of `listing` and the sale it records, or why it refuses.
pub open spec fn buy_outcome(listing: Listing) -> Result<(Listing, Sale), MarketplaceError> {
    if listing.is_active {
        Ok((Listing { is_active: false, ..listing }, sale_of(listing)))
    } else {
        Err(MarketplaceError::ListingNotActive)
    }
}

/// Buy an active listing: it is closed, its item token burned and its seller paid its
/// price in MagicToken.
pub fn buy_item(accounts: &mut BuyItem) -> (r: Result<Sale, MarketplaceError>)
    ensures
        match buy_outcome(old(accounts).listing.data) {
            Ok((l, sale)) => r == Ok::<Sale, MarketplaceError>(sale) && final(accounts).listing.data == l,
            Err(e) => r == Err::<Sale, MarketplaceError>(e) && final(accounts).listing.data == old(accounts).listing.data,
        },
        final(accounts).listing.key == old(accounts).listing.key,
        final(accounts).marketplace_config == old(accounts).marketplace_config,
        final(accounts).item_mint == old(accounts).item_mint,
        final(accounts).buyer == old(accounts).buyer,
{
    if !accounts.listing.data.is_active {
        return Err(MarketplaceError::ListingNotActive);
    }
    let price = accounts.listing.data.price;
    let seller = accounts.listing.data.seller;
    let item_mint = accounts.listing.data.item_mint;
    accounts.listing.data.is_active = false;
    Ok(Sale {
        seller,
        price,
        burn: ItemBurnOrder { item_mint, amount: 1 },
        payment: MagicMintOrder { recipient: seller, amount: price },
    })
}

/// A listing is sold at most once: after a sale, buying it again is refused.
pub proof fn lemma_sold_once(listing: Listing)
    requires
        buy_outcome(listing) is Ok,
    ensures
        buy_outcome(buy_outcome(listing)->Ok_0.0) == Err::<(Listing, Sale), MarketplaceError>(MarketplaceError::ListingNotActive),
{
}

/// A cancelled listing can be neither bought nor cancelled again.
pub proof fn lemma_cancelled_is_closed(listing: Listing, seller: Pubkey, other: Pubkey)
    requires
        cancel_outcome(listing, seller) is Ok,
    ensures
        buy_outcome(cancel_outcome(listing, seller)->Ok_0) == Err::<(Listing, Sale), MarketplaceError>(MarketplaceError::ListingNotActive),
        cancel_outcome(cancel_outcome(listing, seller)->Ok_0, other) == Err::<Listing, MarketplaceError>(MarketplaceError::ListingNotActive),
{
}

/// A fresh listing can be bought; the sale burns the item and pays its seller the listed
/// price.
pub proof fn lemma_list_then_buy(seller: Pubkey, item_mint: Pubkey, price: u64, bump: u8)
    requires
        price > 0,
    ensures
        list_outcome(seller, item_mint, price, bump) is Ok,
        buy_outcome(list_outcome(seller, item_mint, price, bump)->Ok_0) is Ok,
        buy_outcome(list_outcome(seller, item_mint, price, bump)->Ok_0)->Ok_0.1 == (Sale {
            seller,
            price,
            burn: ItemBurnOrder { item_mint, amount: 1 },
            payment: MagicMintOrder { recipient: seller, amount: price },
        }),
{
}

/// Only the seller can cancel: a signer other than the seller is refused.
pub proof fn lemma_only_seller_cancels(listing: Listing, signer: Pubkey)
    requires
        listing.seller@ != signer@,
    ensures
        cancel_outcome(listing, signer) is Err,
{
}


/// Only the admin recorded in the configuration, signing, may change it; the setters keep
/// that admin.
pub proof fn lemma_only_admin_configures(accounts: SetProgram, program_id: Seq<u8>)
    requires
        accounts.outcome(program_id) is Ok,
    ensures
        accounts.admin.is_signer,
        accounts.marketplace_config.data.admin@ == accounts.admin.key@,
{
}

/// An item mint is listed at most once: every accepted listing of an item names the same
/// listing account, and once that account is in use (listed, whether since sold or
/// cancelled) a new listing naming it is refused.
pub proof fn lemma_listed_once(a: ListItem, b: ListItem, program_id: Seq<u8>)
    ensures
        a.outcome(program_id) is Ok && b.outcome(program_id) is Ok && a.item_mint@ == b.item_mint@
            ==> a.listing.key@ == b.listing.key@,
        a.listing.in_use ==> a.outcome(program_id) is Err,
{
    if a.outcome(program_id) is Ok && b.outcome(program_id) is Ok && a.item_mint@ == b.item_mint@ {
        lemma_init_address_unique(listing_seeds(a.item_mint@), program_id, a.listing, b.listing);
    }
}

/// The programs and the token account that a sale calls on: the item NFT program, which
/// burns the item, the MagicToken program, which pays, and the holder of the token account
/// that the payment goes to.
#[derive(Debug)]
pub struct SaleCalls {
    pub item_nft_program: Pubkey,
    pub magic_token_program: Pubkey,
    pub payment_account_owner: Pubkey,
}

impl SaleCalls {
    pub open spec fn outcome(&self, config: MarketplaceConfig, sale: Sale) -> Result<(), AccountError> {
        after(configured_program_outcome(self.item_nft_program, config.item_nft_program),
        after(configured_program_outcome(self.magic_token_program, config.magic_token_program),
            if self.payment_account_owner@ == sale.payment.recipient@ {
                Ok(())
            } else {
                Err(AccountError::ConstraintTokenOwner)
            }))
    }

    /// The item NFT and MagicToken programs must be the ones the marketplace configuration
    /// names, and set; the token account paid must belong to the payment's recipient.
    pub fn validate(&self, config: &MarketplaceConfig, sale: &Sale) -> (r: Result<(), AccountError>)
        ensures
            r == self.outcome(*config, *sale),
    {
        check_configured_program(&self.item_nft_program, &config.item_nft_program)?;
        check_configured_program(&self.magic_token_program, &config.magic_token_program)?;
        if self.payment_account_owner.eq_key(&sale.payment.recipient) {
            Ok(())
        } else {
            Err(AccountError::ConstraintTokenOwner)
        }
    }
}

/// An accepted sale pays the listing's seller, through the configured programs.
pub proof fn lemma_sale_pays_seller(listing: Listing, config: MarketplaceConfig, calls: SaleCalls)
    requires
        buy_outcome(listing) is Ok,
        calls.outcome(config, buy_outcome(listing)->Ok_0.1) is Ok,
    ensures
        calls.payment_account_owner@ == listing.seller@,
        calls.item_nft_program@ == config.item_nft_program@,
        calls.magic_token_program@ == config.magic_token_program@,
        config.item_nft_program@ != zero_key(),
        config.magic_token_program@ != zero_key(),
{
}

/// The accounts of a buy pass exactly when the buyer signs, the SPL Token and System
/// programs are named, the configuration is derived from `["marketplace_config"]` with the
/// configuration's own stored bump, and the listing from `["listing", item_mint]` with the
/// listing's own stored bump.
pub proof fn lemma_buy_accounts(a: BuyItem, program_id: Seq<u8>)
    ensures
        a.outcome(program_id) is Ok <==> {
            &&& a.buyer.is_signer
            &&& a.token_program@ == token_program_id()
            &&& a.system_program@ == system_program_id()
            &&& pda_with_bump(seq![marketplace_config_tag()], program_id, a.marketplace_config.data.bump)
                == Some(a.marketplace_config.key@)
            &&& pda_with_bump(seq![listing_tag(), a.item_mint@], program_id, a.listing.data.bump)
                == Some(a.listing.key@)
        },
{
}

/// The accounts of a cancellation pass exactly when the seller signs and the listing is
/// derived from `["listing", item_mint]`, the item mint and the bump being the ones the
/// listing stores.
pub proof fn lemma_cancel_accounts(c: CancelListing, program_id: Seq<u8>)
    ensures
        c.outcome(program_id) is Ok <==> {
            &&& c.seller.is_signer
            &&& pda_with_bump(seq![listing_tag(), c.listing.data.item_mint@], program_id, c.listing.data.bump)
                == Some(c.listing.key@)
        },
{
}

/// A listing that `list_item` created is found again: its seller, signing, passes the
/// cancellation's account checks and cancels it; a signing buyer who names the item's
/// mint, the programs and the configuration passes the buy's account checks and buys it.
pub proof fn lemma_listing_found_again(l: ListItem, program_id: Seq<u8>, price: u64, c: CancelListing, b: BuyItem)
    requires
        l.outcome(program_id) is Ok,
        price > 0,
        c.listing.key == l.listing.key,
        c.listing.data == list_outcome(l.seller.key, l.item_mint, price, l.outcome(program_id)->Ok_0.listing)->Ok_0,
        c.seller == l.seller,
        b.listing == c.listing,
        b.item_mint == l.item_mint,
        b.marketplace_config == l.marketplace_config,
        b.buyer.is_signer,
        b.token_program@ == token_program_id(),
        b.system_program@ == system_program_id(),
    ensures
        c.outcome(program_id) is Ok,
        cancel_outcome(c.listing.data, c.seller.key) is Ok,
        b.outcome(program_id) is Ok,
        buy_outcome(b.listing.data) is Ok,
{
    let bump = l.outcome(program_id)->Ok_0.listing;
    assert(is_canonical_pda(listing_seeds(l.item_mint@), program_id, bump, l.listing.key@));
}

} // verus!
