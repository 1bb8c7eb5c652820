//! Crafting: four item types, each made from a fixed recipe of resources.
use vstd::prelude::*;
use crate::pubkey::{Pubkey, zero_key};
use crate::accounts::{
    Account, AccountError, NewAccount, Signer, after, check_has_one, check_init, check_program,
    check_configured_program, check_seeds, check_signer, configured_program_outcome, has_one_outcome,
    init_outcome, program_outcome, seeds_outcome, signer_outcome,
};
use crate::program_ids::{system_program_id, system_program_key};
use crate::token::{ItemMintOrder, ResourceBurnOrder};
use crate::seeds::{seeds1, crafting_config_seed, crafting_config_tag};
pub use crate::resource_manager::Player;
use crate::resource_manager::{
    game_config_seeds, game_config_seed_list, player_seeds, player_seed_list, GameConfig, RegisterPlayer,
    RESOURCE_KINDS,
};
use crate::pda::is_canonical_pda;
use crate::item_nft::{mint_item_outcome, ItemConfig};

verus! {

/// The number of item types that can be crafted.
pub const CRAFTABLE_ITEMS: u8 = 4;

/// The crafting program's configuration account.
#[derive(Debug, Clone, Copy)]
pub struct CraftingConfig {
    pub admin: Pubkey,
    pub resource_manager_program: Pubkey,
    pub item_nft_program: Pubkey,
    pub game_config: Pubkey,
    pub bump: u8,
}

#[derive(Debug, Clone, Copy, PartialEq, Eq, Structural)]
pub enum CraftingError {
    /// The item type is not one of the `CRAFTABLE_ITEMS` types.
    InvalidItemType,
    /// The player lacks the resources of the recipe.
    InsufficientResources,
}

/// The recipe of `item_type`: three `(resource kind, amount)` ingredients.
/// 0: Kozak Saber = 3 iron, 1 wood, 1 leather; 1: Elder Staff = 2 wood, 1 gold, 1 diamond;
/// 2: Kharakter Armor = 4 leather, 2 iron, 1 gold; 3: Battle Bracelet = 4 iron, 2 gold,
/// 2 diamond. (Resource kinds: 0 wood, 1 iron, 2 gold, 3 leather, 5 diamond.)
pub open spec fn recipe(item_type: u8) -> Seq<(u8, u64)> {
    if item_type == 0 {
        seq![(1u8, 3u64), (0u8, 1u64), (3u8, 1u64)]
    } else if item_type == 1 {
        seq![(0u8, 2u64), (2u8, 1u64), (5u8, 1u64)]
    } else if item_type == 2 {
        seq![(3u8, 4u64), (1u8, 2u64), (2u8, 1u64)]
    } else {
        seq![(1u8, 4u64), (2u8, 2u64), (5u8, 2u64)]
    }
}

pub open spec fn item_name_of(item_type: u8) -> Seq<char> {
    if item_type == 0 {
        "Kozak Saber"@
    } else if item_type == 1 {
        "Elder Staff"@
    } else if item_type == 2 {
        "Kharakter Armor"@
    } else {
        "Battle Bracelet"@
    }
}

pub open spec fn item_symbol_of(item_type: u8) -> Seq<char> {
    if item_type == 0 {
        "KSAB"@
    } else if item_type == 1 {
        "ESTF"@
    } else if item_type == 2 {
        "KARM"@
    } else {
        "BRAC"@
    }
}

/// The recipe of a craftable item type.
pub fn recipe_of(item_type: u8) -> (r: Vec<(u8, u64)>)
    requires
        item_type < CRAFTABLE_ITEMS,
    ensures
        r@ == recipe(item_type),
{
    let r: Vec<(u8, u64)> = if item_type == 0 {
        vec![(1u8, 3u64), (0u8, 1u64), (3u8, 1u64)]
    } else if item_type == 1 {
        vec![(0u8, 2u64), (2u8, 1u64), (5u8, 1u64)]
    } else if item_type == 2 {
        vec![(3u8, 4u64), (1u8, 2u64), (2u8, 1u64)]
    } else {
        vec![(1u8, 4u64), (2u8, 2u64), (5u8, 2u64)]
    };
    assert(r@ =~= recipe(item_type));
    r
}

/// The display name of a craftable item type.
pub fn item_name(item_type: u8) -> (r: &'static str)
    requires
        item_type < CRAFTABLE_ITEMS,
    ensures
        r@ == item_name_of(item_type),
{
    if item_type == 0 {
        "Kozak Saber"
    } else if item_type == 1 {
        "Elder Staff"
    } else if item_type == 2 {
        "Kharakter Armor"
    } else {
        "Battle Bracelet"
    }
}

/// The token symbol of a craftable item type.
pub fn item_symbol(item_type: u8) -> (r: &'static str)
    requires
        item_type < CRAFTABLE_ITEMS,
    ensures
        r@ == item_symbol_of(item_type),
{
    if item_type == 0 {
        "KSAB"
    } else if item_type == 1 {
        "ESTF"
    } else if item_type == 2 {
        "KARM"
    } else {
        "BRAC"
    }
}

pub open spec fn crafting_config_seeds() -> Seq<Seq<u8>> {
    seq![crafting_config_tag()]
}

/// The configuration sits at the address of `["crafting_config"]` with its stored bump.
pub open spec fn config_outcome(config: Account<CraftingConfig>, program_id: Seq<u8>) -> Result<(), AccountError> {
    seeds_outcome(crafting_config_seeds(), program_id, config.data.bump, config.key@)
}

fn check_config(config: &Account<CraftingConfig>, program_id: &Pubkey) -> (r: Result<(), AccountError>)
    ensures
        r == config_outcome(*config, program_id@),
{
    check_seeds(&config.key, seeds1(crafting_config_seed()), config.data.bump, program_id)
}

/// Accounts of `initialize_crafting`.
#[derive(Debug)]
pub struct InitializeCrafting {
    pub crafting_config: NewAccount,
    pub admin: Signer,
    pub system_program: Pubkey,
}

#[derive(Debug, Clone, Copy, PartialEq, Eq, Structural)]
pub struct InitializeCraftingBumps {
    pub crafting_config: u8,
}

impl InitializeCrafting {
    pub open spec fn outcome(&self, program_id: Seq<u8>) -> Result<InitializeCraftingBumps, AccountError> {
        after(signer_outcome(self.admin),
        after(program_outcome(self.system_program, system_program_id()),
            match init_outcome(crafting_config_seeds(), program_id, self.crafting_config) {
                Ok(b) => Ok(InitializeCraftingBumps { crafting_config: b }),
                Err(e) => Err(e),
            }))
    }

    /// The admin must sign and the System Program be named; the configuration account must
    /// be unused and sit at the canonical address of `["crafting_config"]`.
    pub fn validate(&self, program_id: &Pubkey) -> (r: Result<InitializeCraftingBumps, AccountError>)
        ensures
            r == self.outcome(program_id@),
    {
        check_signer(&self.admin)?;
        check_program(&self.system_program, &system_program_key())?;
        let b = check_init(&self.crafting_config, &seeds1(crafting_config_seed()), program_id)?;
        Ok(InitializeCraftingBumps { crafting_config: b })
    }
}

/// Accounts of the admin's setters.
#[derive(Debug)]
pub struct SetProgram {
    pub crafting_config: Account<CraftingConfig>,
    pub admin: Signer,
}

impl SetProgram {
    pub open spec fn outcome(&self, program_id: Seq<u8>) -> Result<(), AccountError> {
        if !self.admin.is_signer {
            Err(AccountError::AccountNotSigner)
        } else if config_outcome(self.crafting_config, program_id) is Err {
            Err(AccountError::ConstraintSeeds)
        } else {
            has_one_outcome(self.crafting_config.data.admin, self.admin.key)
        }
    }

    /// The admin must sign, the configuration must sit at its address and name the signer
    /// as its admin.
    pub fn validate(&self, program_id: &Pubkey) -> (r: Result<(), AccountError>)
        ensures
            r == self.outcome(program_id@),
    {
        check_signer(&self.admin)?;
        check_config(&self.crafting_config, program_id)?;
        check_has_one(&self.crafting_config.data.admin, &self.admin.key)
    }
}

/// Accounts of `craft_item`.
#[derive(Debug)]
pub struct CraftItem {
    pub crafting_config: Account<CraftingConfig>,
    pub player: Account<Player>,
    pub owner: Signer,
}

impl CraftItem {
    pub open spec fn outcome(&self, program_id: Seq<u8>) -> Result<(), AccountError> {
        if !self.owner.is_signer {
            Err(AccountError::AccountNotSigner)
        } else if config_outcome(self.crafting_config, program_id) is Err {
            Err(AccountError::ConstraintSeeds)
        } else if seeds_outcome(player_seeds(self.owner.key@), self.crafting_config.data.resource_manager_program@,
            self.player.data.bump, self.player.key@) is Err {
            Err(AccountError::ConstraintSeeds)
        } else {
            has_one_outcome(self.player.data.owner, self.owner.key)
        }
    }

    /// The owner must sign; the configuration must sit at its address; the player,
    /// registered by the resource manager, at that of `["player", owner]` under the
    /// resource manager program that the configuration names, with its stored bump; the
    /// player must belong to the signer.
    pub fn validate(&self, program_id: &Pubkey) -> (r: Result<(), AccountError>)
        ensures
            r == self.outcome(program_id@),
    {
        check_signer(&self.owner)?;
        check_config(&self.crafting_config, program_id)?;
        check_seeds(&self.player.key, player_seed_list(&self.owner.key), self.player.data.bump,
            &self.crafting_config.data.resource_manager_program)?;
        check_has_one(&self.player.data.owner, &self.owner.key)
    }
}

/// Initialize the crafting configuration: the signer becomes its admin, no program or game
/// configuration is set yet.
pub fn initialize_crafting(accounts: &InitializeCrafting, bumps: &InitializeCraftingBumps) -> (config: CraftingConfig)
    ensures
        config.admin == accounts.admin.key,
        config.resource_manager_program@ == zero_key(),
        config.item_nft_program@ == zero_key(),
        config.game_config@ == zero_key(),
        config.bump == bumps.crafting_config,
{
    CraftingConfig {
        admin: accounts.admin.key,
        resource_manager_program: Pubkey::default_key(),
        item_nft_program: Pubkey::default_key(),
        game_config: Pubkey::default_key(),
        bump: bumps.crafting_config,
    }
}

/// Set the resource manager program.
pub fn set_resource_manager(accounts: &mut SetProgram, program: Pubkey)
    ensures
        final(accounts).crafting_config.data == (CraftingConfig {
            resource_manager_program: program,
            ..old(accounts).crafting_config.data
        }),
        final(accounts).crafting_config.key == old(accounts).crafting_config.key,
        final(accounts).admin == old(accounts).admin,
{
    accounts.crafting_config.data.resource_manager_program = program;
}

/// Set the item NFT program.
pub fn set_item_nft_program(accounts: &mut SetProgram, program: Pubkey)
    ensures
        final(accounts).crafting_config.data == (CraftingConfig {
            item_nft_program: program,
            ..old(accounts).crafting_config.data
        }),
        final(accounts).crafting_config.key == old(accounts).crafting_config.key,
        final(accounts).admin == old(accounts).admin,
{
    accounts.crafting_config.data.item_nft_program = program;
}

/// A crafting order: the item type and its name, the resources to burn from the owner
/// (through the resource manager), and the item to mint to the owner (through the item NFT
/// program).
#[derive(Debug)]
pub struct Craft {
    pub item_type: u8,
    pub name: &'static str,
    pub burns: Vec<ResourceBurnOrder>,
    pub mint: ItemMintOrder,
}

/// The owner holds every ingredient of `item_type`: `balances[k]` is its balance of
/// resource kind `k`.
pub open spec fn has_ingredients(item_type: u8, balances: Seq<u64>) -> bool {
    forall|i: int| 0 <= i < 3 ==> balances[(#[trigger] recipe(item_type)[i]).0 as int] >= recipe(item_type)[i].1
}

/// The burn orders are the recipe of `item_type`, ingredient by ingredient.
pub open spec fn burns_recipe(burns: Seq<ResourceBurnOrder>, item_type: u8) -> bool {
    &&& burns.len() == 3
    &&& forall|i: int| 0 <= i < 3 ==> (#[trigger] burns[i]).resource == recipe(item_type)[i].0
        && burns[i].amount == recipe(item_type)[i].1
}

/// Craft an item of `item_type`, the owner holding `balances[k]` of each resource kind
/// `k`: refused unless the type is craftable, then unless the owner holds the whole
/// recipe; otherwise the recipe is burned from the owner and one item minted to it.
pub fn craft_item(accounts: &CraftItem, item_type: u8, balances: &[u64; 6]) -> (r: Result<Craft, CraftingError>)
    ensures
        r is Ok <==> item_type < CRAFTABLE_ITEMS && has_ingredients(item_type, balances@),
        item_type >= CRAFTABLE_ITEMS ==> r == Err::<Craft, CraftingError>(CraftingError::InvalidItemType),
        item_type < CRAFTABLE_ITEMS && !has_ingredients(item_type, balances@)
            ==> r == Err::<Craft, CraftingError>(CraftingError::InsufficientResources),
        r matches Ok(c) ==> {
            &&& c.item_type == item_type
            &&& c.name@ == item_name_of(item_type)
            &&& burns_recipe(c.burns@, item_type)
            &&& c.mint.item_type == item_type
            &&& c.mint.recipient == accounts.owner.key
        },
{
    if item_type >= CRAFTABLE_ITEMS {
        return Err(CraftingError::InvalidItemType);
    }
    let ingredients = recipe_of(item_type);
    let mut burns: Vec<ResourceBurnOrder> = Vec::new();
    let mut i: usize = 0;
    while i < 3
        invariant
            0 <= i <= 3,
            ingredients@ == recipe(item_type),
            item_type < CRAFTABLE_ITEMS,
            burns@.len() == i,
            forall|j: int| 0 <= j < i ==> (#[trigger] burns@[j]).resource == recipe(item_type)[j].0
                && burns@[j].amount == recipe(item_type)[j].1,
            forall|j: int| 0 <= j < i ==> balances@[(#[trigger] recipe(item_type)[j]).0 as int] >= recipe(item_type)[j].1,
        decreases 3 - i,
    {
        let (resource, amount) = ingredients[i];
        assert(resource < 6);
        if balances[resource as usize] < amount {
            return Err(CraftingError::InsufficientResources);
        }
        burns.push(ResourceBurnOrder { resource, amount });
        i = i + 1;
    }
    Ok(Craft {
        item_type,
        name: item_name(item_type),
        burns,
        mint: ItemMintOrder { item_type, recipient: accounts.owner.key },
    })
}

/// A craft never burns more of a resource than the owner holds.
pub proof fn lemma_craft_within_balance(item_type: u8, balances: Seq<u64>, burns: Seq<ResourceBurnOrder>)
    requires
        has_ingredients(item_type, balances),
        burns_recipe(burns, item_type),
    ensures
        forall|i: int| 0 <= i < burns.len() ==> (#[trigger] burns[i]).amount <= balances[burns[i].resource as int],
{
    assert forall|i: int| 0 <= i < burns.len() implies (#[trigger] burns[i]).amount <= balances[burns[i].resource as int] by {
        assert(balances[recipe(item_type)[i].0 as int] >= recipe(item_type)[i].1);
    }
}

/// How much of resource kind `k` one item of `item_type` takes, kind by kind: the Kozak
/// Saber 3 iron, 1 wood and 1 leather; the Elder Staff 2 wood, 1 gold and 1 diamond; the
/// Kharakter Armor 4 leather, 2 iron and 1 gold; the Battle Bracelet 4 iron, 2 gold and
/// 2 diamond (kinds: 0 wood, 1 iron, 2 gold, 3 leather, 5 diamond).
pub open spec fn amount_needed(item_type: u8, k: int) -> u64 {
    if item_type == 0 {
        if k == 1 { 3 } else if k == 0 { 1 } else if k == 3 { 1 } else { 0 }
    } else if item_type == 1 {
        if k == 0 { 2 } else if k == 2 { 1 } else if k == 5 { 1 } else { 0 }
    } else if item_type == 2 {
        if k == 3 { 4 } else if k == 1 { 2 } else if k == 2 { 1 } else { 0 }
    } else {
        if k == 1 { 4 } else if k == 2 { 2 } else if k == 5 { 2 } else { 0 }
    }
}

/// An owner can craft an item exactly when its balance of every resource kind is at least
/// what the item takes of that kind; the burns of a craft then take, kind by kind, exactly
/// that much, every kind the item needs appearing among them.
pub proof fn lemma_craft_exactly_when_enough(item_type: u8, balances: Seq<u64>, burns: Seq<ResourceBurnOrder>)
    requires
        item_type < CRAFTABLE_ITEMS,
        balances.len() == RESOURCE_KINDS,
    ensures
        has_ingredients(item_type, balances)
            <==> forall|k: int| 0 <= k < 6 ==> #[trigger] balances[k] >= amount_needed(item_type, k),
        burns_recipe(burns, item_type) ==> {
            &&& forall|i: int| 0 <= i < burns.len() ==> (#[trigger] burns[i]).amount == amount_needed(item_type, burns[i].resource as int)
            &&& forall|k: int| 0 <= k < 6 && amount_needed(item_type, k) > 0
                ==> exists|i: int| 0 <= i < burns.len() && (#[trigger] burns[i]).resource == k
        },
{
    let r = recipe(item_type);
    if has_ingredients(item_type, balances) {
        assert(balances[r[0].0 as int] >= r[0].1);
        assert(balances[r[1].0 as int] >= r[1].1);
        assert(balances[r[2].0 as int] >= r[2].1);
        assert forall|k: int| 0 <= k < 6 implies #[trigger] balances[k] >= amount_needed(item_type, k) by {
        }
    }
    if forall|k: int| 0 <= k < 6 ==> #[trigger] balances[k] >= amount_needed(item_type, k) {
        assert(balances[r[0].0 as int] >= amount_needed(item_type, r[0].0 as int));
        assert(balances[r[1].0 as int] >= amount_needed(item_type, r[1].0 as int));
        assert(balances[r[2].0 as int] >= amount_needed(item_type, r[2].0 as int));
    }
    if burns_recipe(burns, item_type) {
        assert forall|k: int| 0 <= k < 6 && amount_needed(item_type, k) > 0
            implies exists|i: int| 0 <= i < burns.len() && (#[trigger] burns[i]).resource == k by {
            if burns[0].resource == k {
            } else if burns[1].resource == k {
            } else {
                assert(burns[2].resource == k);
            }
        }
    }
}

/// Every recipe has three ingredients, each a positive amount of one of the game's
/// resource kinds, no kind twice.
pub proof fn lemma_recipes_well_formed(item_type: u8)
    requires
        item_type < CRAFTABLE_ITEMS,
    ensures
        recipe(item_type).len() == 3,
        forall|i: int| 0 <= i < 3 ==> (#[trigger] recipe(item_type)[i]).0 < RESOURCE_KINDS,
        forall|i: int| 0 <= i < 3 ==> (#[trigger] recipe(item_type)[i]).1 > 0,
        forall|i: int, j: int| 0 <= i < j < 3 ==> (#[trigger] recipe(item_type)[i]).0 != (#[trigger] recipe(item_type)[j]).0,
{
}

/// Every item type that crafting accepts is one that the item NFT program mints for the
/// crafting program it is configured with.
pub proof fn lemma_craftable_is_mintable(item_type: u8, config: ItemConfig, recipient: Pubkey, mint: Pubkey, bump: u8)
    requires
        item_type < CRAFTABLE_ITEMS,
    ensures
        mint_item_outcome(config, config.crafting_program, item_type, recipient, mint, bump) is Ok,
{
}


/// Only the admin recorded in the configuration, signing, may change it; the setters keep
/// that admin.
pub proof fn lemma_only_admin_configures(accounts: SetProgram, program_id: Seq<u8>)
    requires
        accounts.outcome(program_id) is Ok,
    ensures
        accounts.admin.is_signer,
        accounts.crafting_config.data.admin@ == accounts.admin.key@,
{
}


/// Only a player's owner, signing, can craft with it.
pub proof fn lemma_owner_crafts(accounts: CraftItem, program_id: Seq<u8>)
    requires
        accounts.outcome(program_id) is Ok,
    ensures
        accounts.owner.is_signer,
        accounts.player.data.owner@ == accounts.owner.key@,
{
}

/// A token account offered for a craft, as read: its mint, its holder and its amount.
#[derive(Debug, Clone, Copy)]
pub struct Holding {
    pub mint: Pubkey,
    pub owner: Pubkey,
    pub amount: u64,
}

/// The owner's balance of resource kind `k`, from the token account offered for `k`: its
/// amount where it holds the kind's registered mint and belongs to the owner, else 0.
pub open spec fn holding_balance(game: GameConfig, owner: Pubkey, h: Holding, k: int) -> u64 {
    if h.mint@ == game.resource_mints@[k]@ && h.owner@ == owner@ {
        h.amount
    } else {
        0
    }
}

/// The owner's balance of each resource kind, from the six token accounts offered, one per
/// kind, checked against the mints registered in the game configuration.
pub fn craft_balances(game: &GameConfig, owner: &Pubkey, holdings: &[Holding; 6]) -> (b: [u64; 6])
    ensures
        forall|k: int| 0 <= k < 6 ==> #[trigger] b@[k] == holding_balance(*game, *owner, holdings@[k], k),
{
    let mut b: [u64; 6] = [0, 0, 0, 0, 0, 0];
    let mut k: usize = 0;
    while k < 6
        invariant
            0 <= k <= 6,
            b@.len() == 6,
            forall|j: int| 0 <= j < k ==> #[trigger] b@[j] == holding_balance(*game, *owner, holdings@[j], j),
            forall|j: int| k <= j < 6 ==> #[trigger] b@[j] == 0,
        decreases 6 - k,
    {
        let h = holdings[k];
        if h.mint.eq_key(&game.resource_mints[k]) && h.owner.eq_key(owner) {
            b[k] = h.amount;
        }
        k = k + 1;
    }
    b
}

/// The programs and the game configuration that a craft calls on: the resource manager,
/// which burns the recipe, and the item NFT program, which records the item.
#[derive(Debug)]
pub struct CraftCalls {
    pub resource_manager_program: Pubkey,
    pub item_nft_program: Pubkey,
    pub game_config: Account<GameConfig>,
}

impl CraftCalls {
    pub open spec fn outcome(&self, config: CraftingConfig) -> Result<(), AccountError> {
        after(configured_program_outcome(self.resource_manager_program, config.resource_manager_program),
        after(configured_program_outcome(self.item_nft_program, config.item_nft_program),
            seeds_outcome(game_config_seeds(), self.resource_manager_program@, self.game_config.data.bump,
                self.game_config.key@)))
    }

    /// The resource manager and item NFT programs must be the ones the crafting
    /// configuration names, and set; the game configuration must be the resource
    /// manager's, at the address of `["game_config"]` under it with its stored bump.
    pub fn validate(&self, config: &CraftingConfig) -> (r: Result<(), AccountError>)
        ensures
            r == self.outcome(*config),
    {
        check_configured_program(&self.resource_manager_program, &config.resource_manager_program)?;
        check_configured_program(&self.item_nft_program, &config.item_nft_program)?;
        check_seeds(&self.game_config.key, game_config_seed_list(), self.game_config.data.bump,
            &self.resource_manager_program)
    }
}

/// A player that the resource manager `rm` registered can craft: once the crafting
/// configuration sits at its address and names `rm`, the owner's signed craft passes the
/// account checks.
pub proof fn lemma_registered_player_crafts(reg: RegisterPlayer, rm: Seq<u8>, accounts: CraftItem, program_id: Seq<u8>)
    requires
        reg.outcome(rm) is Ok,
        config_outcome(accounts.crafting_config, program_id) is Ok,
        accounts.crafting_config.data.resource_manager_program@ == rm,
        accounts.player.key@ == reg.player.key@,
        accounts.player.data.owner@ == reg.owner.key@,
        accounts.player.data.bump == reg.outcome(rm)->Ok_0.player,
        accounts.owner == reg.owner,
    ensures
        accounts.outcome(program_id) is Ok,
{
    let b = reg.outcome(rm)->Ok_0.player;
    assert(is_canonical_pda(player_seeds(reg.owner.key@), rm, b, reg.player.key@));
}

} // verus!
