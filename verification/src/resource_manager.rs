//! The game's configuration, its players, and the mint and burn of resource tokens.
use vstd::prelude::*;
use crate::pubkey::{Pubkey, zero_key};
use crate::accounts::{
    Account, AccountError, NewAccount, Signer, after, check_has_one, check_init, check_program,
    check_seeds, check_signer, has_one_outcome, init_outcome, invoked_by, is_invoked_by,
    program_outcome, seeds_outcome, signer_outcome,
};
use crate::program_ids::{system_program_id, system_program_key, token_program_id, token_program_key};
use crate::seeds::{seeds1, seeds2, game_config_seed, game_config_tag, player_seed, player_tag};
use crate::token::{MintTo, Burn};

verus! {

/// The number of resource kinds (wood, iron, gold, leather, ...) whose mints the game keeps.
pub const RESOURCE_KINDS: u8 = 6;

/// The game's configuration account.
#[derive(Debug)]
pub struct GameConfig {
    pub admin: Pubkey,
    pub resource_mints: [Pubkey; 6],
    pub magic_token_mint: Pubkey,
    pub search_program: Pubkey,
    pub crafting_program: Pubkey,
    pub item_prices: [u64; 4],
    pub bump: u8,
}

/// A registered player. `has_searched` tells whether `last_search_timestamp` holds the
/// time of a search at all.
#[derive(Debug, Clone, Copy)]
pub struct Player {
    pub owner: Pubkey,
    pub last_search_timestamp: i64,
    pub has_searched: bool,
    pub bump: u8,
}

#[derive(Debug, Clone, Copy, PartialEq, Eq, Structural)]
pub enum GameError {
    InvalidResourceIndex,
    UnauthorizedCaller,
}

pub open spec fn game_config_seeds() -> Seq<Seq<u8>> {
    seq![game_config_tag()]
}

pub open spec fn player_seeds(owner: Seq<u8>) -> Seq<Seq<u8>> {
    seq![player_tag(), owner]
}

pub(crate) fn game_config_seed_list() -> (r: Vec<Vec<u8>>)
    ensures
        r.deep_view() == game_config_seeds(),
{
    seeds1(game_config_seed())
}

pub(crate) fn player_seed_list(owner: &Pubkey) -> (r: Vec<Vec<u8>>)
    ensures
        r.deep_view() == player_seeds(owner@),
{
    seeds2(player_seed(), owner.to_seed())
}

/// Accounts of `initialize_game`: the configuration account to create and its payer.
#[derive(Debug)]
pub struct InitializeGame {
    pub game_config: NewAccount,
    pub admin: Signer,
    pub system_program: Pubkey,
}

#[derive(Debug, Clone, Copy, PartialEq, Eq, Structural)]
pub struct InitializeGameBumps {
    pub game_config: u8,
}

impl InitializeGame {
    pub open spec fn outcome(&self, program_id: Seq<u8>) -> Result<InitializeGameBumps, AccountError> {
        after(signer_outcome(self.admin),
        after(program_outcome(self.system_program, system_program_id()),
            match init_outcome(game_config_seeds(), program_id, self.game_config) {
                Ok(b) => Ok(InitializeGameBumps { game_config: b }),
                Err(e) => Err(e),
            }))
    }

    /// The admin must sign and the System Program be named; the configuration account
    /// must be unused and sit at the canonical address of `["game_config"]`, whose bump is
    /// returned.
    pub fn validate(&self, program_id: &Pubkey) -> (r: Result<InitializeGameBumps, AccountError>)
        ensures
            r == self.outcome(program_id@),
    {
        check_signer(&self.admin)?;
        check_program(&self.system_program, &system_program_key())?;
        let b = check_init(&self.game_config, &game_config_seed_list(), program_id)?;
        Ok(InitializeGameBumps { game_config: b })
    }
}

/// Accounts of the admin's setters: the configuration and its admin.
#[derive(Debug)]
pub struct SetProgram {
    pub game_config: Account<GameConfig>,
    pub admin: Signer,
}

/// The rule shared by the instructions that only the game's admin may send: the admin
/// signs, the configuration sits at the address of `["game_config"]` with its stored bump,
/// and the configuration names the signer as its admin.
pub open spec fn admin_outcome(config: Account<GameConfig>, admin: Signer, program_id: Seq<u8>) -> Result<(), AccountError> {
    if !admin.is_signer {
        Err(AccountError::AccountNotSigner)
    } else if seeds_outcome(game_config_seeds(), program_id, config.data.bump, config.key@) is Err {
        Err(AccountError::ConstraintSeeds)
    } else {
        has_one_outcome(config.data.admin, admin.key)
    }
}

fn check_admin(config: &Account<GameConfig>, admin: &Signer, program_id: &Pubkey) -> (r: Result<(), AccountError>)
    ensures
        r == admin_outcome(*config, *admin, program_id@),
{
    check_signer(admin)?;
    check_seeds(&config.key, game_config_seed_list(), config.data.bump, program_id)?;
    check_has_one(&config.data.admin, &admin.key)
}

impl SetProgram {
    pub open spec fn outcome(&self, program_id: Seq<u8>) -> Result<(), AccountError> {
        admin_outcome(self.game_config, self.admin, program_id)
    }

    pub fn validate(&self, program_id: &Pubkey) -> (r: Result<(), AccountError>)
        ensures
            r == self.outcome(program_id@),
    {
        check_admin(&self.game_config, &self.admin, program_id)
    }
}

/// Accounts of `register_resource_mint`.
#[derive(Debug)]
pub struct RegisterResourceMint {
    pub game_config: Account<GameConfig>,
    pub resource_mint: Pubkey,
    pub admin: Signer,
}

impl RegisterResourceMint {
    pub open spec fn outcome(&self, program_id: Seq<u8>) -> Result<(), AccountError> {
        admin_outcome(self.game_config, self.admin, program_id)
    }

    pub fn validate(&self, program_id: &Pubkey) -> (r: Result<(), AccountError>)
        ensures
            r == self.outcome(program_id@),
    {
        check_admin(&self.game_config, &self.admin, program_id)
    }
}

/// Accounts of `register_player`: the player account to create and its owner.
#[derive(Debug)]
pub struct RegisterPlayer {
    pub player: NewAccount,
    pub owner: Signer,
    pub system_program: Pubkey,
}

#[derive(Debug, Clone, Copy, PartialEq, Eq, Structural)]
pub struct RegisterPlayerBumps {
    pub player: u8,
}

impl RegisterPlayer {
    pub open spec fn outcome(&self, program_id: Seq<u8>) -> Result<RegisterPlayerBumps, AccountError> {
        after(signer_outcome(self.owner),
        after(program_outcome(self.system_program, system_program_id()),
            match init_outcome(player_seeds(self.owner.key@), program_id, self.player) {
                Ok(b) => Ok(RegisterPlayerBumps { player: b }),
                Err(e) => Err(e),
            }))
    }

    /// The owner must sign and the System Program be named; the player account must be
    /// unused and sit at the canonical address of `["player", owner]`.
    pub fn validate(&self, program_id: &Pubkey) -> (r: Result<RegisterPlayerBumps, AccountError>)
        ensures
            r == self.outcome(program_id@),
    {
        check_signer(&self.owner)?;
        check_program(&self.system_program, &system_program_key())?;
        let b = check_init(&self.player, &player_seed_list(&self.owner.key), program_id)?;
        Ok(RegisterPlayerBumps { player: b })
    }
}

/// Accounts of `mint_resource`.
#[derive(Debug)]
pub struct MintResource {
    pub game_config: Account<GameConfig>,
    pub resource_mint: Pubkey,
    pub player_token_account: Pubkey,
    pub caller_program: Pubkey,
    pub token_program: Pubkey,
}

impl MintResource {
    pub open spec fn outcome(&self, program_id: Seq<u8>) -> Result<(), AccountError> {
        after(program_outcome(self.token_program, token_program_id()),
            seeds_outcome(game_config_seeds(), program_id, self.game_config.data.bump, self.game_config.key@))
    }

    /// The SPL Token program must be named; the configuration must sit at the address of
    /// `["game_config"]` with its stored bump.
    pub fn validate(&self, program_id: &Pubkey) -> (r: Result<(), AccountError>)
        ensures
            r == self.outcome(program_id@),
    {
        check_program(&self.token_program, &token_program_key())?;
        check_seeds(&self.game_config.key, game_config_seed_list(), self.game_config.data.bump, program_id)
    }
}

/// Accounts of `burn_resource`.
#[derive(Debug)]
pub struct BurnResource {
    pub game_config: Account<GameConfig>,
    pub resource_mint: Pubkey,
    pub player_token_account: Pubkey,
    pub caller_program: Pubkey,
    pub owner: Signer,
    pub token_program: Pubkey,
}

impl BurnResource {
    pub open spec fn outcome(&self, program_id: Seq<u8>) -> Result<(), AccountError> {
        after(signer_outcome(self.owner),
        after(program_outcome(self.token_program, token_program_id()),
            seeds_outcome(game_config_seeds(), program_id, self.game_config.data.bump, self.game_config.key@)))
    }

    /// The owner must sign and the SPL Token program be named; the configuration must sit
    /// at the address of `["game_config"]` with its stored bump.
    pub fn validate(&self, program_id: &Pubkey) -> (r: Result<(), AccountError>)
        ensures
            r == self.outcome(program_id@),
    {
        check_signer(&self.owner)?;
        check_program(&self.token_program, &token_program_key())?;
        check_seeds(&self.game_config.key, game_config_seed_list(), self.game_config.data.bump, program_id)
    }
}

/// Initialize the game configuration: the signer becomes its admin; every other field of
/// the fresh account is zero.
pub fn initialize_game(accounts: &InitializeGame, bumps: &InitializeGameBumps) -> (config: GameConfig)
    ensures
        config.admin == accounts.admin.key,
        config.bump == bumps.game_config,
        forall|i: int| 0 <= i < 6 ==> #[trigger] config.resource_mints@[i]@ == zero_key(),
        config.magic_token_mint@ == zero_key(),
        config.search_program@ == zero_key(),
        config.crafting_program@ == zero_key(),
        config.item_prices@ == seq![0u64, 0, 0, 0],
{
    let z = Pubkey::default_key();
    let config = GameConfig {
        admin: accounts.admin.key,
        resource_mints: [z, z, z, z, z, z],
        magic_token_mint: z,
        search_program: z,
        crafting_program: z,
        item_prices: [0, 0, 0, 0],
        bump: bumps.game_config,
    };
    assert(config.item_prices@ =~= seq![0u64, 0, 0, 0]);
    config
}

/// Every field but `resource_mints` agrees.
pub open spec fn same_but_mints(a: GameConfig, b: GameConfig) -> bool {
    &&& a.admin == b.admin
    &&& a.magic_token_mint == b.magic_token_mint
    &&& a.search_program == b.search_program
    &&& a.crafting_program == b.crafting_program
    &&& a.item_prices == b.item_prices
    &&& a.bump == b.bump
}

/// The configuration with only the search program changed.
pub open spec fn with_search_program(c: GameConfig, p: Pubkey) -> GameConfig {
    GameConfig { search_program: p, ..c }
}

/// The configuration with only the crafting program changed.
pub open spec fn with_crafting_program(c: GameConfig, p: Pubkey) -> GameConfig {
    GameConfig { crafting_program: p, ..c }
}

/// Register the search program.
pub fn set_search_program(accounts: &mut SetProgram, search_program: Pubkey)
    ensures
        final(accounts).game_config.data == with_search_program(old(accounts).game_config.data, search_program),
        final(accounts).game_config.key == old(accounts).game_config.key,
        final(accounts).admin == old(accounts).admin,
{
    accounts.game_config.data.search_program = search_program;
}

/// Register the crafting program.
pub fn set_crafting_program(accounts: &mut SetProgram, crafting_program: Pubkey)
    ensures
        final(accounts).game_config.data == with_crafting_program(old(accounts).game_config.data, crafting_program),
        final(accounts).game_config.key == old(accounts).game_config.key,
        final(accounts).admin == old(accounts).admin,
{
    accounts.game_config.data.crafting_program = crafting_program;
}

/// Store the mint of resource kind `resource_index`.
pub fn register_resource_mint(accounts: &mut RegisterResourceMint, resource_index: u8) -> (r: Result<(), GameError>)
    ensures
        r is Ok <==> resource_index < RESOURCE_KINDS,
        r == Err::<(), GameError>(GameError::InvalidResourceIndex) <==> resource_index >= RESOURCE_KINDS,
        r is Ok ==> final(accounts).game_config.data.resource_mints@
            == old(accounts).game_config.data.resource_mints@.update(resource_index as int, old(accounts).resource_mint),
        r is Ok ==> same_but_mints(final(accounts).game_config.data, old(accounts).game_config.data),
        r is Err ==> *final(accounts) == *old(accounts),
        final(accounts).game_config.key == old(accounts).game_config.key,
        final(accounts).resource_mint == old(accounts).resource_mint,
        final(accounts).admin == old(accounts).admin,
{
    if resource_index >= RESOURCE_KINDS {
        return Err(GameError::InvalidResourceIndex);
    }
    let i = resource_index as usize;
    let mint = accounts.resource_mint;
    accounts.game_config.data.resource_mints[i] = mint;
    Ok(())
}

/// `player` after a search at `now`: the time is recorded, and it has searched.
pub open spec fn searched_at(player: Player, now: i64) -> Player {
    Player { last_search_timestamp: now, has_searched: true, ..player }
}

/// Accounts of `record_search`: the configuration, the player searched with, and the
/// program named as the caller.
#[derive(Debug)]
pub struct RecordSearch {
    pub game_config: Account<GameConfig>,
    pub player: Account<Player>,
    pub caller_program: Pubkey,
}

impl RecordSearch {
    pub open spec fn outcome(&self, program_id: Seq<u8>) -> Result<(), AccountError> {
        after(seeds_outcome(game_config_seeds(), program_id, self.game_config.data.bump, self.game_config.key@),
            seeds_outcome(player_seeds(self.player.data.owner@), program_id, self.player.data.bump, self.player.key@))
    }

    /// The configuration must sit at the address of `["game_config"]` and the player at
    /// that of `["player", player.owner]`, each with its stored bump.
    pub fn validate(&self, program_id: &Pubkey) -> (r: Result<(), AccountError>)
        ensures
            r == self.outcome(program_id@),
    {
        check_seeds(&self.game_config.key, game_config_seed_list(), self.game_config.data.bump, program_id)?;
        check_seeds(&self.player.key, player_seed_list(&self.player.data.owner), self.player.data.bump, program_id)
    }
}

/// A search may be recorded: the registered search program makes the call (`invoker`) and
/// is named as the caller.
pub open spec fn may_record_search(config: GameConfig, caller: Pubkey, invoker: Option<Pubkey>) -> bool {
    caller@ == config.search_program@ && invoked_by(invoker, config.search_program)
}

/// Record that the player searched at `now`; only the registered search program, calling
/// this one, may. This is how the search program, which decides the cooldown, updates a
/// player that the resource manager owns.
pub fn record_search(accounts: &mut RecordSearch, invoker: Option<Pubkey>, now: i64) -> (r: Result<(), GameError>)
    ensures
        r is Ok <==> may_record_search(old(accounts).game_config.data, old(accounts).caller_program, invoker),
        r is Err ==> r == Err::<(), GameError>(GameError::UnauthorizedCaller)
            && final(accounts).player.data == old(accounts).player.data,
        r is Ok ==> final(accounts).player.data == searched_at(old(accounts).player.data, now),
        final(accounts).player.key == old(accounts).player.key,
        final(accounts).game_config == old(accounts).game_config,
        final(accounts).caller_program == old(accounts).caller_program,
{
    let search = &accounts.game_config.data.search_program;
    if !(accounts.caller_program.eq_key(search) && is_invoked_by(&invoker, search)) {
        return Err(GameError::UnauthorizedCaller);
    }
    accounts.player.data.last_search_timestamp = now;
    accounts.player.data.has_searched = true;
    Ok(())
}

/// Register a player: the signer owns it, and it has never searched.
pub fn register_player(accounts: &RegisterPlayer, bumps: &RegisterPlayerBumps) -> (player: Player)
    ensures
        player.owner == accounts.owner.key,
        player.last_search_timestamp == 0,
        !player.has_searched,
        player.bump == bumps.player,
{
    Player { owner: accounts.owner.key, last_search_timestamp: 0, has_searched: false, bump: bumps.player }
}

/// A mint of resources may proceed: the instruction is called, by cross-program call,
/// from the registered search or crafting program, and names that program as its caller.
pub open spec fn may_mint_resource(config: GameConfig, caller: Pubkey, invoker: Option<Pubkey>) -> bool {
    ||| caller@ == config.search_program@ && invoked_by(invoker, config.search_program)
    ||| caller@ == config.crafting_program@ && invoked_by(invoker, config.crafting_program)
}

/// A burn of resources may proceed: the instruction is called, by cross-program call, from
/// the registered crafting program, and names that program as its caller.
pub open spec fn may_burn_resource(config: GameConfig, caller: Pubkey, invoker: Option<Pubkey>) -> bool {
    caller@ == config.crafting_program@ && invoked_by(invoker, config.crafting_program)
}

/// The seeds by which the configuration signs as mint authority: `["game_config", [bump]]`.
pub open spec fn game_config_signer_seeds(bump: u8) -> Seq<Seq<u8>> {
    seq![game_config_tag(), seq![bump]]
}

/// Decide a mint of `amount` resource tokens into the player's token account; only the
/// registered search and crafting programs, calling this one, may ask for one (`invoker`
/// is the program that made the cross-program call, `None` for a direct transaction). The
/// configuration is the mint authority.
pub fn mint_resource(accounts: &MintResource, invoker: Option<Pubkey>, amount: u64) -> (r: Result<MintTo, GameError>)
    ensures
        r is Ok <==> may_mint_resource(accounts.game_config.data, accounts.caller_program, invoker),
        r is Err ==> r == Err::<MintTo, GameError>(GameError::UnauthorizedCaller),
        r matches Ok(m) ==> {
            &&& m.mint == accounts.resource_mint
            &&& m.to == accounts.player_token_account
            &&& m.authority == accounts.game_config.key
            &&& m.amount == amount
            &&& m.signer_seeds.deep_view() == game_config_signer_seeds(accounts.game_config.data.bump)
        },
{
    let config = &accounts.game_config.data;
    let caller = &accounts.caller_program;
    let by_search = caller.eq_key(&config.search_program) && is_invoked_by(&invoker, &config.search_program);
    let by_crafting = caller.eq_key(&config.crafting_program) && is_invoked_by(&invoker, &config.crafting_program);
    if !(by_search || by_crafting) {
        return Err(GameError::UnauthorizedCaller);
    }
    let bump: Vec<u8> = vec![config.bump];
    assert(bump@ =~= seq![config.bump]);
    Ok(MintTo {
        mint: accounts.resource_mint,
        to: accounts.player_token_account,
        authority: accounts.game_config.key,
        amount,
        signer_seeds: seeds2(game_config_seed(), bump),
    })
}

/// Decide a burn of `amount` resource tokens from the player's token account, signed by
/// its owner; only the registered crafting program, calling this one, may ask for one.
pub fn burn_resource(accounts: &BurnResource, invoker: Option<Pubkey>, amount: u64) -> (r: Result<Burn, GameError>)
    ensures
        r is Ok <==> may_burn_resource(accounts.game_config.data, accounts.caller_program, invoker),
        r is Err ==> r == Err::<Burn, GameError>(GameError::UnauthorizedCaller),
        r matches Ok(b) ==> {
            &&& b.mint == accounts.resource_mint
            &&& b.from == accounts.player_token_account
            &&& b.authority == accounts.owner.key
            &&& b.amount == amount
        },
{
    let crafting = &accounts.game_config.data.crafting_program;
    if !(accounts.caller_program.eq_key(crafting) && is_invoked_by(&invoker, crafting)) {
        return Err(GameError::UnauthorizedCaller);
    }
    Ok(Burn {
        mint: accounts.resource_mint,
        from: accounts.player_token_account,
        authority: accounts.owner.key,
        amount,
    })
}


/// Accepted accounts make the configuration's signature as mint authority valid: the
/// signer seeds that `mint_resource` hands out derive exactly the configuration's address.
pub proof fn lemma_config_seeds_sign(accounts: MintResource, program_id: Seq<u8>)
    requires
        accounts.outcome(program_id) is Ok,
    ensures
        crate::pda::program_address(game_config_signer_seeds(accounts.game_config.data.bump), program_id)
            == Some(accounts.game_config.key@),
{
    assert(game_config_seeds().push(seq![accounts.game_config.data.bump])
        =~= game_config_signer_seeds(accounts.game_config.data.bump));
}

/// Only the admin recorded in the configuration, signing, may change it (the setters and
/// `register_resource_mint`); none of them changes the admin.
pub proof fn lemma_only_admin_configures(config: Account<GameConfig>, admin: Signer, program_id: Seq<u8>)
    requires
        admin_outcome(config, admin, program_id) is Ok,
    ensures
        admin.is_signer,
        config.data.admin@ == admin.key@,
{
}

/// Until a search or crafting program is registered, nothing can mint resources; until a
/// crafting program is registered, nothing can burn them; and a direct transaction, not a
/// cross-program call, never can.
pub proof fn lemma_unregistered_cannot_mint(config: GameConfig, caller: Pubkey, invoker: Option<Pubkey>)
    ensures
        config.search_program@ == zero_key() && config.crafting_program@ == zero_key()
            ==> !may_mint_resource(config, caller, invoker),
        config.crafting_program@ == zero_key() ==> !may_burn_resource(config, caller, invoker),
        invoker is None ==> !may_mint_resource(config, caller, invoker) && !may_burn_resource(config, caller, invoker),
{
}

} // verus!
