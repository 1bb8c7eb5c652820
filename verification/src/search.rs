//! Searching for resources: a cooldown between searches per player, and the resource kinds
//! that a search turns up.
use vstd::prelude::*;
use crate::pubkey::Pubkey;
use crate::accounts::{
    Account, AccountError, NewAccount, Signer, after, check_configured_program, check_has_one,
    check_init, check_program, configured_program_outcome,
    check_seeds, check_signer, has_one_outcome, init_outcome, program_outcome, seeds_outcome,
    signer_outcome,
};
use crate::program_ids::{system_program_id, system_program_key};
use crate::seeds::{seeds1, search_config_seed, search_config_tag};
pub use crate::resource_manager::Player;
use crate::resource_manager::{player_seeds, player_seed_list, searched_at, RegisterPlayer, RESOURCE_KINDS};
use crate::pda::is_canonical_pda;

verus! {

/// Seconds a player must wait between two searches.
pub const SEARCH_COOLDOWN: i64 = 60;

/// Resources that one search turns up.
pub const RESOURCES_PER_SEARCH: u8 = 3;

/// The multiplier that spreads a search's seed over the resource kinds.
pub const SEED_MULTIPLIER: u64 = 6364136223846793005;

/// The search program's configuration account.
#[derive(Debug, Clone, Copy)]
pub struct SearchConfig {
    pub resource_manager_program: Pubkey,
    pub game_config: Pubkey,
    pub bump: u8,
}

#[derive(Debug, Clone, Copy, PartialEq, Eq, Structural)]
pub enum SearchError {
    /// Less than `SEARCH_COOLDOWN` seconds passed since the player's last search.
    CooldownNotExpired,
}

pub open spec fn search_config_seeds() -> Seq<Seq<u8>> {
    seq![search_config_tag()]
}

/// Accounts of `initialize_search`.
#[derive(Debug)]
pub struct InitializeSearch {
    pub search_config: NewAccount,
    pub resource_manager_program: Pubkey,
    pub game_config: Pubkey,
    pub admin: Signer,
    pub system_program: Pubkey,
}

#[derive(Debug, Clone, Copy, PartialEq, Eq, Structural)]
pub struct InitializeSearchBumps {
    pub search_config: u8,
}

impl InitializeSearch {
    pub open spec fn outcome(&self, program_id: Seq<u8>) -> Result<InitializeSearchBumps, AccountError> {
        after(signer_outcome(self.admin),
        after(program_outcome(self.system_program, system_program_id()),
            match init_outcome(search_config_seeds(), program_id, self.search_config) {
                Ok(b) => Ok(InitializeSearchBumps { search_config: b }),
                Err(e) => Err(e),
            }))
    }

    /// The admin must sign and the System Program be named; the configuration account must
    /// be unused and sit at the canonical address of `["search_config"]`.
    pub fn validate(&self, program_id: &Pubkey) -> (r: Result<InitializeSearchBumps, AccountError>)
        ensures
            r == self.outcome(program_id@),
    {
        check_signer(&self.admin)?;
        check_program(&self.system_program, &system_program_key())?;
        let b = check_init(&self.search_config, &seeds1(search_config_seed()), program_id)?;
        Ok(InitializeSearchBumps { search_config: b })
    }
}

/// Accounts of `search_resources`.
#[derive(Debug)]
pub struct SearchResources {
    pub search_config: Account<SearchConfig>,
    pub player: Account<Player>,
    pub owner: Signer,
}

impl SearchResources {
    pub open spec fn outcome(&self, program_id: Seq<u8>) -> Result<(), AccountError> {
        if !self.owner.is_signer {
            Err(AccountError::AccountNotSigner)
        } else if seeds_outcome(search_config_seeds(), program_id, self.search_config.data.bump, self.search_config.key@) is Err {
            Err(AccountError::ConstraintSeeds)
        } else if seeds_outcome(player_seeds(self.owner.key@), self.search_config.data.resource_manager_program@,
            self.player.data.bump, self.player.key@) is Err {
            Err(AccountError::ConstraintSeeds)
        } else {
            has_one_outcome(self.player.data.owner, self.owner.key)
        }
    }

    /// The owner must sign; the configuration must sit at the address of
    /// `["search_config"]` with its stored bump; the player, registered by the resource
    /// manager, at that of `["player", owner]` under the resource manager program that the
    /// configuration names, with its stored bump; the player must belong to the signer.
    pub fn validate(&self, program_id: &Pubkey) -> (r: Result<(), AccountError>)
        ensures
            r == self.outcome(program_id@),
    {
        check_signer(&self.owner)?;
        check_seeds(&self.search_config.key, seeds1(search_config_seed()), self.search_config.data.bump, program_id)?;
        check_seeds(&self.player.key, player_seed_list(&self.owner.key), self.player.data.bump,
            &self.search_config.data.resource_manager_program)?;
        check_has_one(&self.player.data.owner, &self.owner.key)
    }
}

/// Initialize the search configuration with the addresses it was given.
pub fn initialize_search(accounts: &InitializeSearch, bumps: &InitializeSearchBumps) -> (config: SearchConfig)
    ensures
        config.resource_manager_program == accounts.resource_manager_program,
        config.game_config == accounts.game_config,
        config.bump == bumps.search_config,
{
    SearchConfig {
        resource_manager_program: accounts.resource_manager_program,
        game_config: accounts.game_config,
        bump: bumps.search_config,
    }
}

/// The sum of an address's bytes.
pub open spec fn key_byte_sum(bytes: Seq<u8>) -> int
    decreases bytes.len(),
{
    if bytes.len() == 0 {
        0
    } else {
        key_byte_sum(bytes.drop_last()) + bytes.last()
    }
}

/// The seed of a search: the slot, the time and the sum of the owner's address bytes,
/// combined by exclusive or.
pub open spec fn search_seed(slot: u64, now: i64, owner: Seq<u8>) -> u64 {
    slot ^ (now as u64) ^ (key_byte_sum(owner) as u64)
}

/// The resource kind that the `i`-th find of a search with `seed` turns up.
pub open spec fn found_resource(seed: u64, i: u8) -> u8 {
    (seed.wrapping_mul(SEED_MULTIPLIER).wrapping_add(i as u64) % 6) as u8
}

pub open spec fn found_resources(seed: u64) -> Seq<u8> {
    seq![found_resource(seed, 0), found_resource(seed, 1), found_resource(seed, 2)]
}

/// `player` may search at `now`: it never searched, or its last search was at least
/// `SEARCH_COOLDOWN` seconds before.
pub open spec fn cooled_down(player: Player, now: i64) -> bool {
    !player.has_searched || now - player.last_search_timestamp >= SEARCH_COOLDOWN
}

/// What a search at `now` in `slot` does to `player`: the player's new state and the
/// resource kinds found, or the cooldown error.
pub open spec fn search_outcome(player: Player, now: i64, slot: u64) -> Result<(Player, Seq<u8>), SearchError> {
    if cooled_down(player, now) {
        Ok((searched_at(player, now),
            found_resources(search_seed(slot, now, player.owner@))))
    } else {
        Err(SearchError::CooldownNotExpired)
    }
}

/// The time since the player's last search is computed only where it searched; it must
/// fit an `i64`.
pub open spec fn elapsed_fits(player: Player, now: i64) -> bool {
    !player.has_searched || (i64::MIN <= now - player.last_search_timestamp
        && now - player.last_search_timestamp <= i64::MAX)
}

fn owner_byte_sum(owner: &Pubkey) -> (r: u64)
    ensures
        r == key_byte_sum(owner@),
{
    let mut acc: u64 = 0;
    let mut i: usize = 0;
    while i < 32
        invariant
            0 <= i <= 32,
            acc == key_byte_sum(owner@.take(i as int)),
            acc <= 255 * i,
        decreases 32 - i,
    {
        assert(owner@.take(i + 1).drop_last() =~= owner@.take(i as int));
        let b = owner.bytes[i] as u64;
        acc = acc.wrapping_add(b);
        i = i + 1;
    }
    assert(owner@.take(32) =~= owner@);
    acc
}

/// Search for resources at time `now` (seconds) in `slot`: refused until
/// `SEARCH_COOLDOWN` seconds have passed since the player's last search; otherwise the
/// search time is recorded and the three resource kinds found are returned.
pub fn search_resources(accounts: &mut SearchResources, now: i64, slot: u64) -> (r: Result<Vec<u8>, SearchError>)
    requires
        elapsed_fits(old(accounts).player.data, now),
    ensures
        match search_outcome(old(accounts).player.data, now, slot) {
            Ok((p, found)) => r matches Ok(v) && v@ == found && final(accounts).player.data == p,
            Err(e) => r == Err::<Vec<u8>, SearchError>(e) && final(accounts).player.data == old(accounts).player.data,
        },
        final(accounts).player.key == old(accounts).player.key,
        final(accounts).search_config == old(accounts).search_config,
        final(accounts).owner == old(accounts).owner,
{
    if accounts.player.data.has_searched {
        let elapsed = now - accounts.player.data.last_search_timestamp;
        if elapsed < SEARCH_COOLDOWN {
            return Err(SearchError::CooldownNotExpired);
        }
    }
    accounts.player.data.last_search_timestamp = now;
    accounts.player.data.has_searched = true;
    let seed: u64 = slot ^ (now as u64) ^ owner_byte_sum(&accounts.player.data.owner);
    let mut found: Vec<u8> = Vec::new();
    let mut i: u8 = 0;
    while i < RESOURCES_PER_SEARCH
        invariant
            0 <= i <= 3,
            found@ == found_resources(seed).take(i as int),
        decreases 3 - i,
    {
        let resource_index = (seed.wrapping_mul(SEED_MULTIPLIER).wrapping_add(i as u64) % 6) as u8;
        found.push(resource_index);
        i = i + 1;
        assert(found@ =~= found_resources(seed).take(i as int));
    }
    assert(found_resources(seed).take(3) =~= found_resources(seed));
    Ok(found)
}

/// Every resource kind that a search turns up is one of the game's `RESOURCE_KINDS` kinds.
pub proof fn lemma_found_resources_are_kinds(seed: u64)
    ensures
        found_resources(seed).len() == RESOURCES_PER_SEARCH,
        forall|i: int| 0 <= i < found_resources(seed).len() ==> #[trigger] found_resources(seed)[i] < RESOURCE_KINDS,
{
}

/// A player who has never searched (as `register_player` leaves it) may search at once.
pub proof fn lemma_first_search_allowed(player: Player, now: i64, slot: u64)
    requires
        !player.has_searched,
    ensures
        search_outcome(player, now, slot) is Ok,
{
}

/// After a search at `now`, the next search at `later` is refused exactly while fewer than
/// `SEARCH_COOLDOWN` seconds have passed: no two searches of a player lie closer together.
pub proof fn lemma_cooldown(player: Player, now: i64, slot: u64, later: i64, later_slot: u64)
    requires
        search_outcome(player, now, slot) is Ok,
    ensures
        ({
            let p = search_outcome(player, now, slot)->Ok_0.0;
            &&& search_outcome(p, later, later_slot) is Ok <==> later - now >= SEARCH_COOLDOWN
            &&& search_outcome(p, later, later_slot) is Err ==> search_outcome(p, later, later_slot) == Err::<(Player, Seq<u8>), SearchError>(SearchError::CooldownNotExpired)
        }),
{
}


/// Only a player's owner, signing, can search with it.
pub proof fn lemma_owner_searches(accounts: SearchResources, program_id: Seq<u8>)
    requires
        accounts.outcome(program_id) is Ok,
    ensures
        accounts.owner.is_signer,
        accounts.player.data.owner@ == accounts.owner.key@,
{
}

/// What a search records of the player is what the resource manager's `record_search`
/// writes for the same time.
pub proof fn lemma_search_recorded(player: Player, now: i64, slot: u64)
    requires
        search_outcome(player, now, slot) is Ok,
    ensures
        search_outcome(player, now, slot)->Ok_0.0 == searched_at(player, now),
{
}

/// A player that the resource manager `rm` registered can search: once the search
/// configuration sits at its address and names `rm`, the owner's signed search passes the
/// account checks, and the player's first search succeeds and records its time, which the
/// resource manager's `record_search` then writes.
pub proof fn lemma_registered_player_searchable(reg: RegisterPlayer, rm: Seq<u8>, accounts: SearchResources,
    program_id: Seq<u8>, now: i64, slot: u64)
    requires
        reg.outcome(rm) is Ok,
        seeds_outcome(search_config_seeds(), program_id, accounts.search_config.data.bump,
            accounts.search_config.key@) is Ok,
        accounts.search_config.data.resource_manager_program@ == rm,
        accounts.player.key@ == reg.player.key@,
        accounts.player.data.owner@ == reg.owner.key@,
        accounts.player.data.bump == reg.outcome(rm)->Ok_0.player,
        !accounts.player.data.has_searched,
        accounts.owner == reg.owner,
    ensures
        accounts.outcome(program_id) is Ok,
        search_outcome(accounts.player.data, now, slot) is Ok,
        search_outcome(accounts.player.data, now, slot)->Ok_0.0 == searched_at(accounts.player.data, now),
{
    let b = reg.outcome(rm)->Ok_0.player;
    assert(is_canonical_pda(player_seeds(reg.owner.key@), rm, b, reg.player.key@));
}

/// The program a search calls on to record itself: the resource manager.
#[derive(Debug)]
pub struct SearchCalls {
    pub resource_manager_program: Pubkey,
}

impl SearchCalls {
    pub open spec fn outcome(&self, config: SearchConfig) -> Result<(), AccountError> {
        configured_program_outcome(self.resource_manager_program, config.resource_manager_program)
    }

    /// The resource manager must be the one the search configuration names, and set.
    pub fn validate(&self, config: &SearchConfig) -> (r: Result<(), AccountError>)
        ensures
            r == self.outcome(*config),
    {
        check_configured_program(&self.resource_manager_program, &config.resource_manager_program)
    }
}

/// The sum of all the bytes of `bytes`, added up from the first.
pub open spec fn byte_total(bytes: Seq<u8>) -> int {
    bytes.fold_left(0int, |acc: int, b: u8| acc + b)
}

proof fn lemma_key_byte_sum_is_total(bytes: Seq<u8>)
    ensures
        key_byte_sum(bytes) == byte_total(bytes),
    decreases bytes.len(),
{
    if bytes.len() > 0 {
        lemma_key_byte_sum_is_total(bytes.drop_last());
    }
}

/// A search is allowed exactly when the player never searched or its last search was at
/// least 60 seconds before; otherwise it is refused for the cooldown. An allowed search
/// finds three resource kinds, the `i`-th being
/// `((s * 6364136223846793005 mod 2^64) + i) mod 2^64 mod 6`, where `s` is the slot, the
/// time (as an unsigned 64-bit number) and the total of all 32 bytes of the owner's
/// address, combined by exclusive or; it records the time and that the player searched,
/// and changes nothing else of the player.
pub proof fn lemma_search_finds(player: Player, now: i64, slot: u64)
    ensures
        search_outcome(player, now, slot) is Ok
            <==> (!player.has_searched || now - player.last_search_timestamp >= 60),
        search_outcome(player, now, slot) is Err ==> search_outcome(player, now, slot)
            == Err::<(Player, Seq<u8>), SearchError>(SearchError::CooldownNotExpired),
        search_outcome(player, now, slot) is Ok ==> ({
            let s = slot ^ (now as u64) ^ (byte_total(player.owner@) as u64);
            let (p, found) = search_outcome(player, now, slot)->Ok_0;
            &&& found.len() == 3
            &&& forall|i: int| 0 <= i < 3 ==> #[trigger] found[i] as int
                == (((s as int * 6364136223846793005) % 0x1_0000_0000_0000_0000 + i) % 0x1_0000_0000_0000_0000) % 6
            &&& p.last_search_timestamp == now
            &&& p.has_searched
            &&& p.owner == player.owner
            &&& p.bump == player.bump
        }),
{
    lemma_key_byte_sum_is_total(player.owner@);
}

} // verus!
