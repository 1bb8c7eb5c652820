use anchor_lang::prelude::Pubkey as Address;
use kozak_business::accounts::{Account, AccountError, NewAccount, Signer};
use kozak_business::crafting::{craft_balances, CraftCalls, CraftingConfig, Holding};
use kozak_business::marketplace::{
    buy_item, BuyItem, Listing, MarketplaceConfig, SaleCalls,
};
use kozak_business::program_ids::system_program_key;
use kozak_business::pubkey::Pubkey;
use kozak_business::resource_manager::{
    record_search, GameConfig, GameError, Player, RecordSearch, RegisterPlayer,
};
use kozak_business::search::{search_resources, SearchCalls, SearchConfig, SearchResources};

fn key(b: u8) -> Pubkey {
    Pubkey { bytes: [b; 32] }
}

fn pda(seeds: &[&[u8]], program_id: &Pubkey) -> (Pubkey, u8) {
    let (a, b) = Address::find_program_address(seeds, &Address::new_from_array(program_id.bytes));
    (Pubkey { bytes: a.to_bytes() }, b)
}

fn game(search: Pubkey, bump: u8) -> GameConfig {
    let z = key(0);
    GameConfig {
        admin: key(1),
        resource_mints: [key(50), key(51), key(52), key(53), key(54), key(55)],
        magic_token_mint: z,
        search_program: search,
        crafting_program: key(41),
        item_prices: [0; 4],
        bump,
    }
}

#[test]
fn registered_player_can_search() {
    let rm = key(60);
    let search = key(61);
    let owner = key(5);
    let (player, player_bump) = pda(&[b"player", &owner.bytes], &rm);
    let reg = RegisterPlayer {
        player: NewAccount { key: player, in_use: false },
        owner: Signer { key: owner, is_signer: true },
        system_program: system_program_key(),
    };
    assert_eq!(reg.validate(&rm).unwrap().player, player_bump);
    let (cfg, cfg_bump) = pda(&[b"search_config"], &search);
    let mut accounts = SearchResources {
        search_config: Account { key: cfg, data: SearchConfig { resource_manager_program: rm, game_config: key(3), bump: cfg_bump } },
        player: Account { key: player, data: Player { owner, last_search_timestamp: 0, has_searched: false, bump: player_bump } },
        owner: Signer { key: owner, is_signer: true },
    };
    assert!(accounts.validate(&search).is_ok());
    let (own_player, own_bump) = pda(&[b"player", &owner.bytes], &search);
    accounts.player.key = own_player;
    accounts.player.data.bump = own_bump;
    assert_eq!(accounts.validate(&search).unwrap_err(), AccountError::ConstraintSeeds);
    accounts.player.key = player;
    accounts.player.data.bump = player_bump;
    assert!(search_resources(&mut accounts, 100, 7).is_ok());
    assert_eq!(accounts.player.data.last_search_timestamp, 100);
    assert!(accounts.player.data.has_searched);
}

fn recorder(rm: &Pubkey, search: Pubkey, caller: Pubkey) -> RecordSearch {
    let (cfg, cfg_bump) = pda(&[b"game_config"], rm);
    let owner = key(5);
    let (player, player_bump) = pda(&[b"player", &owner.bytes], rm);
    RecordSearch {
        game_config: Account { key: cfg, data: game(search, cfg_bump) },
        player: Account { key: player, data: Player { owner, last_search_timestamp: 0, has_searched: false, bump: player_bump } },
        caller_program: caller,
    }
}

#[test]
fn search_program_records_search() {
    let rm = key(62);
    let mut a = recorder(&rm, key(40), key(40));
    assert!(a.validate(&rm).is_ok());
    assert_eq!(record_search(&mut a, Some(key(40)), 1234), Ok(()));
    assert_eq!(a.player.data.last_search_timestamp, 1234);
    assert!(a.player.data.has_searched);
}

#[test]
fn others_cannot_record_search() {
    let rm = key(63);
    let mut direct = recorder(&rm, key(40), key(40));
    assert_eq!(record_search(&mut direct, None, 1), Err(GameError::UnauthorizedCaller));
    assert!(!direct.player.data.has_searched);
    let mut other = recorder(&rm, key(40), key(41));
    assert_eq!(record_search(&mut other, Some(key(41)), 1), Err(GameError::UnauthorizedCaller));
    let mut unset = recorder(&rm, key(0), key(0));
    assert_eq!(record_search(&mut unset, Some(key(0)), 1), Err(GameError::UnauthorizedCaller));
    let mut moved = recorder(&rm, key(40), key(40));
    moved.player.key = key(9);
    assert_eq!(moved.validate(&rm).unwrap_err(), AccountError::ConstraintSeeds);
}

#[test]
fn balances_count_only_registered_mints_of_owner() {
    let g = game(key(40), 255);
    let owner = key(5);
    let mut holdings = [Holding { mint: key(0), owner, amount: 7 }; 6];
    for (k, h) in holdings.iter_mut().enumerate() {
        h.mint = g.resource_mints[k];
        h.amount = 10 + k as u64;
    }
    holdings[2].mint = key(99);
    holdings[4].owner = key(6);
    assert_eq!(craft_balances(&g, &owner, &holdings), [10, 11, 0, 13, 0, 15]);
}

#[test]
fn craft_calls_go_to_configured_programs() {
    let rm = key(64);
    let (cfg, cfg_bump) = pda(&[b"game_config"], &rm);
    let config = CraftingConfig {
        admin: key(1),
        resource_manager_program: rm,
        item_nft_program: key(65),
        game_config: key(0),
        bump: 255,
    };
    let mut calls = CraftCalls {
        resource_manager_program: rm,
        item_nft_program: key(65),
        game_config: Account { key: cfg, data: game(key(40), cfg_bump) },
    };
    assert!(calls.validate(&config).is_ok());
    calls.item_nft_program = key(66);
    assert_eq!(calls.validate(&config).unwrap_err(), AccountError::InvalidProgramId);
    calls.item_nft_program = key(65);
    calls.game_config.key = key(9);
    assert_eq!(calls.validate(&config).unwrap_err(), AccountError::ConstraintSeeds);
    let unset = CraftingConfig { resource_manager_program: key(0), ..config };
    calls.resource_manager_program = key(0);
    assert_eq!(calls.validate(&unset).unwrap_err(), AccountError::InvalidProgramId);
}

#[test]
fn sale_pays_the_seller_through_configured_programs() {
    let config = MarketplaceConfig { admin: key(1), magic_token_program: key(70), item_nft_program: key(71), bump: 255 };
    let mut a = BuyItem {
        marketplace_config: Account { key: key(20), data: config },
        listing: Account {
            key: key(30),
            data: Listing { seller: key(3), item_mint: key(31), price: 9, is_active: true, bump: 254 },
        },
        item_mint: key(31),
        buyer: Signer { key: key(4), is_signer: true },
        token_program: key(0),
        system_program: key(0),
    };
    let sale = buy_item(&mut a).unwrap();
    let good = SaleCalls { item_nft_program: key(71), magic_token_program: key(70), payment_account_owner: key(3) };
    assert!(good.validate(&config, &sale).is_ok());
    let to_buyer = SaleCalls { payment_account_owner: key(4), ..good };
    assert_eq!(to_buyer.validate(&config, &sale).unwrap_err(), AccountError::ConstraintTokenOwner);
    let fake_items = SaleCalls { item_nft_program: key(72), ..good };
    assert_eq!(fake_items.validate(&config, &sale).unwrap_err(), AccountError::InvalidProgramId);
    let unset = MarketplaceConfig { magic_token_program: key(0), ..config };
    let zero_magic = SaleCalls { magic_token_program: key(0), ..good };
    assert_eq!(zero_magic.validate(&unset, &sale).unwrap_err(), AccountError::InvalidProgramId);
}

#[test]
fn search_calls_the_configured_resource_manager() {
    let config = SearchConfig { resource_manager_program: key(60), game_config: key(3), bump: 255 };
    assert!(SearchCalls { resource_manager_program: key(60) }.validate(&config).is_ok());
    assert_eq!(
        SearchCalls { resource_manager_program: key(61) }.validate(&config).unwrap_err(),
        AccountError::InvalidProgramId
    );
}
