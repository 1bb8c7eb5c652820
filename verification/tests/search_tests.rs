use kozak_business::accounts::{Account, NewAccount, Signer};
use kozak_business::program_ids::system_program_key;
use kozak_business::pubkey::Pubkey;
use kozak_business::search::{
    initialize_search, search_resources, InitializeSearch, InitializeSearchBumps, Player,
    SearchConfig, SearchError, SearchResources, SEARCH_COOLDOWN,
};

fn key(b: u8) -> Pubkey {
    Pubkey { bytes: [b; 32] }
}

fn accounts(owner: Pubkey, last: Option<i64>) -> SearchResources {
    SearchResources {
        search_config: Account {
            key: key(9),
            data: SearchConfig { resource_manager_program: key(2), game_config: key(3), bump: 254 },
        },
        player: Account {
            key: key(8),
            data: Player {
                owner,
                last_search_timestamp: last.unwrap_or(0),
                has_searched: last.is_some(),
                bump: 255,
            },
        },
        owner: Signer { key: owner, is_signer: true },
    }
}

#[test]
fn first_search_finds_three_resources() {
    let mut a = accounts(key(1), None);
    let found = search_resources(&mut a, 1000, 100).unwrap();
    // seed = 100 ^ 1000 ^ (32 * 1) = 940
    assert_eq!(found, vec![0, 1, 2]);
    assert_eq!(a.player.data.last_search_timestamp, 1000);
    assert!(a.player.data.has_searched);
}

#[test]
fn search_seed_uses_owner_bytes() {
    let mut a = accounts(key(200), None);
    // seed = 5 ^ 61 ^ (32 * 200) = 6456
    assert_eq!(search_resources(&mut a, 61, 5).unwrap(), vec![2, 3, 4]);
}

#[test]
fn search_seed_with_negative_time() {
    let mut a = accounts(key(0), None);
    // seed = 0 ^ (-5 as u64) ^ 0
    assert_eq!(search_resources(&mut a, -5, 0).unwrap(), vec![5, 0, 1]);
}

#[test]
fn search_seed_with_distinct_bytes() {
    let mut bytes = [0u8; 32];
    for (i, b) in bytes.iter_mut().enumerate() {
        *b = i as u8;
    }
    let owner = Pubkey { bytes };
    let mut a = accounts(owner, None);
    assert_eq!(search_resources(&mut a, 1700000000, 12345).unwrap(), vec![1, 2, 3]);
}

#[test]
fn cooldown_blocks_early_search() {
    let mut a = accounts(key(1), Some(1000));
    assert_eq!(search_resources(&mut a, 1059, 7), Err(SearchError::CooldownNotExpired));
    assert_eq!(a.player.data.last_search_timestamp, 1000);
}

#[test]
fn cooldown_ends_after_sixty_seconds() {
    let mut a = accounts(key(1), Some(1000));
    assert!(search_resources(&mut a, 1000 + SEARCH_COOLDOWN, 7).is_ok());
    assert_eq!(a.player.data.last_search_timestamp, 1060);
    assert_eq!(search_resources(&mut a, 1100, 8), Err(SearchError::CooldownNotExpired));
    assert!(search_resources(&mut a, 1120, 8).is_ok());
}

#[test]
fn found_kinds_are_below_six() {
    for now in 1..200i64 {
        let mut a = accounts(key(now as u8), None);
        let found = search_resources(&mut a, now, now as u64 * 31).unwrap();
        assert_eq!(found.len(), 3);
        assert!(found.iter().all(|k| *k < 6));
    }
}

#[test]
fn search_at_time_zero_still_cools_down() {
    let mut a = accounts(key(1), None);
    assert!(search_resources(&mut a, 0, 1).is_ok());
    assert_eq!(search_resources(&mut a, 30, 1), Err(SearchError::CooldownNotExpired));
    assert!(search_resources(&mut a, 60, 1).is_ok());
}

#[test]
fn initialize_search_records_addresses() {
    let a = InitializeSearch {
        search_config: NewAccount { key: key(1), in_use: false },
        resource_manager_program: key(2),
        game_config: key(3),
        admin: Signer { key: key(4), is_signer: true },
        system_program: system_program_key(),
    };
    let c = initialize_search(&a, &InitializeSearchBumps { search_config: 250 });
    assert_eq!(c.resource_manager_program.bytes, [2; 32]);
    assert_eq!(c.game_config.bytes, [3; 32]);
    assert_eq!(c.bump, 250);
}
