use kozak_business::accounts::{Account, NewAccount, Signer};
use kozak_business::pubkey::Pubkey;
use kozak_business::resource_manager::{
    burn_resource, initialize_game, mint_resource, register_player, register_resource_mint,
    set_crafting_program, set_search_program, BurnResource, GameConfig, GameError,
    InitializeGame, InitializeGameBumps, MintResource, RegisterPlayer, RegisterPlayerBumps,
    RegisterResourceMint, SetProgram,
};

fn key(b: u8) -> Pubkey {
    Pubkey { bytes: [b; 32] }
}

fn game() -> GameConfig {
    let a = InitializeGame { game_config: NewAccount { key: key(10), in_use: false }, admin: Signer { key: key(1), is_signer: true }, system_program: key(0) };
    initialize_game(&a, &InitializeGameBumps { game_config: 249 })
}

fn configured() -> GameConfig {
    let mut s = SetProgram { game_config: Account { key: key(10), data: game() }, admin: Signer { key: key(1), is_signer: true } };
    set_search_program(&mut s, key(40));
    set_crafting_program(&mut s, key(41));
    s.game_config.data
}

fn minter(caller: Pubkey) -> MintResource {
    MintResource {
        game_config: Account { key: key(10), data: configured() },
        resource_mint: key(50),
        player_token_account: key(51),
        caller_program: caller,
        token_program: key(52),
    }
}

fn burner(caller: Pubkey) -> BurnResource {
    BurnResource {
        game_config: Account { key: key(10), data: configured() },
        resource_mint: key(50),
        player_token_account: key(51),
        caller_program: caller,
        owner: Signer { key: key(60), is_signer: true },
        token_program: key(52),
    }
}

#[test]
fn initialize_game_zeroes_all_but_admin() {
    let c = game();
    assert_eq!(c.admin.bytes, [1; 32]);
    assert_eq!(c.bump, 249);
    assert!(c.resource_mints.iter().all(|m| m.bytes == [0; 32]));
    assert_eq!(c.magic_token_mint.bytes, [0; 32]);
    assert_eq!(c.search_program.bytes, [0; 32]);
    assert_eq!(c.crafting_program.bytes, [0; 32]);
    assert_eq!(c.item_prices, [0; 4]);
}

#[test]
fn setters_change_one_field() {
    let c = configured();
    assert_eq!(c.search_program.bytes, [40; 32]);
    assert_eq!(c.crafting_program.bytes, [41; 32]);
    assert_eq!(c.admin.bytes, [1; 32]);
}

#[test]
fn register_mint_in_range() {
    let mut a = RegisterResourceMint {
        game_config: Account { key: key(10), data: game() },
        resource_mint: key(77),
        admin: Signer { key: key(1), is_signer: true },
    };
    assert_eq!(register_resource_mint(&mut a, 5), Ok(()));
    assert_eq!(a.game_config.data.resource_mints[5].bytes, [77; 32]);
    assert!(a.game_config.data.resource_mints[..5].iter().all(|m| m.bytes == [0; 32]));
}

#[test]
fn register_mint_out_of_range() {
    let mut a = RegisterResourceMint {
        game_config: Account { key: key(10), data: game() },
        resource_mint: key(77),
        admin: Signer { key: key(1), is_signer: true },
    };
    assert_eq!(register_resource_mint(&mut a, 6), Err(GameError::InvalidResourceIndex));
    assert_eq!(register_resource_mint(&mut a, 255), Err(GameError::InvalidResourceIndex));
    assert!(a.game_config.data.resource_mints.iter().all(|m| m.bytes == [0; 32]));
}

#[test]
fn register_player_starts_without_search() {
    let a = RegisterPlayer { player: NewAccount { key: key(8), in_use: false }, owner: Signer { key: key(3), is_signer: true }, system_program: key(0) };
    let p = register_player(&a, &RegisterPlayerBumps { player: 248 });
    assert_eq!(p.owner.bytes, [3; 32]);
    assert_eq!(p.last_search_timestamp, 0);
    assert!(!p.has_searched);
    assert_eq!(p.bump, 248);
}

#[test]
fn search_and_crafting_may_mint() {
    for caller in [key(40), key(41)] {
        let m = mint_resource(&minter(caller), Some(caller), 12).unwrap();
        assert_eq!(m.mint.bytes, [50; 32]);
        assert_eq!(m.to.bytes, [51; 32]);
        assert_eq!(m.authority.bytes, [10; 32]);
        assert_eq!(m.amount, 12);
        assert_eq!(m.signer_seeds, vec![b"game_config".to_vec(), vec![249]]);
    }
}

#[test]
fn others_may_not_mint() {
    assert_eq!(mint_resource(&minter(key(42)), Some(key(42)), 12).unwrap_err(), GameError::UnauthorizedCaller);
}

#[test]
fn only_crafting_may_burn() {
    let b = burn_resource(&burner(key(41)), Some(key(41)), 3).unwrap();
    assert_eq!(b.mint.bytes, [50; 32]);
    assert_eq!(b.from.bytes, [51; 32]);
    assert_eq!(b.authority.bytes, [60; 32]);
    assert_eq!(b.amount, 3);
    assert_eq!(burn_resource(&burner(key(40)), Some(key(40)), 3).unwrap_err(), GameError::UnauthorizedCaller);
    assert_eq!(burn_resource(&burner(key(41)), None, 3).unwrap_err(), GameError::UnauthorizedCaller);
    assert_eq!(burn_resource(&burner(key(41)), Some(key(40)), 3).unwrap_err(), GameError::UnauthorizedCaller);
}

#[test]
fn direct_call_never_mints() {
    assert_eq!(mint_resource(&minter(key(40)), None, 12).unwrap_err(), GameError::UnauthorizedCaller);
    assert_eq!(mint_resource(&minter(key(40)), Some(key(41)), 12).unwrap_err(), GameError::UnauthorizedCaller);
}

#[test]
fn unregistered_programs_never_mint() {
    let mut a = minter(key(0));
    a.game_config.data = game();
    assert_eq!(mint_resource(&a, Some(key(0)), 1).unwrap_err(), GameError::UnauthorizedCaller);
    let b = BurnResource {
        game_config: Account { key: key(10), data: game() },
        resource_mint: key(50),
        player_token_account: key(51),
        caller_program: key(0),
        owner: Signer { key: key(60), is_signer: true },
        token_program: key(52),
    };
    assert_eq!(burn_resource(&b, Some(key(0)), 1).unwrap_err(), GameError::UnauthorizedCaller);
}
