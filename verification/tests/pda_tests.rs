use anchor_lang::prelude::Pubkey as Address;
use kozak_business::accounts::{Account, AccountError, NewAccount, Signer};
use kozak_business::program_ids::{system_program_key, token_program_key};
use kozak_business::pubkey::Pubkey;
use kozak_business::resource_manager::{
    GameConfig, InitializeGame, MintResource, RegisterPlayer, SetProgram,
};

fn key(b: u8) -> Pubkey {
    Pubkey { bytes: [b; 32] }
}

fn fresh(k: Pubkey) -> NewAccount {
    NewAccount { key: k, in_use: false }
}

fn program() -> Pubkey {
    key(7)
}

fn pda(seeds: &[&[u8]], program_id: &Pubkey) -> (Pubkey, u8) {
    let (a, b) = Address::find_program_address(seeds, &Address::new_from_array(program_id.bytes));
    (Pubkey { bytes: a.to_bytes() }, b)
}

fn config_at(address: Pubkey, admin: Pubkey, bump: u8) -> Account<GameConfig> {
    let z = key(0);
    Account {
        key: address,
        data: GameConfig {
            admin,
            resource_mints: [z; 6],
            magic_token_mint: z,
            search_program: z,
            crafting_program: z,
            item_prices: [0; 4],
            bump,
        },
    }
}

fn init_game(address: Pubkey, in_use: bool, signed: bool, system: Pubkey) -> InitializeGame {
    InitializeGame {
        game_config: NewAccount { key: address, in_use },
        admin: Signer { key: key(1), is_signer: signed },
        system_program: system,
    }
}

#[test]
fn init_finds_canonical_bump() {
    let (address, bump) = pda(&[b"game_config"], &program());
    let bumps = init_game(address, false, true, system_program_key()).validate(&program()).unwrap();
    assert_eq!(bumps.game_config, bump);
}

#[test]
fn init_refuses_wrong_address() {
    assert_eq!(
        init_game(key(9), false, true, system_program_key()).validate(&program()).unwrap_err(),
        AccountError::ConstraintSeeds
    );
}

#[test]
fn init_refuses_address_of_other_program() {
    let (address, _) = pda(&[b"game_config"], &key(8));
    assert_eq!(
        init_game(address, false, true, system_program_key()).validate(&program()).unwrap_err(),
        AccountError::ConstraintSeeds
    );
}

#[test]
fn init_refuses_account_in_use() {
    let (address, _) = pda(&[b"game_config"], &program());
    assert_eq!(
        init_game(address, true, true, system_program_key()).validate(&program()).unwrap_err(),
        AccountError::AccountAlreadyInUse
    );
}

#[test]
fn init_requires_signature_first() {
    assert_eq!(
        init_game(key(9), true, false, key(3)).validate(&program()).unwrap_err(),
        AccountError::AccountNotSigner
    );
}

#[test]
fn init_requires_system_program() {
    let (address, _) = pda(&[b"game_config"], &program());
    assert_eq!(
        init_game(address, false, true, key(3)).validate(&program()).unwrap_err(),
        AccountError::InvalidProgramId
    );
}

#[test]
fn player_address_depends_on_owner() {
    let owner = key(3);
    let (address, bump) = pda(&[b"player", &owner.bytes], &program());
    let good = RegisterPlayer {
        player: fresh(address),
        owner: Signer { key: owner, is_signer: true },
        system_program: system_program_key(),
    };
    assert_eq!(good.validate(&program()).unwrap().player, bump);
    let other = RegisterPlayer {
        player: fresh(address),
        owner: Signer { key: key(4), is_signer: true },
        system_program: system_program_key(),
    };
    assert_eq!(other.validate(&program()).unwrap_err(), AccountError::ConstraintSeeds);
}

fn minter(config: Account<GameConfig>, token_program: Pubkey) -> MintResource {
    MintResource {
        game_config: config,
        resource_mint: key(2),
        player_token_account: key(3),
        caller_program: key(4),
        token_program,
    }
}

#[test]
fn stored_bump_is_checked() {
    let (address, bump) = pda(&[b"game_config"], &program());
    assert!(minter(config_at(address, key(1), bump), token_program_key()).validate(&program()).is_ok());
    assert_eq!(
        minter(config_at(key(6), key(1), bump), token_program_key()).validate(&program()).unwrap_err(),
        AccountError::ConstraintSeeds
    );
    assert_eq!(
        minter(config_at(address, key(1), bump), key(5)).validate(&program()).unwrap_err(),
        AccountError::InvalidProgramId
    );
}

#[test]
fn admin_rule_in_order() {
    let (address, bump) = pda(&[b"game_config"], &program());
    let admin = key(1);
    let ok = SetProgram { game_config: config_at(address, admin, bump), admin: Signer { key: admin, is_signer: true } };
    assert!(ok.validate(&program()).is_ok());
    let not_admin = SetProgram { game_config: config_at(address, admin, bump), admin: Signer { key: key(2), is_signer: true } };
    assert_eq!(not_admin.validate(&program()).unwrap_err(), AccountError::ConstraintHasOne);
    let unsigned = SetProgram { game_config: config_at(address, admin, bump), admin: Signer { key: admin, is_signer: false } };
    assert_eq!(unsigned.validate(&program()).unwrap_err(), AccountError::AccountNotSigner);
    let misplaced = SetProgram { game_config: config_at(key(9), key(2), bump), admin: Signer { key: admin, is_signer: true } };
    assert_eq!(misplaced.validate(&program()).unwrap_err(), AccountError::ConstraintSeeds);
}
