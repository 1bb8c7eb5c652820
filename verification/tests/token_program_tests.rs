use anchor_lang::prelude::Pubkey as Address;
use kozak_business::accounts::{Account, AccountError, NewAccount, Signer};
use kozak_business::program_ids::{rent_sysvar_key, system_program_key, token_program_key};
use kozak_business::item_nft::{
    burn_item_nft, initialize_item_config, mint_item_nft, set_crafting_program,
    set_marketplace_program, BurnItemNft, InitializeItemConfig, InitializeItemConfigBumps,
    ItemConfig, ItemNftError, MintItemNft, MintItemNftBumps, SetProgram,
};
use kozak_business::kozak_business::{initialize, Initialize};
use kozak_business::magic_token::{
    initialize_magic_token, mint_magic_token, set_marketplace_program as set_magic_marketplace,
    InitializeMagicToken, InitializeMagicTokenBumps, MagicConfig, MagicTokenError, MintMagicToken,
    MintMagicTokenBumps, SetMarketplace,
};
use kozak_business::pubkey::Pubkey;

fn key(b: u8) -> Pubkey {
    Pubkey { bytes: [b; 32] }
}

fn pda(seeds: &[&[u8]], program_id: &Pubkey) -> (Pubkey, u8) {
    let (a, b) = Address::find_program_address(seeds, &Address::new_from_array(program_id.bytes));
    (Pubkey { bytes: a.to_bytes() }, b)
}

fn item_config() -> ItemConfig {
    let a = InitializeItemConfig { item_config: NewAccount { key: key(13), in_use: false }, admin: Signer { key: key(1), is_signer: true }, system_program: key(0) };
    let c = initialize_item_config(&a, &InitializeItemConfigBumps { item_config: 246 });
    let mut s = SetProgram { item_config: Account { key: key(13), data: c }, admin: Signer { key: key(1), is_signer: true } };
    set_crafting_program(&mut s, key(41));
    set_marketplace_program(&mut s, key(42));
    s.item_config.data
}

fn nft_minter(caller: Pubkey) -> MintItemNft {
    MintItemNft {
        item_config: Account { key: key(13), data: item_config() },
        item_mint: key(14),
        item_metadata: NewAccount { key: key(15), in_use: false },
        recipient: Signer { key: key(3), is_signer: true },
        caller_program: caller,
        system_program: key(0),
    }
}

#[test]
fn workspace_initialize_succeeds() {
    assert_eq!(initialize(&Initialize {}), Ok(()));
}

#[test]
fn item_config_starts_empty() {
    let a = InitializeItemConfig { item_config: NewAccount { key: key(13), in_use: false }, admin: Signer { key: key(1), is_signer: true }, system_program: key(0) };
    let c = initialize_item_config(&a, &InitializeItemConfigBumps { item_config: 246 });
    assert_eq!(c.admin.bytes, [1; 32]);
    assert_eq!(c.marketplace_program.bytes, [0; 32]);
    assert_eq!(c.crafting_program.bytes, [0; 32]);
    assert_eq!(c.bump, 246);
}

#[test]
fn crafting_mints_items() {
    let m = mint_item_nft(&nft_minter(key(41)), &MintItemNftBumps { item_metadata: 245 }, 3).unwrap();
    assert_eq!(m.item_type, 3);
    assert_eq!(m.owner.bytes, [3; 32]);
    assert_eq!(m.mint.bytes, [14; 32]);
    assert_eq!(m.bump, 245);
}

#[test]
fn item_type_checked_before_caller() {
    let b = MintItemNftBumps { item_metadata: 245 };
    assert_eq!(mint_item_nft(&nft_minter(key(41)), &b, 4).unwrap_err(), ItemNftError::InvalidItemType);
    assert_eq!(mint_item_nft(&nft_minter(key(42)), &b, 4).unwrap_err(), ItemNftError::InvalidItemType);
    assert_eq!(mint_item_nft(&nft_minter(key(42)), &b, 0).unwrap_err(), ItemNftError::UnauthorizedCaller);
}

#[test]
fn marketplace_burns_one_item() {
    let mut a = BurnItemNft {
        item_config: Account { key: key(13), data: item_config() },
        item_mint: key(14),
        owner_token_account: key(16),
        caller_program: key(42),
        owner: Signer { key: key(3), is_signer: true },
        token_program: key(0),
    };
    let b = burn_item_nft(&a).unwrap();
    assert_eq!(b.mint.bytes, [14; 32]);
    assert_eq!(b.from.bytes, [16; 32]);
    assert_eq!(b.authority.bytes, [3; 32]);
    assert_eq!(b.amount, 1);
    a.caller_program = key(41);
    assert_eq!(burn_item_nft(&a).unwrap_err(), ItemNftError::UnauthorizedCaller);
}

#[test]
fn item_metadata_address_from_mint() {
    let program = key(70);
    let (config_addr, config_bump) = pda(&[b"item_config"], &program);
    let (meta_addr, meta_bump) = pda(&[b"item_metadata", &[14u8; 32]], &program);
    let mut c = item_config();
    c.bump = config_bump;
    let mut a = nft_minter(key(41));
    a.item_config = Account { key: config_addr, data: c };
    a.item_metadata = NewAccount { key: meta_addr, in_use: false };
    a.system_program = system_program_key();
    assert_eq!(a.validate(&program).unwrap().item_metadata, meta_bump);
    a.item_metadata.in_use = true;
    assert_eq!(a.validate(&program).unwrap_err(), AccountError::AccountAlreadyInUse);
    a.item_metadata.in_use = false;
    a.item_mint = key(15);
    assert_eq!(a.validate(&program).unwrap_err(), AccountError::ConstraintSeeds);
}

fn magic_config() -> MagicConfig {
    let a = InitializeMagicToken {
        magic_config: NewAccount { key: key(21), in_use: false },
        magic_mint: NewAccount { key: key(22), in_use: false },
        magic_authority: key(23),
        admin: Signer { key: key(1), is_signer: true },
        token_program: key(0),
        system_program: key(0),
        rent: key(0),
    };
    let init = initialize_magic_token(&a, &InitializeMagicTokenBumps { magic_config: 240, magic_mint: 241, magic_authority: 242 });
    assert_eq!(init.mint.mint.bytes, [22; 32]);
    assert_eq!(init.mint.decimals, 6);
    assert_eq!(init.mint.mint_authority.bytes, [23; 32]);
    let c = init.config;
    let mut s = SetMarketplace { magic_config: Account { key: key(21), data: c }, admin: Signer { key: key(1), is_signer: true } };
    set_magic_marketplace(&mut s, key(42));
    s.magic_config.data
}

#[test]
fn magic_config_records_mint() {
    let c = magic_config();
    assert_eq!(c.admin.bytes, [1; 32]);
    assert_eq!(c.mint.bytes, [22; 32]);
    assert_eq!(c.marketplace_program.bytes, [42; 32]);
    assert_eq!(c.bump, 240);
    assert_eq!(c.mint_bump, 241);
}

#[test]
fn only_marketplace_mints_magic() {
    let mut a = MintMagicToken {
        magic_config: Account { key: key(21), data: magic_config() },
        magic_mint: key(22),
        magic_authority: key(23),
        recipient_token_account: key(24),
        caller_program: key(42),
        token_program: key(0),
    };
    let m = mint_magic_token(&a, &MintMagicTokenBumps { magic_authority: 239 }, Some(key(42)), 1000).unwrap();
    assert_eq!(m.mint.bytes, [22; 32]);
    assert_eq!(m.to.bytes, [24; 32]);
    assert_eq!(m.authority.bytes, [23; 32]);
    assert_eq!(m.amount, 1000);
    assert_eq!(m.signer_seeds, vec![b"magic_authority".to_vec(), vec![239]]);
    a.caller_program = key(41);
    assert_eq!(
        mint_magic_token(&a, &MintMagicTokenBumps { magic_authority: 239 }, Some(key(41)), 1000).unwrap_err(),
        MagicTokenError::UnauthorizedCaller
    );
    a.caller_program = key(42);
    assert_eq!(
        mint_magic_token(&a, &MintMagicTokenBumps { magic_authority: 239 }, None, 1000).unwrap_err(),
        MagicTokenError::UnauthorizedCaller
    );
}

#[test]
fn magic_accounts_at_their_addresses() {
    let program = key(71);
    let (cfg, cfg_bump) = pda(&[b"magic_config"], &program);
    let (mint, mint_bump) = pda(&[b"magic_mint"], &program);
    let (auth, auth_bump) = pda(&[b"magic_authority"], &program);
    let mut init = InitializeMagicToken {
        magic_config: NewAccount { key: cfg, in_use: false },
        magic_mint: NewAccount { key: mint, in_use: false },
        magic_authority: auth,
        admin: Signer { key: key(1), is_signer: true },
        token_program: token_program_key(),
        system_program: system_program_key(),
        rent: rent_sysvar_key(),
    };
    let bumps = init.validate(&program).unwrap();
    assert_eq!((bumps.magic_config, bumps.magic_mint, bumps.magic_authority), (cfg_bump, mint_bump, auth_bump));
    let c = initialize_magic_token(&init, &bumps).config;
    let mut m = MintMagicToken {
        magic_config: Account { key: cfg, data: c },
        magic_mint: mint,
        magic_authority: auth,
        recipient_token_account: key(24),
        caller_program: key(42),
        token_program: token_program_key(),
    };
    assert_eq!(m.validate(&program).unwrap().magic_authority, auth_bump);
    m.magic_mint = auth;
    assert_eq!(m.validate(&program).unwrap_err(), AccountError::ConstraintSeeds);
    m.token_program = key(0);
    assert_eq!(m.validate(&program).unwrap_err(), AccountError::InvalidProgramId);
    init.magic_config.in_use = true;
    assert_eq!(init.validate(&program).unwrap_err(), AccountError::AccountAlreadyInUse);
    init.magic_config.in_use = false;
    init.rent = key(0);
    assert_eq!(init.validate(&program).unwrap_err(), AccountError::AccountSysvarMismatch);
}
