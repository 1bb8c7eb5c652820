use kozak_business::accounts::{Account, NewAccount, Signer};
use kozak_business::crafting::{
    craft_item, initialize_crafting, item_name, item_symbol, recipe_of, set_item_nft_program,
    set_resource_manager, CraftItem, CraftingConfig, CraftingError, InitializeCrafting,
    InitializeCraftingBumps, Player, SetProgram,
};
use kozak_business::pubkey::Pubkey;

fn key(b: u8) -> Pubkey {
    Pubkey { bytes: [b; 32] }
}

fn config() -> CraftingConfig {
    let a = InitializeCrafting { crafting_config: NewAccount { key: key(11), in_use: false }, admin: Signer { key: key(1), is_signer: true }, system_program: key(0) };
    initialize_crafting(&a, &InitializeCraftingBumps { crafting_config: 247 })
}

fn crafter() -> CraftItem {
    CraftItem {
        crafting_config: Account { key: key(11), data: config() },
        player: Account { key: key(12), data: Player { owner: key(3), last_search_timestamp: 0, has_searched: false, bump: 255 } },
        owner: Signer { key: key(3), is_signer: true },
    }
}

#[test]
fn recipes_match_the_table() {
    assert_eq!(recipe_of(0), vec![(1, 3), (0, 1), (3, 1)]);
    assert_eq!(recipe_of(1), vec![(0, 2), (2, 1), (5, 1)]);
    assert_eq!(recipe_of(2), vec![(3, 4), (1, 2), (2, 1)]);
    assert_eq!(recipe_of(3), vec![(1, 4), (2, 2), (5, 2)]);
}

#[test]
fn recipes_use_known_kinds_once() {
    for t in 0..4u8 {
        let r = recipe_of(t);
        assert!(r.iter().all(|(k, n)| *k < 6 && *n > 0));
        assert!(r[0].0 != r[1].0 && r[0].0 != r[2].0 && r[1].0 != r[2].0);
    }
}

#[test]
fn names_and_symbols() {
    assert_eq!(item_name(0), "Kozak Saber");
    assert_eq!(item_name(1), "Elder Staff");
    assert_eq!(item_name(2), "Kharakter Armor");
    assert_eq!(item_name(3), "Battle Bracelet");
    assert_eq!(item_symbol(0), "KSAB");
    assert_eq!(item_symbol(1), "ESTF");
    assert_eq!(item_symbol(2), "KARM");
    assert_eq!(item_symbol(3), "BRAC");
}

#[test]
fn craft_valid_item() {
    // resource kinds: 0 wood, 1 iron, 2 gold, 3 leather, 4 -, 5 diamond
    let c = craft_item(&crafter(), 2, &[0, 2, 1, 4, 0, 0]).unwrap();
    assert_eq!(c.item_type, 2);
    assert_eq!(c.name, "Kharakter Armor");
    let burns: Vec<(u8, u64)> = c.burns.iter().map(|b| (b.resource, b.amount)).collect();
    assert_eq!(burns, vec![(3, 4), (1, 2), (2, 1)]);
    assert_eq!(c.mint.item_type, 2);
    assert_eq!(c.mint.recipient.bytes, [3; 32]);
}

#[test]
fn craft_needs_every_ingredient() {
    assert_eq!(craft_item(&crafter(), 2, &[0, 2, 1, 3, 0, 0]).unwrap_err(), CraftingError::InsufficientResources);
    assert_eq!(craft_item(&crafter(), 0, &[0, 3, 0, 1, 0, 0]).unwrap_err(), CraftingError::InsufficientResources);
    assert_eq!(craft_item(&crafter(), 3, &[0, 4, 2, 0, 0, 1]).unwrap_err(), CraftingError::InsufficientResources);
    assert!(craft_item(&crafter(), 1, &[2, 0, 1, 0, 0, 1]).is_ok());
    assert!(craft_item(&crafter(), 3, &[9, 9, 9, 9, 9, 9]).is_ok());
}

#[test]
fn craft_invalid_item() {
    let plenty = [100; 6];
    assert_eq!(craft_item(&crafter(), 4, &plenty).unwrap_err(), CraftingError::InvalidItemType);
    assert_eq!(craft_item(&crafter(), 200, &[0; 6]).unwrap_err(), CraftingError::InvalidItemType);
}

#[test]
fn crafting_initialize_and_setters() {
    let c = config();
    assert_eq!(c.admin.bytes, [1; 32]);
    assert_eq!(c.resource_manager_program.bytes, [0; 32]);
    assert_eq!(c.item_nft_program.bytes, [0; 32]);
    assert_eq!(c.game_config.bytes, [0; 32]);
    assert_eq!(c.bump, 247);
    let mut s = SetProgram { crafting_config: Account { key: key(11), data: c }, admin: Signer { key: key(1), is_signer: true } };
    set_resource_manager(&mut s, key(5));
    set_item_nft_program(&mut s, key(6));
    assert_eq!(s.crafting_config.data.resource_manager_program.bytes, [5; 32]);
    assert_eq!(s.crafting_config.data.item_nft_program.bytes, [6; 32]);
    assert_eq!(s.crafting_config.data.admin.bytes, [1; 32]);
}
