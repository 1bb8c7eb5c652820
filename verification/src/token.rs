//! The token transfers that an instruction asks the token program to perform, and the
//! calls it asks of the game's other programs, once the library has decided they are due.
use vstd::prelude::*;
use crate::pubkey::Pubkey;

verus! {

/// Mint `amount` tokens of `mint` into the token account `to`; `authority` is the mint
/// authority, which signs as the program-derived address of `signer_seeds`.
#[derive(Debug)]
pub struct MintTo {
    pub mint: Pubkey,
    pub to: Pubkey,
    pub authority: Pubkey,
    pub amount: u64,
    pub signer_seeds: Vec<Vec<u8>>,
}

/// Burn `amount` tokens of `mint` from the token account `from`, on the signature of
/// `authority`.
#[derive(Debug)]
pub struct Burn {
    pub mint: Pubkey,
    pub from: Pubkey,
    pub authority: Pubkey,
    pub amount: u64,
}

/// Create `mint` as a token mint with `decimals` decimals, minted by `mint_authority` and
/// with no freeze authority.
#[derive(Debug, Clone, Copy)]
pub struct InitializeMint {
    pub mint: Pubkey,
    pub decimals: u8,
    pub mint_authority: Pubkey,
}

/// Ask the resource manager to burn `amount` of resource kind `resource` from the owner.
#[derive(Debug, Clone, Copy)]
pub struct ResourceBurnOrder {
    pub resource: u8,
    pub amount: u64,
}

/// Ask the item NFT program to mint an item of `item_type` to `recipient`.
#[derive(Debug, Clone, Copy)]
pub struct ItemMintOrder {
    pub item_type: u8,
    pub recipient: Pubkey,
}

/// Ask the item NFT program to burn `amount` of the item whose mint is `item_mint`.
#[derive(Debug, Clone, Copy)]
pub struct ItemBurnOrder {
    pub item_mint: Pubkey,
    pub amount: u64,
}

/// Ask the MagicToken program to mint `amount` MagicToken to `recipient`.
#[derive(Debug, Clone, Copy)]
pub struct MagicMintOrder {
    pub recipient: Pubkey,
    pub amount: u64,
}

} // verus!
