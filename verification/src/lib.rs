//! Verified core of the Kozak Business on-chain game: account rules, instruction
//! handlers and the decisions that precede each token transfer.

pub mod accounts;
pub mod crafting;
pub mod item_nft;
pub mod kozak_business;
pub mod magic_token;
pub mod marketplace;
pub mod pda;
pub mod program_ids;
pub mod pubkey;
pub mod resource_manager;
pub mod search;
pub mod seeds;
pub mod token;
