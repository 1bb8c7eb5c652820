# kozak_business

The rules of the Kozak Business on-chain game (six Solana programs: resource manager,
search, crafting, item NFT, MagicToken and marketplace), written in Verus and proved
against their contracts.

- `src/` is the verified library. Each program is a module: its account data, the
  accounts of each instruction with a `validate` method (signers, addresses derived from
  seeds, `has_one` relations, in the order the runtime checks them), and one handler per
  instruction that returns the new account state or the token transfer that is due.
  `pda` reaches Solana's program-address derivation through `anchor_lang`; `accounts`
  holds the shared account rules; `seeds` the fixed seeds; `token` the transfers.
  Resource and MagicToken mints and burns, which only another program of the game may
  ask for, take the calling program as an input and are refused for a direct
  transaction or an unset program; the item NFT program checks the caller account it is
  given. Players live in the resource manager: search and crafting find them under its
  address, and a search's time is recorded through the resource manager's
  `record_search`. Crafting checks the owner's resources and orders the burns and the
  item mint; a sale orders the item's burn and the seller's payment. Before a craft or a
  sale calls another program, the library checks the program accounts against the
  configuration and, for a sale, that the account paid is the seller's.
  Proof functions named `lemma_*` state the laws of the game (a listing sells once, an
  item is listed once, the search cooldown, only admins configure, only owners search and
  craft, ...).
- `tests/` runs the library with the real Solana derivation linked.
- `app/` is the Solana side: it decodes and encodes accounts, creates them, reads the
  clock, the calling program and token balances, performs the token program calls and
  the calls between the game's programs, and maps errors to Anchor error codes.
