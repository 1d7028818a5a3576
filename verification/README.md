# oxi_tokens

The rules of a token-mining game server, verified with Verus.

- `src/text.rs`: decimal writing of numbers, first `_`-segment of a name.
- `src/invite.rs`: referral codes (SHA-256 from `sha2`, hex from `hex`).
- `src/game.rs`: accounts, their upgrades (each name once) and the level tables.
- `src/reply.rs`: response bodies and replies (status and JSON body).
- `src/snapshot.rs`: what an account's miners and vaults give now and at the next level.
- `src/account.rs`, `src/vault.rs`, `src/upgrade.rs`, `src/signup.rs`: the decisions of
  the four requests (read an account, claim the vault, raise an upgrade, open an account).
- `src/laws.rs`: properties that span these functions.
- `app/`: the HTTP server and the MongoDB store around the library.

An account's upgrades are a `Vec` of (name, level) under an invariant that no name
occurs twice, not a map: the upgrade descriptions walk every upgrade in turn, and
vstd's `StringHashMap`, used for the level tables, offers lookups but no way to walk
its entries. Keeping the order also makes the descriptions' order part of the contract.
