# stable_fun

A stablecoin program for Solana: stablecoins minted against stablebond
collateral held in a vault and priced by a Switchboard feed.

- `src/` is the verified library: the account state (`state`), the
  arithmetic, oracle, stablebond and validation rules (`utils`), and the
  decisions of each instruction (`instructions`, with the entry points in
  `lib.rs`). Its contracts and laws are checked by Verus. `chain.rs` holds
  the few items taken on trust from the runtime: the clock and
  program-derived addresses.
- `app/` is the Anchor program around it: account layouts, loading of
  accounts and price feeds, token transfers, events and error codes.
- `tests/` exercise the library on concrete values.
