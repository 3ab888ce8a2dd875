# pinocchio_idl_examples

Three Solana programs written for the Pinocchio runtime, with their instruction logic
verified by Verus:

- **counter**: an authority creates a counter bound to its address, then increments and
  decrements it;
- **escrow**: a maker offers tokens of one mint for tokens of another (`make`), a taker
  completes the trade (`take`), or the maker cancels it (`refund`);
- **fundraiser**: a maker opens a campaign for a token amount (`initialize`), contributors
  deposit within the campaign window and a cap (`contribute`), the maker collects once the
  target is met (`checker`), and contributors reclaim their deposits after a failed
  campaign (`refund`).

## Layout

- `src/` is the verified library. Each program has a module with its state layouts,
  instruction decoding, one handler per instruction, and a `laws` module of proof functions
  that state what holds across instructions. A handler takes the accounts, instruction data
  and sysvar values as plain values and returns either the error the instruction fails with
  or the effects it performs (`src/effect.rs`). Every handler's contract is an open spec
  function that says exactly which error or which effects each input gives.
  `src/account.rs` holds the account checks all instructions share, `src/pda.rs` the
  program-derived addresses, `src/bytes.rs` the little-endian encodings.
- `app/` is the part that runs on the runtime: it reads the accounts and sysvars, asks the
  library, and performs the effects through the system, token and associated token account
  programs.
- `tests/` runs the library: unit tests of the state layouts and helpers, and whole
  instruction flows against a small in-memory ledger that applies the effects.
