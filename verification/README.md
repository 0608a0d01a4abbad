# token_staking

A token staking program for Solana, written as a Verus-verified library.

- `src/` holds the program's logic, proved by Verus: the account checks of each
  instruction (`instructions/`), the instruction handlers (`handlers/`), the entry
  points that run both (`token_staking.rs`), the stored state (`state/`), addresses and
  their derivation (`pubkey.rs`, `address.rs`), the errors (`utils/errors.rs`) and the
  properties proved of them (`properties.rs`).
- `app/` is the Anchor program around it: entry points, account types and errors as
  Anchor declares them, and the conversions to and from the library's plain values.
- `tests/` runs the library on concrete accounts, deriving the expected addresses with
  the Solana program library.
