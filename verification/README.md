# fair_launch_escrow

A fair-launch escrow program for Solana, written as a Verus library.

- `src/` is the verified logic over plain account values: instruction data
  parsing (`instruction`), the 161-byte vault layout (`state`), the 156-byte
  event layout (`events`), the three instructions and their dispatch
  (`processor`), error codes (`errors`), byte helpers (`codec`) and the
  properties proved across them (`laws`).
- `app/` is the runtime glue built on pinocchio: it snapshots the accounts,
  asks the library for the instruction's effects, and performs them
  (system-program `CreateAccount`, balance writes, vault write, event log,
  zeroing of a closed vault).
