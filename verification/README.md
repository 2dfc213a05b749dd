# reelfun-contract

The staking logic of the reel program, verified with Verus.

- `src/` is the library. Each instruction (`open_stake_window`, `stake`,
  `close_stake_window`, `unstake`, `refund_deposit`, `create_bonding_curve`)
  is a struct holding, as plain values, the account data it reads and writes,
  with a `handler` whose contract states the first failing check, the new
  account data and the transfers the runtime must make. `src/history.rs`
  models any sequence of instructions on one window by those contracts, and
  `src/laws.rs` holds the properties that span instructions (windows close
  for good, an unstake gives back what the stake took and a refund the
  deposit, each at most once over any history, the window total is the sum
  of the stake weights over any history).
- `app/` is the Anchor program around it: account validation, the clock,
  the token and lamport transfers, and the entrypoints.
- `tests/` runs the library on concrete values.
