# cts_lib

The logic of the cycles-transfer-station (CTS) canisters of the Internet Computer, written in
Verus and proved against its contracts.

- `src/` is the verified library. The CTS canister's state and methods are in
  `src/cts_canister/`: what each method decides, given the caller, the clock and what other
  canisters answered. The long calls that go through several other canisters, a new user
  (`new_user.rs`) and a burn of ICP for cycles (`burn_icp.rs`), are written as steps: the
  library says which call to make next and what its answer makes of the progress and of the
  state, and proves that a call stopped in the middle goes on where it stopped. The upgrades
  of other canisters name each call, the install request with its module and argument among
  them (`controller_calls.rs`).
- `src/user_balances.rs` holds the balances of users and the steps of the calls that read,
  pay out or convert them; each locks the user at its start and unlocks it at every answer.
- `src/flush_logs.rs` holds the buffer of logs of a market and the steps of its flush into
  storage canisters; `src/candle_counter.rs` the candles of a market's trades.
- `tests/` runs the library on concrete values.
- `app/` is the canister around the library: its entry points, the calls to other canisters
  and the candid forms of the library's types. `app/lib.rs` is the CTS canister,
  `app/balances.rs` the entry points of the balances, and `app/flush_logs.rs` the loop that
  flushes a market's logs.
