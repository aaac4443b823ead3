//! Cycles-transfer-station library: the bookkeeping, arithmetic and state
//! transitions of the CTS canisters, with their contracts proved by Verus.

pub mod consts;
pub mod ledger;
pub mod tools;
pub mod principal;
pub mod assoc;
pub mod byte_order;
pub mod icrc;
pub mod types;
pub mod candle_counter;
pub mod cts_canister;
pub mod flush_logs;
pub mod user_balances;
