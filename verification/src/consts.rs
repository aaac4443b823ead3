use vstd::prelude::*;

verus! {

/// Nanoseconds in one second.
pub const NANOS_IN_A_SECOND: u128 = 1_000_000_000;

/// Seconds in one minute.
pub const SECONDS_IN_A_MINUTE: u128 = 60;

/// Seconds in one day.
pub const SECONDS_IN_A_DAY: u128 = 86400;

/// Cycles that one XDR buys on the network.
pub const CYCLES_PER_XDR: u128 = 1_000_000_000_000;

/// One kibibyte.
pub const KiB: usize = 1024;

/// One mebibyte.
pub const MiB: usize = 1048576;

/// The size of a wasm page of stable memory.
pub const WASM_PAGE_SIZE_BYTES: usize = 65536;

} // verus!

verus! {

/// The fee of creating a canister on the network, in cycles.
pub const NETWORK_CANISTER_CREATION_FEE_CYCLES: u128 = 100_000_000_000;

/// The fee of storing one GiB for one second on the network, in cycles.
pub const NETWORK_GiB_STORAGE_PER_SECOND_FEE_CYCLES: u128 = 127_000;

} // verus!
