#![allow(non_camel_case_types)]

use vstd::prelude::*;
use crate::principal::Principal;
use crate::tools::Cycles;

verus! {

/// A canister that holds cycles on behalf of a user.
pub type UserCanisterId = Principal;

/// A user of the CTS.
pub type UserId = Principal;

/// A canister that maps users to their user-canisters.
pub type UsersMapCanisterId = Principal;

/// Cycles that come back from a cycles-transfer.
pub type CyclesTransferRefund = Cycles;

/// Cycles that pay for the work of the CTS on behalf of a user.
pub type CTSFuel = Cycles;

/// The memo of a cycles-transfer.
pub enum CyclesTransferMemo {
    Nat(u128),
    Text(String),
    Blob(Vec<u8>),
}

/// The argument of a `cycles_transfer` call.
pub struct CyclesTransfer {
    pub memo: CyclesTransferMemo,
}

} // verus!

pub mod canister_code;
pub mod user_canister_cache;
pub mod management_canister;
pub mod cycles_transferrer;
pub mod cts;
pub mod users_map_canister;
pub mod user_canister;
pub mod cycles_market;
