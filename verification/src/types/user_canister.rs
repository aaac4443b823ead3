use vstd::prelude::*;
use crate::principal::Principal;
use crate::tools::Cycles;
use crate::types::{CyclesTransferMemo, UserId};

verus! {

/// The argument with which a user-canister is installed.
pub struct UserCanisterInit {
    pub user_id: UserId,
    pub cts_id: Principal,
    pub cycles_market_id: Principal,
    pub user_canister_storage_size_mib: u64,
    pub user_canister_lifetime_termination_timestamp_seconds: u64,
    pub cycles_transferrer_canisters: Vec<Principal>,
}

/// A user's request to its user-canister to transfer cycles.
pub struct UserTransferCyclesQuest {
    pub for_the_canister: Principal,
    pub cycles: Cycles,
    pub cycles_transfer_memo: CyclesTransferMemo,
}

} // verus!
