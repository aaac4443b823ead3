use vstd::prelude::*;
use crate::principal::Principal;
use crate::tools::Cycles;
use crate::types::CyclesTransferMemo;

verus! {

/// The argument with which a cycles-transferrer canister is installed.
pub struct CyclesTransferrerCanisterInit {
    pub cts_id: Principal,
}

/// The argument of a `cycles_transfer` call made by a cycles-transferrer canister.
pub struct CyclesTransfer {
    pub memo: CyclesTransferMemo,
    pub original_caller: Option<Principal>,
}

/// A user's request to transfer cycles to a canister.
pub struct TransferCyclesQuest {
    pub user_cycles_transfer_id: u128,
    pub for_the_canister: Principal,
    pub cycles: Cycles,
    pub cycles_transfer_memo: CyclesTransferMemo,
}

/// Why a cycles-transferrer canister refused a transfer.
pub enum TransferCyclesError {
    MsgCyclesTooLow { transfer_cycles_fee: Cycles },
    MaxOngoingCyclesTransfers,
    CyclesTransferQuestCandidCodeError(String),
}

/// The outcome of a transfer, sent back to the user-canister: `None` where the call was
/// replied to, else its reject code and message.
pub struct TransferCyclesCallbackQuest {
    pub user_cycles_transfer_id: u128,
    pub opt_cycles_transfer_call_error: Option<(u32, String)>,
}

} // verus!
