use vstd::prelude::*;
use crate::principal::Principal;
use crate::tools::Tokens;

verus! {

/// An account on an ICRC-1 ledger: an owner and an optional subaccount.
pub struct IcrcId {
    pub owner: Principal,
    pub subaccount: Option<[u8; 32]>,
}

/// The index of a block on an ICRC-1 ledger.
pub type BlockId = u128;

/// Why an ICRC-1 ledger refused a transfer.
pub enum TokenTransferError {
    BadFee { expected_fee: Tokens },
    BadBurn { min_burn_amount: Tokens },
    InsufficientFunds { balance: Tokens },
    TooOld,
    CreatedInFuture { ledger_time: u64 },
    Duplicate { duplicate_of: BlockId },
    TemporarilyUnavailable,
    GenericError { error_code: u128, message: String },
}

} // verus!
