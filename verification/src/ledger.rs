use vstd::prelude::*;

verus! {

/// An amount of ICP, counted in 10^-8 ICP ("e8s").
#[derive(Clone, Copy, Debug, PartialEq, Eq, Structural)]
pub struct IcpTokens {
    pub e8s: u64,
}

impl IcpTokens {
    /// How many times one ICP can be divided.
    pub const SUBDIVIDABLE_BY: u64 = 100_000_000;

    /// The amount of `e8s` 10^-8 ICP.
    pub fn from_e8s(e8s: u64) -> (t: IcpTokens)
        ensures
            t.e8s == e8s,
    {
        IcpTokens { e8s }
    }

    /// The number of 10^-8 ICP in this amount.
    pub fn e8s(&self) -> (e: u64)
        ensures
            e == self.e8s,
    {
        self.e8s
    }

    /// Zero ICP.
    pub fn zero() -> (t: IcpTokens)
        ensures
            t.e8s == 0,
    {
        IcpTokens { e8s: 0 }
    }
}

/// The fee of one transfer on the ICP ledger, in e8s.
pub const ICP_LEDGER_TRANSFER_DEFAULT_FEE_E8S: u64 = 10_000;

/// The memo of a transfer to the cycles-minting canister that pays for a new canister: the
/// bytes of "CREA" read as a little-endian number.
pub const ICP_LEDGER_CREATE_CANISTER_MEMO: u64 = 0x41455243;

/// The memo of a transfer to the cycles-minting canister that tops up a canister: the bytes
/// of "TPUP" read as a little-endian number.
pub const ICP_LEDGER_TOP_UP_CANISTER_MEMO: u64 = 0x50555054;

} // verus!

verus! {

/// The index of a block on the ICP ledger.
pub type IcpBlockHeight = u64;

/// Why the ICP ledger refused a transfer.
pub enum IcpTransferError {
    BadFee { expected_fee: IcpTokens },
    InsufficientFunds { balance: IcpTokens },
    TxTooOld { allowed_window_nanos: u64 },
    TxCreatedInFuture,
    TxDuplicate { duplicate_of: IcpBlockHeight },
}

} // verus!
