#![allow(non_camel_case_types)]

use vstd::prelude::*;
use crate::tools::{Cycles, XdrPerMyriadPerIcp};
use crate::ledger::{IcpTokens, IcpBlockHeight, IcpTransferError};
use crate::principal::IcpId;

verus! {

/// The identifier of a position on the cycles market.
pub type PositionId = u128;

/// The identifier of a purchase on the cycles market.
pub type PurchaseId = u128;

/// A request to put cycles up for sale.
pub struct CreateCyclesPositionQuest {
    pub cycles: Cycles,
    pub minimum_purchase: Cycles,
    pub xdr_permyriad_per_icp_rate: XdrPerMyriadPerIcp,
}

/// Why a cycles position was not made.
pub enum CreateCyclesPositionError {
    MinimumPurchaseMustBeEqualOrLessThanTheCyclesPosition,
    MsgCyclesTooLow { create_position_fee: Cycles },
    CyclesMarketIsBusy,
    CyclesMarketIsFull,
    CyclesMarketIsFull_MinimumRateAndMinimumCyclesPositionForABump {
        minimum_rate_for_a_bump: XdrPerMyriadPerIcp,
        minimum_cycles_position_for_a_bump: Cycles,
    },
    MinimumCyclesPosition(Cycles),
}

/// A cycles position that was made.
pub struct CreateCyclesPositionSuccess {
    pub position_id: PositionId,
}

/// A request to put ICP up for sale.
pub struct CreateIcpPositionQuest {
    pub icp: IcpTokens,
    pub minimum_purchase: IcpTokens,
    pub xdr_permyriad_per_icp_rate: XdrPerMyriadPerIcp,
}

/// Why an ICP position was not made.
pub enum CreateIcpPositionError {
    MinimumPurchaseMustBeEqualOrLessThanTheIcpPosition,
    MsgCyclesTooLow { create_position_fee: Cycles },
    CyclesMarketIsFull,
    CallerIsInTheMiddleOfACreateIcpPositionOrPurchaseCyclesPositionOrTransferIcpBalanceCall,
    CheckUserCyclesMarketIcpLedgerBalanceError((u32, String)),
    UserIcpBalanceTooLow { user_icp_balance: IcpTokens },
    CyclesMarketIsFull_MaximumRateAndMinimumIcpPositionForABump {
        maximum_rate_for_a_bump: XdrPerMyriadPerIcp,
        minimum_icp_position_for_a_bump: IcpTokens,
    },
    MinimumIcpPosition(IcpTokens),
}

/// An ICP position that was made.
pub struct CreateIcpPositionSuccess {
    pub position_id: PositionId,
}

/// A request to buy cycles out of a cycles position.
pub struct PurchaseCyclesPositionQuest {
    pub cycles_position_id: PositionId,
    pub cycles: Cycles,
}

/// Why a purchase of cycles did not go through.
pub enum PurchaseCyclesPositionError {
    MsgCyclesTooLow { purchase_position_fee: Cycles },
    CyclesMarketIsBusy,
    CallerIsInTheMiddleOfACreateIcpPositionOrPurchaseCyclesPositionOrTransferIcpBalanceCall,
    CheckUserCyclesMarketIcpLedgerBalanceError((u32, String)),
    UserIcpBalanceTooLow { user_icp_balance: IcpTokens },
    CyclesPositionNotFound,
    CyclesPositionCyclesIsLessThanThePurchaseQuest { cycles_position_cycles: Cycles },
    CyclesPositionMinimumPurchaseIsGreaterThanThePurchaseQuest { cycles_position_minimum_purchase: Cycles },
}

/// A purchase of cycles that went through.
pub struct PurchaseCyclesPositionSuccess {
    pub purchase_id: PurchaseId,
}

/// The outcome of a purchase of cycles.
pub type PurchaseCyclesPositionResult = Result<PurchaseCyclesPositionSuccess, PurchaseCyclesPositionError>;

/// A request to buy ICP out of an ICP position.
pub struct PurchaseIcpPositionQuest {
    pub icp_position_id: PositionId,
    pub icp: IcpTokens,
}

/// Why a purchase of ICP did not go through.
pub enum PurchaseIcpPositionError {
    MsgCyclesTooLow { purchase_position_fee: Cycles },
    CyclesMarketIsBusy,
    IcpPositionNotFound,
    IcpPositionIcpIsLessThanThePurchaseQuest { icp_position_icp: IcpTokens },
    IcpPositionMinimumPurchaseIsGreaterThanThePurchaseQuest { icp_position_minimum_purchase: IcpTokens },
}

/// A purchase of ICP that went through.
pub struct PurchaseIcpPositionSuccess {
    pub purchase_id: PurchaseId,
}

/// The outcome of a purchase of ICP.
pub type PurchaseIcpPositionResult = Result<PurchaseIcpPositionSuccess, PurchaseIcpPositionError>;

/// A request to take a position off the market.
pub struct VoidPositionQuest {
    pub position_id: PositionId,
}

/// Why a position was not taken off the market.
pub enum VoidPositionError {
    WrongCaller,
    CyclesMarketIsBusy,
    PositionNotFound,
}

/// The outcome of taking a position off the market.
pub type VoidPositionResult = Result<(), VoidPositionError>;

/// A request to send ICP out of the user's balance on the market.
pub struct TransferIcpBalanceQuest {
    pub icp: IcpTokens,
    pub icp_fee: Option<IcpTokens>,
    pub to: IcpId,
}

/// Why ICP was not sent.
pub enum TransferIcpBalanceError {
    MsgCyclesTooLow { transfer_icp_balance_fee: Cycles },
    CyclesMarketIsBusy,
    CallerIsInTheMiddleOfACreateIcpPositionOrPurchaseCyclesPositionOrTransferIcpBalanceCall,
    CheckUserCyclesMarketIcpLedgerBalanceCallError((u32, String)),
    UserIcpBalanceTooLow { user_icp_balance: IcpTokens },
    IcpTransferCallError((u32, String)),
    IcpTransferError(IcpTransferError),
}

/// The outcome of sending ICP.
pub type TransferIcpBalanceResult = Result<IcpBlockHeight, TransferIcpBalanceError>;

} // verus!

pub mod tc;
