use vstd::prelude::*;
use crate::principal::Principal;
use crate::tools::{Cycles, Tokens, CallError};
use crate::icrc::{IcrcId, TokenTransferError, BlockId};
use crate::types::canister_code::CanisterCode;

verus! {

/// The identifier of a position on a token market.
pub type PositionId = u128;

/// The identifier of a purchase on a token market.
pub type PurchaseId = u128;

/// A rate: the cycles that one token costs.
pub type CyclesPerToken = Cycles;

/// The argument with which a token market is installed.
pub struct CMIcrc1TokenTradeContractInit {
    pub cts_id: Principal,
    pub cm_main_id: Principal,
    pub icrc1_token_ledger: Principal,
    pub icrc1_token_ledger_transfer_fee: Tokens,
    pub trades_storage_canister_code: CanisterCode,
    pub positions_storage_canister_code: CanisterCode,
}

/// A request to buy tokens with cycles at a rate.
pub struct BuyTokensQuest {
    pub cycles: Cycles,
    pub cycles_per_token_rate: CyclesPerToken,
}

/// A request to sell tokens for cycles at a rate.
pub struct SellTokensQuest {
    pub tokens: Tokens,
    pub cycles_per_token_rate: CyclesPerToken,
}

/// Why a buy was not put on the market.
pub enum BuyTokensError {
    BuyTokensMinimumTokens(Tokens),
    RateCannotBeZero,
    MsgCyclesTooLow,
    CyclesMarketIsBusy,
}

/// A buy that was put on the market.
pub struct BuyTokensSuccess {
    pub position_id: PositionId,
}

/// The outcome of a buy.
pub type BuyTokensResult = Result<BuyTokensSuccess, BuyTokensError>;

/// Why a sale was not put on the market.
pub enum SellTokensError {
    SellTokensMinimum(Tokens),
    RateCannotBeZero,
    CallerIsInTheMiddleOfADifferentCallThatLocksTheTokenBalance,
    CyclesMarketIsBusy,
    CheckUserCyclesMarketTokenLedgerBalanceError(CallError),
    UserTokenBalanceTooLow { user_token_balance: Tokens },
}

/// A sale that was put on the market.
pub struct SellTokensSuccess {
    pub position_id: PositionId,
}

/// The outcome of a sale.
pub type SellTokensResult = Result<SellTokensSuccess, SellTokensError>;

/// A request to take a position off the token market.
pub struct VoidPositionQuest {
    pub position_id: PositionId,
}

/// Why a position was not taken off the token market.
pub enum VoidPositionError {
    WrongCaller,
    MinimumWaitTime { minimum_wait_time_seconds: u128, position_creation_timestamp_seconds: u128 },
    CyclesMarketIsBusy,
    PositionNotFound,
}

/// The outcome of taking a position off the token market.
pub type VoidPositionResult = Result<(), VoidPositionError>;

/// A request to send tokens out of the user's balance on the market.
pub struct TransferTokenBalanceQuest {
    pub tokens: Tokens,
    pub token_fee: Tokens,
    pub to: IcrcId,
    pub created_at_time: Option<u64>,
}

/// Why tokens were not sent.
pub enum TransferTokenBalanceError {
    CyclesMarketIsBusy,
    CallerIsInTheMiddleOfACreateTokenPositionOrPurchaseCyclesPositionOrTransferTokenBalanceCall,
    CheckUserCyclesMarketTokenLedgerBalanceCallError((u32, String)),
    UserTokenBalanceTooLow { user_token_balance: Tokens },
    TokenTransferCallError((u32, String)),
    TokenTransferError(TokenTransferError),
}

/// The outcome of sending tokens.
pub type TransferTokenBalanceResult = Result<BlockId, TransferTokenBalanceError>;

/// The market tells a positor that its cycles position was taken off.
pub struct CMVoidCyclesPositionPositorMessageQuest {
    pub position_id: PositionId,
    pub timestamp_nanos: u128,
}

/// The market tells a positor that its token position was taken off.
pub struct CMVoidTokenPositionPositorMessageQuest {
    pub position_id: PositionId,
    pub void_tokens: Tokens,
    pub timestamp_nanos: u128,
}

/// The market tells a positor that cycles of its position were bought.
pub struct CMCyclesPositionPurchasePositorMessageQuest {
    pub cycles_position_id: PositionId,
    pub purchase_id: PurchaseId,
    pub purchaser: Principal,
    pub purchase_timestamp_nanos: u128,
    pub cycles_purchase: Cycles,
    pub cycles_position_cycles_per_token_rate: CyclesPerToken,
    pub token_payment: Tokens,
    pub token_transfer_block_height: BlockId,
    pub token_transfer_timestamp_nanos: u128,
}

/// The market tells a purchaser that it bought cycles.
pub struct CMCyclesPositionPurchasePurchaserMessageQuest {
    pub cycles_position_id: PositionId,
    pub cycles_position_positor: Principal,
    pub cycles_position_cycles_per_token_rate: CyclesPerToken,
    pub purchase_id: PurchaseId,
    pub purchase_timestamp_nanos: u128,
    pub token_payment: Tokens,
}

/// The market tells a positor that tokens of its position were bought.
pub struct CMTokenPositionPurchasePositorMessageQuest {
    pub token_position_id: PositionId,
    pub token_position_cycles_per_token_rate: CyclesPerToken,
    pub purchaser: Principal,
    pub purchase_id: PurchaseId,
    pub token_purchase: Tokens,
    pub purchase_timestamp_nanos: u128,
}

/// The market tells a purchaser that it bought tokens.
pub struct CMTokenPositionPurchasePurchaserMessageQuest {
    pub token_position_id: PositionId,
    pub purchase_id: PurchaseId,
    pub positor: Principal,
    pub purchase_timestamp_nanos: u128,
    pub cycles_payment: Cycles,
    pub token_position_cycles_per_token_rate: CyclesPerToken,
    pub token_purchase: Tokens,
    pub token_transfer_block_height: BlockId,
    pub token_transfer_timestamp_nanos: u128,
}

/// Whether a position sells cycles or tokens.
#[derive(Clone, Copy, PartialEq, Eq, Structural)]
pub enum PositionKind {
    Cycles,
    Token,
}

/// A request for the latest trades, before a purchase id where one is given.
pub struct ViewLatestTradesQuest {
    pub opt_start_before_id: Option<PurchaseId>,
}

/// One trade in a list of the latest trades: its id, its tokens, its rate, its time and the
/// kind of position it took from.
pub type LatestTradesDataItem = (PurchaseId, Tokens, CyclesPerToken, u64, PositionKind);

/// A chunk of the latest trades.
pub struct ViewLatestTradesSponse {
    pub trades_data: Vec<LatestTradesDataItem>,
    pub is_last_chunk_on_this_canister: bool,
}

} // verus!
