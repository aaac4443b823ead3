#![allow(non_camel_case_types)]

//! The balances of cycles and ICP that the CTS keeps for its users, and what the methods
//! that pay them out or top them up decide.

use vstd::prelude::*;
use crate::principal::{Principal, IcpId};
use crate::assoc::{keys_unique, assoc_map, assoc_find, lemma_assoc_push, lemma_assoc_update, lemma_assoc_map_at};
use crate::ledger::{IcpTokens, IcpBlockHeight, IcpTransferError, ICP_LEDGER_TRANSFER_DEFAULT_FEE_E8S, ICP_LEDGER_TOP_UP_CANISTER_MEMO};
use crate::tools::{RejectionCode, icptokens_to_cycles, spec_icp_to_cycles};
use crate::consts::CYCLES_PER_XDR;

verus! {

/// The fee of a payout of ICP, in e8s.
pub const ICP_PAYOUT_FEE_E8S: u64 = 1000000;

/// The fee of a payout of cycles.
pub const CYCLES_TRANSFER_FEE: u128 = 300_000_000_000;

/// Whether a user is in the middle of a call, and since when.
#[derive(Clone, Copy, PartialEq, Eq, Structural)]
pub struct UserLock {
    pub lock: bool,
    pub last_lock_time_nanos: u64,
}

/// What the CTS keeps for a user.
#[derive(Clone, Copy, PartialEq, Eq, Structural)]
pub struct UserData {
    pub user_lock: UserLock,
    pub cycles_balance: u128,
    pub untaken_icp_to_collect: IcpTokens,
}

/// The data of a user that the CTS has not seen yet.
pub open spec fn spec_default_user_data() -> UserData {
    UserData {
        user_lock: UserLock { lock: false, last_lock_time_nanos: 0 },
        cycles_balance: 0,
        untaken_icp_to_collect: IcpTokens { e8s: 0 },
    }
}

impl Default for UserData {
    fn default() -> (d: UserData)
        ensures
            d == spec_default_user_data(),
    {
        UserData {
            user_lock: UserLock { lock: false, last_lock_time_nanos: 0 },
            cycles_balance: 0,
            untaken_icp_to_collect: IcpTokens::from_e8s(0),
        }
    }
}

/// The memo of a cycles-transfer.
pub enum CyclesTransferMemo {
    Text(String),
    Nat64(u64),
    Blob(Vec<u8>),
}

/// The argument of a `cycles_transfer` call.
pub struct CyclesTransfer {
    pub memo: CyclesTransferMemo,
}

/// How a user tops up its cycles balance: the memo of its cycles-transfer.
pub struct TopUpCyclesBalanceData {
    pub topup_cycles_transfer_memo: CyclesTransferMemo,
}

/// How a user tops up its ICP balance: the account to send ICP to.
pub struct TopUpIcpBalanceData {
    pub topup_icp_id: IcpId,
}

/// How a user tops up its balances.
pub struct TopUpBalanceData {
    pub topup_cycles_balance: TopUpCyclesBalanceData,
    pub topup_icp_balance: TopUpIcpBalanceData,
}

/// The balances of a user.
pub struct UserBalance {
    pub cycles_balance: u128,
    pub icp_balance: IcpTokens,
}

/// Why the balances of a user could not be seen.
pub enum SeeBalanceError {
    IcpLedgerCheckBalanceCallError(String),
}

/// A request to pay ICP out to an account.
pub struct IcpPayoutQuest {
    pub icp: IcpTokens,
    pub payout_icp_id: IcpId,
}

/// A request to pay cycles out to a canister.
pub struct CyclesPayoutQuest {
    pub cycles: u128,
    pub payout_cycles_transfer_canister: Principal,
}

/// A request to pay out a balance.
pub enum CollectBalanceQuest {
    icp_payout(IcpPayoutQuest),
    cycles_payout(CyclesPayoutQuest),
}

/// Why ICP was not paid out.
pub enum IcpPayoutError {
    InvalidIcpAmount,
    IcpLedgerCheckBalanceCallError(String),
    BalanceTooLow { max_icp_payout: IcpTokens },
    IcpLedgerTransferError(IcpTransferError),
    IcpLedgerTransferCallError(String),
}

/// Why cycles were not paid out.
pub enum CyclesPayoutError {
    InvalidCyclesAmount,
    BalanceTooLow { max_cycles_payout: u128 },
    CyclesTransferCallError { call_error: String, paid_fee: bool },
}

/// The block of a payout of ICP, or why there was none.
pub type IcpPayoutSponse = Result<IcpBlockHeight, IcpPayoutError>;

/// The cycles that a canister took in a payout, or why there were none.
pub type CyclesPayoutSponse = Result<u128, CyclesPayoutError>;

/// The answer to a request to pay out a balance.
pub enum CollectBalanceSponse {
    icp_payout(IcpPayoutSponse),
    cycles_payout(CyclesPayoutSponse),
}

/// The fees that a payout of ICP costs on top of the ICP: the payout fee and two ledger fees.
pub open spec fn spec_icp_payout_fees() -> int {
    ICP_PAYOUT_FEE_E8S + 2 * ICP_LEDGER_TRANSFER_DEFAULT_FEE_E8S
}

/// What is left of `a` after `b` is taken off it, and zero where `b` is more than `a`.
pub open spec fn spec_saturating_sub(a: int, b: int) -> int {
    if a >= b { a - b } else { 0 }
}

/// Checks a payout of ICP against the ICP balance of the user: refused where the ICP and its
/// fees come to more than the balance, with the most that could be paid out (none where the
/// balance does not even pay the fees).
pub fn icp_payout_check(icp: IcpTokens, user_icp_balance: IcpTokens) -> (r: Result<(), IcpPayoutError>)
    ensures
        icp.e8s + spec_icp_payout_fees() > user_icp_balance.e8s ==> (r matches Err(IcpPayoutError::BalanceTooLow { max_icp_payout })
            && max_icp_payout.e8s == spec_saturating_sub(user_icp_balance.e8s as int, spec_icp_payout_fees())),
        icp.e8s + spec_icp_payout_fees() <= user_icp_balance.e8s ==> r is Ok,
{
    let fees: u64 = ICP_PAYOUT_FEE_E8S + ICP_LEDGER_TRANSFER_DEFAULT_FEE_E8S * 2;
    let balance: u64 = user_icp_balance.e8s();
    if icp.e8s() as u128 + fees as u128 > balance as u128 {
        let max: u64 = if balance >= fees { balance - fees } else { 0 };
        return Err(IcpPayoutError::BalanceTooLow { max_icp_payout: IcpTokens::from_e8s(max) });
    }
    Ok(())
}

/// Checks the amount of a payout of ICP: none is refused.
pub fn icp_payout_amount_check(icp: IcpTokens) -> (r: Result<(), IcpPayoutError>)
    ensures
        icp.e8s == 0 ==> r matches Err(IcpPayoutError::InvalidIcpAmount),
        icp.e8s != 0 ==> r is Ok,
{
    if icp.e8s() == 0 {
        return Err(IcpPayoutError::InvalidIcpAmount);
    }
    Ok(())
}

/// The cycles balance of a user: zero where the CTS does not know the user.
pub open spec fn spec_cycles_balance(users: Map<Seq<u8>, UserData>, user: Seq<u8>) -> u128 {
    if users.dom().contains(user) { users[user].cycles_balance } else { 0 }
}

/// The cycles balance of a user: zero where the CTS does not know the user.
pub fn check_user_cycles_balance(users_data: &Vec<(Principal, UserData)>, user: &Principal) -> (b: u128)
    requires
        keys_unique(users_data@),
    ensures
        b == spec_cycles_balance(assoc_map(users_data@), user@),
{
    match assoc_find(users_data, user) {
        Some(i) => {
            proof {
                lemma_assoc_map_at(users_data@, i as int);
            }
            users_data[i].1.cycles_balance
        },
        None => 0,
    }
}

/// The data of a user after a change, made to its entry or to the data of a new user.
fn update_user(users_data: &mut Vec<(Principal, UserData)>, user: &Principal, new_data: UserData)
    requires
        keys_unique(old(users_data)@),
    ensures
        keys_unique(final(users_data)@),
        assoc_map(final(users_data)@) == assoc_map(old(users_data)@).insert(user@, new_data),
{
    let ghost s0 = users_data@;
    let key: Principal = user.copy();
    match assoc_find(users_data, user) {
        Some(i) => {
            proof {
                lemma_assoc_update(s0, i as int, key, new_data);
            }
            users_data.set(i, (key, new_data));
        },
        None => {
            proof {
                lemma_assoc_push(s0, key, new_data);
            }
            users_data.push((key, new_data));
        },
    }
}

/// The data of a user: the data of a new user where the CTS does not know it.
pub open spec fn spec_user_data(users: Map<Seq<u8>, UserData>, user: Seq<u8>) -> UserData {
    if users.dom().contains(user) { users[user] } else { spec_default_user_data() }
}

/// The data of a user: the data of a new user where the CTS does not know it.
fn user_data_or_default(users_data: &Vec<(Principal, UserData)>, user: &Principal) -> (d: UserData)
    requires
        keys_unique(users_data@),
    ensures
        d == spec_user_data(assoc_map(users_data@), user@),
{
    match assoc_find(users_data, user) {
        Some(i) => {
            proof {
                lemma_assoc_map_at(users_data@, i as int);
            }
            users_data[i].1
        },
        None => UserData::default(),
    }
}

/// The ICP of the payout fee could not be taken: the fee and a ledger fee are kept as ICP that
/// the user still owes.
pub fn icp_payout_fee_not_taken(users_data: &mut Vec<(Principal, UserData)>, user: &Principal)
    requires
        keys_unique(old(users_data)@),
        spec_user_data(assoc_map(old(users_data)@), user@).untaken_icp_to_collect.e8s
            + ICP_PAYOUT_FEE_E8S + ICP_LEDGER_TRANSFER_DEFAULT_FEE_E8S <= u64::MAX,
    ensures
        keys_unique(final(users_data)@),
        ({
            let d = spec_user_data(assoc_map(old(users_data)@), user@);
            assoc_map(final(users_data)@) == assoc_map(old(users_data)@).insert(user@, UserData {
                untaken_icp_to_collect: IcpTokens {
                    e8s: (d.untaken_icp_to_collect.e8s + ICP_PAYOUT_FEE_E8S + ICP_LEDGER_TRANSFER_DEFAULT_FEE_E8S) as u64,
                },
                ..d
            })
        }),
{
    let d: UserData = user_data_or_default(users_data, user);
    let new_data = UserData {
        untaken_icp_to_collect: IcpTokens::from_e8s(d.untaken_icp_to_collect.e8s() + (ICP_PAYOUT_FEE_E8S + ICP_LEDGER_TRANSFER_DEFAULT_FEE_E8S)),
        ..d
    };
    update_user(users_data, user, new_data);
}

/// Checks a payout of cycles against the cycles balance of the user: none is refused, and so
/// is one where the cycles and the fee come to more than the balance, with the most that
/// could be paid out, the balance less the fee.
pub fn cycles_payout_check(cycles: u128, user_cycles_balance: u128) -> (r: Result<(), CyclesPayoutError>)
    requires
        cycles != 0 && cycles + CYCLES_TRANSFER_FEE > user_cycles_balance ==> user_cycles_balance >= CYCLES_TRANSFER_FEE,
    ensures
        cycles == 0 ==> r matches Err(CyclesPayoutError::InvalidCyclesAmount),
        cycles != 0 && cycles + CYCLES_TRANSFER_FEE > user_cycles_balance ==> (r matches Err(CyclesPayoutError::BalanceTooLow { max_cycles_payout })
            && max_cycles_payout == user_cycles_balance - CYCLES_TRANSFER_FEE),
        cycles != 0 && cycles + CYCLES_TRANSFER_FEE <= user_cycles_balance ==> r is Ok,
{
    if cycles == 0 {
        return Err(CyclesPayoutError::InvalidCyclesAmount);
    }
    if cycles > user_cycles_balance || user_cycles_balance - cycles < CYCLES_TRANSFER_FEE {
        return Err(CyclesPayoutError::BalanceTooLow { max_cycles_payout: user_cycles_balance - CYCLES_TRANSFER_FEE });
    }
    Ok(())
}

/// The reject codes of a cycles payout call on which the fee is taken: the callee could be
/// reached or named.
pub open spec fn spec_fee_is_paid(code: RejectionCode) -> bool {
    code == RejectionCode::DestinationInvalid || code == RejectionCode::CanisterReject || code == RejectionCode::CanisterError
}

/// Settles a cycles payout after the call: where it was replied to, the cycles the canister
/// took and the fee come off the balance, and the cycles taken are handed back; where it
/// failed with a code that reached or named the callee, the fee comes off; otherwise nothing
/// does.
pub fn cycles_payout_settle(users_data: &mut Vec<(Principal, UserData)>, user: &Principal, cycles: u128, call: Result<u128, (RejectionCode, String)>) -> (r: CyclesPayoutSponse)
    requires
        keys_unique(old(users_data)@),
        assoc_map(old(users_data)@).dom().contains(user@),
        cycles + CYCLES_TRANSFER_FEE <= assoc_map(old(users_data)@)[user@].cycles_balance,
        call matches Ok(refunded) ==> refunded <= cycles,
    ensures
        keys_unique(final(users_data)@),
        ({
            let d = assoc_map(old(users_data)@)[user@];
            match call {
                Ok(refunded) => {
                    &&& r == Ok::<u128, CyclesPayoutError>((cycles - refunded) as u128)
                    &&& assoc_map(final(users_data)@) == assoc_map(old(users_data)@).insert(user@,
                            UserData { cycles_balance: (d.cycles_balance - (cycles - refunded) - CYCLES_TRANSFER_FEE) as u128, ..d })
                },
                Err((code, message)) => {
                    &&& r matches Err(CyclesPayoutError::CyclesTransferCallError { call_error, paid_fee })
                    &&& call_error@ == message@
                    &&& paid_fee == spec_fee_is_paid(code)
                    &&& if spec_fee_is_paid(code) {
                            assoc_map(final(users_data)@) == assoc_map(old(users_data)@).insert(user@,
                                UserData { cycles_balance: (d.cycles_balance - CYCLES_TRANSFER_FEE) as u128, ..d })
                        } else {
                            final(users_data)@ == old(users_data)@
                        }
                },
            }
        }),
{
    let d: UserData = user_data_or_default(users_data, user);
    match call {
        Ok(refunded) => {
            let cycles_accepted: u128 = cycles - refunded;
            let new_data = UserData { cycles_balance: d.cycles_balance - (cycles_accepted + CYCLES_TRANSFER_FEE), ..d };
            update_user(users_data, user, new_data);
            Ok(cycles_accepted)
        },
        Err((code, message)) => {
            let paid_fee: bool = match code {
                RejectionCode::DestinationInvalid | RejectionCode::CanisterReject | RejectionCode::CanisterError => true,
                _ => false,
            };
            if paid_fee {
                let new_data = UserData { cycles_balance: d.cycles_balance - CYCLES_TRANSFER_FEE, ..d };
                update_user(users_data, user, new_data);
            }
            Err(CyclesPayoutError::CyclesTransferCallError { call_error: message, paid_fee })
        },
    }
}

/// The memo of a payout of ICP: the bytes of "CTS-POUT" read as a big-endian number.
pub const ICP_PAYOUT_MEMO: u64 = 0x4354532D504F5554;

/// The memo of the transfer that takes the fee of a payout of ICP: the bytes of "CTS-TFEE"
/// read as a big-endian number.
pub const ICP_TAKE_PAYOUT_FEE_MEMO: u64 = 0x4354532D54464545;

/// A call of a user did not start: the user is in the middle of another call, locked since
/// `since_nanos`.
pub struct UserIsLocked {
    pub since_nanos: u64,
}

/// Whether a user is locked in the middle of a call.
pub open spec fn spec_is_locked(users: Map<Seq<u8>, UserData>, user: Seq<u8>) -> bool {
    spec_user_data(users, user).user_lock.lock
}

/// The users after `user` is locked at `now_nanos`.
pub open spec fn spec_locked_at(users: Map<Seq<u8>, UserData>, user: Seq<u8>, now_nanos: u64) -> Map<Seq<u8>, UserData> {
    let d = spec_user_data(users, user);
    users.insert(user, UserData { user_lock: UserLock { lock: true, last_lock_time_nanos: now_nanos }, ..d })
}

/// The users after `user` is unlocked; when it was last locked is kept.
pub open spec fn spec_unlocked(users: Map<Seq<u8>, UserData>, user: Seq<u8>) -> Map<Seq<u8>, UserData> {
    let d = spec_user_data(users, user);
    users.insert(user, UserData { user_lock: UserLock { lock: false, last_lock_time_nanos: d.user_lock.last_lock_time_nanos }, ..d })
}

/// Locks a user at the start of a call that awaits: refused, with nothing changed, where the
/// user is locked already.
pub fn check_lock_and_lock_user(users_data: &mut Vec<(Principal, UserData)>, user: &Principal, now_nanos: u64) -> (r: Result<(), UserIsLocked>)
    requires
        keys_unique(old(users_data)@),
    ensures
        keys_unique(final(users_data)@),
        spec_is_locked(assoc_map(old(users_data)@), user@) ==> (r matches Err(e)
            && e.since_nanos == spec_user_data(assoc_map(old(users_data)@), user@).user_lock.last_lock_time_nanos
            && final(users_data)@ == old(users_data)@),
        !spec_is_locked(assoc_map(old(users_data)@), user@) ==> (r is Ok
            && assoc_map(final(users_data)@) == spec_locked_at(assoc_map(old(users_data)@), user@, now_nanos)),
{
    let d: UserData = user_data_or_default(users_data, user);
    if d.user_lock.lock {
        return Err(UserIsLocked { since_nanos: d.user_lock.last_lock_time_nanos });
    }
    update_user(users_data, user, UserData { user_lock: UserLock { lock: true, last_lock_time_nanos: now_nanos }, ..d });
    Ok(())
}

/// Unlocks a user at the end of a call.
pub fn unlock_user(users_data: &mut Vec<(Principal, UserData)>, user: &Principal)
    requires
        keys_unique(old(users_data)@),
    ensures
        keys_unique(final(users_data)@),
        assoc_map(final(users_data)@) == spec_unlocked(assoc_map(old(users_data)@), user@),
        !spec_is_locked(assoc_map(final(users_data)@), user@),
{
    let d: UserData = user_data_or_default(users_data, user);
    update_user(users_data, user, UserData { user_lock: UserLock { lock: false, last_lock_time_nanos: d.user_lock.last_lock_time_nanos }, ..d });
}

/// The balances of a user, or why they could not be seen.
pub type SeeBalanceSponse = Result<UserBalance, SeeBalanceError>;

/// Starts `see_balance`: the user is locked and its cycles balance read; the ledger is then
/// asked for its ICP balance.
pub fn see_balance_begin(users_data: &mut Vec<(Principal, UserData)>, user: &Principal, now_nanos: u64) -> (r: Result<u128, UserIsLocked>)
    requires
        keys_unique(old(users_data)@),
    ensures
        keys_unique(final(users_data)@),
        spec_is_locked(assoc_map(old(users_data)@), user@) ==> (r matches Err(e)
            && e.since_nanos == spec_user_data(assoc_map(old(users_data)@), user@).user_lock.last_lock_time_nanos
            && final(users_data)@ == old(users_data)@),
        !spec_is_locked(assoc_map(old(users_data)@), user@) ==> (r matches Ok(b)
            && b == spec_cycles_balance(assoc_map(old(users_data)@), user@)
            && assoc_map(final(users_data)@) == spec_locked_at(assoc_map(old(users_data)@), user@, now_nanos)),
{
    let balance: u128 = check_user_cycles_balance(users_data, user);
    match check_lock_and_lock_user(users_data, user, now_nanos) {
        Err(e) => Err(e),
        Ok(()) => Ok(balance),
    }
}

/// Ends `see_balance` on the answer of the ledger: the user is unlocked, and its balances are
/// handed back, or why the ledger could not be asked.
pub fn see_balance_apply(users_data: &mut Vec<(Principal, UserData)>, user: &Principal, cycles_balance: u128, icp_balance: Result<IcpTokens, String>) -> (r: SeeBalanceSponse)
    requires
        keys_unique(old(users_data)@),
    ensures
        keys_unique(final(users_data)@),
        assoc_map(final(users_data)@) == spec_unlocked(assoc_map(old(users_data)@), user@),
        match icp_balance {
            Ok(t) => r matches Ok(b) && b.cycles_balance == cycles_balance && b.icp_balance == t,
            Err(message) => r matches Err(SeeBalanceError::IcpLedgerCheckBalanceCallError(e)) && e == message,
        },
{
    unlock_user(users_data, user);
    match icp_balance {
        Ok(t) => Ok(UserBalance { cycles_balance, icp_balance: t }),
        Err(message) => Err(SeeBalanceError::IcpLedgerCheckBalanceCallError(message)),
    }
}

/// A transfer on the ICP ledger out of the account of the user at the CTS.
pub struct IcpTransferFromUser {
    pub memo: u64,
    pub amount: IcpTokens,
    pub fee: IcpTokens,
}

/// What `collect_balance` does next.
pub enum CollectBalanceStep {
    /// Ask the ICP ledger for the balance of the account of the user at the CTS.
    CheckIcpBalance,
    /// Transfer ICP from the account of the user at the CTS to `to`.
    IcpPayoutTransfer { transfer: IcpTransferFromUser, to: IcpId },
    /// Transfer the payout fee from the account of the user at the CTS to the main account of
    /// the CTS; the payout went through in `payout_block`.
    TakeIcpPayoutFee { transfer: IcpTransferFromUser, payout_block: IcpBlockHeight },
    /// Call `cycles_transfer` on `canister` with `cycles` cycles and the text memo "CTS-PAYOUT".
    CyclesTransfer { canister: Principal, cycles: u64 },
    /// The answer; the user is unlocked.
    Done(CollectBalanceSponse),
}

/// What came back of the step that `collect_balance` took.
pub enum CollectBalanceEvent {
    /// The ICP balance of the account of the user, or why the ledger could not be asked.
    IcpBalance(Result<IcpTokens, String>),
    /// The block of the payout, why the ledger refused it, or why it could not be called.
    IcpPayoutTransfer(Result<Result<IcpBlockHeight, IcpTransferError>, String>),
    /// Whether the fee of the payout in `payout_block` was taken.
    IcpPayoutFeeTransfer { payout_block: IcpBlockHeight, fee_taken: bool },
    /// The cycles that the canister handed back, or why the call failed.
    CyclesTransfer(Result<u128, (RejectionCode, String)>),
}

/// The ICP that a request asks to be paid out: none for a request of cycles.
pub open spec fn spec_payout_icp(q: CollectBalanceQuest) -> IcpTokens {
    match q {
        CollectBalanceQuest::icp_payout(iq) => iq.icp,
        CollectBalanceQuest::cycles_payout(_) => IcpTokens { e8s: 0 },
    }
}

/// The account that a request of ICP is paid out to.
pub open spec fn spec_payout_icp_id(q: CollectBalanceQuest) -> IcpId {
    match q {
        CollectBalanceQuest::icp_payout(iq) => iq.payout_icp_id,
        CollectBalanceQuest::cycles_payout(_) => vstd::pervasive::arbitrary(),
    }
}

/// The cycles that a request asks to be paid out: none for a request of ICP.
pub open spec fn spec_payout_cycles(q: CollectBalanceQuest) -> u128 {
    match q {
        CollectBalanceQuest::icp_payout(_) => 0,
        CollectBalanceQuest::cycles_payout(cq) => cq.cycles,
    }
}

/// The users after the fee of a payout of ICP, and a ledger fee, are kept as ICP that `user`
/// still owes.
pub open spec fn spec_payout_fee_owed(users: Map<Seq<u8>, UserData>, user: Seq<u8>) -> Map<Seq<u8>, UserData> {
    let d = spec_user_data(users, user);
    users.insert(user, UserData {
        untaken_icp_to_collect: IcpTokens {
            e8s: (d.untaken_icp_to_collect.e8s + ICP_PAYOUT_FEE_E8S + ICP_LEDGER_TRANSFER_DEFAULT_FEE_E8S) as u64,
        },
        ..d
    })
}

/// The event came back of a step that `collect_balance` takes for the request `q`: the
/// events of a payout of ICP for a request of ICP, and the cycles-transfer for a request of
/// cycles, which hands back no more cycles than it was given, while the user, locked since
/// the check, still has the balance that the check let through. A fee that was not taken
/// can still be owed.
pub open spec fn spec_collect_balance_event_fits(users: Map<Seq<u8>, UserData>, user: Seq<u8>, q: CollectBalanceQuest, ev: CollectBalanceEvent) -> bool {
    match ev {
        CollectBalanceEvent::CyclesTransfer(call) => {
            &&& q is cycles_payout
            &&& users.dom().contains(user)
            &&& spec_payout_cycles(q) + CYCLES_TRANSFER_FEE <= users[user].cycles_balance
            &&& (call matches Ok(refunded) ==> refunded <= spec_payout_cycles(q))
        },
        CollectBalanceEvent::IcpPayoutFeeTransfer { fee_taken, .. } => {
            &&& q is icp_payout
            &&& !fee_taken ==> spec_user_data(users, user).untaken_icp_to_collect.e8s + ICP_PAYOUT_FEE_E8S + ICP_LEDGER_TRANSFER_DEFAULT_FEE_E8S <= u64::MAX
        },
        _ => q is icp_payout,
    }
}

/// Starts `collect_balance`: the user is locked, and the request checked. A request of no ICP
/// or no cycles, or of more cycles than the balance pays with the fee, is answered at once and
/// the user unlocked; otherwise the first call is named: the ICP balance is asked of the
/// ledger, or the cycles are sent, cut to 64 bits. A request of cycles that the balance does
/// not pay, from a balance below the fee, has no most that could be paid out, and is not taken:
/// the caller stops before any change.
pub fn collect_balance_begin(users_data: &mut Vec<(Principal, UserData)>, user: &Principal, q: &CollectBalanceQuest, now_nanos: u64) -> (r: Result<CollectBalanceStep, UserIsLocked>)
    requires
        keys_unique(old(users_data)@),
        spec_payout_cycles(*q) != 0 && spec_payout_cycles(*q) + CYCLES_TRANSFER_FEE > spec_cycles_balance(assoc_map(old(users_data)@), user@)
            ==> spec_cycles_balance(assoc_map(old(users_data)@), user@) >= CYCLES_TRANSFER_FEE,
    ensures
        keys_unique(final(users_data)@),
        r matches Ok(CollectBalanceStep::Done(_)) ==> !spec_is_locked(assoc_map(final(users_data)@), user@),
        ({
            let m0 = assoc_map(old(users_data)@);
            let m1 = assoc_map(final(users_data)@);
            let ml = spec_locked_at(m0, user@, now_nanos);
            if spec_is_locked(m0, user@) {
                &&& r matches Err(e) && e.since_nanos == spec_user_data(m0, user@).user_lock.last_lock_time_nanos
                &&& final(users_data)@ == old(users_data)@
            } else {
                match *q {
                    CollectBalanceQuest::icp_payout(iq) => if iq.icp.e8s == 0 {
                        &&& r matches Ok(CollectBalanceStep::Done(CollectBalanceSponse::icp_payout(Err(IcpPayoutError::InvalidIcpAmount))))
                        &&& m1 == spec_unlocked(ml, user@)
                    } else {
                        &&& r matches Ok(CollectBalanceStep::CheckIcpBalance)
                        &&& m1 == ml
                    },
                    CollectBalanceQuest::cycles_payout(cq) => {
                        let balance = spec_cycles_balance(m0, user@);
                        if cq.cycles == 0 {
                            &&& r matches Ok(CollectBalanceStep::Done(CollectBalanceSponse::cycles_payout(Err(CyclesPayoutError::InvalidCyclesAmount))))
                            &&& m1 == spec_unlocked(ml, user@)
                        } else if cq.cycles + CYCLES_TRANSFER_FEE > balance {
                            &&& r matches Ok(CollectBalanceStep::Done(CollectBalanceSponse::cycles_payout(Err(CyclesPayoutError::BalanceTooLow { max_cycles_payout }))))
                                && max_cycles_payout == balance - CYCLES_TRANSFER_FEE
                            &&& m1 == spec_unlocked(ml, user@)
                        } else {
                            &&& r matches Ok(CollectBalanceStep::CyclesTransfer { canister, cycles })
                                && canister@ == cq.payout_cycles_transfer_canister@ && cycles == cq.cycles as u64
                            &&& m1 == ml
                        }
                    },
                }
            }
        }),
{
    match check_lock_and_lock_user(users_data, user, now_nanos) {
        Err(e) => {
            return Err(e);
        },
        Ok(()) => {},
    }
    match q {
        CollectBalanceQuest::icp_payout(iq) => {
            match icp_payout_amount_check(iq.icp) {
                Err(e) => {
                    unlock_user(users_data, user);
                    Ok(CollectBalanceStep::Done(CollectBalanceSponse::icp_payout(Err(e))))
                },
                Ok(()) => Ok(CollectBalanceStep::CheckIcpBalance),
            }
        },
        CollectBalanceQuest::cycles_payout(cq) => {
            let balance: u128 = check_user_cycles_balance(users_data, user);
            match cycles_payout_check(cq.cycles, balance) {
                Err(e) => {
                    unlock_user(users_data, user);
                    Ok(CollectBalanceStep::Done(CollectBalanceSponse::cycles_payout(Err(e))))
                },
                Ok(()) => Ok(CollectBalanceStep::CyclesTransfer {
                    canister: cq.payout_cycles_transfer_canister.copy(),
                    cycles: #[verifier::truncate] (cq.cycles as u64),
                }),
            }
        },
    }
}

/// A cycles payout that `collect_balance_begin` lets through can be settled: the users as it
/// leaves them, with the user locked, meet what `collect_balance_apply` asks of the answer of
/// the cycles-transfer, whatever the canister answered, so long as it handed back no more
/// cycles than it was given.
pub proof fn lemma_a_cycles_payout_that_starts_can_be_settled(
    users: Map<Seq<u8>, UserData>,
    user: Seq<u8>,
    q: CollectBalanceQuest,
    now_nanos: u64,
    call: Result<u128, (RejectionCode, String)>,
)
    requires
        q is cycles_payout,
        spec_payout_cycles(q) + CYCLES_TRANSFER_FEE <= spec_cycles_balance(users, user),
        call matches Ok(refunded) ==> refunded <= spec_payout_cycles(q),
    ensures
        spec_collect_balance_event_fits(spec_locked_at(users, user, now_nanos), user, q, CollectBalanceEvent::CyclesTransfer(call)),
{
}

/// Takes `collect_balance` one step on, on what came back of the last one. Every answer unlocks
/// the user; a step that is not an answer changes nothing. The ICP balance is checked against
/// the ICP and its fees (refused, with the most that could be paid out, where it is too low);
/// the payout is made, then its fee taken, and a fee that could not be taken is kept as owed.
/// A cycles payout is settled as `cycles_payout_settle` says.
pub fn collect_balance_apply(users_data: &mut Vec<(Principal, UserData)>, user: &Principal, q: &CollectBalanceQuest, ev: CollectBalanceEvent) -> (r: CollectBalanceStep)
    requires
        keys_unique(old(users_data)@),
        spec_collect_balance_event_fits(assoc_map(old(users_data)@), user@, *q, ev),
    ensures
        keys_unique(final(users_data)@),
        r is Done ==> !spec_is_locked(assoc_map(final(users_data)@), user@),
        !(r is Done) ==> final(users_data)@ == old(users_data)@,
        ({
            let m0 = assoc_map(old(users_data)@);
            let m1 = assoc_map(final(users_data)@);
            let mu = spec_unlocked(m0, user@);
            let icp = spec_payout_icp(*q);
            match ev {
                CollectBalanceEvent::IcpBalance(Err(message)) => {
                    &&& r matches CollectBalanceStep::Done(CollectBalanceSponse::icp_payout(Err(IcpPayoutError::IcpLedgerCheckBalanceCallError(e)))) && e == message
                    &&& m1 == mu
                },
                CollectBalanceEvent::IcpBalance(Ok(balance)) => if icp.e8s + spec_icp_payout_fees() > balance.e8s {
                    &&& r matches CollectBalanceStep::Done(CollectBalanceSponse::icp_payout(Err(IcpPayoutError::BalanceTooLow { max_icp_payout })))
                        && max_icp_payout.e8s == spec_saturating_sub(balance.e8s as int, spec_icp_payout_fees())
                    &&& m1 == mu
                } else {
                    r matches CollectBalanceStep::IcpPayoutTransfer { transfer, to } && transfer.memo == ICP_PAYOUT_MEMO
                        && transfer.amount == icp && transfer.fee.e8s == ICP_LEDGER_TRANSFER_DEFAULT_FEE_E8S && to == spec_payout_icp_id(*q)
                },
                CollectBalanceEvent::IcpPayoutTransfer(Err(message)) => {
                    &&& r matches CollectBalanceStep::Done(CollectBalanceSponse::icp_payout(Err(IcpPayoutError::IcpLedgerTransferCallError(e)))) && e == message
                    &&& m1 == mu
                },
                CollectBalanceEvent::IcpPayoutTransfer(Ok(Err(transfer_error))) => {
                    &&& r matches CollectBalanceStep::Done(CollectBalanceSponse::icp_payout(Err(IcpPayoutError::IcpLedgerTransferError(e)))) && e == transfer_error
                    &&& m1 == mu
                },
                CollectBalanceEvent::IcpPayoutTransfer(Ok(Ok(block))) => {
                    r matches CollectBalanceStep::TakeIcpPayoutFee { transfer, payout_block } && payout_block == block
                        && transfer.memo == ICP_TAKE_PAYOUT_FEE_MEMO && transfer.amount.e8s == ICP_PAYOUT_FEE_E8S
                        && transfer.fee.e8s == ICP_LEDGER_TRANSFER_DEFAULT_FEE_E8S
                },
                CollectBalanceEvent::IcpPayoutFeeTransfer { payout_block, fee_taken } => {
                    &&& r matches CollectBalanceStep::Done(CollectBalanceSponse::icp_payout(Ok(b))) && b == payout_block
                    &&& m1 == if fee_taken { mu } else { spec_unlocked(spec_payout_fee_owed(m0, user@), user@) }
                },
                CollectBalanceEvent::CyclesTransfer(call) => {
                    let cycles = spec_payout_cycles(*q);
                    let d = mu[user@];
                    match call {
                        Ok(refunded) => {
                            &&& r matches CollectBalanceStep::Done(CollectBalanceSponse::cycles_payout(Ok(c))) && c == cycles - refunded
                            &&& m1 == mu.insert(user@, UserData { cycles_balance: (d.cycles_balance - (cycles - refunded) - CYCLES_TRANSFER_FEE) as u128, ..d })
                        },
                        Err((code, message)) => {
                            &&& r matches CollectBalanceStep::Done(CollectBalanceSponse::cycles_payout(Err(CyclesPayoutError::CyclesTransferCallError { call_error, paid_fee })))
                                && call_error@ == message@ && paid_fee == spec_fee_is_paid(code)
                            &&& m1 == if spec_fee_is_paid(code) {
                                    mu.insert(user@, UserData { cycles_balance: (d.cycles_balance - CYCLES_TRANSFER_FEE) as u128, ..d })
                                } else {
                                    mu
                                }
                        },
                    }
                },
            }
        }),
{
    match ev {
        CollectBalanceEvent::IcpBalance(Err(message)) => {
            unlock_user(users_data, user);
            CollectBalanceStep::Done(CollectBalanceSponse::icp_payout(Err(IcpPayoutError::IcpLedgerCheckBalanceCallError(message))))
        },
        CollectBalanceEvent::IcpBalance(Ok(balance)) => {
            match q {
                CollectBalanceQuest::icp_payout(iq) => {
                    match icp_payout_check(iq.icp, balance) {
                        Err(e) => {
                            unlock_user(users_data, user);
                            CollectBalanceStep::Done(CollectBalanceSponse::icp_payout(Err(e)))
                        },
                        Ok(()) => CollectBalanceStep::IcpPayoutTransfer {
                            transfer: IcpTransferFromUser {
                                memo: ICP_PAYOUT_MEMO,
                                amount: iq.icp,
                                fee: IcpTokens::from_e8s(ICP_LEDGER_TRANSFER_DEFAULT_FEE_E8S),
                            },
                            to: IcpId(iq.payout_icp_id.0),
                        },
                    }
                },
                CollectBalanceQuest::cycles_payout(_) => {
                    proof {
                        assert(false);
                    }
                    CollectBalanceStep::CheckIcpBalance
                },
            }
        },
        CollectBalanceEvent::IcpPayoutTransfer(Err(message)) => {
            unlock_user(users_data, user);
            CollectBalanceStep::Done(CollectBalanceSponse::icp_payout(Err(IcpPayoutError::IcpLedgerTransferCallError(message))))
        },
        CollectBalanceEvent::IcpPayoutTransfer(Ok(Err(transfer_error))) => {
            unlock_user(users_data, user);
            CollectBalanceStep::Done(CollectBalanceSponse::icp_payout(Err(IcpPayoutError::IcpLedgerTransferError(transfer_error))))
        },
        CollectBalanceEvent::IcpPayoutTransfer(Ok(Ok(block))) => {
            CollectBalanceStep::TakeIcpPayoutFee {
                transfer: IcpTransferFromUser {
                    memo: ICP_TAKE_PAYOUT_FEE_MEMO,
                    amount: IcpTokens::from_e8s(ICP_PAYOUT_FEE_E8S),
                    fee: IcpTokens::from_e8s(ICP_LEDGER_TRANSFER_DEFAULT_FEE_E8S),
                },
                payout_block: block,
            }
        },
        CollectBalanceEvent::IcpPayoutFeeTransfer { payout_block, fee_taken } => {
            if !fee_taken {
                icp_payout_fee_not_taken(users_data, user);
            }
            unlock_user(users_data, user);
            CollectBalanceStep::Done(CollectBalanceSponse::icp_payout(Ok(payout_block)))
        },
        CollectBalanceEvent::CyclesTransfer(call) => {
            match q {
                CollectBalanceQuest::cycles_payout(cq) => {
                    unlock_user(users_data, user);
                    let r: CyclesPayoutSponse = cycles_payout_settle(users_data, user, cq.cycles, call);
                    CollectBalanceStep::Done(CollectBalanceSponse::cycles_payout(r))
                },
                CollectBalanceQuest::icp_payout(_) => {
                    proof {
                        assert(false);
                    }
                    CollectBalanceStep::CheckIcpBalance
                },
            }
        },
    }
}

/// A request to burn ICP of the balance for cycles at the rate of the cycles-minting canister.
pub struct ConvertIcpBalanceForTheCyclesWithTheCmcRateQuest {
    pub icp: IcpTokens,
}

/// Why ICP of the balance was not burnt for cycles.
pub enum ConvertIcpBalanceForTheCyclesWithTheCmcRateError {
    CmcGetRateCallError(String),
    CmcGetRateCallSponseCandidDecodeError(String),
    TopUpCyclesIcpTransferCallError(String),
    TopUpCyclesIcpTransferError(IcpTransferError),
    TopUpCyclesIcpNotifyQuestCandidEncodeError { candid_error: String, topup_transfer_block_height: IcpBlockHeight },
    TopUpCyclesIcpNotifyCallError { notify_call_error: String, topup_transfer_block_height: IcpBlockHeight },
    TopUpCyclesIcpNotifySponseCandidDecodeError { candid_error: String, topup_transfer_block_height: IcpBlockHeight },
    TopUpCyclesIcpTransferRefund(String, Option<IcpBlockHeight>),
    UnknownIcpNotifySponse,
}

/// The answer of the ledger to a notify call.
pub enum CyclesSponse {
    CanisterCreated(Principal),
    ToppedUp(()),
    Refunded(String, Option<IcpBlockHeight>),
}

/// Settles the burning of ICP for cycles on the answer of the notify call: where the
/// cycles-minting canister topped up, the cycles are added to the user's balance and handed
/// back; a refund or an answer that made a canister is an error, and nothing changes.
pub fn convert_icp_balance_settle(users_data: &mut Vec<(Principal, UserData)>, user: &Principal, cycles: u128, sponse: CyclesSponse) -> (r: Result<u128, ConvertIcpBalanceForTheCyclesWithTheCmcRateError>)
    requires
        keys_unique(old(users_data)@),
        sponse is ToppedUp ==> spec_cycles_balance(assoc_map(old(users_data)@), user@) + cycles <= u128::MAX,
    ensures
        keys_unique(final(users_data)@),
        match sponse {
            CyclesSponse::ToppedUp(_) => {
                let d = spec_user_data(assoc_map(old(users_data)@), user@);
                &&& r == Ok::<u128, ConvertIcpBalanceForTheCyclesWithTheCmcRateError>(cycles)
                &&& assoc_map(final(users_data)@) == assoc_map(old(users_data)@).insert(user@,
                        UserData { cycles_balance: (d.cycles_balance + cycles) as u128, ..d })
            },
            CyclesSponse::Refunded(message, block) => {
                &&& r matches Err(ConvertIcpBalanceForTheCyclesWithTheCmcRateError::TopUpCyclesIcpTransferRefund(m, b))
                &&& m == message && b == block
                &&& final(users_data)@ == old(users_data)@
            },
            CyclesSponse::CanisterCreated(_) => {
                &&& r matches Err(ConvertIcpBalanceForTheCyclesWithTheCmcRateError::UnknownIcpNotifySponse)
                &&& final(users_data)@ == old(users_data)@
            },
        },
{
    match sponse {
        CyclesSponse::Refunded(refund_message, optional_refund_block_height) => {
            Err(ConvertIcpBalanceForTheCyclesWithTheCmcRateError::TopUpCyclesIcpTransferRefund(refund_message, optional_refund_block_height))
        },
        CyclesSponse::ToppedUp(_) => {
            let d: UserData = user_data_or_default(users_data, user);
            let new_data = UserData { cycles_balance: d.cycles_balance + cycles, ..d };
            update_user(users_data, user, new_data);
            Ok(cycles)
        },
        CyclesSponse::CanisterCreated(_) => {
            Err(ConvertIcpBalanceForTheCyclesWithTheCmcRateError::UnknownIcpNotifySponse)
        },
    }
}

/// What the cycles-minting canister answered when asked for its ICP/XDR rate.
pub enum CmcRateSponse {
    /// The rate, in ten-thousandths of an XDR per ICP.
    Rate(u64),
    CallError(String),
    CandidDecodeError(String),
}

/// What `convert_icp_balance_for_the_cycles_with_the_cmc_rate` does next.
pub enum ConvertIcpBalanceStep {
    /// Transfer ICP from the account of the user at the CTS to the account of the CTS at the
    /// cycles-minting canister; it buys `cycles` cycles.
    TopUpTransfer { transfer: IcpTransferFromUser, cycles: u128 },
    /// Notify the cycles-minting canister, through the ledger, of the transfer in `block`.
    Notify { block: IcpBlockHeight },
    /// The answer; the user is unlocked.
    Done(Result<u128, ConvertIcpBalanceForTheCyclesWithTheCmcRateError>),
}

/// What came of the notify call.
pub enum NotifyOutcome {
    QuestCandidEncodeError(String),
    CallError(String),
    SponseCandidDecodeError(String),
    Sponse(CyclesSponse),
}

/// What came back of the step that the conversion took.
pub enum ConvertIcpBalanceEvent {
    /// The block of the transfer, why the ledger refused it, or why it could not be called.
    TopUpTransfer(Result<Result<IcpBlockHeight, IcpTransferError>, String>),
    /// What came of the notify call of the transfer in `block`.
    Notify { block: IcpBlockHeight, outcome: NotifyOutcome },
}

/// Starts the burning of ICP of the balance for cycles, on the answer of the cycles-minting
/// canister to the question of its rate. Where it gave none, that is the answer, and nothing
/// changes. Otherwise the cycles that the ICP buys at the rate are counted, the user is locked,
/// and the transfer of the ICP is named.
pub fn convert_icp_balance_begin(users_data: &mut Vec<(Principal, UserData)>, user: &Principal, icp: IcpTokens, rate: CmcRateSponse, now_nanos: u64) -> (r: Result<ConvertIcpBalanceStep, UserIsLocked>)
    requires
        keys_unique(old(users_data)@),
        rate matches CmcRateSponse::Rate(x) ==> icp.e8s * x * CYCLES_PER_XDR <= u128::MAX,
    ensures
        keys_unique(final(users_data)@),
        ({
            let m0 = assoc_map(old(users_data)@);
            match rate {
                CmcRateSponse::CallError(message) => {
                    &&& r matches Ok(ConvertIcpBalanceStep::Done(Err(ConvertIcpBalanceForTheCyclesWithTheCmcRateError::CmcGetRateCallError(e)))) && e == message
                    &&& final(users_data)@ == old(users_data)@
                },
                CmcRateSponse::CandidDecodeError(message) => {
                    &&& r matches Ok(ConvertIcpBalanceStep::Done(Err(ConvertIcpBalanceForTheCyclesWithTheCmcRateError::CmcGetRateCallSponseCandidDecodeError(e)))) && e == message
                    &&& final(users_data)@ == old(users_data)@
                },
                CmcRateSponse::Rate(x) => if spec_is_locked(m0, user@) {
                    &&& r matches Err(e) && e.since_nanos == spec_user_data(m0, user@).user_lock.last_lock_time_nanos
                    &&& final(users_data)@ == old(users_data)@
                } else {
                    &&& r matches Ok(ConvertIcpBalanceStep::TopUpTransfer { transfer, cycles })
                        && transfer.memo == ICP_LEDGER_TOP_UP_CANISTER_MEMO && transfer.amount == icp
                        && transfer.fee.e8s == ICP_LEDGER_TRANSFER_DEFAULT_FEE_E8S
                        && cycles == spec_icp_to_cycles(icp.e8s as int, x as int)
                    &&& assoc_map(final(users_data)@) == spec_locked_at(m0, user@, now_nanos)
                },
            }
        }),
{
    match rate {
        CmcRateSponse::CallError(message) => {
            Ok(ConvertIcpBalanceStep::Done(Err(ConvertIcpBalanceForTheCyclesWithTheCmcRateError::CmcGetRateCallError(message))))
        },
        CmcRateSponse::CandidDecodeError(message) => {
            Ok(ConvertIcpBalanceStep::Done(Err(ConvertIcpBalanceForTheCyclesWithTheCmcRateError::CmcGetRateCallSponseCandidDecodeError(message))))
        },
        CmcRateSponse::Rate(xdr_permyriad_per_icp) => {
            let cycles: u128 = icptokens_to_cycles(icp, xdr_permyriad_per_icp);
            match check_lock_and_lock_user(users_data, user, now_nanos) {
                Err(e) => Err(e),
                Ok(()) => Ok(ConvertIcpBalanceStep::TopUpTransfer {
                    transfer: IcpTransferFromUser {
                        memo: ICP_LEDGER_TOP_UP_CANISTER_MEMO,
                        amount: icp,
                        fee: IcpTokens::from_e8s(ICP_LEDGER_TRANSFER_DEFAULT_FEE_E8S),
                    },
                    cycles,
                }),
            }
        },
    }
}

/// Takes the burning of `icp` ICP at the rate `xdr_permyriad_per_icp` one step on, on what
/// came back of the last one. Every answer unlocks the user; a step that is not an answer
/// changes nothing. Where the cycles-minting canister topped up, the cycles that the ICP buys
/// at the rate are added to the balance and handed back; any other outcome is an error, with
/// the block of the transfer where there was one, and the balance is left as it was.
pub fn convert_icp_balance_apply(users_data: &mut Vec<(Principal, UserData)>, user: &Principal, icp: IcpTokens, xdr_permyriad_per_icp: u64, ev: ConvertIcpBalanceEvent) -> (r: ConvertIcpBalanceStep)
    requires
        keys_unique(old(users_data)@),
        icp.e8s * xdr_permyriad_per_icp * CYCLES_PER_XDR <= u128::MAX,
        ev matches ConvertIcpBalanceEvent::Notify { outcome: NotifyOutcome::Sponse(CyclesSponse::ToppedUp(_)), .. }
            ==> spec_cycles_balance(assoc_map(old(users_data)@), user@) + spec_icp_to_cycles(icp.e8s as int, xdr_permyriad_per_icp as int) <= u128::MAX,
    ensures
        keys_unique(final(users_data)@),
        r is Done ==> !spec_is_locked(assoc_map(final(users_data)@), user@),
        !(r is Done) ==> final(users_data)@ == old(users_data)@,
        r matches ConvertIcpBalanceStep::Done(Ok(c)) ==> c == spec_icp_to_cycles(icp.e8s as int, xdr_permyriad_per_icp as int),
        ({
            let m0 = assoc_map(old(users_data)@);
            let m1 = assoc_map(final(users_data)@);
            let mu = spec_unlocked(m0, user@);
            match ev {
                ConvertIcpBalanceEvent::TopUpTransfer(Err(message)) => {
                    &&& r matches ConvertIcpBalanceStep::Done(Err(ConvertIcpBalanceForTheCyclesWithTheCmcRateError::TopUpCyclesIcpTransferCallError(e))) && e == message
                    &&& m1 == mu
                },
                ConvertIcpBalanceEvent::TopUpTransfer(Ok(Err(transfer_error))) => {
                    &&& r matches ConvertIcpBalanceStep::Done(Err(ConvertIcpBalanceForTheCyclesWithTheCmcRateError::TopUpCyclesIcpTransferError(e))) && e == transfer_error
                    &&& m1 == mu
                },
                ConvertIcpBalanceEvent::TopUpTransfer(Ok(Ok(b))) => {
                    r matches ConvertIcpBalanceStep::Notify { block } && block == b
                },
                ConvertIcpBalanceEvent::Notify { block, outcome } => match outcome {
                    NotifyOutcome::QuestCandidEncodeError(message) => {
                        &&& r matches ConvertIcpBalanceStep::Done(Err(ConvertIcpBalanceForTheCyclesWithTheCmcRateError::TopUpCyclesIcpNotifyQuestCandidEncodeError { candid_error, topup_transfer_block_height }))
                            && candid_error == message && topup_transfer_block_height == block
                        &&& m1 == mu
                    },
                    NotifyOutcome::CallError(message) => {
                        &&& r matches ConvertIcpBalanceStep::Done(Err(ConvertIcpBalanceForTheCyclesWithTheCmcRateError::TopUpCyclesIcpNotifyCallError { notify_call_error, topup_transfer_block_height }))
                            && notify_call_error == message && topup_transfer_block_height == block
                        &&& m1 == mu
                    },
                    NotifyOutcome::SponseCandidDecodeError(message) => {
                        &&& r matches ConvertIcpBalanceStep::Done(Err(ConvertIcpBalanceForTheCyclesWithTheCmcRateError::TopUpCyclesIcpNotifySponseCandidDecodeError { candid_error, topup_transfer_block_height }))
                            && candid_error == message && topup_transfer_block_height == block
                        &&& m1 == mu
                    },
                    NotifyOutcome::Sponse(CyclesSponse::ToppedUp(_)) => {
                        let d = spec_user_data(mu, user@);
                        let cycles = spec_icp_to_cycles(icp.e8s as int, xdr_permyriad_per_icp as int);
                        &&& r matches ConvertIcpBalanceStep::Done(Ok(c)) && c == cycles
                        &&& m1 == mu.insert(user@, UserData { cycles_balance: (d.cycles_balance + cycles) as u128, ..d })
                    },
                    NotifyOutcome::Sponse(CyclesSponse::Refunded(message, refund_block)) => {
                        &&& r matches ConvertIcpBalanceStep::Done(Err(ConvertIcpBalanceForTheCyclesWithTheCmcRateError::TopUpCyclesIcpTransferRefund(m, b)))
                            && m == message && b == refund_block
                        &&& m1 == mu
                    },
                    NotifyOutcome::Sponse(CyclesSponse::CanisterCreated(_)) => {
                        &&& r matches ConvertIcpBalanceStep::Done(Err(ConvertIcpBalanceForTheCyclesWithTheCmcRateError::UnknownIcpNotifySponse))
                        &&& m1 == mu
                    },
                },
            }
        }),
{
    match ev {
        ConvertIcpBalanceEvent::TopUpTransfer(Err(message)) => {
            unlock_user(users_data, user);
            ConvertIcpBalanceStep::Done(Err(ConvertIcpBalanceForTheCyclesWithTheCmcRateError::TopUpCyclesIcpTransferCallError(message)))
        },
        ConvertIcpBalanceEvent::TopUpTransfer(Ok(Err(transfer_error))) => {
            unlock_user(users_data, user);
            ConvertIcpBalanceStep::Done(Err(ConvertIcpBalanceForTheCyclesWithTheCmcRateError::TopUpCyclesIcpTransferError(transfer_error)))
        },
        ConvertIcpBalanceEvent::TopUpTransfer(Ok(Ok(block))) => ConvertIcpBalanceStep::Notify { block },
        ConvertIcpBalanceEvent::Notify { block, outcome } => {
            unlock_user(users_data, user);
            match outcome {
                NotifyOutcome::QuestCandidEncodeError(message) => ConvertIcpBalanceStep::Done(Err(
                    ConvertIcpBalanceForTheCyclesWithTheCmcRateError::TopUpCyclesIcpNotifyQuestCandidEncodeError { candid_error: message, topup_transfer_block_height: block },
                )),
                NotifyOutcome::CallError(message) => ConvertIcpBalanceStep::Done(Err(
                    ConvertIcpBalanceForTheCyclesWithTheCmcRateError::TopUpCyclesIcpNotifyCallError { notify_call_error: message, topup_transfer_block_height: block },
                )),
                NotifyOutcome::SponseCandidDecodeError(message) => ConvertIcpBalanceStep::Done(Err(
                    ConvertIcpBalanceForTheCyclesWithTheCmcRateError::TopUpCyclesIcpNotifySponseCandidDecodeError { candid_error: message, topup_transfer_block_height: block },
                )),
                NotifyOutcome::Sponse(sponse) => {
                    let cycles: u128 = icptokens_to_cycles(icp, xdr_permyriad_per_icp);
                    ConvertIcpBalanceStep::Done(convert_icp_balance_settle(users_data, user, cycles, sponse))
                },
            }
        },
    }
}

/// The names of the methods of the balances that an anonymous caller may not call, as bytes:
/// "topup_balance", "see_balance", "collect_balance" and
/// "convert_icp_balance_for_the_cycles_with_the_cmc_rate".
pub open spec fn spec_balance_method_names() -> Seq<Seq<u8>> {
    seq![
        TOPUP_BALANCE_METHOD_NAME@,
        SEE_BALANCE_METHOD_NAME@,
        COLLECT_BALANCE_METHOD_NAME@,
        CONVERT_ICP_BALANCE_METHOD_NAME@,
    ]
}

/// The bytes of "topup_balance".
pub const TOPUP_BALANCE_METHOD_NAME: [u8; 13] = [116, 111, 112, 117, 112, 95, 98, 97, 108, 97, 110, 99, 101];
/// The bytes of "see_balance".
pub const SEE_BALANCE_METHOD_NAME: [u8; 11] = [115, 101, 101, 95, 98, 97, 108, 97, 110, 99, 101];
/// The bytes of "collect_balance".
pub const COLLECT_BALANCE_METHOD_NAME: [u8; 15] = [99, 111, 108, 108, 101, 99, 116, 95, 98, 97, 108, 97, 110, 99, 101];
/// The bytes of "convert_icp_balance_for_the_cycles_with_the_cmc_rate".
pub const CONVERT_ICP_BALANCE_METHOD_NAME: [u8; 52] = [
    99, 111, 110, 118, 101, 114, 116, 95, 105, 99, 112, 95, 98, 97, 108, 97, 110, 99, 101, 95, 102, 111, 114, 95, 116, 104, 101, 95,
    99, 121, 99, 108, 101, 115, 95, 119, 105, 116, 104, 95, 116, 104, 101, 95, 99, 109, 99, 95, 114, 97, 116, 101,
];

/// Whether a message of `caller` for the method named by the bytes `method_name` is taken: an
/// anonymous caller may not call the methods of the balances.
pub fn canister_inspect_message(caller: &Principal, method_name: &[u8]) -> (accept: bool)
    ensures
        accept == !(caller@ == seq![4u8] && spec_balance_method_names().contains(method_name@)),
{
    let topup: [u8; 13] = TOPUP_BALANCE_METHOD_NAME;
    let see: [u8; 11] = SEE_BALANCE_METHOD_NAME;
    let collect: [u8; 15] = COLLECT_BALANCE_METHOD_NAME;
    let convert: [u8; 52] = CONVERT_ICP_BALANCE_METHOD_NAME;
    let is_balance_method: bool = crate::principal::bytes_eq(method_name, topup.as_slice())
        || crate::principal::bytes_eq(method_name, see.as_slice())
        || crate::principal::bytes_eq(method_name, collect.as_slice())
        || crate::principal::bytes_eq(method_name, convert.as_slice());
    proof {
        let names = spec_balance_method_names();
        if names.contains(method_name@) {
            let k = choose|k: int| 0 <= k < names.len() && names[k] == method_name@;
            assert(k == 0 || k == 1 || k == 2 || k == 3);
        }
        if is_balance_method {
            if method_name@ == TOPUP_BALANCE_METHOD_NAME@ {
                assert(names[0] == method_name@);
            } else if method_name@ == SEE_BALANCE_METHOD_NAME@ {
                assert(names[1] == method_name@);
            } else if method_name@ == COLLECT_BALANCE_METHOD_NAME@ {
                assert(names[2] == method_name@);
            } else {
                assert(names[3] == method_name@);
            }
        }
    }
    let anonymous: Principal = Principal::anonymous();
    !(caller.same_as(&anonymous) && is_balance_method)
}

} // verus!
