//! A user burns ICP for cycles: the ICP goes from the user's subaccount to the
//! cycles-minting canister, the cycles it mints go, less the fee of the CTS, to the user's
//! user-canister. Each step is a call to another canister; what each step needs, and what its
//! answer makes of the progress and the state, is decided here. The progress is kept in the
//! state between calls, so that a call that stopped in the middle can be made again.

use vstd::prelude::*;
use crate::principal::{Principal, IcpIdSub, principal_icp_subaccount, spec_principal_subaccount};
use crate::assoc::{assoc_map, assoc_find, lemma_assoc_map_at, lemma_assoc_map_len, lemma_assoc_push, lemma_assoc_update, lemma_assoc_remove};
use crate::ledger::{IcpTokens, IcpBlockHeight, ICP_LEDGER_TRANSFER_DEFAULT_FEE_E8S};
use crate::tools::{Cycles, CallError};
use crate::types::{UserId, UserCanisterId, CyclesTransfer, CyclesTransferMemo};
use crate::cts_canister::controller::CtsTrap;
use crate::cts_canister::data::{
    CtsState, CTSData, UserBurnIcpMintCyclesQuest, UserBurnIcpMintCyclesData, UserBurnIcpMintCyclesError,
    UserBurnIcpMintCyclesMidCallError, UserBurnIcpMintCyclesSuccess, FindUserInTheUsersMapCanistersError,
    LedgerTopupCyclesCmcIcpTransferError, LedgerTopupCyclesCmcNotifyError, MAX_USERS_BURN_ICP_MINT_CYCLES,
    MINIMUM_USER_BURN_ICP_MINT_CYCLES_E8S, USER_BURN_ICP_MINT_CYCLES_FEE,
};

verus! {

/// The two progress records are the same, the user-canister taken by its bytes.
pub open spec fn burn_data_same(a: UserBurnIcpMintCyclesData, b: UserBurnIcpMintCyclesData) -> bool {
    &&& a.start_time_nanos == b.start_time_nanos
    &&& a.lock == b.lock
    &&& a.user_burn_icp_mint_cycles_quest == b.user_burn_icp_mint_cycles_quest
    &&& a.user_canister_id@ == b.user_canister_id@
    &&& a.user_burn_icp_mint_cycles_fee == b.user_burn_icp_mint_cycles_fee
    &&& a.cmc_icp_transfer_block_height == b.cmc_icp_transfer_block_height
    &&& a.cmc_cycles == b.cmc_cycles
    &&& a.call_user_canister_cycles_transfer_refund == b.call_user_canister_cycles_transfer_refund
    &&& a.call_management_canister_posit_cycles == b.call_management_canister_posit_cycles
}

/// A copy of the progress of a user that burns ICP.
pub fn copy_burn_data(d: &UserBurnIcpMintCyclesData) -> (c: UserBurnIcpMintCyclesData)
    ensures
        burn_data_same(c, *d),
{
    UserBurnIcpMintCyclesData {
        start_time_nanos: d.start_time_nanos,
        lock: d.lock,
        user_burn_icp_mint_cycles_quest: d.user_burn_icp_mint_cycles_quest,
        user_canister_id: d.user_canister_id.copy(),
        user_burn_icp_mint_cycles_fee: d.user_burn_icp_mint_cycles_fee,
        cmc_icp_transfer_block_height: d.cmc_icp_transfer_block_height,
        cmc_cycles: d.cmc_cycles,
        call_user_canister_cycles_transfer_refund: d.call_user_canister_cycles_transfer_refund,
        call_management_canister_posit_cycles: d.call_management_canister_posit_cycles,
    }
}

/// The users that burn ICP in a state, as a map from the bytes of each user to its progress.
pub open spec fn burns_map(s: CtsState) -> Map<Seq<u8>, UserBurnIcpMintCyclesData> {
    assoc_map(s.cts_data.users_burn_icp_mint_cycles@)
}

/// The state `s1` is `s0` but for its users that burn ICP.
pub open spec fn only_burns_changed(s0: CtsState, s1: CtsState) -> bool {
    s1 == CtsState {
        cts_data: CTSData { users_burn_icp_mint_cycles: s1.cts_data.users_burn_icp_mint_cycles, ..s0.cts_data },
        ..s0
    }
}

/// The state `s1` is `s0` where the progress of `user`, if `s0` has one, is `d`.
pub open spec fn burn_written(s0: CtsState, s1: CtsState, user: Seq<u8>, d: UserBurnIcpMintCyclesData) -> bool {
    let m = burns_map(s0);
    &&& only_burns_changed(s0, s1)
    &&& burns_map(s1) == (if m.dom().contains(user) { m.insert(user, d) } else { m })
}

/// The state `s1` is `s0` without the progress of `user`.
pub open spec fn burn_taken_out(s0: CtsState, s1: CtsState, user: Seq<u8>) -> bool {
    &&& only_burns_changed(s0, s1)
    &&& burns_map(s1) == burns_map(s0).remove(user)
}

fn write_burn_data(state: &mut CtsState, user_id: &UserId, d: UserBurnIcpMintCyclesData)
    requires
        old(state).wf(),
    ensures
        final(state).wf(),
        burn_written(*old(state), *final(state), user_id@, d),
{
    let ghost s0 = state.cts_data.users_burn_icp_mint_cycles@;
    match assoc_find(&state.cts_data.users_burn_icp_mint_cycles, user_id) {
        Some(i) => {
            let key: UserId = user_id.copy();
            proof {
                lemma_assoc_update(s0, i as int, key, d);
            }
            state.cts_data.users_burn_icp_mint_cycles.set(i, (key, d));
        },
        None => {},
    }
}

fn take_out_burn(state: &mut CtsState, user_id: &UserId)
    requires
        old(state).wf(),
    ensures
        final(state).wf(),
        burn_taken_out(*old(state), *final(state), user_id@),
{
    let ghost s0 = state.cts_data.users_burn_icp_mint_cycles@;
    match assoc_find(&state.cts_data.users_burn_icp_mint_cycles, user_id) {
        Some(i) => {
            proof {
                lemma_assoc_remove(s0, i as int);
            }
            state.cts_data.users_burn_icp_mint_cycles.remove(i);
        },
        None => {
            assert(assoc_map(s0).remove(user_id@) =~= assoc_map(s0));
        },
    }
}

/// Where the state has a progress for the user: refuses while it is locked, or where the
/// request differs from the one it was made with; otherwise locks it and hands back a copy.
/// Where the state has none, `None`.
fn lock_burn(state: &mut CtsState, user_id: &UserId, q: UserBurnIcpMintCyclesQuest) -> (r: Option<Result<UserBurnIcpMintCyclesData, UserBurnIcpMintCyclesError>>)
    requires
        old(state).wf(),
    ensures
        final(state).wf(),
        ({
            let m = burns_map(*old(state));
            if !m.dom().contains(user_id@) {
                r is None && *final(state) == *old(state)
            } else if m[user_id@].lock {
                r == Some(Err::<UserBurnIcpMintCyclesData, UserBurnIcpMintCyclesError>(
                    UserBurnIcpMintCyclesError::UserIsInTheMiddleOfAnotherUserBurnIcpMintCyclesCall))
                    && *final(state) == *old(state)
            } else if q != m[user_id@].user_burn_icp_mint_cycles_quest {
                r == Some(Err::<UserBurnIcpMintCyclesData, UserBurnIcpMintCyclesError>(
                    UserBurnIcpMintCyclesError::CompleteCallWithTheAlreadySetParameters(m[user_id@].user_burn_icp_mint_cycles_quest)))
                    && *final(state) == *old(state)
            } else {
                &&& r matches Some(Ok(d))
                &&& burn_data_same(d, UserBurnIcpMintCyclesData { lock: true, ..m[user_id@] })
                &&& burn_written(*old(state), *final(state), user_id@, UserBurnIcpMintCyclesData { lock: true, ..m[user_id@] })
            }
        }),
{
    let ghost s0 = state.cts_data.users_burn_icp_mint_cycles@;
    match assoc_find(&state.cts_data.users_burn_icp_mint_cycles, user_id) {
        None => None,
        Some(i) => {
            proof {
                lemma_assoc_map_at(s0, i as int);
            }
            if state.cts_data.users_burn_icp_mint_cycles[i].1.lock {
                return Some(Err(UserBurnIcpMintCyclesError::UserIsInTheMiddleOfAnotherUserBurnIcpMintCyclesCall));
            }
            let set_quest: UserBurnIcpMintCyclesQuest = state.cts_data.users_burn_icp_mint_cycles[i].1.user_burn_icp_mint_cycles_quest;
            if q.burn_icp.e8s != set_quest.burn_icp.e8s {
                return Some(Err(UserBurnIcpMintCyclesError::CompleteCallWithTheAlreadySetParameters(set_quest)));
            }
            let (key, mut d) = state.cts_data.users_burn_icp_mint_cycles.remove(i);
            d.lock = true;
            let c: UserBurnIcpMintCyclesData = copy_burn_data(&d);
            proof {
                lemma_assoc_update(s0, i as int, key, d);
                assert(s0.remove(i as int).insert(i as int, (key, d)) =~= s0.update(i as int, (key, d)));
            }
            state.cts_data.users_burn_icp_mint_cycles.insert(i, (key, d));
            Some(Ok(c))
        },
    }
}

/// How a call of a user to burn ICP for cycles begins.
pub enum UserBurnIcpMintCyclesBegin {
    /// The user has a progress, now locked for this call: the steps go on from it.
    Resume(UserBurnIcpMintCyclesData),
    /// The burn is new: the user's ICP balance is to be fetched and handed to
    /// `user_burn_icp_mint_cycles_check_balance`.
    CheckBalance,
    /// The call ends with this error.
    Refuse(UserBurnIcpMintCyclesError),
    /// The call traps.
    Trap(CtsTrap),
}

/// The first decision of a call of `user` to burn ICP for cycles with the request `q`, taking
/// the state `s0` to `s1`: a burn with a progress goes on from it, unless another call holds
/// it or the request differs; a new burn must reach the minimum, and its balance is fetched
/// first, unless the CTS stops taking calls.
pub open spec fn spec_burn_begin(s0: CtsState, s1: CtsState, user: Seq<u8>, q: UserBurnIcpMintCyclesQuest, b: UserBurnIcpMintCyclesBegin) -> bool {
    let m = burns_map(s0);
    if !m.dom().contains(user) {
        &&& s1 == s0
        &&& if s0.stop_calls {
                b == UserBurnIcpMintCyclesBegin::Trap(CtsTrap::Maintenance)
            } else if q.burn_icp.e8s < MINIMUM_USER_BURN_ICP_MINT_CYCLES_E8S {
                b == UserBurnIcpMintCyclesBegin::Refuse(UserBurnIcpMintCyclesError::MinimumUserBurnIcpMintCycles {
                    minimum_user_burn_icp_mint_cycles: IcpTokens { e8s: MINIMUM_USER_BURN_ICP_MINT_CYCLES_E8S },
                })
            } else {
                b == UserBurnIcpMintCyclesBegin::CheckBalance
            }
    } else if m[user].lock {
        &&& b == UserBurnIcpMintCyclesBegin::Refuse(UserBurnIcpMintCyclesError::UserIsInTheMiddleOfAnotherUserBurnIcpMintCyclesCall)
        &&& s1 == s0
    } else if q != m[user].user_burn_icp_mint_cycles_quest {
        &&& b == UserBurnIcpMintCyclesBegin::Refuse(UserBurnIcpMintCyclesError::CompleteCallWithTheAlreadySetParameters(
                m[user].user_burn_icp_mint_cycles_quest))
        &&& s1 == s0
    } else {
        &&& b matches UserBurnIcpMintCyclesBegin::Resume(d)
        &&& burn_data_same(d, UserBurnIcpMintCyclesData { lock: true, ..m[user] })
        &&& burn_written(s0, s1, user, UserBurnIcpMintCyclesData { lock: true, ..m[user] })
    }
}

/// The first decision of a call of `user_id` to burn ICP for cycles with the request `q`.
pub fn user_burn_icp_mint_cycles_begin(state: &mut CtsState, user_id: &UserId, q: UserBurnIcpMintCyclesQuest) -> (b: UserBurnIcpMintCyclesBegin)
    requires
        old(state).wf(),
    ensures
        final(state).wf(),
        spec_burn_begin(*old(state), *final(state), user_id@, q, b),
{
    match lock_burn(state, user_id, q) {
        Some(Ok(d)) => UserBurnIcpMintCyclesBegin::Resume(d),
        Some(Err(e)) => UserBurnIcpMintCyclesBegin::Refuse(e),
        None => {
            if state.stop_calls {
                UserBurnIcpMintCyclesBegin::Trap(CtsTrap::Maintenance)
            } else if q.burn_icp.e8s() < MINIMUM_USER_BURN_ICP_MINT_CYCLES_E8S {
                UserBurnIcpMintCyclesBegin::Refuse(UserBurnIcpMintCyclesError::MinimumUserBurnIcpMintCycles {
                    minimum_user_burn_icp_mint_cycles: IcpTokens::from_e8s(MINIMUM_USER_BURN_ICP_MINT_CYCLES_E8S),
                })
            } else {
                UserBurnIcpMintCyclesBegin::CheckBalance
            }
        },
    }
}

/// After `user_burn_icp_mint_cycles_begin` asked for it: whether the user's ICP balance (or
/// why it could not be had) pays for the burn and a ledger fee. Where it does, the user's
/// user-canister is to be looked for and handed to `user_burn_icp_mint_cycles_register`.
pub fn user_burn_icp_mint_cycles_check_balance(q: UserBurnIcpMintCyclesQuest, balance: Result<IcpTokens, CallError>) -> (r: Result<(), UserBurnIcpMintCyclesError>)
    requires
        q.burn_icp.e8s + ICP_LEDGER_TRANSFER_DEFAULT_FEE_E8S <= u64::MAX,
    ensures
        match balance {
            Err(e) => r == Err::<(), UserBurnIcpMintCyclesError>(UserBurnIcpMintCyclesError::IcpCheckBalanceCallError(e)),
            Ok(b) => if b.e8s < q.burn_icp.e8s + ICP_LEDGER_TRANSFER_DEFAULT_FEE_E8S {
                r == Err::<(), UserBurnIcpMintCyclesError>(UserBurnIcpMintCyclesError::UserIcpBalanceTooLow {
                    user_icp_balance: b,
                    icp_ledger_transfer_fee: IcpTokens { e8s: ICP_LEDGER_TRANSFER_DEFAULT_FEE_E8S },
                })
            } else {
                r is Ok
            },
        },
{
    match balance {
        Err(e) => Err(UserBurnIcpMintCyclesError::IcpCheckBalanceCallError(e)),
        Ok(b) => {
            if b.e8s() < q.burn_icp.e8s() + ICP_LEDGER_TRANSFER_DEFAULT_FEE_E8S {
                Err(UserBurnIcpMintCyclesError::UserIcpBalanceTooLow {
                    user_icp_balance: b,
                    icp_ledger_transfer_fee: IcpTokens::from_e8s(ICP_LEDGER_TRANSFER_DEFAULT_FEE_E8S),
                })
            } else {
                Ok(())
            }
        },
    }
}

/// The progress of a burn that was just registered, at `now_nanos`, with the request `q`, for
/// the user-canister `uc`: locked, with the current fee, and no step done.
pub open spec fn spec_fresh_burn_data(now_nanos: u64, q: UserBurnIcpMintCyclesQuest, uc: UserCanisterId) -> UserBurnIcpMintCyclesData {
    UserBurnIcpMintCyclesData {
        start_time_nanos: now_nanos,
        lock: true,
        user_burn_icp_mint_cycles_quest: q,
        user_canister_id: uc,
        user_burn_icp_mint_cycles_fee: USER_BURN_ICP_MINT_CYCLES_FEE,
        cmc_icp_transfer_block_height: None,
        cmc_cycles: None,
        call_user_canister_cycles_transfer_refund: None,
        call_management_canister_posit_cycles: false,
    }
}

/// Given where the user-canister of the user was looked for (or why it could not be), registers
/// the burn at `now_nanos`, unless another call registered it in the meantime or the map of
/// burns is full.
pub fn user_burn_icp_mint_cycles_register(
    state: &mut CtsState,
    user_id: &UserId,
    q: UserBurnIcpMintCyclesQuest,
    found: Result<Option<UserCanisterId>, FindUserInTheUsersMapCanistersError>,
    now_nanos: u64,
) -> (r: Result<UserBurnIcpMintCyclesData, UserBurnIcpMintCyclesError>)
    requires
        old(state).wf(),
    ensures
        final(state).wf(),
        match found {
            Err(e) => r == Err::<UserBurnIcpMintCyclesData, UserBurnIcpMintCyclesError>(
                UserBurnIcpMintCyclesError::FindUserInTheUsersMapCanistersError(e)) && *final(state) == *old(state),
            Ok(None) => r == Err::<UserBurnIcpMintCyclesData, UserBurnIcpMintCyclesError>(
                UserBurnIcpMintCyclesError::UserCanisterNotFound) && *final(state) == *old(state),
            Ok(Some(uc)) => {
                let m = burns_map(*old(state));
                if m.dom().contains(user_id@) {
                    if m[user_id@].lock {
                        r == Err::<UserBurnIcpMintCyclesData, UserBurnIcpMintCyclesError>(
                            UserBurnIcpMintCyclesError::UserIsInTheMiddleOfAnotherUserBurnIcpMintCyclesCall)
                            && *final(state) == *old(state)
                    } else if q != m[user_id@].user_burn_icp_mint_cycles_quest {
                        r == Err::<UserBurnIcpMintCyclesData, UserBurnIcpMintCyclesError>(
                            UserBurnIcpMintCyclesError::CompleteCallWithTheAlreadySetParameters(m[user_id@].user_burn_icp_mint_cycles_quest))
                            && *final(state) == *old(state)
                    } else {
                        &&& r matches Ok(d)
                        &&& burn_data_same(d, UserBurnIcpMintCyclesData { lock: true, ..m[user_id@] })
                        &&& burn_written(*old(state), *final(state), user_id@, UserBurnIcpMintCyclesData { lock: true, ..m[user_id@] })
                    }
                } else if m.dom().len() >= MAX_USERS_BURN_ICP_MINT_CYCLES {
                    r == Err::<UserBurnIcpMintCyclesData, UserBurnIcpMintCyclesError>(
                        UserBurnIcpMintCyclesError::MaxUsersBurnIcpMintCycles) && *final(state) == *old(state)
                } else {
                    &&& r == Ok::<UserBurnIcpMintCyclesData, UserBurnIcpMintCyclesError>(spec_fresh_burn_data(now_nanos, q, uc))
                    &&& only_burns_changed(*old(state), *final(state))
                    &&& burns_map(*final(state)).dom() == m.dom().insert(user_id@)
                    &&& burns_map(*final(state)).remove(user_id@) == m
                    &&& burn_data_same(burns_map(*final(state))[user_id@], spec_fresh_burn_data(now_nanos, q, uc))
                }
            },
        },
{
    let uc: UserCanisterId = match found {
        Err(e) => {
            return Err(UserBurnIcpMintCyclesError::FindUserInTheUsersMapCanistersError(e));
        },
        Ok(None) => {
            return Err(UserBurnIcpMintCyclesError::UserCanisterNotFound);
        },
        Ok(Some(uc)) => uc,
    };
    match lock_burn(state, user_id, q) {
        Some(res) => {
            return res;
        },
        None => {},
    }
    let ghost s0 = state.cts_data.users_burn_icp_mint_cycles@;
    proof {
        lemma_assoc_map_len(s0);
    }
    if state.cts_data.users_burn_icp_mint_cycles.len() >= MAX_USERS_BURN_ICP_MINT_CYCLES {
        return Err(UserBurnIcpMintCyclesError::MaxUsersBurnIcpMintCycles);
    }
    let stored = UserBurnIcpMintCyclesData {
        start_time_nanos: now_nanos,
        lock: true,
        user_burn_icp_mint_cycles_quest: q,
        user_canister_id: uc.copy(),
        user_burn_icp_mint_cycles_fee: USER_BURN_ICP_MINT_CYCLES_FEE,
        cmc_icp_transfer_block_height: None,
        cmc_cycles: None,
        call_user_canister_cycles_transfer_refund: None,
        call_management_canister_posit_cycles: false,
    };
    let returned = UserBurnIcpMintCyclesData {
        start_time_nanos: now_nanos,
        lock: true,
        user_burn_icp_mint_cycles_quest: q,
        user_canister_id: uc,
        user_burn_icp_mint_cycles_fee: USER_BURN_ICP_MINT_CYCLES_FEE,
        cmc_icp_transfer_block_height: None,
        cmc_cycles: None,
        call_user_canister_cycles_transfer_refund: None,
        call_management_canister_posit_cycles: false,
    };
    let key: UserId = user_id.copy();
    proof {
        lemma_assoc_push(s0, key, stored);
    }
    state.cts_data.users_burn_icp_mint_cycles.push((key, stored));
    proof {
        let m = assoc_map(s0);
        let m1 = assoc_map(state.cts_data.users_burn_icp_mint_cycles@);
        assert(m1 =~= m.insert(user_id@, stored));
        assert(m1.dom() =~= m.dom().insert(user_id@));
        assert(m1.remove(user_id@) =~= m);
    }
    Ok(returned)
}

/// The cycles that go to the user of the `cmc_cycles` that were minted, where the fee of the
/// CTS is `fee`: all of them less the fee, or all of them where they do not reach the fee.
pub open spec fn spec_cycles_for_the_user(cmc_cycles: Cycles, fee: Cycles) -> Cycles {
    if cmc_cycles >= fee { (cmc_cycles - fee) as Cycles } else { cmc_cycles }
}

/// The fee that the CTS takes of the `cmc_cycles` that were minted: the fee, or nothing where
/// the cycles do not reach it.
pub open spec fn spec_cts_fee_taken(cmc_cycles: Cycles, fee: Cycles) -> Cycles {
    if cmc_cycles >= fee { fee } else { 0 }
}

/// The cycles that go to the user and the fee that the CTS takes add up to the cycles that
/// were minted: none are lost and none are made.
pub proof fn lemma_burn_cycles_conserved(cmc_cycles: Cycles, fee: Cycles)
    ensures
        spec_cycles_for_the_user(cmc_cycles, fee) + spec_cts_fee_taken(cmc_cycles, fee) == cmc_cycles,
        spec_cts_fee_taken(cmc_cycles, fee) <= fee,
{
}

/// The cycles that go to the user.
pub fn cycles_for_the_user(cmc_cycles: Cycles, fee: Cycles) -> (c: Cycles)
    ensures
        c == spec_cycles_for_the_user(cmc_cycles, fee),
{
    match cmc_cycles.checked_sub(fee) {
        Some(c) => c,
        None => cmc_cycles,
    }
}

/// The memo of the cycles that a burn gives the user: the bytes of "CTS-BURN-ICP-MINT-CYCLES".
pub const BURN_ICP_MINT_CYCLES_MEMO: [u8; 24] = [
    67, 84, 83, 45, 66, 85, 82, 78, 45, 73, 67, 80, 45, 77, 73, 78, 84, 45, 67, 89, 67, 76, 69, 83,
];

/// The cycles transfer carries the memo of a burn.
pub open spec fn is_burn_cycles_transfer(ct: CyclesTransfer) -> bool {
    ct.memo matches CyclesTransferMemo::Blob(b) && b@ == BURN_ICP_MINT_CYCLES_MEMO@
}

/// A step of a burn: the call to make, with what it is made with; or the end of the call.
pub enum UserBurnIcpMintCyclesStep {
    /// Send the ICP from the user's subaccount to the cycles-minting canister, to top up the
    /// CTS.
    CmcIcpTransfer { amount: IcpTokens, from_subaccount: IcpIdSub },
    /// Ask the cycles-minting canister for the cycles of that transfer.
    CmcNotify { block_index: IcpBlockHeight },
    /// Send the user's cycles to its user-canister with a `cycles_transfer` call.
    CyclesTransferToTheUserCanister { canister_id: Principal, cycles_transfer: CyclesTransfer, cycles: Cycles },
    /// Deposit the cycles that the user-canister sent back onto it with the management
    /// canister.
    DepositCycles { canister_id: Principal, cycles: Cycles },
    /// All the steps are done: the progress is to be handed to
    /// `user_burn_icp_mint_cycles_complete`.
    Finish,
}

/// The next step of the burn of `user_id` with the progress `d`.
pub fn user_burn_icp_mint_cycles_next_step(user_id: &UserId, d: &UserBurnIcpMintCyclesData) -> (step: UserBurnIcpMintCyclesStep)
    ensures
        match d.cmc_icp_transfer_block_height {
            None => step matches UserBurnIcpMintCyclesStep::CmcIcpTransfer { amount, from_subaccount }
                && amount == d.user_burn_icp_mint_cycles_quest.burn_icp
                && from_subaccount.0@ == spec_principal_subaccount(user_id@),
            Some(h) => match d.cmc_cycles {
                None => step == UserBurnIcpMintCyclesStep::CmcNotify { block_index: h },
                Some(c) => match d.call_user_canister_cycles_transfer_refund {
                    None => step matches UserBurnIcpMintCyclesStep::CyclesTransferToTheUserCanister { canister_id, cycles_transfer, cycles }
                        && canister_id@ == d.user_canister_id@
                        && is_burn_cycles_transfer(cycles_transfer)
                        && cycles == spec_cycles_for_the_user(c, d.user_burn_icp_mint_cycles_fee),
                    Some(refund) => if refund != 0 && !d.call_management_canister_posit_cycles {
                        step matches UserBurnIcpMintCyclesStep::DepositCycles { canister_id, cycles }
                            && canister_id@ == d.user_canister_id@ && cycles == refund
                    } else {
                        step == UserBurnIcpMintCyclesStep::Finish
                    },
                },
            },
        },
{
    let h: IcpBlockHeight = match d.cmc_icp_transfer_block_height {
        None => {
            return UserBurnIcpMintCyclesStep::CmcIcpTransfer {
                amount: d.user_burn_icp_mint_cycles_quest.burn_icp,
                from_subaccount: principal_icp_subaccount(user_id),
            };
        },
        Some(h) => h,
    };
    let c: Cycles = match d.cmc_cycles {
        None => {
            return UserBurnIcpMintCyclesStep::CmcNotify { block_index: h };
        },
        Some(c) => c,
    };
    match d.call_user_canister_cycles_transfer_refund {
        None => {
            let memo: [u8; 24] = BURN_ICP_MINT_CYCLES_MEMO;
            UserBurnIcpMintCyclesStep::CyclesTransferToTheUserCanister {
                canister_id: d.user_canister_id.copy(),
                cycles_transfer: CyclesTransfer { memo: CyclesTransferMemo::Blob(vstd::slice::slice_to_vec(memo.as_slice())) },
                cycles: cycles_for_the_user(c, d.user_burn_icp_mint_cycles_fee),
            }
        },
        Some(refund) => {
            if refund != 0 && !d.call_management_canister_posit_cycles {
                UserBurnIcpMintCyclesStep::DepositCycles { canister_id: d.user_canister_id.copy(), cycles: refund }
            } else {
                UserBurnIcpMintCyclesStep::Finish
            }
        },
    }
}

/// What the call of a step answered.
pub enum UserBurnIcpMintCyclesEvent {
    CmcIcpTransfer(Result<IcpBlockHeight, LedgerTopupCyclesCmcIcpTransferError>),
    CmcNotify(Result<Cycles, LedgerTopupCyclesCmcNotifyError>),
    /// The argument of the `cycles_transfer` call could not be encoded.
    CyclesTransferCandidEncodeError(String),
    /// The `cycles_transfer` call could not be made.
    CyclesTransferCallPerformError(CallError),
    /// The `cycles_transfer` call was made; the user-canister sent back these cycles.
    CyclesTransferRefund(Cycles),
    DepositCycles(Result<(), CallError>),
}

/// The call stopped in the middle with `err`: the progress `d`, unlocked, is written back
/// where the state still has the user, and `r` is the error that the call ends with.
pub open spec fn burn_paused(
    s0: CtsState,
    s1: CtsState,
    user: Seq<u8>,
    d: UserBurnIcpMintCyclesData,
    err: UserBurnIcpMintCyclesMidCallError,
    r: Result<UserBurnIcpMintCyclesData, UserBurnIcpMintCyclesError>,
) -> bool {
    &&& r == Err::<UserBurnIcpMintCyclesData, UserBurnIcpMintCyclesError>(UserBurnIcpMintCyclesError::MidCallError(err))
    &&& burn_written(s0, s1, user, UserBurnIcpMintCyclesData { lock: false, ..d })
}

/// The call goes on with the progress `d`, and the state stays.
pub open spec fn burn_goes_on(s0: CtsState, s1: CtsState, d: UserBurnIcpMintCyclesData, r: Result<UserBurnIcpMintCyclesData, UserBurnIcpMintCyclesError>) -> bool {
    r == Ok::<UserBurnIcpMintCyclesData, UserBurnIcpMintCyclesError>(d) && s1 == s0
}

fn burn_pause(state: &mut CtsState, user_id: &UserId, d: UserBurnIcpMintCyclesData, err: UserBurnIcpMintCyclesMidCallError) -> (r: Result<UserBurnIcpMintCyclesData, UserBurnIcpMintCyclesError>)
    requires
        old(state).wf(),
    ensures
        final(state).wf(),
        burn_paused(*old(state), *final(state), user_id@, d, err, r),
{
    let mut d = d;
    d.lock = false;
    write_burn_data(state, user_id, d);
    Err(UserBurnIcpMintCyclesError::MidCallError(err))
}

/// What the answer of a step makes of the progress `d` of the burn of `user_id` and of the
/// state: the progress to go on with, or the error that the call ends with. Where the ICP
/// could not be sent, the burn is taken out; any other failure stops the call and keeps the
/// progress.
pub fn user_burn_icp_mint_cycles_apply(
    state: &mut CtsState,
    user_id: &UserId,
    d: UserBurnIcpMintCyclesData,
    event: UserBurnIcpMintCyclesEvent,
) -> (r: Result<UserBurnIcpMintCyclesData, UserBurnIcpMintCyclesError>)
    requires
        old(state).wf(),
    ensures
        final(state).wf(),
        ({
            let s0 = *old(state);
            let s1 = *final(state);
            let u = user_id@;
            match event {
                UserBurnIcpMintCyclesEvent::CmcIcpTransfer(res) => match res {
                    Ok(h) => burn_goes_on(s0, s1, UserBurnIcpMintCyclesData { cmc_icp_transfer_block_height: Some(h), ..d }, r),
                    Err(e) => r == Err::<UserBurnIcpMintCyclesData, UserBurnIcpMintCyclesError>(
                        UserBurnIcpMintCyclesError::LedgerTopupCyclesCmcIcpTransferError(e)) && burn_taken_out(s0, s1, u),
                },
                UserBurnIcpMintCyclesEvent::CmcNotify(res) => match res {
                    Ok(c) => burn_goes_on(s0, s1, UserBurnIcpMintCyclesData { cmc_cycles: Some(c), ..d }, r),
                    Err(e) => burn_paused(s0, s1, u, d, UserBurnIcpMintCyclesMidCallError::LedgerTopupCyclesCmcNotifyError(e), r),
                },
                UserBurnIcpMintCyclesEvent::CyclesTransferCandidEncodeError(e) =>
                    burn_paused(s0, s1, u, d, UserBurnIcpMintCyclesMidCallError::CallUserCanisterCyclesTransferCandidEncodeError(e), r),
                UserBurnIcpMintCyclesEvent::CyclesTransferCallPerformError(e) =>
                    burn_paused(s0, s1, u, d, UserBurnIcpMintCyclesMidCallError::CallUserCanisterCallPerformError(e), r),
                UserBurnIcpMintCyclesEvent::CyclesTransferRefund(refund) =>
                    burn_goes_on(s0, s1, UserBurnIcpMintCyclesData { call_user_canister_cycles_transfer_refund: Some(refund), ..d }, r),
                UserBurnIcpMintCyclesEvent::DepositCycles(res) => match res {
                    Ok(()) => burn_goes_on(s0, s1, UserBurnIcpMintCyclesData { call_management_canister_posit_cycles: true, ..d }, r),
                    Err(e) => burn_paused(s0, s1, u, d, UserBurnIcpMintCyclesMidCallError::ManagementCanisterPositCyclesCallError(e), r),
                },
            }
        }),
{
    let mut d = d;
    match event {
        UserBurnIcpMintCyclesEvent::CmcIcpTransfer(res) => match res {
            Ok(h) => {
                d.cmc_icp_transfer_block_height = Some(h);
                Ok(d)
            },
            Err(e) => {
                take_out_burn(state, user_id);
                Err(UserBurnIcpMintCyclesError::LedgerTopupCyclesCmcIcpTransferError(e))
            },
        },
        UserBurnIcpMintCyclesEvent::CmcNotify(res) => match res {
            Ok(c) => {
                d.cmc_cycles = Some(c);
                Ok(d)
            },
            Err(e) => burn_pause(state, user_id, d, UserBurnIcpMintCyclesMidCallError::LedgerTopupCyclesCmcNotifyError(e)),
        },
        UserBurnIcpMintCyclesEvent::CyclesTransferCandidEncodeError(e) =>
            burn_pause(state, user_id, d, UserBurnIcpMintCyclesMidCallError::CallUserCanisterCyclesTransferCandidEncodeError(e)),
        UserBurnIcpMintCyclesEvent::CyclesTransferCallPerformError(e) =>
            burn_pause(state, user_id, d, UserBurnIcpMintCyclesMidCallError::CallUserCanisterCallPerformError(e)),
        UserBurnIcpMintCyclesEvent::CyclesTransferRefund(refund) => {
            d.call_user_canister_cycles_transfer_refund = Some(refund);
            Ok(d)
        },
        UserBurnIcpMintCyclesEvent::DepositCycles(res) => match res {
            Ok(()) => {
                d.call_management_canister_posit_cycles = true;
                Ok(d)
            },
            Err(e) => burn_pause(state, user_id, d, UserBurnIcpMintCyclesMidCallError::ManagementCanisterPositCyclesCallError(e)),
        },
    }
}

/// All the steps are done: the burn is taken out of the state, and the cycles minted for the
/// user and the fee taken are handed back; they add up to the cycles that were minted.
pub fn user_burn_icp_mint_cycles_complete(state: &mut CtsState, user_id: &UserId, d: UserBurnIcpMintCyclesData) -> (r: Result<UserBurnIcpMintCyclesSuccess, UserBurnIcpMintCyclesError>)
    requires
        old(state).wf(),
        d.cmc_cycles is Some,
    ensures
        final(state).wf(),
        burn_taken_out(*old(state), *final(state), user_id@),
        r == Ok::<UserBurnIcpMintCyclesSuccess, UserBurnIcpMintCyclesError>(UserBurnIcpMintCyclesSuccess {
            mint_cycles_for_the_user: spec_cycles_for_the_user(d.cmc_cycles->0, d.user_burn_icp_mint_cycles_fee),
            cts_fee_taken: spec_cts_fee_taken(d.cmc_cycles->0, d.user_burn_icp_mint_cycles_fee),
        }),
        r matches Ok(s) && s.mint_cycles_for_the_user + s.cts_fee_taken == d.cmc_cycles->0,
{
    take_out_burn(state, user_id);
    let c: Cycles = match d.cmc_cycles {
        Some(c) => c,
        None => 0,
    };
    let fee: Cycles = d.user_burn_icp_mint_cycles_fee;
    proof {
        lemma_burn_cycles_conserved(c, fee);
    }
    Ok(UserBurnIcpMintCyclesSuccess {
        mint_cycles_for_the_user: cycles_for_the_user(c, fee),
        cts_fee_taken: match c.checked_sub(fee) {
            Some(_) => fee,
            None => 0,
        },
    })
}

/// A burn that stopped in the middle goes on where it stopped: after its progress was
/// written back unlocked, a call with the same request resumes with that progress, locked
/// again.
pub proof fn lemma_burn_paused_call_resumes(
    s0: CtsState,
    s1: CtsState,
    s2: CtsState,
    user: Seq<u8>,
    d: UserBurnIcpMintCyclesData,
    b: UserBurnIcpMintCyclesBegin,
)
    requires
        burns_map(s0).dom().contains(user),
        burn_written(s0, s1, user, UserBurnIcpMintCyclesData { lock: false, ..d }),
        spec_burn_begin(s1, s2, user, d.user_burn_icp_mint_cycles_quest, b),
    ensures
        b matches UserBurnIcpMintCyclesBegin::Resume(d2) && burn_data_same(d2, UserBurnIcpMintCyclesData { lock: true, ..d }),
{
    assert(burns_map(s1)[user] == UserBurnIcpMintCyclesData { lock: false, ..d });
}

/// A burn refused because it was begun with another request goes on when the call is made
/// again with the request that the refusal names.
pub proof fn lemma_burn_retry_with_the_set_parameters(
    s0: CtsState,
    s1: CtsState,
    s2: CtsState,
    user: Seq<u8>,
    q: UserBurnIcpMintCyclesQuest,
    q2: UserBurnIcpMintCyclesQuest,
    b2: UserBurnIcpMintCyclesBegin,
)
    requires
        spec_burn_begin(s0, s1, user, q, UserBurnIcpMintCyclesBegin::Refuse(
            UserBurnIcpMintCyclesError::CompleteCallWithTheAlreadySetParameters(q2))),
        spec_burn_begin(s1, s2, user, q2, b2),
    ensures
        b2 is Resume,
{
}

} // verus!
