//! The way of a user to a user-canister. The call is a run of steps, each a call to another
//! canister; what each step needs, and what its answer makes of the progress and the state,
//! is decided here. The progress is kept in the state between calls, so that a call that
//! stopped in the middle can be made again and goes on where it stopped.

use vstd::prelude::*;
use crate::principal::{
    Principal, copy_principals, principals_view, IcpIdSub, IcpId, principal_icp_subaccount, spec_principal_subaccount,
    cycles_minting_canister_icp_id, account_identifier, spec_cycles_minting_canister_id,
};
use crate::assoc::{assoc_map, assoc_find, lemma_assoc_map_at, lemma_assoc_map_len, lemma_assoc_push, lemma_assoc_update, lemma_assoc_remove};
use crate::ledger::{IcpTokens, IcpBlockHeight, IcpTransferError, ICP_LEDGER_TRANSFER_DEFAULT_FEE_E8S, ICP_LEDGER_CREATE_CANISTER_MEMO};
use crate::tools::{Cycles, CallError, cycles_to_icptokens};
use crate::consts::MiB;
use crate::types::{UserId, UserCanisterId, UsersMapCanisterId, CyclesTransfer, CyclesTransferMemo};
use crate::types::user_canister_cache::UserCanisterCache;
use crate::types::canister_code::CanisterCode;
use crate::types::user_canister::UserCanisterInit;
use crate::types::users_map_canister::UMCUserData;
use crate::types::management_canister::{
    ManagementCanisterCanisterStatusRecord, ManagementCanisterCanisterSettings, ManagementCanisterCanisterStatusVariant,
};
use crate::types::user_canister_cache::{opt_principal_view, copy_opt_principal};
use crate::cts_canister::controller::CtsTrap;
use crate::cts_canister::data::{
    CtsState, CTSData, NewUserData, NewUserQuest, new_user_quest_same, NewUserError,
    CheckCurrentXdrPerMyriadPerIcpCmcRateError, NewUserMidCallError, NewUserSuccessData, CmcNotifyError,
    FindUserInTheUsersMapCanistersError, PutNewUserIntoAUsersMapCanisterError, LedgerTopupCyclesCmcIcpTransferError,
    LedgerTopupCyclesCmcNotifyError, NEW_USER_CONTRACT_COST_CYCLES, MAX_NEW_USERS,
    NEW_USER_CANISTER_CREATION_CYCLES, NEW_USER_CONTRACT_STORAGE_SIZE_MiB, NEW_USER_CONTRACT_LIFETIME_DURATION_SECONDS,
    NEW_USER_CANISTER_NETWORK_MEMORY_ALLOCATION_MiB, NEW_USER_CANISTER_FREEZING_THRESHOLD,
};

verus! {

/// The two settings are the same, the controllers taken by their bytes.
pub open spec fn settings_same(a: ManagementCanisterCanisterSettings, b: ManagementCanisterCanisterSettings) -> bool {
    &&& principals_view(a.controllers@) == principals_view(b.controllers@)
    &&& a.compute_allocation == b.compute_allocation
    &&& a.memory_allocation == b.memory_allocation
    &&& a.freezing_threshold == b.freezing_threshold
}

/// The two status records are the same, the controllers taken by their bytes.
pub open spec fn status_record_same(a: ManagementCanisterCanisterStatusRecord, b: ManagementCanisterCanisterStatusRecord) -> bool {
    &&& a.status == b.status
    &&& settings_same(a.settings, b.settings)
    &&& a.module_hash == b.module_hash
    &&& a.memory_size == b.memory_size
    &&& a.cycles == b.cycles
}

/// The two progress records are the same, the principals taken by their bytes.
pub open spec fn new_user_data_same(a: NewUserData, b: NewUserData) -> bool {
    &&& a.start_time_nanos == b.start_time_nanos
    &&& a.lock == b.lock
    &&& a.current_xdr_icp_rate == b.current_xdr_icp_rate
    &&& new_user_quest_same(a.new_user_quest, b.new_user_quest)
    &&& a.look_if_user_is_in_the_users_map_canisters == b.look_if_user_is_in_the_users_map_canisters
    &&& opt_principal_view(a.referral_user_canister_id) == opt_principal_view(b.referral_user_canister_id)
    &&& a.create_user_canister_block_height == b.create_user_canister_block_height
    &&& opt_principal_view(a.user_canister) == opt_principal_view(b.user_canister)
    &&& opt_principal_view(a.users_map_canister) == opt_principal_view(b.users_map_canister)
    &&& a.user_canister_uninstall_code == b.user_canister_uninstall_code
    &&& a.user_canister_install_code == b.user_canister_install_code
    &&& match (a.user_canister_status_record, b.user_canister_status_record) {
            (None, None) => true,
            (Some(x), Some(y)) => status_record_same(x, y),
            _ => false,
        }
    &&& a.collect_icp == b.collect_icp
    &&& a.collect_cycles_cmc_icp_transfer_block_height == b.collect_cycles_cmc_icp_transfer_block_height
    &&& a.collect_cycles_cmc_notify_cycles == b.collect_cycles_cmc_notify_cycles
    &&& a.referral_user_referral_payment_cycles_transfer == b.referral_user_referral_payment_cycles_transfer
    &&& a.user_referral_payment_cycles_transfer == b.user_referral_payment_cycles_transfer
}

/// A copy of a request of a new user.
pub fn copy_new_user_quest(q: &NewUserQuest) -> (c: NewUserQuest)
    ensures
        new_user_quest_same(c, *q),
{
    NewUserQuest { opt_referral_user_id: copy_opt_principal(&q.opt_referral_user_id) }
}

/// A copy of the settings of a canister.
pub fn copy_settings(s: &ManagementCanisterCanisterSettings) -> (c: ManagementCanisterCanisterSettings)
    ensures
        settings_same(c, *s),
{
    let controllers: Vec<Principal> = copy_principals(&s.controllers);
    assert(principals_view(controllers@) =~= principals_view(s.controllers@));
    ManagementCanisterCanisterSettings {
        controllers,
        compute_allocation: s.compute_allocation,
        memory_allocation: s.memory_allocation,
        freezing_threshold: s.freezing_threshold,
    }
}

/// A copy of the status record of a canister.
pub fn copy_status_record(r: &ManagementCanisterCanisterStatusRecord) -> (c: ManagementCanisterCanisterStatusRecord)
    ensures
        status_record_same(c, *r),
{
    ManagementCanisterCanisterStatusRecord {
        status: r.status,
        settings: copy_settings(&r.settings),
        module_hash: r.module_hash,
        memory_size: r.memory_size,
        cycles: r.cycles,
    }
}

/// A copy of the progress of a new user.
pub fn copy_new_user_data(d: &NewUserData) -> (c: NewUserData)
    ensures
        new_user_data_same(c, *d),
{
    NewUserData {
        start_time_nanos: d.start_time_nanos,
        lock: d.lock,
        current_xdr_icp_rate: d.current_xdr_icp_rate,
        new_user_quest: copy_new_user_quest(&d.new_user_quest),
        look_if_user_is_in_the_users_map_canisters: d.look_if_user_is_in_the_users_map_canisters,
        referral_user_canister_id: copy_opt_principal(&d.referral_user_canister_id),
        create_user_canister_block_height: d.create_user_canister_block_height,
        user_canister: copy_opt_principal(&d.user_canister),
        users_map_canister: copy_opt_principal(&d.users_map_canister),
        user_canister_uninstall_code: d.user_canister_uninstall_code,
        user_canister_install_code: d.user_canister_install_code,
        user_canister_status_record: match &d.user_canister_status_record {
            Some(r) => Some(copy_status_record(r)),
            None => None,
        },
        collect_icp: d.collect_icp,
        collect_cycles_cmc_icp_transfer_block_height: d.collect_cycles_cmc_icp_transfer_block_height,
        collect_cycles_cmc_notify_cycles: d.collect_cycles_cmc_notify_cycles,
        referral_user_referral_payment_cycles_transfer: d.referral_user_referral_payment_cycles_transfer,
        user_referral_payment_cycles_transfer: d.user_referral_payment_cycles_transfer,
    }
}

/// The new users of a state, as a map from the bytes of each user to its progress.
pub open spec fn new_users_map(s: CtsState) -> Map<Seq<u8>, NewUserData> {
    assoc_map(s.cts_data.new_users@)
}

/// The state `s1` is `s0` but for its new users.
pub open spec fn only_new_users_changed(s0: CtsState, s1: CtsState) -> bool {
    s1 == CtsState { cts_data: CTSData { new_users: s1.cts_data.new_users, ..s0.cts_data }, ..s0 }
}

/// The state `s1` is `s0` where the progress of `user`, if `s0` has one, is `d`.
pub open spec fn new_user_written(s0: CtsState, s1: CtsState, user: Seq<u8>, d: NewUserData) -> bool {
    let m = new_users_map(s0);
    &&& only_new_users_changed(s0, s1)
    &&& new_users_map(s1) == (if m.dom().contains(user) { m.insert(user, d) } else { m })
}

/// The state `s1` is `s0` without the progress of `user`.
pub open spec fn new_user_taken_out(s0: CtsState, s1: CtsState, user: Seq<u8>) -> bool {
    &&& only_new_users_changed(s0, s1)
    &&& new_users_map(s1) == new_users_map(s0).remove(user)
}

/// Where the state has a progress for the user, it becomes `new_user_data`; otherwise
/// nothing changes.
pub fn write_new_user_data(state: &mut CtsState, user_id: &UserId, new_user_data: NewUserData)
    requires
        old(state).wf(),
    ensures
        final(state).wf(),
        new_user_written(*old(state), *final(state), user_id@, new_user_data),
{
    let ghost s0 = state.cts_data.new_users@;
    match assoc_find(&state.cts_data.new_users, user_id) {
        Some(i) => {
            let key: UserId = user_id.copy();
            proof {
                lemma_assoc_update(s0, i as int, key, new_user_data);
            }
            state.cts_data.new_users.set(i, (key, new_user_data));
        },
        None => {},
    }
}

/// Takes the progress of the user out of the state.
pub fn take_out_new_user(state: &mut CtsState, user_id: &UserId)
    requires
        old(state).wf(),
    ensures
        final(state).wf(),
        new_user_taken_out(*old(state), *final(state), user_id@),
{
    let ghost s0 = state.cts_data.new_users@;
    match assoc_find(&state.cts_data.new_users, user_id) {
        Some(i) => {
            proof {
                lemma_assoc_remove(s0, i as int);
            }
            state.cts_data.new_users.remove(i);
        },
        None => {
            assert(assoc_map(s0).remove(user_id@) =~= assoc_map(s0));
        },
    }
}

/// Where the state has a progress for the user: refuses while it is locked, or where the
/// request differs from the one it was made with; otherwise locks it and hands back a copy.
/// Where the state has none, `None`.
fn lock_new_user(state: &mut CtsState, user_id: &UserId, q: &NewUserQuest) -> (r: Option<Result<NewUserData, NewUserError>>)
    requires
        old(state).wf(),
    ensures
        final(state).wf(),
        ({
            let m = new_users_map(*old(state));
            if !m.dom().contains(user_id@) {
                r is None && *final(state) == *old(state)
            } else if m[user_id@].lock {
                r == Some(Err::<NewUserData, NewUserError>(NewUserError::NewUserIsInTheMiddleOfAnotherNewUserCall))
                    && *final(state) == *old(state)
            } else if !new_user_quest_same(*q, m[user_id@].new_user_quest) {
                &&& r matches Some(Err(NewUserError::CallWithTheAlreadySetParameters(q2)))
                &&& new_user_quest_same(q2, m[user_id@].new_user_quest)
                &&& *final(state) == *old(state)
            } else {
                &&& r matches Some(Ok(d))
                &&& new_user_data_same(d, NewUserData { lock: true, ..m[user_id@] })
                &&& new_user_written(*old(state), *final(state), user_id@, NewUserData { lock: true, ..m[user_id@] })
            }
        }),
{
    let ghost s0 = state.cts_data.new_users@;
    match assoc_find(&state.cts_data.new_users, user_id) {
        None => {
            assert(!new_users_map(*old(state)).dom().contains(user_id@));
            None
        },
        Some(i) => {
            proof {
                lemma_assoc_map_at(s0, i as int);
            }
            if state.cts_data.new_users[i].1.lock {
                return Some(Err(NewUserError::NewUserIsInTheMiddleOfAnotherNewUserCall));
            }
            if !q.same_as(&state.cts_data.new_users[i].1.new_user_quest) {
                return Some(Err(NewUserError::CallWithTheAlreadySetParameters(
                    copy_new_user_quest(&state.cts_data.new_users[i].1.new_user_quest),
                )));
            }
            let (key, mut d) = state.cts_data.new_users.remove(i);
            d.lock = true;
            let c: NewUserData = copy_new_user_data(&d);
            proof {
                lemma_assoc_update(s0, i as int, key, d);
                assert(s0.remove(i as int).insert(i as int, (key, d)) =~= s0.update(i as int, (key, d)));
            }
            state.cts_data.new_users.insert(i, (key, d));
            Some(Ok(c))
        },
    }
}

/// How a call of a new user begins.
pub enum NewUserBegin {
    /// The user has a progress, now locked for this call: the steps go on from it.
    Resume(NewUserData),
    /// The user is new: its ICP balance and the current ICP/XDR rate are to be fetched, and
    /// handed to `new_user_register`.
    CheckBalanceAndRate,
    /// The call ends with this error.
    Refuse(NewUserError),
    /// The call traps.
    Trap(CtsTrap),
}

/// The first decision of a call of `user` to become a user with the request `q`, taking the
/// state `s0` to `s1`: a user may not refer itself; a user with a progress goes on from it,
/// unless another call holds it or the request differs; a new user's balance and the rate are
/// fetched first, unless the CTS stops taking calls.
pub open spec fn spec_new_user_begin(s0: CtsState, s1: CtsState, user: Seq<u8>, q: NewUserQuest, b: NewUserBegin) -> bool {
    let m = new_users_map(s0);
    if q.opt_referral_user_id matches Some(r) && r@ == user {
        b == NewUserBegin::Refuse(NewUserError::ReferralUserCannotBeTheCaller) && s1 == s0
    } else if !m.dom().contains(user) {
        &&& s1 == s0
        &&& if s0.stop_calls { b == NewUserBegin::Trap(CtsTrap::Maintenance) } else { b == NewUserBegin::CheckBalanceAndRate }
    } else if m[user].lock {
        b == NewUserBegin::Refuse(NewUserError::NewUserIsInTheMiddleOfAnotherNewUserCall) && s1 == s0
    } else if !new_user_quest_same(q, m[user].new_user_quest) {
        &&& b matches NewUserBegin::Refuse(NewUserError::CallWithTheAlreadySetParameters(q2))
        &&& new_user_quest_same(q2, m[user].new_user_quest)
        &&& s1 == s0
    } else {
        &&& b matches NewUserBegin::Resume(d)
        &&& new_user_data_same(d, NewUserData { lock: true, ..m[user] })
        &&& new_user_written(s0, s1, user, NewUserData { lock: true, ..m[user] })
    }
}

/// The first decision of a call of `user_id` to become a user with the request `q`.
pub fn new_user_begin(state: &mut CtsState, user_id: &UserId, q: &NewUserQuest) -> (b: NewUserBegin)
    requires
        old(state).wf(),
    ensures
        final(state).wf(),
        spec_new_user_begin(*old(state), *final(state), user_id@, *q, b),
{
    if let Some(r) = &q.opt_referral_user_id {
        if r.same_as(user_id) {
            return NewUserBegin::Refuse(NewUserError::ReferralUserCannotBeTheCaller);
        }
    }
    match lock_new_user(state, user_id, q) {
        Some(Ok(d)) => NewUserBegin::Resume(d),
        Some(Err(e)) => NewUserBegin::Refuse(e),
        None => {
            if state.stop_calls {
                NewUserBegin::Trap(CtsTrap::Maintenance)
            } else {
                NewUserBegin::CheckBalanceAndRate
            }
        },
    }
}

/// The ICP that the contract of a new user costs at the rate `rate`, 10^-8 ICP a unit.
pub open spec fn spec_new_user_cost_e8s(rate: u64) -> u64 {
    (NEW_USER_CONTRACT_COST_CYCLES / (rate as u128)) as u64
}

/// The progress of a user that was just registered, at `now_nanos`, at the rate `rate`, with
/// the request `q`: locked, with no step done.
pub open spec fn spec_fresh_new_user_data(now_nanos: u64, rate: u64, q: NewUserQuest) -> NewUserData {
    NewUserData {
        start_time_nanos: now_nanos,
        lock: true,
        current_xdr_icp_rate: rate,
        new_user_quest: q,
        look_if_user_is_in_the_users_map_canisters: false,
        referral_user_canister_id: None,
        create_user_canister_block_height: None,
        user_canister: None,
        users_map_canister: None,
        user_canister_uninstall_code: false,
        user_canister_install_code: false,
        user_canister_status_record: None,
        collect_icp: false,
        collect_cycles_cmc_icp_transfer_block_height: None,
        collect_cycles_cmc_notify_cycles: None,
        referral_user_referral_payment_cycles_transfer: false,
        user_referral_payment_cycles_transfer: false,
    }
}

fn fresh_new_user_data(now_nanos: u64, rate: u64, q: NewUserQuest) -> (d: NewUserData)
    ensures
        d == spec_fresh_new_user_data(now_nanos, rate, q),
{
    NewUserData {
        start_time_nanos: now_nanos,
        lock: true,
        current_xdr_icp_rate: rate,
        new_user_quest: q,
        look_if_user_is_in_the_users_map_canisters: false,
        referral_user_canister_id: None,
        create_user_canister_block_height: None,
        user_canister: None,
        users_map_canister: None,
        user_canister_uninstall_code: false,
        user_canister_install_code: false,
        user_canister_status_record: None,
        collect_icp: false,
        collect_cycles_cmc_icp_transfer_block_height: None,
        collect_cycles_cmc_notify_cycles: None,
        referral_user_referral_payment_cycles_transfer: false,
        user_referral_payment_cycles_transfer: false,
    }
}

/// After `new_user_begin` asked for them: given the user's ICP balance and the ICP/XDR rate
/// (or why either could not be had), checks that the balance pays for the contract and two
/// ledger fees, and registers the user at `now_nanos`, unless another call registered it in
/// the meantime or the map of new users is full.
pub fn new_user_register(
    state: &mut CtsState,
    user_id: &UserId,
    q: NewUserQuest,
    balance: Result<IcpTokens, CallError>,
    rate: Result<u64, CheckCurrentXdrPerMyriadPerIcpCmcRateError>,
    now_nanos: u64,
) -> (r: Result<NewUserData, NewUserError>)
    requires
        old(state).wf(),
        rate matches Ok(x) ==> x > 0,
    ensures
        final(state).wf(),
        match balance {
            Err(e) => r == Err::<NewUserData, NewUserError>(NewUserError::CheckIcpBalanceCallError(e)) && *final(state) == *old(state),
            Ok(b) => match rate {
                Err(e) => r == Err::<NewUserData, NewUserError>(NewUserError::CheckCurrentXdrPerMyriadPerIcpCmcRateError(e))
                    && *final(state) == *old(state),
                Ok(x) => {
                    let m = new_users_map(*old(state));
                    let cost = spec_new_user_cost_e8s(x);
                    if b.e8s < cost + 2 * ICP_LEDGER_TRANSFER_DEFAULT_FEE_E8S {
                        &&& r == Err::<NewUserData, NewUserError>(NewUserError::UserIcpLedgerBalanceTooLow {
                                cts_user_contract_cost_icp: IcpTokens { e8s: cost },
                                user_icp_ledger_balance: b,
                                icp_ledger_transfer_fee: IcpTokens { e8s: ICP_LEDGER_TRANSFER_DEFAULT_FEE_E8S },
                            })
                        &&& *final(state) == *old(state)
                    } else if m.dom().contains(user_id@) {
                        if m[user_id@].lock {
                            r == Err::<NewUserData, NewUserError>(NewUserError::NewUserIsInTheMiddleOfAnotherNewUserCall)
                                && *final(state) == *old(state)
                        } else if !new_user_quest_same(q, m[user_id@].new_user_quest) {
                            &&& r matches Err(NewUserError::CallWithTheAlreadySetParameters(q2))
                            &&& new_user_quest_same(q2, m[user_id@].new_user_quest)
                            &&& *final(state) == *old(state)
                        } else {
                            &&& r matches Ok(d)
                            &&& new_user_data_same(d, NewUserData { lock: true, ..m[user_id@] })
                            &&& new_user_written(*old(state), *final(state), user_id@, NewUserData { lock: true, ..m[user_id@] })
                        }
                    } else if m.dom().len() >= MAX_NEW_USERS {
                        r == Err::<NewUserData, NewUserError>(NewUserError::MaxNewUsers) && *final(state) == *old(state)
                    } else {
                        &&& r == Ok::<NewUserData, NewUserError>(spec_fresh_new_user_data(now_nanos, x, q))
                        &&& only_new_users_changed(*old(state), *final(state))
                        &&& new_users_map(*final(state)).dom() == m.dom().insert(user_id@)
                        &&& new_users_map(*final(state)).remove(user_id@) == m
                        &&& new_user_data_same(new_users_map(*final(state))[user_id@], spec_fresh_new_user_data(now_nanos, x, q))
                    }
                },
            },
        },
{
    let b: IcpTokens = match balance {
        Ok(b) => b,
        Err(e) => {
            return Err(NewUserError::CheckIcpBalanceCallError(e));
        },
    };
    let x: u64 = match rate {
        Ok(x) => x,
        Err(e) => {
            return Err(NewUserError::CheckCurrentXdrPerMyriadPerIcpCmcRateError(e));
        },
    };
    let cost: IcpTokens = cycles_to_icptokens(NEW_USER_CONTRACT_COST_CYCLES, x);
    assert(cost.e8s == spec_new_user_cost_e8s(x));
    assert(cost.e8s <= NEW_USER_CONTRACT_COST_CYCLES);
    if b.e8s() < cost.e8s() + 2 * ICP_LEDGER_TRANSFER_DEFAULT_FEE_E8S {
        return Err(NewUserError::UserIcpLedgerBalanceTooLow {
            cts_user_contract_cost_icp: cost,
            user_icp_ledger_balance: b,
            icp_ledger_transfer_fee: IcpTokens::from_e8s(ICP_LEDGER_TRANSFER_DEFAULT_FEE_E8S),
        });
    }
    match lock_new_user(state, user_id, &q) {
        Some(res) => {
            return res;
        },
        None => {},
    }
    let ghost s0 = state.cts_data.new_users@;
    proof {
        lemma_assoc_map_len(s0);
    }
    if state.cts_data.new_users.len() >= MAX_NEW_USERS {
        return Err(NewUserError::MaxNewUsers);
    }
    let stored: NewUserData = fresh_new_user_data(now_nanos, x, copy_new_user_quest(&q));
    let returned: NewUserData = fresh_new_user_data(now_nanos, x, q);
    let key: UserId = user_id.copy();
    proof {
        lemma_assoc_push(s0, key, stored);
    }
    state.cts_data.new_users.push((key, stored));
    proof {
        let m = assoc_map(s0);
        let m1 = assoc_map(state.cts_data.new_users@);
        assert(m1 =~= m.insert(user_id@, stored));
        assert(m1.dom() =~= m.dom().insert(user_id@));
        assert(m1.remove(user_id@) =~= m);
    }
    Ok(returned)
}

/// The memo of the cycles that a referral pays: the bytes of "CTS-REFERRAL-PAYMENT".
pub const REFERRAL_PAYMENT_MEMO: [u8; 20] = [67, 84, 83, 45, 82, 69, 70, 69, 82, 82, 65, 76, 45, 80, 65, 89, 77, 69, 78, 84];

/// The cycles that the referral pays to the referring user and to the new user, each.
pub const REFERRAL_PAYMENT_CYCLES: Cycles = 1_000_000_000_000;

/// The cycles transfer carries the memo of a referral payment.
pub open spec fn is_referral_payment(ct: CyclesTransfer) -> bool {
    ct.memo matches CyclesTransferMemo::Blob(b) && b@ == REFERRAL_PAYMENT_MEMO@
}

/// The settings that a new user-canister ends with: controlled by the CTS, the users-map
/// canister and itself, with no compute allocation, its memory allocation and its freezing
/// threshold.
pub open spec fn new_user_canister_settings_are(s: ManagementCanisterCanisterSettings, cts: Seq<u8>, umc: Seq<u8>, uc: Seq<u8>) -> bool {
    &&& principals_view(s.controllers@) == seq![cts, umc, uc]
    &&& s.compute_allocation == 0
    &&& s.memory_allocation == NEW_USER_CANISTER_NETWORK_MEMORY_ALLOCATION_MiB * MiB
    &&& s.freezing_threshold == NEW_USER_CANISTER_FREEZING_THRESHOLD
}

/// Whether the settings are those that a new user-canister ends with.
fn has_new_user_canister_settings(s: &ManagementCanisterCanisterSettings, cts: &Principal, umc: &Principal, uc: &Principal) -> (r: bool)
    ensures
        r == new_user_canister_settings_are(*s, cts@, umc@, uc@),
{
    let ok: bool = s.controllers.len() == 3 && s.controllers[0].same_as(cts) && s.controllers[1].same_as(umc)
        && s.controllers[2].same_as(uc) && s.compute_allocation == 0
        && s.memory_allocation == NEW_USER_CANISTER_NETWORK_MEMORY_ALLOCATION_MiB as u128 * MiB as u128
        && s.freezing_threshold == NEW_USER_CANISTER_FREEZING_THRESHOLD;
    proof {
        let v = principals_view(s.controllers@);
        if ok {
            assert(v =~= seq![cts@, umc@, uc@]);
        }
        if new_user_canister_settings_are(*s, cts@, umc@, uc@) {
            assert(v.len() == 3);
            assert(v[0] == cts@ && v[1] == umc@ && v[2] == uc@);
        }
    }
    ok
}

/// The settings that a new user-canister ends with.
fn new_user_canister_settings(cts: &Principal, umc: &Principal, uc: &Principal) -> (s: ManagementCanisterCanisterSettings)
    ensures
        new_user_canister_settings_are(s, cts@, umc@, uc@),
{
    let controllers: Vec<Principal> = vec![cts.copy(), umc.copy(), uc.copy()];
    assert(principals_view(controllers@) =~= seq![cts@, umc@, uc@]);
    assert(NEW_USER_CANISTER_NETWORK_MEMORY_ALLOCATION_MiB as u128 * MiB as u128 == 104857600) by (nonlinear_arith)
        requires
            MiB == 1048576,
            NEW_USER_CANISTER_NETWORK_MEMORY_ALLOCATION_MiB == 100,
    ;
    ManagementCanisterCanisterSettings {
        controllers,
        compute_allocation: 0,
        memory_allocation: NEW_USER_CANISTER_NETWORK_MEMORY_ALLOCATION_MiB as u128 * MiB as u128,
        freezing_threshold: NEW_USER_CANISTER_FREEZING_THRESHOLD,
    }
}

/// The cycles transfer of a referral payment.
fn referral_payment() -> (ct: CyclesTransfer)
    ensures
        is_referral_payment(ct),
{
    let memo: [u8; 20] = REFERRAL_PAYMENT_MEMO;
    CyclesTransfer { memo: CyclesTransferMemo::Blob(vstd::slice::slice_to_vec(memo.as_slice())) }
}

/// The kinds of the steps of a new user, in the order in which they come.
#[derive(PartialEq, Eq, Structural)]
pub enum NewUserStepKind {
    FindUserInTheUsersMapCanisters,
    FindReferralUserCanister,
    CreateUserCanisterIcpTransfer,
    CmcNotifyCreateCanister,
    UninstallCode,
    UserCanisterCodeNotFound,
    InstallCode,
    CanisterStatus,
    UserCanisterModuleVerificationError,
    StartCanister,
    PutNewUserIntoAUsersMapCanister,
    UpdateSettings,
    CollectCyclesCmcIcpTransfer,
    CollectCyclesCmcNotify,
    ReferralUserReferralPayment,
    UserReferralPayment,
    CollectIcp,
    Finish,
}

/// The next step of a new user with the progress `n`, where the user-canister code of the
/// CTS is `code` and the CTS is `cts`: the first step that is not done yet.
pub open spec fn spec_new_user_step_kind(n: NewUserData, code: CanisterCode, cts: Seq<u8>) -> NewUserStepKind {
    if !n.look_if_user_is_in_the_users_map_canisters {
        NewUserStepKind::FindUserInTheUsersMapCanisters
    } else if n.new_user_quest.opt_referral_user_id is Some && n.referral_user_canister_id is None {
        NewUserStepKind::FindReferralUserCanister
    } else if n.create_user_canister_block_height is None {
        NewUserStepKind::CreateUserCanisterIcpTransfer
    } else if n.user_canister is None {
        NewUserStepKind::CmcNotifyCreateCanister
    } else if !n.user_canister_uninstall_code {
        NewUserStepKind::UninstallCode
    } else if !n.user_canister_install_code {
        if code.module_view().len() == 0 {
            NewUserStepKind::UserCanisterCodeNotFound
        } else {
            NewUserStepKind::InstallCode
        }
    } else if n.user_canister_status_record is None {
        NewUserStepKind::CanisterStatus
    } else if code.module_view().len() == 0 {
        NewUserStepKind::UserCanisterCodeNotFound
    } else if !(n.user_canister_status_record->0.module_hash matches Some(h) && h@ == code.module_hash_view()) {
        NewUserStepKind::UserCanisterModuleVerificationError
    } else if n.user_canister_status_record->0.status != ManagementCanisterCanisterStatusVariant::running {
        NewUserStepKind::StartCanister
    } else if n.users_map_canister is None {
        NewUserStepKind::PutNewUserIntoAUsersMapCanister
    } else if !new_user_canister_settings_are(
        n.user_canister_status_record->0.settings, cts, n.users_map_canister->0@, n.user_canister->0@,
    ) {
        NewUserStepKind::UpdateSettings
    } else if n.new_user_quest.opt_referral_user_id is Some {
        if n.collect_cycles_cmc_icp_transfer_block_height is None {
            NewUserStepKind::CollectCyclesCmcIcpTransfer
        } else if n.collect_cycles_cmc_notify_cycles is None {
            NewUserStepKind::CollectCyclesCmcNotify
        } else if !n.referral_user_referral_payment_cycles_transfer {
            NewUserStepKind::ReferralUserReferralPayment
        } else if !n.user_referral_payment_cycles_transfer {
            NewUserStepKind::UserReferralPayment
        } else {
            NewUserStepKind::Finish
        }
    } else if !n.collect_icp {
        NewUserStepKind::CollectIcp
    } else {
        NewUserStepKind::Finish
    }
}

/// A step of a new user: the call to make, with what it is made with; or the end of the call.
pub enum NewUserStep {
    /// Look for the user in the users-map canisters.
    FindUserInTheUsersMapCanisters,
    /// Look for the user-canister of the referral.
    FindReferralUserCanister { referral_user_id: UserId },
    /// Send ICP from the user's subaccount to the cycles-minting canister to pay for the
    /// user-canister.
    CreateUserCanisterIcpTransfer {
        memo: u64,
        amount: IcpTokens,
        fee: IcpTokens,
        from_subaccount: IcpIdSub,
        to: IcpId,
        created_at_time_nanos: u64,
    },
    /// Ask the cycles-minting canister to make the canister paid for at that block.
    CmcNotifyCreateCanister { controller: Principal, block_index: IcpBlockHeight },
    /// Take the code off the user-canister.
    UninstallCode { canister_id: Principal },
    /// Install the user-canister code of the CTS on the user-canister with this argument.
    InstallCode { canister_id: Principal, arg: UserCanisterInit },
    /// Ask the management canister for the status of the user-canister.
    CanisterStatus { canister_id: Principal },
    /// Start the user-canister.
    StartCanister { canister_id: Principal },
    /// Put the user into a users-map canister.
    PutNewUserIntoAUsersMapCanister { umc_user_data: UMCUserData },
    /// Change the settings of the user-canister.
    UpdateSettings { canister_id: Principal, settings: ManagementCanisterCanisterSettings },
    /// Send the rest of the cost from the user's subaccount to the cycles-minting canister,
    /// to top up the CTS.
    CollectCyclesCmcIcpTransfer { amount: IcpTokens, from_subaccount: IcpIdSub },
    /// Ask the cycles-minting canister for the cycles of that transfer.
    CollectCyclesCmcNotify { block_index: IcpBlockHeight },
    /// Pay the referral its cycles.
    ReferralUserReferralPayment { canister_id: Principal, cycles_transfer: CyclesTransfer, cycles: Cycles },
    /// Pay the new user its cycles.
    UserReferralPayment { canister_id: Principal, cycles_transfer: CyclesTransfer, cycles: Cycles },
    /// Take the rest of the cost from the user's subaccount.
    CollectIcp { amount: IcpTokens },
    /// The call stops here with this error: the progress is to be handed to
    /// `new_user_pause`.
    Stop(NewUserMidCallError),
    /// All the steps are done: the progress is to be handed to `new_user_complete`.
    Finish,
}

/// The kind of a step.
pub open spec fn step_kind(step: NewUserStep) -> NewUserStepKind {
    match step {
        NewUserStep::FindUserInTheUsersMapCanisters => NewUserStepKind::FindUserInTheUsersMapCanisters,
        NewUserStep::FindReferralUserCanister { .. } => NewUserStepKind::FindReferralUserCanister,
        NewUserStep::CreateUserCanisterIcpTransfer { .. } => NewUserStepKind::CreateUserCanisterIcpTransfer,
        NewUserStep::CmcNotifyCreateCanister { .. } => NewUserStepKind::CmcNotifyCreateCanister,
        NewUserStep::UninstallCode { .. } => NewUserStepKind::UninstallCode,
        NewUserStep::InstallCode { .. } => NewUserStepKind::InstallCode,
        NewUserStep::CanisterStatus { .. } => NewUserStepKind::CanisterStatus,
        NewUserStep::StartCanister { .. } => NewUserStepKind::StartCanister,
        NewUserStep::PutNewUserIntoAUsersMapCanister { .. } => NewUserStepKind::PutNewUserIntoAUsersMapCanister,
        NewUserStep::UpdateSettings { .. } => NewUserStepKind::UpdateSettings,
        NewUserStep::CollectCyclesCmcIcpTransfer { .. } => NewUserStepKind::CollectCyclesCmcIcpTransfer,
        NewUserStep::CollectCyclesCmcNotify { .. } => NewUserStepKind::CollectCyclesCmcNotify,
        NewUserStep::ReferralUserReferralPayment { .. } => NewUserStepKind::ReferralUserReferralPayment,
        NewUserStep::UserReferralPayment { .. } => NewUserStepKind::UserReferralPayment,
        NewUserStep::CollectIcp { .. } => NewUserStepKind::CollectIcp,
        NewUserStep::Stop(NewUserMidCallError::UserCanisterModuleVerificationError) => NewUserStepKind::UserCanisterModuleVerificationError,
        NewUserStep::Stop(_) => NewUserStepKind::UserCanisterCodeNotFound,
        NewUserStep::Finish => NewUserStepKind::Finish,
    }
}

/// The ICP that is taken from a new user besides the price of its canister, at the rate
/// `rate`, 10^-8 ICP a unit.
pub open spec fn spec_new_user_rest_e8s(rate: u64) -> u64 {
    ((NEW_USER_CONTRACT_COST_CYCLES - NEW_USER_CANISTER_CREATION_CYCLES) as u128 / (rate as u128)) as u64
}

/// The next step of the new user `user_id` with the progress `nud`, at `now_nanos`, for the
/// CTS `cts_id`. Where the status of the user-canister shows that it does not run the
/// user-canister code, the steps from the uninstall on are undone in `nud`, and the call
/// stops.
pub fn new_user_next_step(state: &CtsState, user_id: &UserId, nud: &mut NewUserData, cts_id: &Principal, now_nanos: u64) -> (step: NewUserStep)
    requires
        old(nud).current_xdr_icp_rate > 0,
    ensures
        ({
            let n = *old(nud);
            let k = spec_new_user_step_kind(n, state.cts_data.user_canister_code, cts_id@);
            let uc = n.user_canister->0@;
            &&& step_kind(step) == k
            &&& k == NewUserStepKind::UserCanisterModuleVerificationError ==> *final(nud) == NewUserData {
                    user_canister_uninstall_code: false,
                    user_canister_install_code: false,
                    user_canister_status_record: None,
                    ..n
                }
            &&& k != NewUserStepKind::UserCanisterModuleVerificationError ==> *final(nud) == n
            &&& match step {
                NewUserStep::FindReferralUserCanister { referral_user_id } =>
                    referral_user_id@ == n.new_user_quest.opt_referral_user_id->0@,
                NewUserStep::CreateUserCanisterIcpTransfer { memo, amount, fee, from_subaccount, to, created_at_time_nanos } => {
                    &&& memo == ICP_LEDGER_CREATE_CANISTER_MEMO
                    &&& amount.e8s == (NEW_USER_CANISTER_CREATION_CYCLES / (n.current_xdr_icp_rate as u128)) as u64
                    &&& fee.e8s == ICP_LEDGER_TRANSFER_DEFAULT_FEE_E8S
                    &&& from_subaccount.0@ == spec_principal_subaccount(user_id@)
                    &&& to.0@ == account_identifier(spec_cycles_minting_canister_id(), spec_principal_subaccount(cts_id@))
                    &&& created_at_time_nanos == now_nanos
                },
                NewUserStep::CmcNotifyCreateCanister { controller, block_index } =>
                    controller@ == cts_id@ && n.create_user_canister_block_height == Some(block_index),
                NewUserStep::UninstallCode { canister_id } => canister_id@ == uc,
                NewUserStep::InstallCode { canister_id, arg } => {
                    &&& canister_id@ == uc
                    &&& arg.user_id@ == user_id@
                    &&& arg.cts_id@ == cts_id@
                    &&& arg.cycles_market_id@ == state.cts_data.cycles_market_id@
                    &&& arg.user_canister_storage_size_mib == NEW_USER_CONTRACT_STORAGE_SIZE_MiB
                    &&& arg.user_canister_lifetime_termination_timestamp_seconds
                            == now_nanos / 1_000_000_000 + NEW_USER_CONTRACT_LIFETIME_DURATION_SECONDS
                    &&& principals_view(arg.cycles_transferrer_canisters@) == principals_view(state.cts_data.cycles_transferrer_canisters@)
                },
                NewUserStep::CanisterStatus { canister_id } => canister_id@ == uc,
                NewUserStep::StartCanister { canister_id } => canister_id@ == uc,
                NewUserStep::PutNewUserIntoAUsersMapCanister { umc_user_data } => {
                    &&& umc_user_data.user_canister_id@ == uc
                    &&& n.user_canister_status_record->0.module_hash == Some(umc_user_data.user_canister_latest_known_module_hash)
                },
                NewUserStep::UpdateSettings { canister_id, settings } =>
                    canister_id@ == uc && new_user_canister_settings_are(settings, cts_id@, n.users_map_canister->0@, uc),
                NewUserStep::CollectCyclesCmcIcpTransfer { amount, from_subaccount } =>
                    amount.e8s == spec_new_user_rest_e8s(n.current_xdr_icp_rate)
                        && from_subaccount.0@ == spec_principal_subaccount(user_id@),
                NewUserStep::CollectCyclesCmcNotify { block_index } =>
                    n.collect_cycles_cmc_icp_transfer_block_height == Some(block_index),
                NewUserStep::ReferralUserReferralPayment { canister_id, cycles_transfer, cycles } =>
                    canister_id@ == n.referral_user_canister_id->0@ && is_referral_payment(cycles_transfer)
                        && cycles == REFERRAL_PAYMENT_CYCLES,
                NewUserStep::UserReferralPayment { canister_id, cycles_transfer, cycles } =>
                    canister_id@ == uc && is_referral_payment(cycles_transfer) && cycles == REFERRAL_PAYMENT_CYCLES,
                NewUserStep::CollectIcp { amount } => amount.e8s == spec_new_user_rest_e8s(n.current_xdr_icp_rate),
                NewUserStep::Stop(e) => {
                    &&& k == NewUserStepKind::UserCanisterCodeNotFound ==> e is UserCanisterCodeNotFound
                    &&& k == NewUserStepKind::UserCanisterModuleVerificationError ==> e is UserCanisterModuleVerificationError
                },
                _ => true,
            }
        }),
{
    if !nud.look_if_user_is_in_the_users_map_canisters {
        return NewUserStep::FindUserInTheUsersMapCanisters;
    }
    if nud.referral_user_canister_id.is_none() {
        if let Some(r) = &nud.new_user_quest.opt_referral_user_id {
            return NewUserStep::FindReferralUserCanister { referral_user_id: r.copy() };
        }
    }
    let rate: u64 = nud.current_xdr_icp_rate;
    let block_index: IcpBlockHeight = match nud.create_user_canister_block_height {
        None => {
            return NewUserStep::CreateUserCanisterIcpTransfer {
                memo: ICP_LEDGER_CREATE_CANISTER_MEMO,
                amount: cycles_to_icptokens(NEW_USER_CANISTER_CREATION_CYCLES, rate),
                fee: IcpTokens::from_e8s(ICP_LEDGER_TRANSFER_DEFAULT_FEE_E8S),
                from_subaccount: principal_icp_subaccount(user_id),
                to: cycles_minting_canister_icp_id(cts_id),
                created_at_time_nanos: now_nanos,
            };
        },
        Some(h) => h,
    };
    let uc: Principal = match &nud.user_canister {
        None => {
            return NewUserStep::CmcNotifyCreateCanister { controller: cts_id.copy(), block_index };
        },
        Some(uc) => uc.copy(),
    };
    if !nud.user_canister_uninstall_code {
        return NewUserStep::UninstallCode { canister_id: uc };
    }
    let code_empty: bool = state.cts_data.user_canister_code.module().len() == 0;
    if !nud.user_canister_install_code {
        if code_empty {
            return NewUserStep::Stop(NewUserMidCallError::UserCanisterCodeNotFound);
        }
        let seconds: u64 = now_nanos / 1_000_000_000;
        return NewUserStep::InstallCode {
            canister_id: uc,
            arg: UserCanisterInit {
                user_id: user_id.copy(),
                cts_id: cts_id.copy(),
                cycles_market_id: state.cts_data.cycles_market_id.copy(),
                user_canister_storage_size_mib: NEW_USER_CONTRACT_STORAGE_SIZE_MiB,
                user_canister_lifetime_termination_timestamp_seconds: seconds + NEW_USER_CONTRACT_LIFETIME_DURATION_SECONDS,
                cycles_transferrer_canisters: {
                    let ctcs: Vec<Principal> = copy_principals(&state.cts_data.cycles_transferrer_canisters);
                    assert(principals_view(ctcs@) =~= principals_view(state.cts_data.cycles_transferrer_canisters@));
                    ctcs
                },
            },
        };
    }
    let record: &ManagementCanisterCanisterStatusRecord = match &nud.user_canister_status_record {
        None => {
            return NewUserStep::CanisterStatus { canister_id: uc };
        },
        Some(record) => record,
    };
    if code_empty {
        return NewUserStep::Stop(NewUserMidCallError::UserCanisterCodeNotFound);
    }
    let verified: bool = match &record.module_hash {
        Some(h) => crate::principal::bytes_eq(h.as_slice(), state.cts_data.user_canister_code.module_hash().as_slice()),
        None => false,
    };
    if !verified {
        nud.user_canister_uninstall_code = false;
        nud.user_canister_install_code = false;
        nud.user_canister_status_record = None;
        return NewUserStep::Stop(NewUserMidCallError::UserCanisterModuleVerificationError);
    }
    if record.status != ManagementCanisterCanisterStatusVariant::running {
        return NewUserStep::StartCanister { canister_id: uc };
    }
    let umc: Principal = match &nud.users_map_canister {
        None => {
            let hash: [u8; 32] = match record.module_hash {
                Some(h) => h,
                None => [0u8; 32],
            };
            return NewUserStep::PutNewUserIntoAUsersMapCanister {
                umc_user_data: UMCUserData { user_canister_id: uc, user_canister_latest_known_module_hash: hash },
            };
        },
        Some(umc) => umc.copy(),
    };
    if !has_new_user_canister_settings(&record.settings, cts_id, &umc, &uc) {
        return NewUserStep::UpdateSettings { canister_id: uc.copy(), settings: new_user_canister_settings(cts_id, &umc, &uc) };
    }
    let rest: IcpTokens = cycles_to_icptokens(NEW_USER_CONTRACT_COST_CYCLES - NEW_USER_CANISTER_CREATION_CYCLES, rate);
    if let Some(referral_user_id) = &nud.new_user_quest.opt_referral_user_id {
        let collect_block: IcpBlockHeight = match nud.collect_cycles_cmc_icp_transfer_block_height {
            None => {
                return NewUserStep::CollectCyclesCmcIcpTransfer { amount: rest, from_subaccount: principal_icp_subaccount(user_id) };
            },
            Some(h) => h,
        };
        if nud.collect_cycles_cmc_notify_cycles.is_none() {
            return NewUserStep::CollectCyclesCmcNotify { block_index: collect_block };
        }
        if !nud.referral_user_referral_payment_cycles_transfer {
            let referral_uc: Principal = match &nud.referral_user_canister_id {
                Some(r) => r.copy(),
                None => {
                    return NewUserStep::FindReferralUserCanister { referral_user_id: referral_user_id.copy() };
                },
            };
            return NewUserStep::ReferralUserReferralPayment {
                canister_id: referral_uc,
                cycles_transfer: referral_payment(),
                cycles: REFERRAL_PAYMENT_CYCLES,
            };
        }
        if !nud.user_referral_payment_cycles_transfer {
            return NewUserStep::UserReferralPayment { canister_id: uc, cycles_transfer: referral_payment(), cycles: REFERRAL_PAYMENT_CYCLES };
        }
        return NewUserStep::Finish;
    }
    if !nud.collect_icp {
        return NewUserStep::CollectIcp { amount: rest };
    }
    NewUserStep::Finish
}

/// What the call of a step answered.
pub enum NewUserEvent {
    FindUserInTheUsersMapCanisters(Result<Option<UserCanisterId>, FindUserInTheUsersMapCanistersError>),
    FindReferralUserCanister(Result<Option<UserCanisterId>, FindUserInTheUsersMapCanistersError>),
    CreateUserCanisterIcpTransfer(Result<Result<IcpBlockHeight, IcpTransferError>, CallError>),
    CmcNotifyCreateCanister(Result<Result<Principal, CmcNotifyError>, CallError>),
    UninstallCode(Result<(), CallError>),
    InstallCode(Result<(), CallError>),
    CanisterStatus(Result<ManagementCanisterCanisterStatusRecord, CallError>),
    StartCanister(Result<(), CallError>),
    PutNewUserIntoAUsersMapCanister(Result<UsersMapCanisterId, PutNewUserIntoAUsersMapCanisterError>),
    /// The settings that the call was made with, and its answer.
    UpdateSettings(ManagementCanisterCanisterSettings, Result<(), CallError>),
    CollectCyclesCmcIcpTransfer(Result<IcpBlockHeight, LedgerTopupCyclesCmcIcpTransferError>),
    CollectCyclesCmcNotify(Result<Cycles, LedgerTopupCyclesCmcNotifyError>),
    ReferralUserReferralPayment(Result<(), CallError>),
    UserReferralPayment(Result<(), CallError>),
    CollectIcp(Result<Result<IcpBlockHeight, IcpTransferError>, CallError>),
}

/// The call stopped in the middle with `err`: the progress `d`, unlocked, is written back
/// where the state still has the user, and `r` is the error that the call ends with.
pub open spec fn new_user_paused(s0: CtsState, s1: CtsState, user: Seq<u8>, d: NewUserData, err: NewUserMidCallError, r: Result<NewUserData, NewUserError>) -> bool {
    &&& r == Err::<NewUserData, NewUserError>(NewUserError::MidCallError(err))
    &&& new_user_written(s0, s1, user, NewUserData { lock: false, ..d })
}

/// The call goes on with the progress `d`, and the state stays.
pub open spec fn new_user_goes_on(s0: CtsState, s1: CtsState, d: NewUserData, r: Result<NewUserData, NewUserError>) -> bool {
    r == Ok::<NewUserData, NewUserError>(d) && s1 == s0
}

/// The call ends with the error `err`, and the user is taken out of the state.
pub open spec fn new_user_given_up(s0: CtsState, s1: CtsState, user: Seq<u8>, err: NewUserError, r: Result<NewUserData, NewUserError>) -> bool {
    r == Err::<NewUserData, NewUserError>(err) && new_user_taken_out(s0, s1, user)
}

/// The call stops in the middle with `err`: the progress, unlocked, is written back where the
/// state still has the user, for a later call to go on from it.
pub fn new_user_pause(state: &mut CtsState, user_id: &UserId, nud: NewUserData, err: NewUserMidCallError) -> (r: NewUserError)
    requires
        old(state).wf(),
    ensures
        final(state).wf(),
        r == NewUserError::MidCallError(err),
        new_user_written(*old(state), *final(state), user_id@, NewUserData { lock: false, ..nud }),
{
    let mut nud = nud;
    nud.lock = false;
    write_new_user_data(state, user_id, nud);
    NewUserError::MidCallError(err)
}

fn pause(state: &mut CtsState, user_id: &UserId, nud: NewUserData, err: NewUserMidCallError) -> (r: Result<NewUserData, NewUserError>)
    requires
        old(state).wf(),
    ensures
        final(state).wf(),
        new_user_paused(*old(state), *final(state), user_id@, nud, err, r),
{
    Err(new_user_pause(state, user_id, nud, err))
}

fn give_up(state: &mut CtsState, user_id: &UserId, err: NewUserError) -> (r: Result<NewUserData, NewUserError>)
    requires
        old(state).wf(),
    ensures
        final(state).wf(),
        new_user_given_up(*old(state), *final(state), user_id@, err, r),
{
    take_out_new_user(state, user_id);
    Err(err)
}

/// What the answer of a step makes of the progress `nud` of the user `user_id` and of the
/// state, at `now_nanos`: the progress to go on with, or the error that the call ends with.
/// A call error, or a refusal that a later call may get past, stops the call and keeps the
/// progress; a user found to have a user-canister already, a referral that is no user, and a
/// creation that the cycles-minting canister refunded or found too old, take the user out.
#[verifier::rlimit(60)]
#[verifier::spinoff_prover]
pub fn new_user_apply(state: &mut CtsState, user_id: &UserId, nud: NewUserData, event: NewUserEvent, now_nanos: u64) -> (r: Result<NewUserData, NewUserError>)
    requires
        old(state).wf(),
    ensures
        final(state).wf(),
        r matches Ok(n2) ==> new_user_step_done(nud, n2, event_kind(event)),
        ({
            let s0 = *old(state);
            let s1 = *final(state);
            let u = user_id@;
            match event {
                NewUserEvent::FindUserInTheUsersMapCanisters(res) => match res {
                    Ok(Some(uc)) => new_user_given_up(s0, s1, u, NewUserError::FoundUserCanister(uc), r),
                    Ok(None) => new_user_goes_on(s0, s1, NewUserData { look_if_user_is_in_the_users_map_canisters: true, ..nud }, r),
                    Err(FindUserInTheUsersMapCanistersError::UsersMapCanistersFindUserCallFails(v)) =>
                        new_user_paused(s0, s1, u, nud, NewUserMidCallError::UsersMapCanistersFindUserCallFails(v), r),
                },
                NewUserEvent::FindReferralUserCanister(res) => match res {
                    Ok(Some(uc)) => new_user_goes_on(s0, s1, NewUserData { referral_user_canister_id: Some(uc), ..nud }, r),
                    Ok(None) => new_user_given_up(s0, s1, u, NewUserError::ReferralUserNotFound, r),
                    Err(FindUserInTheUsersMapCanistersError::UsersMapCanistersFindUserCallFails(v)) =>
                        new_user_paused(s0, s1, u, nud, NewUserMidCallError::UsersMapCanistersFindUserCallFails(v), r),
                },
                NewUserEvent::CreateUserCanisterIcpTransfer(res) => match res {
                    Ok(Ok(h)) => new_user_goes_on(s0, s1, NewUserData { create_user_canister_block_height: Some(h), ..nud }, r),
                    Ok(Err(e)) => new_user_paused(s0, s1, u, nud, NewUserMidCallError::CreateUserCanisterIcpTransferError(e), r),
                    Err(e) => new_user_paused(s0, s1, u, nud, NewUserMidCallError::CreateUserCanisterIcpTransferCallError(e), r),
                },
                NewUserEvent::CmcNotifyCreateCanister(res) => match res {
                    Ok(Ok(uc)) => {
                        &&& r == Ok::<NewUserData, NewUserError>(NewUserData { user_canister: Some(uc), user_canister_uninstall_code: true, ..nud })
                        &&& s1 == CtsState { user_canister_cache: s1.user_canister_cache, ..s0 }
                        &&& UserCanisterCache::spec_put(s0.user_canister_cache, s1.user_canister_cache, u, Some(uc@), now_nanos)
                    },
                    Ok(Err(e)) => match e {
                        CmcNotifyError::TransactionTooOld(_) | CmcNotifyError::Refunded { .. } =>
                            new_user_given_up(s0, s1, u, NewUserError::CreateUserCanisterCmcNotifyError(e), r),
                        _ => new_user_paused(s0, s1, u, nud, NewUserMidCallError::CreateUserCanisterCmcNotifyError(e), r),
                    },
                    Err(e) => new_user_paused(s0, s1, u, nud, NewUserMidCallError::CreateUserCanisterCmcNotifyCallError(e), r),
                },
                NewUserEvent::UninstallCode(res) => match res {
                    Ok(()) => new_user_goes_on(s0, s1, NewUserData { user_canister_uninstall_code: true, ..nud }, r),
                    Err(e) => new_user_paused(s0, s1, u, nud, NewUserMidCallError::UserCanisterUninstallCodeCallError(e), r),
                },
                NewUserEvent::InstallCode(res) => match res {
                    Ok(()) => new_user_goes_on(s0, s1, NewUserData { user_canister_install_code: true, ..nud }, r),
                    Err(e) => new_user_paused(s0, s1, u, nud, NewUserMidCallError::UserCanisterInstallCodeCallError(e), r),
                },
                NewUserEvent::CanisterStatus(res) => match res {
                    Ok(rec) => new_user_goes_on(s0, s1, NewUserData { user_canister_status_record: Some(rec), ..nud }, r),
                    Err(e) => new_user_paused(s0, s1, u, nud, NewUserMidCallError::UserCanisterStatusCallError(e), r),
                },
                NewUserEvent::StartCanister(res) => match res {
                    Ok(()) => new_user_goes_on(s0, s1, NewUserData {
                        user_canister_status_record: match nud.user_canister_status_record {
                            Some(rec) => Some(ManagementCanisterCanisterStatusRecord { status: ManagementCanisterCanisterStatusVariant::running, ..rec }),
                            None => None,
                        },
                        ..nud
                    }, r),
                    Err(e) => new_user_paused(s0, s1, u, nud, NewUserMidCallError::UserCanisterStartCanisterCallError(e), r),
                },
                NewUserEvent::PutNewUserIntoAUsersMapCanister(res) => match res {
                    Ok(umc) => new_user_goes_on(s0, s1, NewUserData { users_map_canister: Some(umc), ..nud }, r),
                    Err(e) => new_user_paused(s0, s1, u, nud, NewUserMidCallError::PutNewUserIntoAUsersMapCanisterError(e), r),
                },
                NewUserEvent::UpdateSettings(settings, res) => match res {
                    Ok(()) => new_user_goes_on(s0, s1, NewUserData {
                        user_canister_status_record: match nud.user_canister_status_record {
                            Some(rec) => Some(ManagementCanisterCanisterStatusRecord { settings, ..rec }),
                            None => None,
                        },
                        ..nud
                    }, r),
                    Err(e) => new_user_paused(s0, s1, u, nud, NewUserMidCallError::UserCanisterUpdateSettingsCallError(e), r),
                },
                NewUserEvent::CollectCyclesCmcIcpTransfer(res) => match res {
                    Ok(h) => new_user_goes_on(s0, s1, NewUserData { collect_cycles_cmc_icp_transfer_block_height: Some(h), ..nud }, r),
                    Err(e) => new_user_paused(s0, s1, u, nud, NewUserMidCallError::CollectCyclesLedgerTopupCyclesCmcIcpTransferError(e), r),
                },
                NewUserEvent::CollectCyclesCmcNotify(res) => match res {
                    Ok(c) => new_user_goes_on(s0, s1, NewUserData { collect_cycles_cmc_notify_cycles: Some(c), ..nud }, r),
                    Err(e) => new_user_paused(s0, s1, u, nud, NewUserMidCallError::CollectCyclesLedgerTopupCyclesCmcNotifyError(e), r),
                },
                NewUserEvent::ReferralUserReferralPayment(res) => match res {
                    Ok(()) => new_user_goes_on(s0, s1, NewUserData { referral_user_referral_payment_cycles_transfer: true, ..nud }, r),
                    Err(e) => new_user_paused(s0, s1, u, nud, NewUserMidCallError::ReferralUserReferralPaymentCyclesTransferCallError(e), r),
                },
                NewUserEvent::UserReferralPayment(res) => match res {
                    Ok(()) => new_user_goes_on(s0, s1, NewUserData { user_referral_payment_cycles_transfer: true, ..nud }, r),
                    Err(e) => new_user_paused(s0, s1, u, nud, NewUserMidCallError::UserReferralPaymentCyclesTransferCallError(e), r),
                },
                NewUserEvent::CollectIcp(res) => match res {
                    Ok(Ok(_h)) => new_user_goes_on(s0, s1, NewUserData { collect_icp: true, ..nud }, r),
                    Ok(Err(e)) => new_user_paused(s0, s1, u, nud, NewUserMidCallError::CollectIcpTransferError(e), r),
                    Err(e) => new_user_paused(s0, s1, u, nud, NewUserMidCallError::CollectIcpTransferCallError(e), r),
                },
            }
        }),
{
    let mut nud = nud;
    match event {
        NewUserEvent::FindUserInTheUsersMapCanisters(res) => match res {
            Ok(Some(uc)) => give_up(state, user_id, NewUserError::FoundUserCanister(uc)),
            Ok(None) => {
                nud.look_if_user_is_in_the_users_map_canisters = true;
                Ok(nud)
            },
            Err(FindUserInTheUsersMapCanistersError::UsersMapCanistersFindUserCallFails(v)) =>
                pause(state, user_id, nud, NewUserMidCallError::UsersMapCanistersFindUserCallFails(v)),
        },
        NewUserEvent::FindReferralUserCanister(res) => match res {
            Ok(Some(uc)) => {
                nud.referral_user_canister_id = Some(uc);
                Ok(nud)
            },
            Ok(None) => give_up(state, user_id, NewUserError::ReferralUserNotFound),
            Err(FindUserInTheUsersMapCanistersError::UsersMapCanistersFindUserCallFails(v)) =>
                pause(state, user_id, nud, NewUserMidCallError::UsersMapCanistersFindUserCallFails(v)),
        },
        NewUserEvent::CreateUserCanisterIcpTransfer(res) => match res {
            Ok(Ok(h)) => {
                nud.create_user_canister_block_height = Some(h);
                Ok(nud)
            },
            Ok(Err(e)) => pause(state, user_id, nud, NewUserMidCallError::CreateUserCanisterIcpTransferError(e)),
            Err(e) => pause(state, user_id, nud, NewUserMidCallError::CreateUserCanisterIcpTransferCallError(e)),
        },
        NewUserEvent::CmcNotifyCreateCanister(res) => match res {
            Ok(Ok(uc)) => {
                state.user_canister_cache.put(user_id.copy(), Some(uc.copy()), now_nanos);
                nud.user_canister = Some(uc);
                nud.user_canister_uninstall_code = true;
                Ok(nud)
            },
            Ok(Err(e)) => match e {
                CmcNotifyError::TransactionTooOld(_) | CmcNotifyError::Refunded { .. } =>
                    give_up(state, user_id, NewUserError::CreateUserCanisterCmcNotifyError(e)),
                _ => pause(state, user_id, nud, NewUserMidCallError::CreateUserCanisterCmcNotifyError(e)),
            },
            Err(e) => pause(state, user_id, nud, NewUserMidCallError::CreateUserCanisterCmcNotifyCallError(e)),
        },
        NewUserEvent::UninstallCode(res) => match res {
            Ok(()) => {
                nud.user_canister_uninstall_code = true;
                Ok(nud)
            },
            Err(e) => pause(state, user_id, nud, NewUserMidCallError::UserCanisterUninstallCodeCallError(e)),
        },
        NewUserEvent::InstallCode(res) => match res {
            Ok(()) => {
                nud.user_canister_install_code = true;
                Ok(nud)
            },
            Err(e) => pause(state, user_id, nud, NewUserMidCallError::UserCanisterInstallCodeCallError(e)),
        },
        NewUserEvent::CanisterStatus(res) => match res {
            Ok(rec) => {
                nud.user_canister_status_record = Some(rec);
                Ok(nud)
            },
            Err(e) => pause(state, user_id, nud, NewUserMidCallError::UserCanisterStatusCallError(e)),
        },
        NewUserEvent::StartCanister(res) => match res {
            Ok(()) => {
                nud.user_canister_status_record = match nud.user_canister_status_record {
                    Some(rec) => Some(ManagementCanisterCanisterStatusRecord { status: ManagementCanisterCanisterStatusVariant::running, ..rec }),
                    None => None,
                };
                Ok(nud)
            },
            Err(e) => pause(state, user_id, nud, NewUserMidCallError::UserCanisterStartCanisterCallError(e)),
        },
        NewUserEvent::PutNewUserIntoAUsersMapCanister(res) => match res {
            Ok(umc) => {
                nud.users_map_canister = Some(umc);
                Ok(nud)
            },
            Err(e) => pause(state, user_id, nud, NewUserMidCallError::PutNewUserIntoAUsersMapCanisterError(e)),
        },
        NewUserEvent::UpdateSettings(settings, res) => match res {
            Ok(()) => {
                nud.user_canister_status_record = match nud.user_canister_status_record {
                    Some(rec) => Some(ManagementCanisterCanisterStatusRecord { settings, ..rec }),
                    None => None,
                };
                Ok(nud)
            },
            Err(e) => pause(state, user_id, nud, NewUserMidCallError::UserCanisterUpdateSettingsCallError(e)),
        },
        NewUserEvent::CollectCyclesCmcIcpTransfer(res) => match res {
            Ok(h) => {
                nud.collect_cycles_cmc_icp_transfer_block_height = Some(h);
                Ok(nud)
            },
            Err(e) => pause(state, user_id, nud, NewUserMidCallError::CollectCyclesLedgerTopupCyclesCmcIcpTransferError(e)),
        },
        NewUserEvent::CollectCyclesCmcNotify(res) => match res {
            Ok(c) => {
                nud.collect_cycles_cmc_notify_cycles = Some(c);
                Ok(nud)
            },
            Err(e) => pause(state, user_id, nud, NewUserMidCallError::CollectCyclesLedgerTopupCyclesCmcNotifyError(e)),
        },
        NewUserEvent::ReferralUserReferralPayment(res) => match res {
            Ok(()) => {
                nud.referral_user_referral_payment_cycles_transfer = true;
                Ok(nud)
            },
            Err(e) => pause(state, user_id, nud, NewUserMidCallError::ReferralUserReferralPaymentCyclesTransferCallError(e)),
        },
        NewUserEvent::UserReferralPayment(res) => match res {
            Ok(()) => {
                nud.user_referral_payment_cycles_transfer = true;
                Ok(nud)
            },
            Err(e) => pause(state, user_id, nud, NewUserMidCallError::UserReferralPaymentCyclesTransferCallError(e)),
        },
        NewUserEvent::CollectIcp(res) => match res {
            Ok(Ok(_h)) => {
                nud.collect_icp = true;
                Ok(nud)
            },
            Ok(Err(e)) => pause(state, user_id, nud, NewUserMidCallError::CollectIcpTransferError(e)),
            Err(e) => pause(state, user_id, nud, NewUserMidCallError::CollectIcpTransferCallError(e)),
        },
    }
}

/// All the steps are done: the user is taken out of the new users, and its user-canister is
/// handed back.
pub fn new_user_complete(state: &mut CtsState, user_id: &UserId, nud: NewUserData) -> (r: Result<NewUserSuccessData, NewUserError>)
    requires
        old(state).wf(),
        nud.user_canister is Some,
    ensures
        final(state).wf(),
        r == Ok::<NewUserSuccessData, NewUserError>(NewUserSuccessData { user_canister_id: nud.user_canister->0 }),
        new_user_taken_out(*old(state), *final(state), user_id@),
{
    take_out_new_user(state, user_id);
    match nud.user_canister {
        Some(uc) => Ok(NewUserSuccessData { user_canister_id: uc }),
        None => Err(NewUserError::ReferralUserNotFound),
    }
}

/// A call that stopped in the middle goes on where it stopped: after its progress was written
/// back unlocked, a call with the same request resumes with that progress, locked again.
pub proof fn lemma_new_user_paused_call_resumes(
    s0: CtsState,
    s1: CtsState,
    s2: CtsState,
    user: Seq<u8>,
    d: NewUserData,
    q: NewUserQuest,
    b: NewUserBegin,
)
    requires
        new_users_map(s0).dom().contains(user),
        new_user_written(s0, s1, user, NewUserData { lock: false, ..d }),
        new_user_quest_same(q, d.new_user_quest),
        !(q.opt_referral_user_id matches Some(r) && r@ == user),
        spec_new_user_begin(s1, s2, user, q, b),
    ensures
        b matches NewUserBegin::Resume(d2) && new_user_data_same(d2, NewUserData { lock: true, ..d }),
{
    assert(new_users_map(s1)[user] == NewUserData { lock: false, ..d });
}

/// The place of a step in the order of the steps; the two ways in which a call stops before
/// its end share a place after the status of the user-canister.
pub open spec fn step_rank(k: NewUserStepKind) -> int {
    match k {
        NewUserStepKind::FindUserInTheUsersMapCanisters => 0,
        NewUserStepKind::FindReferralUserCanister => 1,
        NewUserStepKind::CreateUserCanisterIcpTransfer => 2,
        NewUserStepKind::CmcNotifyCreateCanister => 3,
        NewUserStepKind::UninstallCode => 4,
        NewUserStepKind::InstallCode => 5,
        NewUserStepKind::CanisterStatus => 6,
        NewUserStepKind::UserCanisterCodeNotFound => 7,
        NewUserStepKind::UserCanisterModuleVerificationError => 7,
        NewUserStepKind::StartCanister => 8,
        NewUserStepKind::PutNewUserIntoAUsersMapCanister => 9,
        NewUserStepKind::UpdateSettings => 10,
        NewUserStepKind::CollectCyclesCmcIcpTransfer => 11,
        NewUserStepKind::CollectIcp => 11,
        NewUserStepKind::CollectCyclesCmcNotify => 12,
        NewUserStepKind::ReferralUserReferralPayment => 13,
        NewUserStepKind::UserReferralPayment => 14,
        NewUserStepKind::Finish => 15,
    }
}

/// The step whose answer an event is.
pub open spec fn event_kind(event: NewUserEvent) -> NewUserStepKind {
    match event {
        NewUserEvent::FindUserInTheUsersMapCanisters(_) => NewUserStepKind::FindUserInTheUsersMapCanisters,
        NewUserEvent::FindReferralUserCanister(_) => NewUserStepKind::FindReferralUserCanister,
        NewUserEvent::CreateUserCanisterIcpTransfer(_) => NewUserStepKind::CreateUserCanisterIcpTransfer,
        NewUserEvent::CmcNotifyCreateCanister(_) => NewUserStepKind::CmcNotifyCreateCanister,
        NewUserEvent::UninstallCode(_) => NewUserStepKind::UninstallCode,
        NewUserEvent::InstallCode(_) => NewUserStepKind::InstallCode,
        NewUserEvent::CanisterStatus(_) => NewUserStepKind::CanisterStatus,
        NewUserEvent::StartCanister(_) => NewUserStepKind::StartCanister,
        NewUserEvent::PutNewUserIntoAUsersMapCanister(_) => NewUserStepKind::PutNewUserIntoAUsersMapCanister,
        NewUserEvent::UpdateSettings(_, _) => NewUserStepKind::UpdateSettings,
        NewUserEvent::CollectCyclesCmcIcpTransfer(_) => NewUserStepKind::CollectCyclesCmcIcpTransfer,
        NewUserEvent::CollectCyclesCmcNotify(_) => NewUserStepKind::CollectCyclesCmcNotify,
        NewUserEvent::ReferralUserReferralPayment(_) => NewUserStepKind::ReferralUserReferralPayment,
        NewUserEvent::UserReferralPayment(_) => NewUserStepKind::UserReferralPayment,
        NewUserEvent::CollectIcp(_) => NewUserStepKind::CollectIcp,
    }
}

/// The progress `n2` is `n` with the step `k` done: what the call goes on with after a
/// successful answer to that step.
pub open spec fn new_user_step_done(n: NewUserData, n2: NewUserData, k: NewUserStepKind) -> bool {
    match k {
        NewUserStepKind::FindUserInTheUsersMapCanisters => n2 == NewUserData { look_if_user_is_in_the_users_map_canisters: true, ..n },
        NewUserStepKind::FindReferralUserCanister => n2.referral_user_canister_id is Some && n2 == NewUserData { referral_user_canister_id: n2.referral_user_canister_id, ..n },
        NewUserStepKind::CreateUserCanisterIcpTransfer => n2.create_user_canister_block_height is Some
            && n2 == NewUserData { create_user_canister_block_height: n2.create_user_canister_block_height, ..n },
        NewUserStepKind::CmcNotifyCreateCanister => n2.user_canister is Some
            && n2 == NewUserData { user_canister: n2.user_canister, user_canister_uninstall_code: true, ..n },
        NewUserStepKind::UninstallCode => n2 == NewUserData { user_canister_uninstall_code: true, ..n },
        NewUserStepKind::InstallCode => n2 == NewUserData { user_canister_install_code: true, ..n },
        NewUserStepKind::CanisterStatus => n2.user_canister_status_record is Some
            && n2 == NewUserData { user_canister_status_record: n2.user_canister_status_record, ..n },
        NewUserStepKind::StartCanister => n2 == NewUserData {
            user_canister_status_record: match n.user_canister_status_record {
                Some(rec) => Some(ManagementCanisterCanisterStatusRecord { status: ManagementCanisterCanisterStatusVariant::running, ..rec }),
                None => None,
            },
            ..n
        },
        NewUserStepKind::PutNewUserIntoAUsersMapCanister => n2.users_map_canister is Some && n2 == NewUserData { users_map_canister: n2.users_map_canister, ..n },
        NewUserStepKind::UpdateSettings => n2 == NewUserData {
            user_canister_status_record: match n.user_canister_status_record {
                Some(rec) => Some(ManagementCanisterCanisterStatusRecord {
                    settings: n2.user_canister_status_record->0.settings,
                    ..rec
                }),
                None => None,
            },
            ..n
        },
        NewUserStepKind::CollectCyclesCmcIcpTransfer => n2.collect_cycles_cmc_icp_transfer_block_height is Some
            && n2 == NewUserData { collect_cycles_cmc_icp_transfer_block_height: n2.collect_cycles_cmc_icp_transfer_block_height, ..n },
        NewUserStepKind::CollectCyclesCmcNotify => n2.collect_cycles_cmc_notify_cycles is Some
            && n2 == NewUserData { collect_cycles_cmc_notify_cycles: n2.collect_cycles_cmc_notify_cycles, ..n },
        NewUserStepKind::ReferralUserReferralPayment => n2 == NewUserData { referral_user_referral_payment_cycles_transfer: true, ..n },
        NewUserStepKind::UserReferralPayment => n2 == NewUserData { user_referral_payment_cycles_transfer: true, ..n },
        NewUserStepKind::CollectIcp => n2 == NewUserData { collect_icp: true, ..n },
        _ => false,
    }
}

/// A step that was answered with success is not asked again: the next step comes later in the
/// order of the steps, so a call makes each of its calls once at most. (The settings that an
/// answer to a change of the settings records are those that the step asked for.)
pub proof fn lemma_a_done_step_is_not_asked_again(n: NewUserData, n2: NewUserData, code: CanisterCode, cts: Seq<u8>)
    requires
        new_user_step_done(n, n2, spec_new_user_step_kind(n, code, cts)),
        spec_new_user_step_kind(n, code, cts) == NewUserStepKind::UpdateSettings ==> new_user_canister_settings_are(
            n2.user_canister_status_record->0.settings, cts, n.users_map_canister->0@, n.user_canister->0@,
        ),
    ensures
        step_rank(spec_new_user_step_kind(n2, code, cts)) > step_rank(spec_new_user_step_kind(n, code, cts)),
{
}

/// A call refused because the user's progress was begun with other parameters goes on when it
/// is made again with the parameters that the refusal names.
pub proof fn lemma_new_user_retry_with_the_set_parameters(
    s0: CtsState,
    s1: CtsState,
    s2: CtsState,
    user: Seq<u8>,
    q: NewUserQuest,
    q2: NewUserQuest,
    b2: NewUserBegin,
)
    requires
        spec_new_user_begin(s0, s1, user, q, NewUserBegin::Refuse(NewUserError::CallWithTheAlreadySetParameters(q2))),
        !(q2.opt_referral_user_id matches Some(r) && r@ == user),
        spec_new_user_begin(s1, s2, user, q2, b2),
    ensures
        b2 is Resume,
{
}

} // verus!
