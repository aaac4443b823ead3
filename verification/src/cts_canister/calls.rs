use vstd::prelude::*;
use crate::principal::Principal;
use crate::assoc::{assoc_map, assoc_find};
use crate::types::{CyclesTransfer, CyclesTransferMemo, UserId, UserCanisterId, UsersMapCanisterId};
use crate::types::users_map_canister::UMCUserData;
use crate::types::user_canister_cache::{UserCanisterCache, opt_principal_view, copy_opt_principal};
use crate::cts_canister::data::{FindUserCanisterError, FindUserInTheUsersMapCanistersError};
use crate::cts_canister::data::{CtsState, IcpXdrConversionRate, MINIMUM_CTS_CYCLES_TRANSFER_IN_CYCLES};
use crate::cts_canister::controller::{CtsTrap, spec_is_controller, is_controller};
use crate::types::canister_code::CanisterCode;

verus! {

/// The largest argument of a `cycles_transfer` call, in bytes.
pub const MAX_CYCLES_TRANSFER_ARG_SIZE: u64 = 100;

/// The memo with which cycles are given to the CTS: the bytes of "DONATION".
pub const DONATION_MEMO: [u8; 8] = [68, 79, 78, 65, 84, 73, 79, 78];

/// Why a `cycles_transfer` call is rejected.
pub enum CyclesTransferRejection {
    ArgDataTooLarge,
    MinimumCycles(u128),
    UnknownCyclesTransferMemo,
}

/// What the CTS does with a `cycles_transfer` call.
pub enum CyclesTransferAction {
    Trap(CtsTrap),
    Reject(CyclesTransferRejection),
    Accept(u128),
}

/// The memo is a blob of the bytes of "DONATION".
pub open spec fn is_donation(memo: CyclesTransferMemo) -> bool {
    match memo {
        CyclesTransferMemo::Blob(b) => b@ == DONATION_MEMO@,
        _ => false,
    }
}

/// Decides a `cycles_transfer` call, given the size of its argument, the cycles it brings,
/// and its argument where it could be read: refused while the CTS stops taking calls;
/// rejected where the argument is larger than a hundred bytes or the cycles fewer than the
/// least; a trap where the argument cannot be read; all the cycles taken where the memo is
/// "DONATION", and rejected otherwise.
pub fn cycles_transfer(state: &CtsState, arg_data_raw_size: u64, msg_cycles_available: u128, ct: Option<CyclesTransfer>) -> (action: CyclesTransferAction)
    ensures
        state.stop_calls ==> action matches CyclesTransferAction::Trap(CtsTrap::Maintenance),
        !state.stop_calls && arg_data_raw_size > MAX_CYCLES_TRANSFER_ARG_SIZE ==> action matches CyclesTransferAction::Reject(CyclesTransferRejection::ArgDataTooLarge),
        !state.stop_calls && arg_data_raw_size <= MAX_CYCLES_TRANSFER_ARG_SIZE && msg_cycles_available < MINIMUM_CTS_CYCLES_TRANSFER_IN_CYCLES
            ==> (action matches CyclesTransferAction::Reject(CyclesTransferRejection::MinimumCycles(m)) && m == MINIMUM_CTS_CYCLES_TRANSFER_IN_CYCLES),
        !state.stop_calls && arg_data_raw_size <= MAX_CYCLES_TRANSFER_ARG_SIZE && msg_cycles_available >= MINIMUM_CTS_CYCLES_TRANSFER_IN_CYCLES ==> match ct {
            None => action matches CyclesTransferAction::Trap(CtsTrap::CyclesTransferArgCannotBeRead),
            Some(ct) => if is_donation(ct.memo) {
                action == CyclesTransferAction::Accept(msg_cycles_available)
            } else {
                action matches CyclesTransferAction::Reject(CyclesTransferRejection::UnknownCyclesTransferMemo)
            },
        },
{
    if state.stop_calls {
        return CyclesTransferAction::Trap(CtsTrap::Maintenance);
    }
    if arg_data_raw_size > MAX_CYCLES_TRANSFER_ARG_SIZE {
        return CyclesTransferAction::Reject(CyclesTransferRejection::ArgDataTooLarge);
    }
    if msg_cycles_available < MINIMUM_CTS_CYCLES_TRANSFER_IN_CYCLES {
        return CyclesTransferAction::Reject(CyclesTransferRejection::MinimumCycles(MINIMUM_CTS_CYCLES_TRANSFER_IN_CYCLES));
    }
    match ct {
        None => CyclesTransferAction::Trap(CtsTrap::CyclesTransferArgCannotBeRead),
        Some(ct) => match ct.memo {
            CyclesTransferMemo::Blob(b) => {
                let donation: [u8; 8] = DONATION_MEMO;
                if crate::principal::bytes_eq(b.as_slice(), &donation) {
                    CyclesTransferAction::Accept(msg_cycles_available)
                } else {
                    CyclesTransferAction::Reject(CyclesTransferRejection::UnknownCyclesTransferMemo)
                }
            },
            _ => CyclesTransferAction::Reject(CyclesTransferRejection::UnknownCyclesTransferMemo),
        },
    }
}

/// What a controller sees of the CTS.
pub struct CTSMetrics {
    pub global_allocator_counter: u64,
    pub stable_size: u64,
    pub cycles_balance: u128,
    pub canisters_for_the_use_count: u64,
    pub users_map_canister_code_hash: Option<[u8; 32]>,
    pub user_canister_code_hash: Option<[u8; 32]>,
    pub cycles_transferrer_canister_code_hash: Option<[u8; 32]>,
    pub users_map_canisters_count: u64,
    pub cycles_transferrer_canisters_count: u64,
    pub latest_known_cmc_rate: IcpXdrConversionRate,
    pub new_users_count: u64,
    pub users_burn_icp_mint_cycles_count: u64,
}

/// The hash of a code, where its module is not empty.
pub open spec fn spec_code_hash(code: CanisterCode) -> Option<Seq<u8>> {
    if code.module_view().len() != 0 { Some(code.module_hash_view()) } else { None }
}

/// The hash of a code where its module is not empty.
fn code_hash(code: &CanisterCode) -> (h: Option<[u8; 32]>)
    ensures
        match (h, spec_code_hash(*code)) {
            (Some(h), Some(s)) => h@ == s,
            (None, None) => true,
            _ => false,
        },
{
    if code.module().len() != 0 {
        Some(*code.module_hash())
    } else {
        None
    }
}

/// The counts and hashes that a controller sees, with the figures that only the system knows
/// handed in.
pub fn controller_see_metrics(state: &CtsState, caller: &Principal, global_allocator_counter: u64, stable_size: u64, cycles_balance: u128) -> (r: Result<CTSMetrics, CtsTrap>)
    ensures
        !spec_is_controller(*state, caller@) ==> r matches Err(CtsTrap::CallerIsNotAController),
        spec_is_controller(*state, caller@) ==> (r matches Ok(m) && {
            &&& m.global_allocator_counter == global_allocator_counter
            &&& m.stable_size == stable_size
            &&& m.cycles_balance == cycles_balance
            &&& m.canisters_for_the_use_count == state.cts_data.canisters_for_the_use@.len()
            &&& m.users_map_canisters_count == state.cts_data.users_map_canisters@.len()
            &&& m.cycles_transferrer_canisters_count == state.cts_data.cycles_transferrer_canisters@.len()
            &&& m.new_users_count == state.cts_data.new_users@.len()
            &&& m.users_burn_icp_mint_cycles_count == state.cts_data.users_burn_icp_mint_cycles@.len()
            &&& m.latest_known_cmc_rate == state.latest_known_cmc_rate
            &&& match (m.users_map_canister_code_hash, spec_code_hash(state.cts_data.users_map_canister_code)) {
                (Some(h), Some(s)) => h@ == s, (None, None) => true, _ => false }
            &&& match (m.user_canister_code_hash, spec_code_hash(state.cts_data.user_canister_code)) {
                (Some(h), Some(s)) => h@ == s, (None, None) => true, _ => false }
            &&& match (m.cycles_transferrer_canister_code_hash, spec_code_hash(state.cts_data.cycles_transferrer_canister_code)) {
                (Some(h), Some(s)) => h@ == s, (None, None) => true, _ => false }
        }),
{
    if !is_controller(state, caller) {
        return Err(CtsTrap::CallerIsNotAController);
    }
    Ok(CTSMetrics {
        global_allocator_counter,
        stable_size,
        cycles_balance,
        canisters_for_the_use_count: state.cts_data.canisters_for_the_use.len() as u64,
        users_map_canister_code_hash: code_hash(&state.cts_data.users_map_canister_code),
        user_canister_code_hash: code_hash(&state.cts_data.user_canister_code),
        cycles_transferrer_canister_code_hash: code_hash(&state.cts_data.cycles_transferrer_canister_code),
        users_map_canisters_count: state.cts_data.users_map_canisters.len() as u64,
        cycles_transferrer_canisters_count: state.cts_data.cycles_transferrer_canisters.len() as u64,
        latest_known_cmc_rate: state.latest_known_cmc_rate,
        new_users_count: state.cts_data.new_users.len() as u64,
        users_burn_icp_mint_cycles_count: state.cts_data.users_burn_icp_mint_cycles.len() as u64,
    })
}

/// Whether a user is in the middle of becoming a user; `find_user_canister` refuses such a
/// user and asks it to finish first.
pub fn user_is_in_the_new_users_map(state: &CtsState, user_id: &UserId) -> (r: bool)
    ensures
        r == assoc_map(state.cts_data.new_users@).dom().contains(user_id@),
{
    match assoc_find(&state.cts_data.new_users, user_id) {
        Some(i) => {
            proof {
                assert(crate::assoc::assoc_contains(state.cts_data.new_users@, user_id@));
            }
            true
        },
        None => false,
    }
}

/// The user-canister of a user, where the cache of the state knows it: the user is then
/// touched at `now_nanos`. `None` where the users-map canisters are to be asked.
pub fn find_user_canister_in_the_cache(state: &mut CtsState, user_id: &UserId, now_nanos: u64) -> (r: Option<Option<UserCanisterId>>)
    requires
        old(state).wf(),
    ensures
        final(state).wf(),
        *final(state) == (CtsState { user_canister_cache: final(state).user_canister_cache, ..*old(state) }),
        final(state).user_canister_cache.spec_max_size() == old(state).user_canister_cache.spec_max_size(),
        final(state).user_canister_cache.spec_len() == old(state).user_canister_cache.spec_len(),
        ({
            let c0 = old(state).user_canister_cache.view_map();
            match r {
                None => !c0.dom().contains(user_id@) && final(state).user_canister_cache.view_map() == c0,
                Some(opt) => {
                    &&& c0.dom().contains(user_id@)
                    &&& opt_principal_view(opt) == c0[user_id@].1
                    &&& final(state).user_canister_cache.view_map() == c0.insert(user_id@, (now_nanos, c0[user_id@].1))
                },
            }
        }),
{
    state.user_canister_cache.check(user_id, now_nanos)
}

/// What the users-map canisters answered of a user: its user-canister, if it has one, which
/// the cache then keeps, touched at `now_nanos`; or why they could not be asked.
pub fn record_found_user_canister(
    state: &mut CtsState,
    user_id: &UserId,
    found: Result<Option<(UMCUserData, UsersMapCanisterId)>, FindUserInTheUsersMapCanistersError>,
    now_nanos: u64,
) -> (r: Result<Option<UserCanisterId>, FindUserInTheUsersMapCanistersError>)
    requires
        old(state).wf(),
    ensures
        final(state).wf(),
        match found {
            Err(e) => r == Err::<Option<UserCanisterId>, FindUserInTheUsersMapCanistersError>(e) && *final(state) == *old(state),
            Ok(opt) => {
                &&& r matches Ok(o) && opt_principal_view(o) == (match opt { Some(f) => Some(f.0.user_canister_id@), None => None })
                &&& *final(state) == (CtsState { user_canister_cache: final(state).user_canister_cache, ..*old(state) })
                &&& UserCanisterCache::spec_put(old(state).user_canister_cache, final(state).user_canister_cache, user_id@,
                        opt_principal_view(r->Ok_0), now_nanos)
            },
        },
{
    match found {
        Err(e) => Err(e),
        Ok(opt) => {
            let o: Option<UserCanisterId> = match opt {
                Some((umc_user_data, _umc)) => Some(umc_user_data.user_canister_id),
                None => None,
            };
            state.user_canister_cache.put(user_id.copy(), copy_opt_principal(&o), now_nanos);
            Ok(o)
        },
    }
}

/// How a call of a user for its user-canister begins.
pub enum FindUserCanisterStart {
    /// The call ends with this error.
    Refuse(FindUserCanisterError),
    /// The cache knows the answer.
    Found(Option<UserCanisterId>),
    /// The users-map canisters are to be asked, and their answer handed to
    /// `record_found_user_canister`.
    AskTheUsersMapCanisters,
}

/// The first decision of a call of `user_id` for its user-canister, at `now_nanos`: a user
/// in the middle of becoming a user is asked to finish that first; otherwise the cache is
/// asked.
pub fn find_user_canister(state: &mut CtsState, user_id: &UserId, now_nanos: u64) -> (r: FindUserCanisterStart)
    requires
        old(state).wf(),
    ensures
        final(state).wf(),
        assoc_map(old(state).cts_data.new_users@).dom().contains(user_id@) ==> r == FindUserCanisterStart::Refuse(
            FindUserCanisterError::UserIsInTheNewUsersMap) && *final(state) == *old(state),
        !assoc_map(old(state).cts_data.new_users@).dom().contains(user_id@) ==> {
            let c0 = old(state).user_canister_cache.view_map();
            &&& *final(state) == (CtsState { user_canister_cache: final(state).user_canister_cache, ..*old(state) })
            &&& match r {
                FindUserCanisterStart::AskTheUsersMapCanisters =>
                    !c0.dom().contains(user_id@) && final(state).user_canister_cache.view_map() == c0,
                FindUserCanisterStart::Found(opt) => {
                    &&& c0.dom().contains(user_id@)
                    &&& opt_principal_view(opt) == c0[user_id@].1
                    &&& final(state).user_canister_cache.view_map() == c0.insert(user_id@, (now_nanos, c0[user_id@].1))
                },
                FindUserCanisterStart::Refuse(_) => false,
            }
        },
{
    if user_is_in_the_new_users_map(state, user_id) {
        return FindUserCanisterStart::Refuse(FindUserCanisterError::UserIsInTheNewUsersMap);
    }
    match find_user_canister_in_the_cache(state, user_id, now_nanos) {
        Some(opt) => FindUserCanisterStart::Found(opt),
        None => FindUserCanisterStart::AskTheUsersMapCanisters,
    }
}

} // verus!
