//! What the controllers' calls that reach other canisters decide: which canisters a call
//! goes to, what each answer makes of the state, and what failures are handed back; and the
//! check that the CTS makes of each message before it takes it.

use vstd::prelude::*;
use crate::principal::{Principal, principals_contain, principals_contain_exec, copy_principals, principals_view, bytes_eq};
use crate::assoc::{assoc_map, assoc_find, lemma_assoc_map_at};
use crate::tools::CallError;
use crate::types::{UserId, UsersMapCanisterId};
use crate::types::cycles_transferrer::CyclesTransferrerCanisterInit;
use crate::types::canister_code::CanisterCode;
use crate::types::management_canister::{CanisterIdRecord, ManagementCanisterInstallCodeQuest, ManagementCanisterInstallCodeMode};
use crate::cts_canister::controller::{CtsTrap, spec_is_controller, is_controller, insert_canister_for_the_use};
use crate::cts_canister::data::{
    CtsState, CTSData, NewUserQuest, new_user_quest_same, UserBurnIcpMintCyclesQuest, principal_set,
    ControllerUpgradeUMCCallErrorType, ControllerUpgradeUMCError, ControllerPutUCCodeOntoTheUMCError,
    ControllerUpgradeCTCCallErrorType, ControllerUpgradeCTCError, ControllerCreateNewCyclesTransferrerCanisterError,
    GetNewCanisterError,
};
use crate::cts_canister::new_user::{copy_new_user_quest, copy_new_user_data, new_user_data_same};
use crate::cts_canister::burn_icp::{copy_burn_data, burn_data_same};
use crate::cts_canister::data::{NewUserData, UserBurnIcpMintCyclesData};

verus! {

/// The bytes of the name of the one method that an anonymous caller may call.
pub const SEE_FEES_METHOD_NAME: [u8; 8] = [115, 101, 101, 95, 102, 101, 101, 115];

/// The bytes of the name of the method that only canisters may call.
pub const CYCLES_TRANSFER_METHOD_NAME: [u8; 15] = [99, 121, 99, 108, 101, 115, 95, 116, 114, 97, 110, 115, 102, 101, 114];

/// The bytes with which the names of the controllers' methods begin: "controller".
pub const CONTROLLER_METHOD_PREFIX: [u8; 10] = [99, 111, 110, 116, 114, 111, 108, 108, 101, 114];

/// Whether a message of `caller` for the method whose name has the bytes `method_name` is
/// taken: an anonymous caller may only see the fees, only canisters may transfer cycles, and
/// only controllers may call the controllers' methods.
pub fn canister_inspect_message(state: &CtsState, caller: &Principal, method_name: &[u8]) -> (r: Result<(), CtsTrap>)
    ensures
        ({
            let anonymous: Seq<u8> = seq![4u8];
            if caller@ == anonymous && method_name@ != SEE_FEES_METHOD_NAME@ {
                r == Err::<(), CtsTrap>(CtsTrap::CallerCannotBeAnonymous)
            } else if method_name@ == CYCLES_TRANSFER_METHOD_NAME@ {
                r == Err::<(), CtsTrap>(CtsTrap::CallerMustBeACanister)
            } else if method_name@.len() >= CONTROLLER_METHOD_PREFIX@.len()
                && method_name@.take(CONTROLLER_METHOD_PREFIX@.len() as int) == CONTROLLER_METHOD_PREFIX@
                && !spec_is_controller(*state, caller@) {
                r == Err::<(), CtsTrap>(CtsTrap::CallerIsNotAController)
            } else {
                r == Ok::<(), CtsTrap>(())
            }
        }),
{
    let anonymous: Principal = Principal::anonymous();
    let see_fees: [u8; 8] = SEE_FEES_METHOD_NAME;
    if caller.same_as(&anonymous) && !bytes_eq(method_name, see_fees.as_slice()) {
        return Err(CtsTrap::CallerCannotBeAnonymous);
    }
    let cycles_transfer: [u8; 15] = CYCLES_TRANSFER_METHOD_NAME;
    if bytes_eq(method_name, cycles_transfer.as_slice()) {
        return Err(CtsTrap::CallerMustBeACanister);
    }
    let prefix: [u8; 10] = CONTROLLER_METHOD_PREFIX;
    if method_name.len() >= 10 {
        let mut head: Vec<u8> = Vec::new();
        let mut i: usize = 0;
        while i < 10
            invariant
                method_name@.len() >= 10,
                i <= 10,
                head@ == method_name@.take(i as int),
            decreases 10 - i,
        {
            head.push(method_name[i]);
            i = i + 1;
            assert(head@ =~= method_name@.take(i as int));
        }
        if bytes_eq(head.as_slice(), prefix.as_slice()) && !is_controller(state, caller) {
            return Err(CtsTrap::CallerIsNotAController);
        }
    }
    Ok(())
}

/// A controller sees the users-map canisters.
pub fn controller_see_users_map_canisters(state: &CtsState, caller: &Principal) -> (r: Result<Vec<Principal>, CtsTrap>)
    ensures
        !spec_is_controller(*state, caller@) ==> r matches Err(CtsTrap::CallerIsNotAController),
        spec_is_controller(*state, caller@) ==> (r matches Ok(v) && principals_view(v@) == principals_view(state.cts_data.users_map_canisters@)),
{
    if !is_controller(state, caller) {
        return Err(CtsTrap::CallerIsNotAController);
    }
    let v: Vec<Principal> = copy_principals(&state.cts_data.users_map_canisters);
    assert(principals_view(v@) =~= principals_view(state.cts_data.users_map_canisters@));
    Ok(v)
}

/// A controller sees the cycles-transferrer canisters.
pub fn controller_see_cycles_transferrer_canisters(state: &CtsState, caller: &Principal) -> (r: Result<Vec<Principal>, CtsTrap>)
    ensures
        !spec_is_controller(*state, caller@) ==> r matches Err(CtsTrap::CallerIsNotAController),
        spec_is_controller(*state, caller@) ==> (r matches Ok(v) && principals_view(v@) == principals_view(state.cts_data.cycles_transferrer_canisters@)),
{
    if !is_controller(state, caller) {
        return Err(CtsTrap::CallerIsNotAController);
    }
    let v: Vec<Principal> = copy_principals(&state.cts_data.cycles_transferrer_canisters);
    assert(principals_view(v@) =~= principals_view(state.cts_data.cycles_transferrer_canisters@));
    Ok(v)
}

/// A controller sees the canisters kept for later use.
pub fn controller_see_canisters_for_the_use(state: &CtsState, caller: &Principal) -> (r: Result<Vec<Principal>, CtsTrap>)
    ensures
        !spec_is_controller(*state, caller@) ==> r matches Err(CtsTrap::CallerIsNotAController),
        spec_is_controller(*state, caller@) ==> (r matches Ok(v) && principal_set(v@) == principal_set(state.cts_data.canisters_for_the_use@)),
{
    if !is_controller(state, caller) {
        return Err(CtsTrap::CallerIsNotAController);
    }
    let v: Vec<Principal> = copy_principals(&state.cts_data.canisters_for_the_use);
    proof {
        let a = v@;
        let b = state.cts_data.canisters_for_the_use@;
        assert forall|p: Seq<u8>| principal_set(a).contains(p) == principal_set(b).contains(p) by {
            if principal_set(a).contains(p) {
                let k = choose|k: int| 0 <= k < a.len() && (#[trigger] a[k])@ == p;
                assert(b[k]@ == p);
            }
            if principal_set(b).contains(p) {
                let k = choose|k: int| 0 <= k < b.len() && (#[trigger] b[k])@ == p;
                assert(a[k]@ == p);
            }
        }
        assert(principal_set(a) =~= principal_set(b));
    }
    Ok(v)
}

/// A controller sees the new users, each with its progress, in the order that the state
/// keeps them.
pub fn controller_see_new_users(state: &CtsState, caller: &Principal) -> (r: Result<Vec<(UserId, NewUserData)>, CtsTrap>)
    ensures
        !spec_is_controller(*state, caller@) ==> r matches Err(CtsTrap::CallerIsNotAController),
        spec_is_controller(*state, caller@) ==> (r matches Ok(v) && v@.len() == state.cts_data.new_users@.len()
            && forall|i: int| 0 <= i < v@.len() ==> {
                &&& (#[trigger] v@[i]).0@ == state.cts_data.new_users@[i].0@
                &&& new_user_data_same(v@[i].1, state.cts_data.new_users@[i].1)
            }),
{
    if !is_controller(state, caller) {
        return Err(CtsTrap::CallerIsNotAController);
    }
    let mut v: Vec<(UserId, NewUserData)> = Vec::new();
    let mut i: usize = 0;
    while i < state.cts_data.new_users.len()
        invariant
            i <= state.cts_data.new_users@.len(),
            v@.len() == i,
            forall|k: int| 0 <= k < i ==> {
                &&& (#[trigger] v@[k]).0@ == state.cts_data.new_users@[k].0@
                &&& new_user_data_same(v@[k].1, state.cts_data.new_users@[k].1)
            },
        decreases state.cts_data.new_users@.len() - i,
    {
        v.push((state.cts_data.new_users[i].0.copy(), copy_new_user_data(&state.cts_data.new_users[i].1)));
        i = i + 1;
    }
    Ok(v)
}

/// A controller sees the users that burn ICP, each with its progress, in the order that the
/// state keeps them.
pub fn controller_see_users_burn_icp_mint_cycles(state: &CtsState, caller: &Principal) -> (r: Result<Vec<(UserId, UserBurnIcpMintCyclesData)>, CtsTrap>)
    ensures
        !spec_is_controller(*state, caller@) ==> r matches Err(CtsTrap::CallerIsNotAController),
        spec_is_controller(*state, caller@) ==> (r matches Ok(v) && v@.len() == state.cts_data.users_burn_icp_mint_cycles@.len()
            && forall|i: int| 0 <= i < v@.len() ==> {
                &&& (#[trigger] v@[i]).0@ == state.cts_data.users_burn_icp_mint_cycles@[i].0@
                &&& burn_data_same(v@[i].1, state.cts_data.users_burn_icp_mint_cycles@[i].1)
            }),
{
    if !is_controller(state, caller) {
        return Err(CtsTrap::CallerIsNotAController);
    }
    let mut v: Vec<(UserId, UserBurnIcpMintCyclesData)> = Vec::new();
    let mut i: usize = 0;
    while i < state.cts_data.users_burn_icp_mint_cycles.len()
        invariant
            i <= state.cts_data.users_burn_icp_mint_cycles@.len(),
            v@.len() == i,
            forall|k: int| 0 <= k < i ==> {
                &&& (#[trigger] v@[k]).0@ == state.cts_data.users_burn_icp_mint_cycles@[k].0@
                &&& burn_data_same(v@[k].1, state.cts_data.users_burn_icp_mint_cycles@[k].1)
            },
        decreases state.cts_data.users_burn_icp_mint_cycles@.len() - i,
    {
        v.push((state.cts_data.users_burn_icp_mint_cycles[i].0.copy(), copy_burn_data(&state.cts_data.users_burn_icp_mint_cycles[i].1)));
        i = i + 1;
    }
    Ok(v)
}

/// The first principal of `given` that is not one of `list`, where there is one.
fn first_not_in(list: &Vec<Principal>, given: &Vec<Principal>) -> (r: Option<usize>)
    ensures
        match r {
            Some(i) => i < given@.len() && !principals_contain(list@, given@[i as int]@)
                && forall|j: int| 0 <= j < i ==> principals_contain(list@, (#[trigger] given@[j])@),
            None => forall|j: int| 0 <= j < given@.len() ==> principals_contain(list@, (#[trigger] given@[j])@),
        },
{
    let mut i: usize = 0;
    while i < given.len()
        invariant
            i <= given@.len(),
            forall|j: int| 0 <= j < i ==> principals_contain(list@, (#[trigger] given@[j])@),
        decreases given@.len() - i,
    {
        if !principals_contain_exec(list, &given[i]) {
            return Some(i);
        }
        i = i + 1;
    }
    None
}

/// The canisters that a call goes to, where `list` is the canisters it may go to: those
/// given, which must all be of `list`; or, where none are given, all of `list`. A given one
/// that is not of `list` is refused, the first such one named.
pub open spec fn spec_targets(list: Seq<Principal>, opt: Option<Vec<Principal>>, r: Result<Vec<Principal>, Principal>) -> bool {
    match opt {
        None => r matches Ok(v) && principals_view(v@) == principals_view(list),
        Some(given) => match r {
            Ok(v) => v == given && forall|j: int| 0 <= j < given@.len() ==> principals_contain(list, (#[trigger] given@[j])@),
            Err(p) => exists|i: int| {
                &&& 0 <= i < given@.len()
                &&& p@ == (#[trigger] given@[i])@
                &&& !principals_contain(list, given@[i]@)
                &&& forall|j: int| 0 <= j < i ==> principals_contain(list, (#[trigger] given@[j])@)
            },
        },
    }
}

fn select_targets(list: &Vec<Principal>, opt: Option<Vec<Principal>>) -> (r: Result<Vec<Principal>, Principal>)
    ensures
        spec_targets(list@, opt, r),
{
    match opt {
        None => {
            let v: Vec<Principal> = copy_principals(list);
            assert(principals_view(v@) =~= principals_view(list@));
            Ok(v)
        },
        Some(given) => match first_not_in(list, &given) {
            Some(i) => Err(given[i].copy()),
            None => Ok(given),
        },
    }
}

/// A controller's call that reaches a set of users-map canisters, with the code `code_empty`
/// tells of: refused to a caller that is no controller, where the code is empty, or where a
/// given canister is no users-map canister; otherwise the canisters it goes to.
pub open spec fn spec_umc_targets(state: CtsState, caller: Seq<u8>, code_empty: bool, opt: Option<Vec<Principal>>, r: Result<Vec<Principal>, CtsTrap>) -> bool {
    if !spec_is_controller(state, caller) {
        r == Err::<Vec<Principal>, CtsTrap>(CtsTrap::CallerIsNotAController)
    } else if code_empty {
        r == Err::<Vec<Principal>, CtsTrap>(CtsTrap::CanisterCodeIsEmpty)
    } else {
        exists|t: Result<Vec<Principal>, Principal>| {
            &&& #[trigger] spec_targets(state.cts_data.users_map_canisters@, opt, t)
            &&& match t {
                    Ok(v) => r == Ok::<Vec<Principal>, CtsTrap>(v),
                    Err(p) => r == Err::<Vec<Principal>, CtsTrap>(CtsTrap::NotAUsersMapCanister(p)),
                }
        }
    }
}

fn umc_targets(state: &CtsState, caller: &Principal, code_empty: bool, opt: Option<Vec<Principal>>) -> (r: Result<Vec<Principal>, CtsTrap>)
    ensures
        spec_umc_targets(*state, caller@, code_empty, opt, r),
{
    if !is_controller(state, caller) {
        return Err(CtsTrap::CallerIsNotAController);
    }
    if code_empty {
        return Err(CtsTrap::CanisterCodeIsEmpty);
    }
    let t = select_targets(&state.cts_data.users_map_canisters, opt);
    match t {
        Ok(v) => Ok(v),
        Err(p) => Err(CtsTrap::NotAUsersMapCanister(p)),
    }
}

/// A controller upgrades users-map canisters with the users-map canister code of the CTS:
/// the canisters to upgrade.
pub fn controller_upgrade_umcs(state: &CtsState, caller: &Principal, opt_upgrade_umcs: Option<Vec<UsersMapCanisterId>>) -> (r: Result<Vec<UsersMapCanisterId>, CtsTrap>)
    ensures
        spec_umc_targets(*state, caller@, state.cts_data.users_map_canister_code.module_view().len() == 0, opt_upgrade_umcs, r),
{
    let code_empty: bool = state.cts_data.users_map_canister_code.module().len() == 0;
    umc_targets(state, caller, code_empty, opt_upgrade_umcs)
}

/// A controller puts the user-canister code of the CTS onto users-map canisters: the
/// canisters to put it onto, and the code that each of them is handed, which is the
/// user-canister code of the CTS.
pub fn controller_put_uc_code_onto_the_umcs<'a>(state: &'a CtsState, caller: &Principal, opt_umcs: Option<Vec<UsersMapCanisterId>>) -> (r: Result<(Vec<UsersMapCanisterId>, &'a CanisterCode), CtsTrap>)
    ensures
        spec_umc_targets(*state, caller@, state.cts_data.user_canister_code.module_view().len() == 0, opt_umcs, match r {
            Ok((v, _)) => Ok::<Vec<Principal>, CtsTrap>(v),
            Err(e) => Err::<Vec<Principal>, CtsTrap>(e),
        }),
        r matches Ok((_, code)) ==> code.module_view() == state.cts_data.user_canister_code.module_view()
            && code.module_hash_view() == state.cts_data.user_canister_code.module_hash_view(),
{
    let code_empty: bool = state.cts_data.user_canister_code.module().len() == 0;
    match umc_targets(state, caller, code_empty, opt_umcs) {
        Ok(v) => Ok((v, &state.cts_data.user_canister_code)),
        Err(e) => Err(e),
    }
}

/// A controller upgrades the user-canisters on a users-map canister, which must be one of the
/// users-map canisters of the CTS.
pub fn controller_upgrade_ucs_on_a_umc(state: &CtsState, caller: &Principal, umc: &UsersMapCanisterId) -> (r: Result<(), CtsTrap>)
    ensures
        !spec_is_controller(*state, caller@) ==> r matches Err(CtsTrap::CallerIsNotAController),
        spec_is_controller(*state, caller@) && !principals_contain(state.cts_data.users_map_canisters@, umc@)
            ==> (r matches Err(CtsTrap::NotAUsersMapCanister(p)) && p@ == umc@),
        spec_is_controller(*state, caller@) && principals_contain(state.cts_data.users_map_canisters@, umc@) ==> r is Ok,
{
    if !is_controller(state, caller) {
        return Err(CtsTrap::CallerIsNotAController);
    }
    if !principals_contain_exec(&state.cts_data.users_map_canisters, umc) {
        return Err(CtsTrap::NotAUsersMapCanister(umc.copy()));
    }
    Ok(())
}

/// A controller upgrades a cycles-transferrer canister, which must be one of those of the
/// CTS, with the cycles-transferrer canister code, which must not be empty.
pub fn controller_upgrade_ctc(state: &CtsState, caller: &Principal, upgrade_ctc: &Principal) -> (r: Result<(), CtsTrap>)
    ensures
        !spec_is_controller(*state, caller@) ==> r matches Err(CtsTrap::CallerIsNotAController),
        spec_is_controller(*state, caller@) ==> {
            if state.cts_data.cycles_transferrer_canister_code.module_view().len() == 0 {
                r matches Err(CtsTrap::CanisterCodeIsEmpty)
            } else if !principals_contain(state.cts_data.cycles_transferrer_canisters@, upgrade_ctc@) {
                r matches Err(CtsTrap::NotACyclesTransferrerCanister(p)) && p@ == upgrade_ctc@
            } else {
                r is Ok
            }
        },
{
    if !is_controller(state, caller) {
        return Err(CtsTrap::CallerIsNotAController);
    }
    if state.cts_data.cycles_transferrer_canister_code.module().len() == 0 {
        return Err(CtsTrap::CanisterCodeIsEmpty);
    }
    if !principals_contain_exec(&state.cts_data.cycles_transferrer_canisters, upgrade_ctc) {
        return Err(CtsTrap::NotACyclesTransferrerCanister(upgrade_ctc.copy()));
    }
    Ok(())
}

/// What the steps of the upgrade of a canister answered; `None` for a step not taken.
pub struct UpgradeOutcome {
    pub stop_canister_result: Option<Result<(), CallError>>,
    pub install_code_result: Option<Result<(), CallError>>,
    pub start_canister_result: Option<Result<(), CallError>>,
}

impl Default for UpgradeOutcome {
    fn default() -> (o: UpgradeOutcome)
        ensures
            o.stop_canister_result is None,
            o.install_code_result is None,
            o.start_canister_result is None,
    {
        UpgradeOutcome { stop_canister_result: None, install_code_result: None, start_canister_result: None }
    }
}

/// The next step of the upgrade of a canister.
#[derive(PartialEq, Eq, Structural)]
pub enum UpgradeCanisterStep {
    StopCanister,
    InstallCode,
    StartCanister,
    Done,
}

/// The next step of an upgrade of the cts library's kind: a canister that did not stop is
/// left alone; once it stopped, the code is installed and the canister started, whatever the
/// install answered.
pub fn upgrade_canister_next_step(o: &UpgradeOutcome) -> (step: UpgradeCanisterStep)
    ensures
        step == (match (o.stop_canister_result, o.install_code_result, o.start_canister_result) {
            (None, _, _) => UpgradeCanisterStep::StopCanister,
            (Some(Err(_)), _, _) => UpgradeCanisterStep::Done,
            (Some(Ok(())), None, _) => UpgradeCanisterStep::InstallCode,
            (Some(Ok(())), Some(_), None) => UpgradeCanisterStep::StartCanister,
            (Some(Ok(())), Some(_), Some(_)) => UpgradeCanisterStep::Done,
        }),
{
    match &o.stop_canister_result {
        None => UpgradeCanisterStep::StopCanister,
        Some(Err(_)) => UpgradeCanisterStep::Done,
        Some(Ok(())) => match (&o.install_code_result, &o.start_canister_result) {
            (None, _) => UpgradeCanisterStep::InstallCode,
            (Some(_), None) => UpgradeCanisterStep::StartCanister,
            (Some(_), Some(_)) => UpgradeCanisterStep::Done,
        },
    }
}

/// What the next step of an upgrade that stops at the first failure is, by what the steps so far
/// answered: the canister is stopped first; once it stopped, the code is installed; once that
/// went through, the canister is started again; and the upgrade is over only where a step
/// failed, or once the start was tried.
pub open spec fn spec_upgrade_step_means(o: UpgradeOutcome, step: UpgradeCanisterStep) -> bool {
    &&& (step == UpgradeCanisterStep::StopCanister) == (o.stop_canister_result is None)
    &&& (step == UpgradeCanisterStep::InstallCode) == (o.stop_canister_result == Some(Ok::<(), CallError>(())) && o.install_code_result is None)
    &&& (step == UpgradeCanisterStep::StartCanister) == (o.stop_canister_result == Some(Ok::<(), CallError>(()))
            && o.install_code_result == Some(Ok::<(), CallError>(())) && o.start_canister_result is None)
    &&& (step == UpgradeCanisterStep::Done) == (
            (o.stop_canister_result matches Some(Err(_)))
            || (o.stop_canister_result == Some(Ok::<(), CallError>(())) && (o.install_code_result matches Some(Err(_))))
            || (o.stop_canister_result == Some(Ok::<(), CallError>(())) && o.install_code_result == Some(Ok::<(), CallError>(()))
                && o.start_canister_result is Some))
}

/// An upgrade that stops at the first failure stops the canister, installs the code once it
/// stopped, starts it again once the code went in, and ends only after a failure or after the
/// start was tried: a canister whose code was upgraded is never left stopped without an error.
pub proof fn lemma_upgrade_until_a_failure_steps(o: UpgradeOutcome)
    ensures
        spec_upgrade_step_means(o, spec_upgrade_until_a_failure_step(o)),
{
    match o.stop_canister_result {
        Some(Ok(u)) => {
            assert(u == ());
            match o.install_code_result {
                Some(Ok(v)) => {
                    assert(v == ());
                },
                _ => {},
            }
        },
        _ => {},
    }
}

/// The next step of an upgrade that the controller of the CTS makes: it stops at the first
/// step that fails.
pub fn upgrade_until_a_failure_next_step(o: &UpgradeOutcome) -> (step: UpgradeCanisterStep)
    ensures
        step == spec_upgrade_until_a_failure_step(*o),
        spec_upgrade_step_means(*o, step),
{
    proof {
        lemma_upgrade_until_a_failure_steps(*o);
    }
    match &o.stop_canister_result {
        None => UpgradeCanisterStep::StopCanister,
        Some(Err(_)) => UpgradeCanisterStep::Done,
        Some(Ok(())) => match &o.install_code_result {
            None => UpgradeCanisterStep::InstallCode,
            Some(Err(_)) => UpgradeCanisterStep::Done,
            Some(Ok(())) => match &o.start_canister_result {
                None => UpgradeCanisterStep::StartCanister,
                Some(_) => UpgradeCanisterStep::Done,
            },
        },
    }
}

/// The step that `upgrade_until_a_failure_next_step` takes on an outcome.
pub open spec fn spec_upgrade_until_a_failure_step(o: UpgradeOutcome) -> UpgradeCanisterStep {
    match (o.stop_canister_result, o.install_code_result, o.start_canister_result) {
        (None, _, _) => UpgradeCanisterStep::StopCanister,
        (Some(Err(_)), _, _) => UpgradeCanisterStep::Done,
        (Some(Ok(())), None, _) => UpgradeCanisterStep::InstallCode,
        (Some(Ok(())), Some(Err(_)), _) => UpgradeCanisterStep::Done,
        (Some(Ok(())), Some(Ok(())), None) => UpgradeCanisterStep::StartCanister,
        (Some(Ok(())), Some(Ok(())), Some(_)) => UpgradeCanisterStep::Done,
    }
}

/// A call to the management canister that a step of an upgrade makes.
pub enum UpgradeCall<'a> {
    StopCanister(CanisterIdRecord),
    InstallCode(ManagementCanisterInstallCodeQuest<'a>),
    StartCanister(CanisterIdRecord),
    Done,
}

/// `call` is the call of the step `step` of the upgrade of `canister` to the module `module`
/// with the argument `arg`: it stops the canister, installs the module on it in mode
/// `upgrade` with the argument, or starts it.
pub open spec fn spec_upgrade_call_is(call: UpgradeCall, step: UpgradeCanisterStep, canister: Seq<u8>, module: Seq<u8>, arg: Seq<u8>) -> bool {
    match step {
        UpgradeCanisterStep::StopCanister => call matches UpgradeCall::StopCanister(c) && c.canister_id@ == canister,
        UpgradeCanisterStep::InstallCode => call matches UpgradeCall::InstallCode(q) && q.mode is upgrade
            && q.canister_id@ == canister && q.wasm_module@ == module && q.arg@ == arg,
        UpgradeCanisterStep::StartCanister => call matches UpgradeCall::StartCanister(c) && c.canister_id@ == canister,
        UpgradeCanisterStep::Done => call is Done,
    }
}

/// The call of a step of the upgrade of `canister` with `code` and the argument `arg`.
fn upgrade_call<'a>(step: UpgradeCanisterStep, canister: &Principal, code: &'a CanisterCode, arg: &'a [u8]) -> (call: UpgradeCall<'a>)
    ensures
        spec_upgrade_call_is(call, step, canister@, code.module_view(), arg@),
{
    match step {
        UpgradeCanisterStep::StopCanister => UpgradeCall::StopCanister(CanisterIdRecord { canister_id: canister.copy() }),
        UpgradeCanisterStep::InstallCode => UpgradeCall::InstallCode(ManagementCanisterInstallCodeQuest {
            mode: ManagementCanisterInstallCodeMode::upgrade,
            canister_id: canister.copy(),
            wasm_module: code.module().as_slice(),
            arg,
        }),
        UpgradeCanisterStep::StartCanister => UpgradeCall::StartCanister(CanisterIdRecord { canister_id: canister.copy() }),
        UpgradeCanisterStep::Done => UpgradeCall::Done,
    }
}

/// The next call of the upgrade of the users-map canister `umc` that a controller makes,
/// stopping at the first step that fails: it stops `umc`, installs the users-map canister code
/// of the CTS on it in mode `upgrade` with `post_upgrade_arg`, and starts it.
pub fn controller_upgrade_umc_next_call<'a>(state: &'a CtsState, umc: &Principal, post_upgrade_arg: &'a [u8], o: &UpgradeOutcome) -> (call: UpgradeCall<'a>)
    ensures
        spec_upgrade_call_is(call, spec_upgrade_until_a_failure_step(*o), umc@, state.cts_data.users_map_canister_code.module_view(), post_upgrade_arg@),
{
    let step: UpgradeCanisterStep = upgrade_until_a_failure_next_step(o);
    upgrade_call(step, umc, &state.cts_data.users_map_canister_code, post_upgrade_arg)
}

/// The next call of the upgrade of the cycles-transferrer canister `ctc` that a controller
/// makes, stopping at the first step that fails: it stops `ctc`, installs the
/// cycles-transferrer canister code of the CTS on it in mode `upgrade` with
/// `post_upgrade_arg`, and starts it.
pub fn controller_upgrade_ctc_next_call<'a>(state: &'a CtsState, ctc: &Principal, post_upgrade_arg: &'a [u8], o: &UpgradeOutcome) -> (call: UpgradeCall<'a>)
    ensures
        spec_upgrade_call_is(call, spec_upgrade_until_a_failure_step(*o), ctc@, state.cts_data.cycles_transferrer_canister_code.module_view(), post_upgrade_arg@),
{
    let step: UpgradeCanisterStep = upgrade_until_a_failure_next_step(o);
    upgrade_call(step, ctc, &state.cts_data.cycles_transferrer_canister_code, post_upgrade_arg)
}

/// The first failed step of an upgrade of a users-map canister, and its call error.
pub open spec fn spec_umc_upgrade_failure(o: UpgradeOutcome) -> Option<(ControllerUpgradeUMCCallErrorType, CallError)> {
    match o.stop_canister_result {
        Some(Err(e)) => Some((ControllerUpgradeUMCCallErrorType::StopCanisterCallError, e)),
        _ => match o.install_code_result {
            Some(Err(e)) => Some((ControllerUpgradeUMCCallErrorType::UpgradeCodeCallError, e)),
            _ => match o.start_canister_result {
                Some(Err(e)) => Some((ControllerUpgradeUMCCallErrorType::StartCanisterCallError, e)),
                _ => None,
            },
        },
    }
}

/// The failures of the upgrades of users-map canisters, in order, each with its canister.
pub open spec fn spec_umc_upgrade_errors(s: Seq<(Principal, UpgradeOutcome)>) -> Seq<ControllerUpgradeUMCError>
    decreases s.len(),
{
    if s.len() == 0 {
        Seq::empty()
    } else {
        let rest = spec_umc_upgrade_errors(s.drop_last());
        match spec_umc_upgrade_failure(s.last().1) {
            Some((t, e)) => rest.push((s.last().0, t, e)),
            None => rest,
        }
    }
}

/// The users-map canisters whose upgrade failed, with the step that failed and its error.
pub fn controller_upgrade_umcs_errors(outcomes: Vec<(UsersMapCanisterId, UpgradeOutcome)>) -> (r: Vec<ControllerUpgradeUMCError>)
    ensures
        r@ == spec_umc_upgrade_errors(outcomes@),
{
    let ghost s = outcomes@;
    let mut r: Vec<ControllerUpgradeUMCError> = Vec::new();
    let mut i: usize = 0;
    let mut outcomes = outcomes;
    let _n: usize = outcomes.len();
    while outcomes.len() > 0
        invariant
            i + outcomes@.len() == s.len(),
            s.len() <= usize::MAX,
            outcomes@ =~= s.subrange(i as int, s.len() as int),
            r@ == spec_umc_upgrade_errors(s.take(i as int)),
        decreases outcomes@.len(),
    {
        let ghost before = outcomes@;
        let (umc, o) = outcomes.remove(0);
        proof {
            assert(s[i as int] == (umc, o)) by {
                assert(before[0] == s.subrange(i as int, s.len() as int)[0]);
            }
            assert(s.take(i + 1).drop_last() =~= s.take(i as int));
            assert(s.take(i + 1).last() == s[i as int]);
        }
        match o.stop_canister_result {
            Some(Err(e)) => {
                r.push((umc, ControllerUpgradeUMCCallErrorType::StopCanisterCallError, e));
            },
            _ => match o.install_code_result {
                Some(Err(e)) => {
                    r.push((umc, ControllerUpgradeUMCCallErrorType::UpgradeCodeCallError, e));
                },
                _ => match o.start_canister_result {
                    Some(Err(e)) => {
                        r.push((umc, ControllerUpgradeUMCCallErrorType::StartCanisterCallError, e));
                    },
                    _ => {},
                },
            },
        }
        i = i + 1;
        proof {
            assert(outcomes@ =~= s.subrange(i as int, s.len() as int));
        }
    }
    assert(s.take(i as int) =~= s);
    r
}

/// The outcome of the upgrade of a cycles-transferrer canister: the first step that failed,
/// with its error, or success.
pub fn controller_upgrade_ctc_result(upgrade_ctc: Principal, o: UpgradeOutcome) -> (r: Result<(), ControllerUpgradeCTCError>)
    ensures
        match o.stop_canister_result {
            Some(Err(e)) => r == Err::<(), ControllerUpgradeCTCError>((upgrade_ctc, ControllerUpgradeCTCCallErrorType::StopCanisterCallError, e)),
            _ => match o.install_code_result {
                Some(Err(e)) => r == Err::<(), ControllerUpgradeCTCError>((upgrade_ctc, ControllerUpgradeCTCCallErrorType::UpgradeCodeCallError, e)),
                _ => match o.start_canister_result {
                    Some(Err(e)) => r == Err::<(), ControllerUpgradeCTCError>((upgrade_ctc, ControllerUpgradeCTCCallErrorType::StartCanisterCallError, e)),
                    _ => r == Ok::<(), ControllerUpgradeCTCError>(()),
                },
            },
        },
{
    match o.stop_canister_result {
        Some(Err(e)) => Err((upgrade_ctc, ControllerUpgradeCTCCallErrorType::StopCanisterCallError, e)),
        _ => match o.install_code_result {
            Some(Err(e)) => Err((upgrade_ctc, ControllerUpgradeCTCCallErrorType::UpgradeCodeCallError, e)),
            _ => match o.start_canister_result {
                Some(Err(e)) => Err((upgrade_ctc, ControllerUpgradeCTCCallErrorType::StartCanisterCallError, e)),
                _ => Ok(()),
            },
        },
    }
}

/// The users-map canisters that did not take the user-canister code, in order, each with
/// its call error.
pub open spec fn spec_put_uc_code_errors(s: Seq<(Principal, Result<(), CallError>)>) -> Seq<ControllerPutUCCodeOntoTheUMCError>
    decreases s.len(),
{
    if s.len() == 0 {
        Seq::empty()
    } else {
        let rest = spec_put_uc_code_errors(s.drop_last());
        match s.last().1 {
            Err(e) => rest.push((s.last().0, e)),
            Ok(()) => rest,
        }
    }
}

/// The users-map canisters that did not take the user-canister code, with the call errors.
pub fn controller_put_uc_code_errors(results: Vec<(UsersMapCanisterId, Result<(), CallError>)>) -> (r: Vec<ControllerPutUCCodeOntoTheUMCError>)
    ensures
        r@ == spec_put_uc_code_errors(results@),
{
    let ghost s = results@;
    let mut r: Vec<ControllerPutUCCodeOntoTheUMCError> = Vec::new();
    let mut i: usize = 0;
    let mut results = results;
    let _n: usize = results.len();
    while results.len() > 0
        invariant
            i + results@.len() == s.len(),
            s.len() <= usize::MAX,
            results@ =~= s.subrange(i as int, s.len() as int),
            r@ == spec_put_uc_code_errors(s.take(i as int)),
        decreases results@.len(),
    {
        let ghost before = results@;
        let (umc, res) = results.remove(0);
        proof {
            assert(s[i as int] == (umc, res)) by {
                assert(before[0] == s.subrange(i as int, s.len() as int)[0]);
            }
            assert(s.take(i + 1).drop_last() =~= s.take(i as int));
            assert(s.take(i + 1).last() == s[i as int]);
        }
        match res {
            Err(e) => {
                r.push((umc, e));
            },
            Ok(()) => {},
        }
        i = i + 1;
        proof {
            assert(results@ =~= s.subrange(i as int, s.len() as int));
        }
    }
    assert(s.take(i as int) =~= s);
    r
}

/// A controller asks the CTS to make a new cycles-transferrer canister.
pub fn controller_create_new_cycles_transferrer_canister(state: &CtsState, caller: &Principal) -> (r: Result<(), CtsTrap>)
    ensures
        !spec_is_controller(*state, caller@) ==> r matches Err(CtsTrap::CallerIsNotAController),
        spec_is_controller(*state, caller@) ==> r is Ok,
{
    if !is_controller(state, caller) {
        return Err(CtsTrap::CallerIsNotAController);
    }
    Ok(())
}

/// The state `s1` is `s0` but for its canisters kept for later use, to which `c` is added.
pub open spec fn canister_kept_for_later_use(s0: CtsState, s1: CtsState, c: Seq<u8>) -> bool {
    &&& principal_set(s1.cts_data.canisters_for_the_use@) == principal_set(s0.cts_data.canisters_for_the_use@).insert(c)
    &&& s1 == CtsState {
            cts_data: CTSData { canisters_for_the_use: s1.cts_data.canisters_for_the_use, ..s0.cts_data },
            ..s0
        }
}

/// The new canister for a cycles-transferrer canister (or why there is none): where the
/// cycles-transferrer canister code is empty, the canister is kept for later use and the call
/// ends; otherwise the code is to be installed on it with the argument handed back.
pub fn new_cycles_transferrer_canister(
    state: &mut CtsState,
    cts_id: &Principal,
    got: Result<Principal, GetNewCanisterError>,
) -> (r: Result<(Principal, CyclesTransferrerCanisterInit), ControllerCreateNewCyclesTransferrerCanisterError>)
    requires
        old(state).wf(),
    ensures
        final(state).wf(),
        match got {
            Err(e) => r == Err::<(Principal, CyclesTransferrerCanisterInit), ControllerCreateNewCyclesTransferrerCanisterError>(
                ControllerCreateNewCyclesTransferrerCanisterError::GetNewCanisterError(e)) && *final(state) == *old(state),
            Ok(c) => if old(state).cts_data.cycles_transferrer_canister_code.module_view().len() == 0 {
                &&& r == Err::<(Principal, CyclesTransferrerCanisterInit), ControllerCreateNewCyclesTransferrerCanisterError>(
                        ControllerCreateNewCyclesTransferrerCanisterError::CyclesTransferrerCanisterCodeNotFound)
                &&& canister_kept_for_later_use(*old(state), *final(state), c@)
            } else {
                &&& r matches Ok((c2, init)) && c2 == c && init.cts_id@ == cts_id@
                &&& *final(state) == *old(state)
            },
        },
{
    let c: Principal = match got {
        Err(e) => {
            return Err(ControllerCreateNewCyclesTransferrerCanisterError::GetNewCanisterError(e));
        },
        Ok(c) => c,
    };
    if state.cts_data.cycles_transferrer_canister_code.module().len() == 0 {
        insert_canister_for_the_use(state, &c);
        return Err(ControllerCreateNewCyclesTransferrerCanisterError::CyclesTransferrerCanisterCodeNotFound);
    }
    Ok((c, CyclesTransferrerCanisterInit { cts_id: cts_id.copy() }))
}

/// The install request of a new cycles-transferrer canister `c`: mode `install`, the
/// cycles-transferrer canister code of the CTS, and `init_arg`, the candid bytes of the
/// argument that `new_cycles_transferrer_canister` handed back.
pub fn new_cycles_transferrer_canister_install_code_quest<'a>(state: &'a CtsState, c: &Principal, init_arg: &'a [u8]) -> (q: ManagementCanisterInstallCodeQuest<'a>)
    ensures
        q.mode is install,
        q.canister_id@ == c@,
        q.wasm_module@ == state.cts_data.cycles_transferrer_canister_code.module_view(),
        q.arg@ == init_arg@,
{
    ManagementCanisterInstallCodeQuest {
        mode: ManagementCanisterInstallCodeMode::install,
        canister_id: c.copy(),
        wasm_module: state.cts_data.cycles_transferrer_canister_code.module().as_slice(),
        arg: init_arg,
    }
}

/// The answer of the install of the code on a new cycles-transferrer canister: on success it
/// becomes one of the cycles-transferrer canisters; otherwise it is kept for later use.
pub fn new_cycles_transferrer_canister_installed(
    state: &mut CtsState,
    c: Principal,
    res: Result<(), CallError>,
) -> (r: Result<Principal, ControllerCreateNewCyclesTransferrerCanisterError>)
    requires
        old(state).wf(),
    ensures
        final(state).wf(),
        match res {
            Ok(()) => {
                &&& r matches Ok(p) && p == c
                &&& principals_view(final(state).cts_data.cycles_transferrer_canisters@)
                        == principals_view(old(state).cts_data.cycles_transferrer_canisters@).push(c@)
                &&& *final(state) == (CtsState {
                        cts_data: CTSData { cycles_transferrer_canisters: final(state).cts_data.cycles_transferrer_canisters, ..old(state).cts_data },
                        ..*old(state)
                    })
            },
            Err(e) => {
                &&& r == Err::<Principal, ControllerCreateNewCyclesTransferrerCanisterError>(
                        ControllerCreateNewCyclesTransferrerCanisterError::InstallCodeCallError(e))
                &&& canister_kept_for_later_use(*old(state), *final(state), c@)
            },
        },
{
    match res {
        Ok(()) => {
            state.cts_data.cycles_transferrer_canisters.push(c.copy());
            assert(principals_view(state.cts_data.cycles_transferrer_canisters@)
                =~= principals_view(old(state).cts_data.cycles_transferrer_canisters@).push(c@));
            Ok(c)
        },
        Err(e) => {
            insert_canister_for_the_use(state, &c);
            Err(ControllerCreateNewCyclesTransferrerCanisterError::InstallCodeCallError(e))
        },
    }
}

/// A controller has the CTS make the steps of new users again: those given, which must all be
/// new users, or all of them; each with the request it was made with.
pub fn complete_new_users(state: &CtsState, caller: &Principal, opt_complete_new_users_ids: Option<Vec<UserId>>) -> (r: Result<Vec<(UserId, NewUserQuest)>, CtsTrap>)
    requires
        state.wf(),
    ensures
        ({
            let m = assoc_map(state.cts_data.new_users@);
            if !spec_is_controller(*state, caller@) {
                r matches Err(CtsTrap::CallerIsNotAController)
            } else {
                match opt_complete_new_users_ids {
                    Some(ids) => match r {
                        Ok(v) => {
                            &&& v@.len() == ids@.len()
                            &&& forall|i: int| 0 <= i < ids@.len() ==> {
                                    &&& #[trigger] v@[i].0 == ids@[i]
                                    &&& m.dom().contains(ids@[i]@)
                                    &&& new_user_quest_same(v@[i].1, m[ids@[i]@].new_user_quest)
                                }
                        },
                        Err(t) => t matches CtsTrap::NotANewUser(p) && exists|i: int| {
                            &&& 0 <= i < ids@.len()
                            &&& p@ == (#[trigger] ids@[i])@
                            &&& !m.dom().contains(ids@[i]@)
                            &&& forall|j: int| 0 <= j < i ==> m.dom().contains((#[trigger] ids@[j])@)
                        },
                    },
                    None => r matches Ok(v) && v@.len() == state.cts_data.new_users@.len() && forall|i: int| 0 <= i < v@.len() ==> {
                        &&& (#[trigger] v@[i]).0@ == state.cts_data.new_users@[i].0@
                        &&& new_user_quest_same(v@[i].1, state.cts_data.new_users@[i].1.new_user_quest)
                    },
                }
            }
        }),
{
    if !is_controller(state, caller) {
        return Err(CtsTrap::CallerIsNotAController);
    }
    let ghost m = assoc_map(state.cts_data.new_users@);
    let mut v: Vec<(UserId, NewUserQuest)> = Vec::new();
    match opt_complete_new_users_ids {
        Some(ids) => {
            let ghost s = ids@;
            let mut ids = ids;
            let _n: usize = ids.len();
            let mut i: usize = 0;
            while ids.len() > 0
                invariant
                    i + ids@.len() == s.len(),
                    s.len() <= usize::MAX,
                    ids@ =~= s.subrange(i as int, s.len() as int),
                    m == assoc_map(state.cts_data.new_users@),
                    crate::assoc::keys_unique(state.cts_data.new_users@),
                    spec_is_controller(*state, caller@),
                    opt_complete_new_users_ids matches Some(o) && o@ == s,
                    v@.len() == i,
                    forall|k: int| 0 <= k < i ==> {
                        &&& #[trigger] v@[k].0 == s[k]
                        &&& m.dom().contains(s[k]@)
                        &&& new_user_quest_same(v@[k].1, m[s[k]@].new_user_quest)
                    },
                decreases ids@.len(),
            {
                let ghost before = ids@;
                let id: UserId = ids.remove(0);
                proof {
                    assert(s[i as int] == id) by {
                        assert(before[0] == s.subrange(i as int, s.len() as int)[0]);
                    }
                }
                match assoc_find(&state.cts_data.new_users, &id) {
                    None => {
                        proof {
                            assert forall|j: int| 0 <= j < i implies m.dom().contains((#[trigger] s[j])@) by {
                                assert(v@[j].0 == s[j]);
                            }
                        }
                        proof {
                            assert(!m.dom().contains(s[i as int]@));
                            assert(exists|k: int| {
                                &&& 0 <= k < s.len()
                                &&& id@ == (#[trigger] s[k])@
                                &&& !m.dom().contains(s[k]@)
                                &&& forall|j: int| 0 <= j < k ==> m.dom().contains((#[trigger] s[j])@)
                            }) by {
                                assert(id@ == s[i as int]@);
                            }
                        }
                        return Err(CtsTrap::NotANewUser(id));
                    },
                    Some(k) => {
                        proof {
                            lemma_assoc_map_at(state.cts_data.new_users@, k as int);
                        }
                        let q: NewUserQuest = copy_new_user_quest(&state.cts_data.new_users[k].1.new_user_quest);
                        v.push((id, q));
                        proof {
                            assert(state.cts_data.new_users@[k as int].0@ == s[i as int]@);
                            assert(m[s[i as int]@] == state.cts_data.new_users@[k as int].1);
                            assert(new_user_quest_same(v@[i as int].1, m[s[i as int]@].new_user_quest));
                        }
                    },
                }
                i = i + 1;
                proof {
                    assert(ids@ =~= s.subrange(i as int, s.len() as int));
                }
            }
            Ok(v)
        },
        None => {
            let mut i: usize = 0;
            while i < state.cts_data.new_users.len()
                invariant
                    i <= state.cts_data.new_users@.len(),
                    v@.len() == i,
                    forall|k: int| 0 <= k < i ==> {
                        &&& (#[trigger] v@[k]).0@ == state.cts_data.new_users@[k].0@
                        &&& new_user_quest_same(v@[k].1, state.cts_data.new_users@[k].1.new_user_quest)
                    },
                decreases state.cts_data.new_users@.len() - i,
            {
                let id: UserId = state.cts_data.new_users[i].0.copy();
                let q: NewUserQuest = copy_new_user_quest(&state.cts_data.new_users[i].1.new_user_quest);
                v.push((id, q));
                i = i + 1;
            }
            Ok(v)
        },
    }
}

/// A controller has the CTS make the steps of burns of ICP again: those of the users given,
/// which must all be burning ICP, or all of them; each with the request it was made with.
pub fn complete_users_burn_icp_mint_cycles(state: &CtsState, caller: &Principal, opt_complete_users_ids: Option<Vec<UserId>>) -> (r: Result<Vec<(UserId, UserBurnIcpMintCyclesQuest)>, CtsTrap>)
    requires
        state.wf(),
    ensures
        ({
            let m = assoc_map(state.cts_data.users_burn_icp_mint_cycles@);
            if !spec_is_controller(*state, caller@) {
                r matches Err(CtsTrap::CallerIsNotAController)
            } else {
                match opt_complete_users_ids {
                    Some(ids) => match r {
                        Ok(v) => {
                            &&& v@.len() == ids@.len()
                            &&& forall|i: int| 0 <= i < ids@.len() ==> {
                                    &&& #[trigger] v@[i].0 == ids@[i]
                                    &&& m.dom().contains(ids@[i]@)
                                    &&& v@[i].1 == m[ids@[i]@].user_burn_icp_mint_cycles_quest
                                }
                        },
                        Err(t) => t matches CtsTrap::NotAUserThatBurnsIcp(p) && exists|i: int| {
                            &&& 0 <= i < ids@.len()
                            &&& p@ == (#[trigger] ids@[i])@
                            &&& !m.dom().contains(ids@[i]@)
                            &&& forall|j: int| 0 <= j < i ==> m.dom().contains((#[trigger] ids@[j])@)
                        },
                    },
                    None => r matches Ok(v) && v@.len() == state.cts_data.users_burn_icp_mint_cycles@.len() && forall|i: int| 0 <= i < v@.len() ==> {
                        &&& (#[trigger] v@[i]).0@ == state.cts_data.users_burn_icp_mint_cycles@[i].0@
                        &&& v@[i].1 == state.cts_data.users_burn_icp_mint_cycles@[i].1.user_burn_icp_mint_cycles_quest
                    },
                }
            }
        }),
{
    if !is_controller(state, caller) {
        return Err(CtsTrap::CallerIsNotAController);
    }
    let ghost m = assoc_map(state.cts_data.users_burn_icp_mint_cycles@);
    let mut v: Vec<(UserId, UserBurnIcpMintCyclesQuest)> = Vec::new();
    match opt_complete_users_ids {
        Some(ids) => {
            let ghost s = ids@;
            let mut ids = ids;
            let _n: usize = ids.len();
            let mut i: usize = 0;
            while ids.len() > 0
                invariant
                    i + ids@.len() == s.len(),
                    s.len() <= usize::MAX,
                    ids@ =~= s.subrange(i as int, s.len() as int),
                    m == assoc_map(state.cts_data.users_burn_icp_mint_cycles@),
                    crate::assoc::keys_unique(state.cts_data.users_burn_icp_mint_cycles@),
                    spec_is_controller(*state, caller@),
                    opt_complete_users_ids matches Some(o) && o@ == s,
                    v@.len() == i,
                    forall|k: int| 0 <= k < i ==> {
                        &&& #[trigger] v@[k].0 == s[k]
                        &&& m.dom().contains(s[k]@)
                        &&& v@[k].1 == m[s[k]@].user_burn_icp_mint_cycles_quest
                    },
                decreases ids@.len(),
            {
                let ghost before = ids@;
                let id: UserId = ids.remove(0);
                proof {
                    assert(s[i as int] == id) by {
                        assert(before[0] == s.subrange(i as int, s.len() as int)[0]);
                    }
                }
                match assoc_find(&state.cts_data.users_burn_icp_mint_cycles, &id) {
                    None => {
                        proof {
                            assert forall|j: int| 0 <= j < i implies m.dom().contains((#[trigger] s[j])@) by {
                                assert(v@[j].0 == s[j]);
                            }
                        }
                        proof {
                            assert(!m.dom().contains(s[i as int]@));
                            assert(exists|k: int| {
                                &&& 0 <= k < s.len()
                                &&& id@ == (#[trigger] s[k])@
                                &&& !m.dom().contains(s[k]@)
                                &&& forall|j: int| 0 <= j < k ==> m.dom().contains((#[trigger] s[j])@)
                            }) by {
                                assert(id@ == s[i as int]@);
                            }
                        }
                        return Err(CtsTrap::NotAUserThatBurnsIcp(id));
                    },
                    Some(k) => {
                        proof {
                            lemma_assoc_map_at(state.cts_data.users_burn_icp_mint_cycles@, k as int);
                        }
                        let q: UserBurnIcpMintCyclesQuest = state.cts_data.users_burn_icp_mint_cycles[k].1.user_burn_icp_mint_cycles_quest;
                        v.push((id, q));
                    },
                }
                i = i + 1;
                proof {
                    assert(ids@ =~= s.subrange(i as int, s.len() as int));
                }
            }
            Ok(v)
        },
        None => {
            let mut i: usize = 0;
            while i < state.cts_data.users_burn_icp_mint_cycles.len()
                invariant
                    i <= state.cts_data.users_burn_icp_mint_cycles@.len(),
                    v@.len() == i,
                    forall|k: int| 0 <= k < i ==> {
                        &&& (#[trigger] v@[k]).0@ == state.cts_data.users_burn_icp_mint_cycles@[k].0@
                        &&& v@[k].1 == state.cts_data.users_burn_icp_mint_cycles@[k].1.user_burn_icp_mint_cycles_quest
                    },
                decreases state.cts_data.users_burn_icp_mint_cycles@.len() - i,
            {
                let id: UserId = state.cts_data.users_burn_icp_mint_cycles[i].0.copy();
                let q: UserBurnIcpMintCyclesQuest = state.cts_data.users_burn_icp_mint_cycles[i].1.user_burn_icp_mint_cycles_quest;
                v.push((id, q));
                i = i + 1;
            }
            Ok(v)
        },
    }
}

} // verus!
