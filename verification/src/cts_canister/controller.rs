use vstd::prelude::*;
use crate::principal::{Principal, principals_contain, principals_contain_exec, copy_principals};
use crate::assoc::{assoc_map, assoc_find, lemma_assoc_push, lemma_assoc_update, lemma_assoc_remove, lemma_assoc_map_at};
use crate::tools::{sha256, sha256_digest};
use crate::types::UserId;
use crate::types::canister_code::CanisterCode;
use crate::cts_canister::data::{CtsState, CTSData, NewUserData, UserBurnIcpMintCyclesData, principals_unique, principal_set};

verus! {

/// Why the CTS refuses a call, as a trap: nothing that the call changed is kept.
pub enum CtsTrap {
    Maintenance,
    CyclesTransferArgCannotBeRead,
    CallerIsNotAController,
    ModuleHashIsNotTheHashOfTheModule,
    AlreadyInTheCyclesTransferrerCanisters(Principal),
    NewUserIsLocked,
    UserBurnIcpMintCyclesIsLocked,
    CallerCannotBeAnonymous,
    CallerMustBeACanister,
    CanisterCodeIsEmpty,
    NotAUsersMapCanister(Principal),
    NotACyclesTransferrerCanister(Principal),
    NotANewUser(Principal),
    NotAUserThatBurnsIcp(Principal),
}

/// The caller is one of the controllers of the CTS.
pub open spec fn spec_is_controller(state: CtsState, caller: Seq<u8>) -> bool {
    principals_contain(state.cts_data.controllers@, caller)
}

/// Whether the caller is one of the controllers of the CTS.
pub fn is_controller(state: &CtsState, caller: &Principal) -> (r: bool)
    ensures
        r == spec_is_controller(*state, caller@),
{
    principals_contain_exec(&state.cts_data.controllers, caller)
}

/// Which code of the CTS a controller puts.
pub enum CodeSlot {
    UsersMapCanister,
    UserCanister,
    CyclesTransferrerCanister,
}

/// The state with the code in the slot replaced.
pub open spec fn spec_with_code(state: CtsState, slot: CodeSlot, code: CanisterCode) -> CtsState {
    match slot {
        CodeSlot::UsersMapCanister => CtsState { cts_data: CTSData { users_map_canister_code: code, ..state.cts_data }, ..state },
        CodeSlot::UserCanister => CtsState { cts_data: CTSData { user_canister_code: code, ..state.cts_data }, ..state },
        CodeSlot::CyclesTransferrerCanister => CtsState { cts_data: CTSData { cycles_transferrer_canister_code: code, ..state.cts_data }, ..state },
    }
}

/// What putting a code does: refused where the caller is no controller or the hash is not
/// the digest of the module, and the code put in its slot otherwise.
pub open spec fn spec_put_code(old_state: CtsState, new_state: CtsState, caller: Seq<u8>, slot: CodeSlot, code: CanisterCode, r: Result<(), CtsTrap>) -> bool {
    if !spec_is_controller(old_state, caller) {
        r matches Err(CtsTrap::CallerIsNotAController) && new_state == old_state
    } else if !code.hash_is_right() {
        r matches Err(CtsTrap::ModuleHashIsNotTheHashOfTheModule) && new_state == old_state
    } else {
        r is Ok && new_state == spec_with_code(old_state, slot, code)
    }
}

/// Puts a code into its slot, where the caller is a controller and the hash is right.
fn put_code(state: &mut CtsState, caller: &Principal, slot: CodeSlot, canister_code: CanisterCode) -> (r: Result<(), CtsTrap>)
    ensures
        spec_put_code(*old(state), *final(state), caller@, slot, canister_code, r),
{
    if !is_controller(state, caller) {
        return Err(CtsTrap::CallerIsNotAController);
    }
    let digest: [u8; 32] = sha256(canister_code.module().as_slice());
    if !crate::principal::bytes_eq(&digest, canister_code.module_hash()) {
        return Err(CtsTrap::ModuleHashIsNotTheHashOfTheModule);
    }
    match slot {
        CodeSlot::UsersMapCanister => { state.cts_data.users_map_canister_code = canister_code; },
        CodeSlot::UserCanister => { state.cts_data.user_canister_code = canister_code; },
        CodeSlot::CyclesTransferrerCanister => { state.cts_data.cycles_transferrer_canister_code = canister_code; },
    }
    Ok(())
}

/// A controller puts the code of the users-map canisters.
pub fn controller_put_umc_code(state: &mut CtsState, caller: &Principal, canister_code: CanisterCode) -> (r: Result<(), CtsTrap>)
    ensures
        spec_put_code(*old(state), *final(state), caller@, CodeSlot::UsersMapCanister, canister_code, r),
{
    put_code(state, caller, CodeSlot::UsersMapCanister, canister_code)
}

/// A controller puts the code of the user-canisters.
pub fn controller_put_user_canister_code(state: &mut CtsState, caller: &Principal, canister_code: CanisterCode) -> (r: Result<(), CtsTrap>)
    ensures
        spec_put_code(*old(state), *final(state), caller@, CodeSlot::UserCanister, canister_code, r),
{
    put_code(state, caller, CodeSlot::UserCanister, canister_code)
}

/// A controller puts the code of the cycles-transferrer canisters.
pub fn controller_put_ctc_code(state: &mut CtsState, caller: &Principal, canister_code: CanisterCode) -> (r: Result<(), CtsTrap>)
    ensures
        spec_put_code(*old(state), *final(state), caller@, CodeSlot::CyclesTransferrerCanister, canister_code, r),
{
    put_code(state, caller, CodeSlot::CyclesTransferrerCanister, canister_code)
}

/// The first principal of `put` that is already one of `list`, where there is one.
fn first_already_in(list: &Vec<Principal>, put: &Vec<Principal>) -> (r: Option<usize>)
    ensures
        match r {
            Some(i) => i < put@.len() && principals_contain(list@, put@[i as int]@)
                && forall|j: int| 0 <= j < i ==> !principals_contain(list@, (#[trigger] put@[j])@),
            None => forall|j: int| 0 <= j < put@.len() ==> !principals_contain(list@, (#[trigger] put@[j])@),
        },
{
    let mut i: usize = 0;
    while i < put.len()
        invariant
            i <= put@.len(),
            forall|j: int| 0 <= j < i ==> !principals_contain(list@, (#[trigger] put@[j])@),
        decreases put@.len() - i,
    {
        if principals_contain_exec(list, &put[i]) {
            return Some(i);
        }
        i = i + 1;
    }
    None
}

/// A controller adds cycles-transferrer canisters, none of which may be one already; the
/// first that is one already is named in the refusal.
pub fn controller_put_cycles_transferrer_canisters(state: &mut CtsState, caller: &Principal, put_cycles_transferrer_canisters: Vec<Principal>) -> (r: Result<(), CtsTrap>)
    ensures
        !spec_is_controller(*old(state), caller@) ==> (r matches Err(CtsTrap::CallerIsNotAController) && *final(state) == *old(state)),
        spec_is_controller(*old(state), caller@) ==> {
            let ctcs = old(state).cts_data.cycles_transferrer_canisters@;
            if exists|j: int| 0 <= j < put_cycles_transferrer_canisters@.len() && principals_contain(ctcs, (#[trigger] put_cycles_transferrer_canisters@[j])@) {
                &&& *final(state) == *old(state)
                &&& r matches Err(CtsTrap::AlreadyInTheCyclesTransferrerCanisters(p)) && (exists|j: int|
                        0 <= j < put_cycles_transferrer_canisters@.len()
                        && p@ == (#[trigger] put_cycles_transferrer_canisters@[j])@
                        && principals_contain(ctcs, p@)
                        && forall|k: int| 0 <= k < j ==> !principals_contain(ctcs, (#[trigger] put_cycles_transferrer_canisters@[k])@))
            } else {
                &&& r is Ok
                &&& *final(state) == CtsState {
                        cts_data: CTSData {
                            cycles_transferrer_canisters: final(state).cts_data.cycles_transferrer_canisters,
                            ..old(state).cts_data
                        },
                        ..*old(state)
                    }
                &&& final(state).cts_data.cycles_transferrer_canisters@ == ctcs + put_cycles_transferrer_canisters@
            }
        },
{
    if !is_controller(state, caller) {
        return Err(CtsTrap::CallerIsNotAController);
    }
    match first_already_in(&state.cts_data.cycles_transferrer_canisters, &put_cycles_transferrer_canisters) {
        Some(i) => {
            let p: Principal = put_cycles_transferrer_canisters[i].copy();
            Err(CtsTrap::AlreadyInTheCyclesTransferrerCanisters(p))
        },
        None => {
            let mut put = put_cycles_transferrer_canisters;
            state.cts_data.cycles_transferrer_canisters.append(&mut put);
            Ok(())
        },
    }
}

/// A controller puts the progress of a new user, unless the user is locked in the middle of
/// a call and the lock is not overridden.
pub fn put_new_user_data(state: &mut CtsState, caller: &Principal, new_user_id: UserId, put_data: NewUserData, override_lock: bool) -> (r: Result<(), CtsTrap>)
    requires
        old(state).wf(),
    ensures
        final(state).wf(),
        !spec_is_controller(*old(state), caller@) ==> (r matches Err(CtsTrap::CallerIsNotAController) && *final(state) == *old(state)),
        spec_is_controller(*old(state), caller@) ==> {
            let m = assoc_map(old(state).cts_data.new_users@);
            if m.dom().contains(new_user_id@) && m[new_user_id@].lock && !override_lock {
                r matches Err(CtsTrap::NewUserIsLocked) && *final(state) == *old(state)
            } else {
                &&& r is Ok
                &&& assoc_map(final(state).cts_data.new_users@) == m.insert(new_user_id@, put_data)
                &&& *final(state) == CtsState {
                        cts_data: CTSData { new_users: final(state).cts_data.new_users, ..old(state).cts_data },
                        ..*old(state)
                    }
            }
        },
{
    if !is_controller(state, caller) {
        return Err(CtsTrap::CallerIsNotAController);
    }
    let ghost s0 = state.cts_data.new_users@;
    match assoc_find(&state.cts_data.new_users, &new_user_id) {
        Some(i) => {
            proof {
                lemma_assoc_map_at(s0, i as int);
            }
            if state.cts_data.new_users[i].1.lock && !override_lock {
                return Err(CtsTrap::NewUserIsLocked);
            }
            proof {
                lemma_assoc_update(s0, i as int, new_user_id, put_data);
            }
            state.cts_data.new_users.set(i, (new_user_id, put_data));
        },
        None => {
            proof {
                lemma_assoc_push(s0, new_user_id, put_data);
            }
            state.cts_data.new_users.push((new_user_id, put_data));
        },
    }
    Ok(())
}

/// A controller takes out the progress of a new user, unless the user is locked in the middle
/// of a call and the lock is not overridden.
pub fn remove_new_user(state: &mut CtsState, caller: &Principal, new_user_id: &UserId, override_lock: bool) -> (r: Result<(), CtsTrap>)
    requires
        old(state).wf(),
    ensures
        final(state).wf(),
        !spec_is_controller(*old(state), caller@) ==> (r matches Err(CtsTrap::CallerIsNotAController) && *final(state) == *old(state)),
        spec_is_controller(*old(state), caller@) ==> {
            let m = assoc_map(old(state).cts_data.new_users@);
            if m.dom().contains(new_user_id@) && m[new_user_id@].lock && !override_lock {
                r matches Err(CtsTrap::NewUserIsLocked) && *final(state) == *old(state)
            } else {
                &&& r is Ok
                &&& assoc_map(final(state).cts_data.new_users@) == m.remove(new_user_id@)
                &&& *final(state) == CtsState {
                        cts_data: CTSData { new_users: final(state).cts_data.new_users, ..old(state).cts_data },
                        ..*old(state)
                    }
            }
        },
{
    if !is_controller(state, caller) {
        return Err(CtsTrap::CallerIsNotAController);
    }
    let ghost s0 = state.cts_data.new_users@;
    match assoc_find(&state.cts_data.new_users, new_user_id) {
        Some(i) => {
            proof {
                lemma_assoc_map_at(s0, i as int);
            }
            if state.cts_data.new_users[i].1.lock && !override_lock {
                return Err(CtsTrap::NewUserIsLocked);
            }
            proof {
                lemma_assoc_remove(s0, i as int);
            }
            state.cts_data.new_users.remove(i);
        },
        None => {
            proof {
                assert(assoc_map(s0).remove(new_user_id@) =~= assoc_map(s0));
            }
        },
    }
    Ok(())
}

/// A controller puts the progress of a user that burns ICP for cycles, unless the user is
/// locked in the middle of a call and the lock is not overridden.
pub fn put_user_burn_icp_mint_cycles_data(state: &mut CtsState, caller: &Principal, user_id: UserId, put_data: UserBurnIcpMintCyclesData, override_lock: bool) -> (r: Result<(), CtsTrap>)
    requires
        old(state).wf(),
    ensures
        final(state).wf(),
        !spec_is_controller(*old(state), caller@) ==> (r matches Err(CtsTrap::CallerIsNotAController) && *final(state) == *old(state)),
        spec_is_controller(*old(state), caller@) ==> {
            let m = assoc_map(old(state).cts_data.users_burn_icp_mint_cycles@);
            if m.dom().contains(user_id@) && m[user_id@].lock && !override_lock {
                r matches Err(CtsTrap::UserBurnIcpMintCyclesIsLocked) && *final(state) == *old(state)
            } else {
                &&& r is Ok
                &&& assoc_map(final(state).cts_data.users_burn_icp_mint_cycles@) == m.insert(user_id@, put_data)
                &&& *final(state) == CtsState {
                        cts_data: CTSData { users_burn_icp_mint_cycles: final(state).cts_data.users_burn_icp_mint_cycles, ..old(state).cts_data },
                        ..*old(state)
                    }
            }
        },
{
    if !is_controller(state, caller) {
        return Err(CtsTrap::CallerIsNotAController);
    }
    let ghost s0 = state.cts_data.users_burn_icp_mint_cycles@;
    match assoc_find(&state.cts_data.users_burn_icp_mint_cycles, &user_id) {
        Some(i) => {
            proof {
                lemma_assoc_map_at(s0, i as int);
            }
            if state.cts_data.users_burn_icp_mint_cycles[i].1.lock && !override_lock {
                return Err(CtsTrap::UserBurnIcpMintCyclesIsLocked);
            }
            proof {
                lemma_assoc_update(s0, i as int, user_id, put_data);
            }
            state.cts_data.users_burn_icp_mint_cycles.set(i, (user_id, put_data));
        },
        None => {
            proof {
                lemma_assoc_push(s0, user_id, put_data);
            }
            state.cts_data.users_burn_icp_mint_cycles.push((user_id, put_data));
        },
    }
    Ok(())
}

/// A controller takes out the progress of a user that burns ICP for cycles, unless the user
/// is locked in the middle of a call and the lock is not overridden.
pub fn remove_user_burn_icp_mint_cycles(state: &mut CtsState, caller: &Principal, user_id: &UserId, override_lock: bool) -> (r: Result<(), CtsTrap>)
    requires
        old(state).wf(),
    ensures
        final(state).wf(),
        !spec_is_controller(*old(state), caller@) ==> (r matches Err(CtsTrap::CallerIsNotAController) && *final(state) == *old(state)),
        spec_is_controller(*old(state), caller@) ==> {
            let m = assoc_map(old(state).cts_data.users_burn_icp_mint_cycles@);
            if m.dom().contains(user_id@) && m[user_id@].lock && !override_lock {
                r matches Err(CtsTrap::UserBurnIcpMintCyclesIsLocked) && *final(state) == *old(state)
            } else {
                &&& r is Ok
                &&& assoc_map(final(state).cts_data.users_burn_icp_mint_cycles@) == m.remove(user_id@)
                &&& *final(state) == CtsState {
                        cts_data: CTSData { users_burn_icp_mint_cycles: final(state).cts_data.users_burn_icp_mint_cycles, ..old(state).cts_data },
                        ..*old(state)
                    }
            }
        },
{
    if !is_controller(state, caller) {
        return Err(CtsTrap::CallerIsNotAController);
    }
    let ghost s0 = state.cts_data.users_burn_icp_mint_cycles@;
    match assoc_find(&state.cts_data.users_burn_icp_mint_cycles, user_id) {
        Some(i) => {
            proof {
                lemma_assoc_map_at(s0, i as int);
            }
            if state.cts_data.users_burn_icp_mint_cycles[i].1.lock && !override_lock {
                return Err(CtsTrap::UserBurnIcpMintCyclesIsLocked);
            }
            proof {
                lemma_assoc_remove(s0, i as int);
            }
            state.cts_data.users_burn_icp_mint_cycles.remove(i);
        },
        None => {
            proof {
                assert(assoc_map(s0).remove(user_id@) =~= assoc_map(s0));
            }
        },
    }
    Ok(())
}

/// Puts a canister into the set of canisters kept for later use.
pub fn insert_canister_for_the_use(state: &mut CtsState, c: &Principal)
    requires
        old(state).wf(),
    ensures
        final(state).wf(),
        principal_set(final(state).cts_data.canisters_for_the_use@) == principal_set(old(state).cts_data.canisters_for_the_use@).insert(c@),
        *final(state) == (CtsState {
            cts_data: CTSData { canisters_for_the_use: final(state).cts_data.canisters_for_the_use, ..old(state).cts_data },
            ..*old(state)
        }),
{
    let ghost before = state.cts_data.canisters_for_the_use@;
    if !principals_contain_exec(&state.cts_data.canisters_for_the_use, c) {
        state.cts_data.canisters_for_the_use.push(c.copy());
        proof {
            let after = state.cts_data.canisters_for_the_use@;
            assert forall|a: int, b: int| 0 <= a < after.len() && 0 <= b < after.len() && a != b implies (#[trigger] after[a])@ != (#[trigger] after[b])@ by {
                if a < before.len() && b < before.len() {
                    assert(after[a] == before[a] && after[b] == before[b]);
                } else if a < before.len() {
                    assert(after[a] == before[a]);
                } else {
                    assert(after[b] == before[b]);
                }
            }
            assert(principal_set(after) =~= principal_set(before).insert(c@)) by {
                assert forall|p: Seq<u8>| principal_set(after).contains(p) implies principal_set(before).insert(c@).contains(p) by {
                    let k = choose|k: int| 0 <= k < after.len() && (#[trigger] after[k])@ == p;
                    if k < before.len() {
                        assert(after[k] == before[k]);
                    }
                }
                assert forall|p: Seq<u8>| principal_set(before).insert(c@).contains(p) implies principal_set(after).contains(p) by {
                    if p == c@ {
                        assert(after[before.len() as int]@ == p);
                    } else {
                        let k = choose|k: int| 0 <= k < before.len() && (#[trigger] before[k])@ == p;
                        assert(after[k] == before[k]);
                    }
                }
            }
        }
    } else {
        proof {
            assert(principal_set(before).contains(c@));
            assert(principal_set(before).insert(c@) =~= principal_set(before));
        }
    }
}

/// A controller adds canisters to the set of canisters kept for later use.
pub fn controller_put_canisters_for_the_use(state: &mut CtsState, caller: &Principal, canisters_for_the_use: Vec<Principal>) -> (r: Result<(), CtsTrap>)
    requires
        old(state).wf(),
    ensures
        final(state).wf(),
        !spec_is_controller(*old(state), caller@) ==> (r matches Err(CtsTrap::CallerIsNotAController) && *final(state) == *old(state)),
        spec_is_controller(*old(state), caller@) ==> {
            &&& r is Ok
            &&& principal_set(final(state).cts_data.canisters_for_the_use@)
                    == principal_set(old(state).cts_data.canisters_for_the_use@).union(principal_set(canisters_for_the_use@))
            &&& *final(state) == CtsState {
                    cts_data: CTSData { canisters_for_the_use: final(state).cts_data.canisters_for_the_use, ..old(state).cts_data },
                    ..*old(state)
                }
        },
{
    if !is_controller(state, caller) {
        return Err(CtsTrap::CallerIsNotAController);
    }
    let ghost s0 = state.cts_data.canisters_for_the_use@;
    let mut i: usize = 0;
    while i < canisters_for_the_use.len()
        invariant
            i <= canisters_for_the_use@.len(),
            state.wf(),
            principal_set(state.cts_data.canisters_for_the_use@) == principal_set(s0).union(principal_set(canisters_for_the_use@.take(i as int))),
            *state == (CtsState {
                cts_data: CTSData { canisters_for_the_use: state.cts_data.canisters_for_the_use, ..old(state).cts_data },
                ..*old(state)
            }),
        decreases canisters_for_the_use@.len() - i,
    {
        insert_canister_for_the_use(state, &canisters_for_the_use[i]);
        proof {
            let t = canisters_for_the_use@;
            assert(principal_set(t.take(i + 1)) =~= principal_set(t.take(i as int)).insert(t[i as int]@)) by {
                assert forall|p: Seq<u8>| principal_set(t.take(i + 1)).contains(p) implies principal_set(t.take(i as int)).insert(t[i as int]@).contains(p) by {
                    let k = choose|k: int| 0 <= k < t.take(i + 1).len() && (#[trigger] t.take(i + 1)[k])@ == p;
                    if k < i {
                        assert(t.take(i as int)[k] == t.take(i + 1)[k]);
                    }
                }
                assert forall|p: Seq<u8>| principal_set(t.take(i as int)).insert(t[i as int]@).contains(p) implies principal_set(t.take(i + 1)).contains(p) by {
                    if p == t[i as int]@ {
                        assert(t.take(i + 1)[i as int] == t[i as int]);
                    } else {
                        let k = choose|k: int| 0 <= k < t.take(i as int).len() && (#[trigger] t.take(i as int)[k])@ == p;
                        assert(t.take(i + 1)[k] == t.take(i as int)[k]);
                    }
                }
            }
            assert(principal_set(state.cts_data.canisters_for_the_use@) =~= principal_set(s0).union(principal_set(t.take(i + 1))));
        }
        i = i + 1;
    }
    proof {
        assert(canisters_for_the_use@.take(i as int) =~= canisters_for_the_use@);
    }
    Ok(())
}

/// A controller sets whether the CTS stops taking calls.
pub fn controller_set_stop_calls_flag(state: &mut CtsState, caller: &Principal, stop_calls_flag: bool) -> (r: Result<(), CtsTrap>)
    ensures
        !spec_is_controller(*old(state), caller@) ==> (r matches Err(CtsTrap::CallerIsNotAController) && *final(state) == *old(state)),
        spec_is_controller(*old(state), caller@) ==> r is Ok && *final(state) == (CtsState { stop_calls: stop_calls_flag, ..*old(state) }),
{
    if !is_controller(state, caller) {
        return Err(CtsTrap::CallerIsNotAController);
    }
    state.stop_calls = stop_calls_flag;
    Ok(())
}

/// A controller sees whether the CTS stops taking calls.
pub fn controller_see_stop_calls_flag(state: &CtsState, caller: &Principal) -> (r: Result<bool, CtsTrap>)
    ensures
        !spec_is_controller(*state, caller@) ==> r matches Err(CtsTrap::CallerIsNotAController),
        spec_is_controller(*state, caller@) ==> r == Ok::<bool, CtsTrap>(state.stop_calls),
{
    if !is_controller(state, caller) {
        return Err(CtsTrap::CallerIsNotAController);
    }
    Ok(state.stop_calls)
}

/// A controller sees the controllers.
pub fn controller_see_controllers(state: &CtsState, caller: &Principal) -> (r: Result<Vec<Principal>, CtsTrap>)
    ensures
        !spec_is_controller(*state, caller@) ==> r matches Err(CtsTrap::CallerIsNotAController),
        spec_is_controller(*state, caller@) ==> (r matches Ok(v) && v@.len() == state.cts_data.controllers@.len()
            && forall|i: int| 0 <= i < v@.len() ==> (#[trigger] v@[i])@ == state.cts_data.controllers@[i]@),
{
    if !is_controller(state, caller) {
        return Err(CtsTrap::CallerIsNotAController);
    }
    Ok(copy_principals(&state.cts_data.controllers))
}

/// A controller adds a controller.
pub fn controller_set_new_controller(state: &mut CtsState, caller: &Principal, set_controller: Principal) -> (r: Result<(), CtsTrap>)
    ensures
        !spec_is_controller(*old(state), caller@) ==> (r matches Err(CtsTrap::CallerIsNotAController) && *final(state) == *old(state)),
        spec_is_controller(*old(state), caller@) ==> {
            &&& r is Ok
            &&& final(state).cts_data.controllers@ == old(state).cts_data.controllers@.push(set_controller)
            &&& *final(state) == CtsState {
                    cts_data: CTSData { controllers: final(state).cts_data.controllers, ..old(state).cts_data },
                    ..*old(state)
                }
        },
{
    if !is_controller(state, caller) {
        return Err(CtsTrap::CallerIsNotAController);
    }
    state.cts_data.controllers.push(set_controller);
    Ok(())
}

/// The caller, as the CTS sees it.
pub fn see_caller(caller: &Principal) -> (p: Principal)
    ensures
        p@ == caller@,
{
    caller.copy()
}

/// The cycles market of the CTS.
pub fn cycles_market_id(state: &CtsState) -> (p: Principal)
    ensures
        p@ == state.cts_data.cycles_market_id@,
{
    state.cts_data.cycles_market_id.copy()
}

/// Installs the CTS with its controllers and its cycles market.
pub fn init(state: &mut CtsState, controllers: Vec<Principal>, cycles_market_id: Principal)
    ensures
        *final(state) == (CtsState {
            cts_data: CTSData { controllers: controllers, cycles_market_id: cycles_market_id, ..old(state).cts_data },
            ..*old(state)
        }),
{
    state.cts_data.controllers = controllers;
    state.cts_data.cycles_market_id = cycles_market_id;
}

} // verus!
