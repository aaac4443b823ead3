use vstd::prelude::*;
use crate::principal::Principal;
use crate::types::{UserCanisterId};

verus! {

/// The argument with which a users-map canister is installed.
pub struct UsersMapCanisterInit {
    pub cts_id: Principal,
}

/// What a users-map canister holds of a user.
pub struct UMCUserData {
    pub user_canister_id: UserCanisterId,
    pub user_canister_latest_known_module_hash: [u8; 32],
}

/// Why a users-map canister did not take a new user.
pub enum PutNewUserError {
    CanisterIsFull,
    FoundUser(UMCUserData),
}

/// The user-canister whose upgrade failed, at which step, and the call error.
pub type UMCUpgradeUCError = (UserCanisterId, UMCUpgradeUCCallErrorType, (u32, String));

/// The step at which the upgrade of a user-canister failed.
pub enum UMCUpgradeUCCallErrorType {
    StopCanisterCallError,
    UpgradeCodeCallError { wasm_module_hash: [u8; 32] },
    StartCanisterCallError,
}

} // verus!
