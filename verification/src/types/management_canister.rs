#![allow(non_camel_case_types)]

use vstd::prelude::*;
use crate::principal::Principal;

verus! {

/// The argument of an `install_code` call to the management canister.
pub struct ManagementCanisterInstallCodeQuest<'a> {
    pub mode: ManagementCanisterInstallCodeMode,
    pub canister_id: Principal,
    pub wasm_module: &'a [u8],
    pub arg: &'a [u8],
}

/// How the code of a canister is put on it.
pub enum ManagementCanisterInstallCodeMode {
    install,
    reinstall,
    upgrade,
}

/// The argument of a `create_canister` call to the management canister.
pub struct ManagementCanisterCreateCanisterQuest {
    pub settings: Option<ManagementCanisterOptionalCanisterSettings>,
}

/// Settings of a canister to change; the absent ones stay as they are.
pub struct ManagementCanisterOptionalCanisterSettings {
    pub controllers: Option<Vec<Principal>>,
    pub compute_allocation: Option<u128>,
    pub memory_allocation: Option<u128>,
    pub freezing_threshold: Option<u128>,
}

/// The settings of a canister.
pub struct ManagementCanisterCanisterSettings {
    pub controllers: Vec<Principal>,
    pub compute_allocation: u128,
    pub memory_allocation: u128,
    pub freezing_threshold: u128,
}

/// What the management canister tells of a canister.
pub struct ManagementCanisterCanisterStatusRecord {
    pub status: ManagementCanisterCanisterStatusVariant,
    pub settings: ManagementCanisterCanisterSettings,
    pub module_hash: Option<[u8; 32]>,
    pub memory_size: u128,
    pub cycles: u128,
}

/// Whether a canister runs.
#[derive(Clone, Copy, PartialEq, Eq, Structural)]
pub enum ManagementCanisterCanisterStatusVariant {
    running,
    stopping,
    stopped,
}

/// The argument of a call that names one canister.
pub struct CanisterIdRecord {
    pub canister_id: Principal,
}

/// The argument of an `update_settings` call to the management canister.
pub struct ChangeCanisterSettingsRecord {
    pub canister_id: Principal,
    pub settings: ManagementCanisterOptionalCanisterSettings,
}

} // verus!
