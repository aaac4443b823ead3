use vstd::prelude::*;
use crate::principal::{Principal, IcpIdSub, principals_contain_exec};
use crate::assoc::{keys_unique, assoc_map, assoc_from_entries, spec_map_of_entries};
use crate::ledger::{IcpTokens, IcpBlockHeight, IcpTransferError};
use crate::tools::Cycles;
use crate::types::{UserId, UserCanisterId, UsersMapCanisterId};
use crate::types::canister_code::CanisterCode;
use crate::types::management_canister::ManagementCanisterCanisterStatusRecord;
use crate::types::user_canister_cache::UserCanisterCache;
use crate::byte_order::bytes_lt;
use crate::consts::{NETWORK_CANISTER_CREATION_FEE_CYCLES, NETWORK_GiB_STORAGE_PER_SECOND_FEE_CYCLES};

verus! {

/// The cost of a new user-contract, in cycles.
pub const NEW_USER_CONTRACT_COST_CYCLES: Cycles = 10_000_000_000_000;

/// The lifetime of a new user-contract: one year, in seconds.
pub const NEW_USER_CONTRACT_LIFETIME_DURATION_SECONDS: u64 = 31536000;

/// The fuel a new user-contract starts with, in cycles.
pub const NEW_USER_CONTRACT_CTSFUEL: Cycles = 5_000_000_000_000;

/// The storage of a new user-contract, in MiB.
pub const NEW_USER_CONTRACT_STORAGE_SIZE_MiB: u64 = 50;

/// The memory allocation of a new user-canister, in MiB: twice its storage.
pub const NEW_USER_CANISTER_NETWORK_MEMORY_ALLOCATION_MiB: u64 = 100;

/// The cycles a new user-canister keeps in reserve.
pub const NEW_USER_CANISTER_BACKUP_CYCLES: Cycles = 1_400_000_000_000;

/// The cycles with which a new user-canister is made: the creation fee, its storage for its
/// lifetime, its fuel and its reserve.
pub const NEW_USER_CANISTER_CREATION_CYCLES: Cycles = NETWORK_CANISTER_CREATION_FEE_CYCLES
    + 31536000u128 * 100u128 * NETWORK_GiB_STORAGE_PER_SECOND_FEE_CYCLES / 1024
    + NEW_USER_CONTRACT_CTSFUEL
    + NEW_USER_CANISTER_BACKUP_CYCLES;

/// The freezing threshold of a new user-canister, in seconds.
pub const NEW_USER_CANISTER_FREEZING_THRESHOLD: u128 = 2592000;

/// The most users that can be in the middle of becoming users at the same time.
pub const MAX_NEW_USERS: usize = 5000;

/// The most users-map canisters.
pub const MAX_USERS_MAP_CANISTERS: usize = 4;

/// The fee of an ICP transfer through the CTS, in e8s.
pub const CTS_ICP_TRANSFER_FEE_E8S: u64 = 30000;

/// The most users that can be in the middle of burning ICP for cycles at the same time.
pub const MAX_USERS_BURN_ICP_MINT_CYCLES: usize = 1000;

/// The least ICP a user can burn for cycles, in e8s.
pub const MINIMUM_USER_BURN_ICP_MINT_CYCLES_E8S: u64 = 3000000;

/// The fee of burning ICP for cycles: the user gets the minted cycles less this.
pub const USER_BURN_ICP_MINT_CYCLES_FEE: Cycles = 50_000_000_000;

/// The least cycles that a `cycles_transfer` call must bring.
pub const MINIMUM_CTS_CYCLES_TRANSFER_IN_CYCLES: Cycles = 5_000_000_000;

/// The bytes at the start of stable memory that are kept for a header.
pub const STABLE_MEMORY_HEADER_SIZE_BYTES: u64 = 1024;

/// The size of the user-canister cache.
pub const USER_CANISTER_CACHE_SIZE: usize = 1400;

/// The last known ICP/XDR rate of the cycles-minting canister.
#[derive(Clone, Copy, Debug, PartialEq, Eq, Structural)]
pub struct IcpXdrConversionRate {
    pub xdr_permyriad_per_icp: u64,
    pub timestamp_seconds: u64,
}

/// A file of the front end.
pub struct File {
    pub content_type: String,
    pub content_encoding: String,
    pub content: Vec<u8>,
}

/// A request of a new user, with the user who referred it, if one did.
pub struct NewUserQuest {
    pub opt_referral_user_id: Option<UserId>,
}

/// The two requests are the same.
pub open spec fn new_user_quest_same(a: NewUserQuest, b: NewUserQuest) -> bool {
    match (a.opt_referral_user_id, b.opt_referral_user_id) {
        (None, None) => true,
        (Some(x), Some(y)) => x@ == y@,
        _ => false,
    }
}

impl NewUserQuest {
    /// Whether two requests are the same.
    pub fn same_as(&self, other: &NewUserQuest) -> (r: bool)
        ensures
            r == new_user_quest_same(*self, *other),
    {
        match (&self.opt_referral_user_id, &other.opt_referral_user_id) {
            (None, None) => true,
            (Some(x), Some(y)) => x.same_as(y),
            _ => false,
        }
    }
}

/// The progress of a user on the way to becoming a user: the options and flags record the
/// steps that are done.
pub struct NewUserData {
    pub start_time_nanos: u64,
    pub lock: bool,
    pub current_xdr_icp_rate: u64,
    pub new_user_quest: NewUserQuest,
    pub look_if_user_is_in_the_users_map_canisters: bool,
    pub referral_user_canister_id: Option<UserCanisterId>,
    pub create_user_canister_block_height: Option<IcpBlockHeight>,
    pub user_canister: Option<Principal>,
    pub users_map_canister: Option<UsersMapCanisterId>,
    pub user_canister_uninstall_code: bool,
    pub user_canister_install_code: bool,
    pub user_canister_status_record: Option<ManagementCanisterCanisterStatusRecord>,
    pub collect_icp: bool,
    pub collect_cycles_cmc_icp_transfer_block_height: Option<IcpBlockHeight>,
    pub collect_cycles_cmc_notify_cycles: Option<Cycles>,
    pub referral_user_referral_payment_cycles_transfer: bool,
    pub user_referral_payment_cycles_transfer: bool,
}

/// The answer of the cycles-minting canister to a notify call that did not go through.
pub enum CmcNotifyError {
    Refunded { reason: String, block_index: Option<IcpBlockHeight> },
    InvalidTransaction(String),
    TransactionTooOld(IcpBlockHeight),
    Processing,
    Other { error_code: u64, error_message: String },
}

/// Why the current ICP/XDR rate could not be had.
pub enum CheckCurrentXdrPerMyriadPerIcpCmcRateError {
    CmcGetRateCallError((u32, String)),
    CmcGetRateCallSponseCandidError(String),
}

/// Why no users-map canister took a new user.
pub enum PutNewUserIntoAUsersMapCanisterError {
    CreateNewUsersMapCanisterLockIsOn,
    CreateNewUsersMapCanisterError(String),
    UsersMapCanisterPutNewUserCallFail(UsersMapCanisterId, String),
    FoundUserCanister(UserCanisterId),
}

/// Why the users-map canisters could not be searched.
pub enum FindUserInTheUsersMapCanistersError {
    UsersMapCanistersFindUserCallFails(Vec<(UsersMapCanisterId, (u32, String))>),
}

/// Why ICP could not be sent to the cycles-minting canister.
pub enum LedgerTopupCyclesCmcIcpTransferError {
    IcpTransferCallError((u32, String)),
    IcpTransferError(IcpTransferError),
}

/// Why the cycles-minting canister did not mint cycles for a transfer.
pub enum LedgerTopupCyclesCmcNotifyError {
    CmcNotifyTopUpQuestCandidEncodeError { candid_error: String },
    CmcNotifyCallError((u32, String)),
    CmcNotifySponseCandidDecodeError { candid_error: String },
    CmcNotifyError(CmcNotifyError),
}

/// Why a new canister could not be had.
pub enum GetNewCanisterError {
    CreateCanisterManagementCallQuestCandidError(String),
    CreateCanisterManagementCallError((u32, String)),
}

/// An error in the middle of the steps of a new user; the call can be made again.
pub enum NewUserMidCallError {
    UsersMapCanistersFindUserCallFails(Vec<(UsersMapCanisterId, (u32, String))>),
    PutNewUserIntoAUsersMapCanisterError(PutNewUserIntoAUsersMapCanisterError),
    CreateUserCanisterIcpTransferError(IcpTransferError),
    CreateUserCanisterIcpTransferCallError((u32, String)),
    CreateUserCanisterCmcNotifyError(CmcNotifyError),
    CreateUserCanisterCmcNotifyCallError((u32, String)),
    UserCanisterUninstallCodeCallError((u32, String)),
    UserCanisterCodeNotFound,
    UserCanisterInstallCodeCallError((u32, String)),
    UserCanisterStatusCallError((u32, String)),
    UserCanisterModuleVerificationError,
    UserCanisterStartCanisterCallError((u32, String)),
    UserCanisterUpdateSettingsCallError((u32, String)),
    CollectCyclesLedgerTopupCyclesCmcIcpTransferError(LedgerTopupCyclesCmcIcpTransferError),
    CollectCyclesLedgerTopupCyclesCmcNotifyError(LedgerTopupCyclesCmcNotifyError),
    ReferralUserReferralPaymentCyclesTransferCallError((u32, String)),
    UserReferralPaymentCyclesTransferCallError((u32, String)),
    CollectIcpTransferError(IcpTransferError),
    CollectIcpTransferCallError((u32, String)),
}

/// Why a user did not become a user.
pub enum NewUserError {
    ReferralUserCannotBeTheCaller,
    CheckIcpBalanceCallError((u32, String)),
    CheckCurrentXdrPerMyriadPerIcpCmcRateError(CheckCurrentXdrPerMyriadPerIcpCmcRateError),
    UserIcpLedgerBalanceTooLow {
        cts_user_contract_cost_icp: IcpTokens,
        user_icp_ledger_balance: IcpTokens,
        icp_ledger_transfer_fee: IcpTokens,
    },
    NewUserIsInTheMiddleOfAnotherNewUserCall,
    CallWithTheAlreadySetParameters(NewUserQuest),
    MaxNewUsers,
    FoundUserCanister(UserCanisterId),
    ReferralUserNotFound,
    CreateUserCanisterCmcNotifyError(CmcNotifyError),
    MidCallError(NewUserMidCallError),
}

/// The user-canister of a new user.
pub struct NewUserSuccessData {
    pub user_canister_id: UserCanisterId,
}

/// Why the user-canister of a user could not be found.
pub enum FindUserCanisterError {
    UserIsInTheNewUsersMap,
    FindUserInTheUsersMapCanistersError(FindUserInTheUsersMapCanistersError),
}

/// A request to burn ICP for cycles.
#[derive(Clone, Copy, PartialEq, Eq, Structural)]
pub struct UserBurnIcpMintCyclesQuest {
    pub burn_icp: IcpTokens,
}

/// The progress of a user that burns ICP for cycles: the options and flags record the steps
/// that are done.
pub struct UserBurnIcpMintCyclesData {
    pub start_time_nanos: u64,
    pub lock: bool,
    pub user_burn_icp_mint_cycles_quest: UserBurnIcpMintCyclesQuest,
    pub user_canister_id: UserCanisterId,
    pub user_burn_icp_mint_cycles_fee: Cycles,
    pub cmc_icp_transfer_block_height: Option<IcpBlockHeight>,
    pub cmc_cycles: Option<Cycles>,
    pub call_user_canister_cycles_transfer_refund: Option<Cycles>,
    pub call_management_canister_posit_cycles: bool,
}

/// Why ICP was not burnt for cycles.
pub enum UserBurnIcpMintCyclesError {
    UserIsInTheMiddleOfAnotherUserBurnIcpMintCyclesCall,
    CompleteCallWithTheAlreadySetParameters(UserBurnIcpMintCyclesQuest),
    MinimumUserBurnIcpMintCycles { minimum_user_burn_icp_mint_cycles: IcpTokens },
    IcpCheckBalanceCallError((u32, String)),
    UserIcpBalanceTooLow { user_icp_balance: IcpTokens, icp_ledger_transfer_fee: IcpTokens },
    FindUserInTheUsersMapCanistersError(FindUserInTheUsersMapCanistersError),
    UserCanisterNotFound,
    MaxUsersBurnIcpMintCycles,
    LedgerTopupCyclesCmcIcpTransferError(LedgerTopupCyclesCmcIcpTransferError),
    MidCallError(UserBurnIcpMintCyclesMidCallError),
}

/// An error in the middle of burning ICP for cycles; the call can be made again.
pub enum UserBurnIcpMintCyclesMidCallError {
    LedgerTopupCyclesCmcNotifyError(LedgerTopupCyclesCmcNotifyError),
    CallUserCanisterCyclesTransferCandidEncodeError(String),
    CallUserCanisterCallPerformError((u32, String)),
    ManagementCanisterPositCyclesCallError((u32, String)),
}

/// The cycles minted for the user, and the fee that the CTS took.
#[derive(Clone, Copy, PartialEq, Eq, Structural)]
pub struct UserBurnIcpMintCyclesSuccess {
    pub mint_cycles_for_the_user: Cycles,
    pub cts_fee_taken: Cycles,
}

/// The step at which the upgrade of a users-map canister failed.
pub enum ControllerUpgradeUMCCallErrorType {
    StopCanisterCallError,
    UpgradeCodeCallError,
    StartCanisterCallError,
}

/// The users-map canister whose upgrade failed, the step, and the call error.
pub type ControllerUpgradeUMCError = (Principal, ControllerUpgradeUMCCallErrorType, (u32, String));

/// The users-map canister that did not take the user-canister code, and the call error.
pub type ControllerPutUCCodeOntoTheUMCError = (UsersMapCanisterId, (u32, String));

/// Why the user-canisters on a users-map canister were not upgraded.
pub enum ControllerUpgradeUCSOnAUMCError {
    CTSUpgradeUCSCallError((u32, String)),
}

/// Why a new cycles-transferrer canister was not made.
pub enum ControllerCreateNewCyclesTransferrerCanisterError {
    GetNewCanisterError(GetNewCanisterError),
    CyclesTransferrerCanisterCodeNotFound,
    InstallCodeCallError((u32, String)),
}

/// The step at which the upgrade of a cycles-transferrer canister failed.
pub enum ControllerUpgradeCTCCallErrorType {
    StopCanisterCallError,
    UpgradeCodeCallError,
    StartCanisterCallError,
}

/// The cycles-transferrer canister whose upgrade failed, the step, and the call error.
pub type ControllerUpgradeCTCError = (Principal, ControllerUpgradeCTCCallErrorType, (u32, String));

/// A call that a controller has the CTS make.
pub struct ControllerCallCanisterQuest {
    pub callee: Principal,
    pub method_name: String,
    pub arg_raw: Vec<u8>,
    pub cycles: Cycles,
}

/// The fees of the CTS.
pub struct Fees {
    pub cts_user_contract_cost_cycles: Cycles,
    pub cts_icp_transfer_fee: IcpTokens,
    pub user_burn_icp_mint_cycles_fee: Cycles,
}

/// The fees of the CTS.
pub fn see_fees() -> (fees: Fees)
    ensures
        fees.cts_user_contract_cost_cycles == NEW_USER_CONTRACT_COST_CYCLES,
        fees.cts_icp_transfer_fee.e8s == CTS_ICP_TRANSFER_FEE_E8S,
        fees.user_burn_icp_mint_cycles_fee == USER_BURN_ICP_MINT_CYCLES_FEE,
{
    Fees {
        cts_user_contract_cost_cycles: NEW_USER_CONTRACT_COST_CYCLES,
        cts_icp_transfer_fee: IcpTokens::from_e8s(CTS_ICP_TRANSFER_FEE_E8S),
        user_burn_icp_mint_cycles_fee: USER_BURN_ICP_MINT_CYCLES_FEE,
    }
}

/// The data of the CTS that is kept through upgrades.
pub struct CTSData {
    pub controllers: Vec<Principal>,
    pub cycles_market_id: Principal,
    pub user_canister_code: CanisterCode,
    pub users_map_canister_code: CanisterCode,
    pub cycles_transferrer_canister_code: CanisterCode,
    pub frontcode_files: Vec<(String, File)>,
    pub frontcode_files_hashes: Vec<(String, [u8; 32])>,
    pub users_map_canisters: Vec<Principal>,
    pub create_new_users_map_canister_lock: bool,
    pub cycles_transferrer_canisters: Vec<Principal>,
    pub cycles_transferrer_canisters_round_robin_counter: u32,
    pub canisters_for_the_use: Vec<Principal>,
    pub new_users: Vec<(Principal, NewUserData)>,
    pub users_burn_icp_mint_cycles: Vec<(UserId, UserBurnIcpMintCyclesData)>,
}

/// No two principals of the list are the same.
pub open spec fn principals_unique(s: Seq<Principal>) -> bool {
    forall|i: int, j: int| 0 <= i < s.len() && 0 <= j < s.len() && i != j ==> (#[trigger] s[i])@ != (#[trigger] s[j])@
}

/// The principals of a list, as a set.
pub open spec fn principal_set(s: Seq<Principal>) -> Set<Seq<u8>> {
    Set::new(|p: Seq<u8>| exists|i: int| 0 <= i < s.len() && (#[trigger] s[i])@ == p)
}

/// One more principal at the end of a list adds it to the set of the list.
pub proof fn lemma_principal_set_push(s: Seq<Principal>, p: Principal)
    ensures
        principal_set(s.push(p)) == principal_set(s).insert(p@),
{
    let t = s.push(p);
    assert forall|q: Seq<u8>| principal_set(t).contains(q) implies principal_set(s).insert(p@).contains(q) by {
        let i = choose|i: int| 0 <= i < t.len() && (#[trigger] t[i])@ == q;
        if i < s.len() {
            assert(t[i] == s[i]);
        }
    }
    assert forall|q: Seq<u8>| principal_set(s).insert(p@).contains(q) implies principal_set(t).contains(q) by {
        if q == p@ {
            assert(t[s.len() as int] == p);
        } else {
            let i = choose|i: int| 0 <= i < s.len() && (#[trigger] s[i])@ == q;
            assert(t[i] == s[i]);
        }
    }
    assert(principal_set(t) =~= principal_set(s).insert(p@));
}

/// The principals of a list, each once.
pub fn principals_deduped(v: Vec<Principal>) -> (r: Vec<Principal>)
    ensures
        principals_unique(r@),
        principal_set(r@) == principal_set(v@),
{
    let mut r: Vec<Principal> = Vec::new();
    let mut i: usize = 0;
    proof {
        assert(principal_set(r@) =~= principal_set(v@.take(0)));
    }
    while i < v.len()
        invariant
            i <= v@.len(),
            principals_unique(r@),
            principal_set(r@) == principal_set(v@.take(i as int)),
        decreases v@.len() - i,
    {
        let ghost r0 = r@;
        proof {
            assert(v@.take(i + 1) =~= v@.take(i as int).push(v@[i as int]));
            lemma_principal_set_push(v@.take(i as int), v@[i as int]);
        }
        if !principals_contain_exec(&r, &v[i]) {
            let p: Principal = v[i].copy();
            r.push(p);
            proof {
                lemma_principal_set_push(r0, p);
                assert(r@ == r0.push(p));
                assert forall|a: int, b: int| 0 <= a < r@.len() && 0 <= b < r@.len() && a != b implies (#[trigger] r@[a])@ != (#[trigger] r@[b])@ by {
                    if a < r0.len() && b < r0.len() {
                        assert(r@[a] == r0[a] && r@[b] == r0[b]);
                    } else if a < r0.len() {
                        assert(r@[a] == r0[a]);
                    } else {
                        assert(r@[b] == r0[b]);
                    }
                }
            }
        } else {
            proof {
                assert(principal_set(r@).contains(v@[i as int]@));
                assert(principal_set(r@).insert(v@[i as int]@) =~= principal_set(r@));
            }
        }
        i = i + 1;
    }
    proof {
        assert(v@.take(i as int) =~= v@);
    }
    r
}

/// The paths of a list of path hashes go strictly up in the order of their bytes.
pub open spec fn hashes_sorted(s: Seq<(String, [u8; 32])>) -> bool {
    forall|i: int, j: int| 0 <= i < j < s.len() ==> bytes_lt(
        vstd::utf8::encode_utf8((#[trigger] s[i]).0@),
        vstd::utf8::encode_utf8((#[trigger] s[j]).0@),
    )
}

impl CTSData {
    /// The maps and sets of the data have each key once.
    pub open spec fn wf(&self) -> bool {
        &&& keys_unique(self.new_users@)
        &&& keys_unique(self.users_burn_icp_mint_cycles@)
        &&& keys_unique(self.frontcode_files@)
        &&& keys_unique(self.frontcode_files_hashes@)
        &&& principals_unique(self.canisters_for_the_use@)
    }

    /// Data that was read in, with each key of its maps and sets once: where a key came
    /// more than once, the last value given for it counts.
    pub fn from_read(d: CTSData) -> (r: CTSData)
        ensures
            r.wf(),
            assoc_map(r.new_users@) == spec_map_of_entries(d.new_users@),
            assoc_map(r.users_burn_icp_mint_cycles@) == spec_map_of_entries(d.users_burn_icp_mint_cycles@),
            assoc_map(r.frontcode_files@) == spec_map_of_entries(d.frontcode_files@),
            assoc_map(r.frontcode_files_hashes@) == spec_map_of_entries(d.frontcode_files_hashes@),
            principal_set(r.canisters_for_the_use@) == principal_set(d.canisters_for_the_use@),
            r == (CTSData {
                new_users: r.new_users,
                users_burn_icp_mint_cycles: r.users_burn_icp_mint_cycles,
                frontcode_files: r.frontcode_files,
                frontcode_files_hashes: r.frontcode_files_hashes,
                canisters_for_the_use: r.canisters_for_the_use,
                ..d
            }),
    {
        let CTSData {
            controllers, cycles_market_id, user_canister_code, users_map_canister_code, cycles_transferrer_canister_code,
            frontcode_files, frontcode_files_hashes, users_map_canisters, create_new_users_map_canister_lock,
            cycles_transferrer_canisters, cycles_transferrer_canisters_round_robin_counter, canisters_for_the_use,
            new_users, users_burn_icp_mint_cycles,
        } = d;
        CTSData {
            controllers,
            cycles_market_id,
            user_canister_code,
            users_map_canister_code,
            cycles_transferrer_canister_code,
            frontcode_files: assoc_from_entries(frontcode_files),
            frontcode_files_hashes: assoc_from_entries(frontcode_files_hashes),
            users_map_canisters,
            create_new_users_map_canister_lock,
            cycles_transferrer_canisters,
            cycles_transferrer_canisters_round_robin_counter,
            canisters_for_the_use: principals_deduped(canisters_for_the_use),
            new_users: assoc_from_entries(new_users),
            users_burn_icp_mint_cycles: assoc_from_entries(users_burn_icp_mint_cycles),
        }
    }

    /// The data of a CTS that was just installed.
    pub fn new() -> (d: CTSData)
        ensures
            d.wf(),
            d.controllers@.len() == 0,
            d.cycles_market_id@ == Seq::<u8>::empty(),
            d.user_canister_code.module_view() == Seq::<u8>::empty(),
            d.user_canister_code.hash_is_right(),
            d.users_map_canister_code.module_view() == Seq::<u8>::empty(),
            d.users_map_canister_code.hash_is_right(),
            d.cycles_transferrer_canister_code.module_view() == Seq::<u8>::empty(),
            d.cycles_transferrer_canister_code.hash_is_right(),
            d.frontcode_files@.len() == 0,
            d.frontcode_files_hashes@.len() == 0,
            d.users_map_canisters@.len() == 0,
            !d.create_new_users_map_canister_lock,
            d.cycles_transferrer_canisters@.len() == 0,
            d.cycles_transferrer_canisters_round_robin_counter == 0,
            d.canisters_for_the_use@.len() == 0,
            d.new_users@.len() == 0,
            d.users_burn_icp_mint_cycles@.len() == 0,
    {
        CTSData {
            controllers: Vec::new(),
            cycles_market_id: Principal::from_slice(&[]),
            user_canister_code: CanisterCode::new(Vec::new()),
            users_map_canister_code: CanisterCode::new(Vec::new()),
            cycles_transferrer_canister_code: CanisterCode::new(Vec::new()),
            frontcode_files: Vec::new(),
            frontcode_files_hashes: Vec::new(),
            users_map_canisters: Vec::new(),
            create_new_users_map_canister_lock: false,
            cycles_transferrer_canisters: Vec::new(),
            cycles_transferrer_canisters_round_robin_counter: 0,
            canisters_for_the_use: Vec::new(),
            new_users: Vec::new(),
            users_burn_icp_mint_cycles: Vec::new(),
        }
    }
}

/// All the state of the CTS: the data kept through upgrades, and what is kept only in
/// memory.
pub struct CtsState {
    pub cts_data: CTSData,
    pub frontcode_files_hashes: Vec<(String, [u8; 32])>,
    pub latest_known_cmc_rate: IcpXdrConversionRate,
    pub user_canister_cache: UserCanisterCache,
    pub stop_calls: bool,
    pub state_snapshot_cts_data_candid_bytes: Vec<u8>,
}

impl CtsState {
    /// The maps and sets of the state have each key once, the hashes of the front end are in
    /// the order of their paths, and the cache of user-canisters can hold a user.
    pub open spec fn wf(&self) -> bool {
        &&& self.cts_data.wf()
        &&& hashes_sorted(self.frontcode_files_hashes@)
        &&& self.user_canister_cache.spec_max_size() > 0
    }

    /// The state of a CTS that was just installed.
    pub fn new() -> (s: CtsState)
        ensures
            s.wf(),
            s.cts_data.controllers@.len() == 0,
            s.cts_data.new_users@.len() == 0,
            s.cts_data.users_burn_icp_mint_cycles@.len() == 0,
            s.frontcode_files_hashes@.len() == 0,
            s.latest_known_cmc_rate == (IcpXdrConversionRate { xdr_permyriad_per_icp: 0, timestamp_seconds: 0 }),
            s.user_canister_cache.spec_len() == 0,
            s.user_canister_cache.spec_max_size() == USER_CANISTER_CACHE_SIZE,
            !s.stop_calls,
            s.state_snapshot_cts_data_candid_bytes@.len() == 0,
    {
        CtsState {
            cts_data: CTSData::new(),
            frontcode_files_hashes: Vec::new(),
            latest_known_cmc_rate: IcpXdrConversionRate { xdr_permyriad_per_icp: 0, timestamp_seconds: 0 },
            user_canister_cache: UserCanisterCache::new(USER_CANISTER_CACHE_SIZE),
            stop_calls: false,
            state_snapshot_cts_data_candid_bytes: Vec::new(),
        }
    }
}

} // verus!
