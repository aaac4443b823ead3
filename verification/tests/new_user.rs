use cts_lib::ledger::{IcpTokens, IcpTransferError};
use cts_lib::cts_canister::data::{PutNewUserIntoAUsersMapCanisterError, LedgerTopupCyclesCmcIcpTransferError, LedgerTopupCyclesCmcNotifyError, CmcNotifyError};
use cts_lib::principal::Principal;
use cts_lib::types::canister_code::CanisterCode;
use cts_lib::types::management_canister::{
    ManagementCanisterCanisterSettings, ManagementCanisterCanisterStatusRecord, ManagementCanisterCanisterStatusVariant,
};
use cts_lib::cts_canister::controller::{init, controller_put_user_canister_code, CtsTrap};
use cts_lib::cts_canister::data::{CtsState, NewUserData, NewUserError, NewUserMidCallError, NewUserQuest, FindUserInTheUsersMapCanistersError};
use cts_lib::cts_canister::calls::user_is_in_the_new_users_map;
use cts_lib::cts_canister::new_user::{
    new_user_begin, new_user_register, new_user_next_step, new_user_apply, new_user_complete, new_user_pause, NewUserBegin,
    NewUserStep, NewUserEvent, REFERRAL_PAYMENT_CYCLES,
};

const RATE: u64 = 50_000;
const NOW: u64 = 1_000_000_000_000;

fn p(b: &[u8]) -> Principal {
    Principal::from_slice(b)
}

fn state_with_code() -> (CtsState, Principal, Principal) {
    let mut state = CtsState::new();
    let controller = p(&[9, 9]);
    init(&mut state, vec![p(&[9, 9])], p(&[5, 5]));
    assert!(controller_put_user_canister_code(&mut state, &controller, CanisterCode::new(vec![0, 97, 115, 109])).is_ok());
    let cts = p(&[0, 0, 0, 0, 0, 0, 0, 7, 1, 1]);
    (state, controller, cts)
}

fn register(state: &mut CtsState, user: &Principal, q: NewUserQuest) -> NewUserData {
    match new_user_begin(state, user, &q) {
        NewUserBegin::CheckBalanceAndRate => {},
        _ => panic!("a new user is asked for its balance first"),
    }
    match new_user_register(state, user, q, Ok(IcpTokens::from_e8s(1_000_000_000)), Ok(RATE), NOW) {
        Ok(d) => d,
        Err(_) => panic!("the balance pays for the contract"),
    }
}

fn status(hash: [u8; 32], status: ManagementCanisterCanisterStatusVariant) -> ManagementCanisterCanisterStatusRecord {
    ManagementCanisterCanisterStatusRecord {
        status,
        settings: ManagementCanisterCanisterSettings {
            controllers: vec![p(&[0, 0, 0, 0, 0, 0, 0, 7, 1, 1])],
            compute_allocation: 0,
            memory_allocation: 0,
            freezing_threshold: 0,
        },
        module_hash: Some(hash),
        memory_size: 0,
        cycles: 0,
    }
}

#[test]
fn new_user_goes_through_all_the_steps() {
    let (mut state, _controller, cts) = state_with_code();
    let code_hash: [u8; 32] = *state.cts_data.user_canister_code.module_hash();
    let user = p(&[1, 2, 3]);
    let mut d = register(&mut state, &user, NewUserQuest { opt_referral_user_id: None });
    assert!(d.lock);
    assert_eq!(d.current_xdr_icp_rate, RATE);
    assert!(user_is_in_the_new_users_map(&state, &user));

    assert!(matches!(new_user_next_step(&state, &user, &mut d, &cts, NOW), NewUserStep::FindUserInTheUsersMapCanisters));
    d = new_user_apply(&mut state, &user, d, NewUserEvent::FindUserInTheUsersMapCanisters(Ok(None)), NOW).ok().unwrap();

    match new_user_next_step(&state, &user, &mut d, &cts, NOW) {
        NewUserStep::CreateUserCanisterIcpTransfer { memo, amount, fee, created_at_time_nanos, .. } => {
            assert_eq!(memo, 0x41455243);
            assert_eq!(amount, IcpTokens::from_e8s(137_822_406));
            assert_eq!(fee, IcpTokens::from_e8s(10_000));
            assert_eq!(created_at_time_nanos, NOW);
        },
        _ => panic!("the canister is paid for next"),
    }
    d = new_user_apply(&mut state, &user, d, NewUserEvent::CreateUserCanisterIcpTransfer(Ok(Ok(7))), NOW).ok().unwrap();

    match new_user_next_step(&state, &user, &mut d, &cts, NOW) {
        NewUserStep::CmcNotifyCreateCanister { controller, block_index } => {
            assert_eq!(controller, cts);
            assert_eq!(block_index, 7);
        },
        _ => panic!("the cycles-minting canister is asked next"),
    }
    let uc = p(&[4, 4, 4]);
    d = new_user_apply(&mut state, &user, d, NewUserEvent::CmcNotifyCreateCanister(Ok(Ok(p(&[4, 4, 4])))), NOW).ok().unwrap();
    assert!(d.user_canister_uninstall_code);

    match new_user_next_step(&state, &user, &mut d, &cts, NOW) {
        NewUserStep::InstallCode { canister_id, arg } => {
            assert_eq!(canister_id, uc);
            assert_eq!(arg.user_id, user);
            assert_eq!(arg.cts_id, cts);
            assert_eq!(arg.cycles_market_id, p(&[5, 5]));
            assert_eq!(arg.user_canister_storage_size_mib, 50);
            assert_eq!(arg.user_canister_lifetime_termination_timestamp_seconds, 1000 + 31536000);
        },
        _ => panic!("the code is installed next"),
    }
    d = new_user_apply(&mut state, &user, d, NewUserEvent::InstallCode(Ok(())), NOW).ok().unwrap();
    assert!(matches!(new_user_next_step(&state, &user, &mut d, &cts, NOW), NewUserStep::CanisterStatus { .. }));
    d = new_user_apply(
        &mut state, &user, d,
        NewUserEvent::CanisterStatus(Ok(status(code_hash, ManagementCanisterCanisterStatusVariant::stopped))), NOW,
    ).ok().unwrap();
    assert!(matches!(new_user_next_step(&state, &user, &mut d, &cts, NOW), NewUserStep::StartCanister { .. }));
    d = new_user_apply(&mut state, &user, d, NewUserEvent::StartCanister(Ok(())), NOW).ok().unwrap();

    match new_user_next_step(&state, &user, &mut d, &cts, NOW) {
        NewUserStep::PutNewUserIntoAUsersMapCanister { umc_user_data } => {
            assert_eq!(umc_user_data.user_canister_id, uc);
            assert_eq!(umc_user_data.user_canister_latest_known_module_hash, code_hash);
        },
        _ => panic!("the user goes into a users-map canister next"),
    }
    let umc = p(&[6, 6]);
    d = new_user_apply(&mut state, &user, d, NewUserEvent::PutNewUserIntoAUsersMapCanister(Ok(p(&[6, 6]))), NOW).ok().unwrap();

    let settings = match new_user_next_step(&state, &user, &mut d, &cts, NOW) {
        NewUserStep::UpdateSettings { canister_id, settings } => {
            assert_eq!(canister_id, uc);
            assert_eq!(settings.controllers, vec![cts.copy(), umc.copy(), uc.copy()]);
            assert_eq!(settings.compute_allocation, 0);
            assert_eq!(settings.memory_allocation, 104_857_600);
            assert_eq!(settings.freezing_threshold, 2_592_000);
            settings
        },
        _ => panic!("the settings change next"),
    };
    d = new_user_apply(&mut state, &user, d, NewUserEvent::UpdateSettings(settings, Ok(())), NOW).ok().unwrap();

    match new_user_next_step(&state, &user, &mut d, &cts, NOW) {
        NewUserStep::CollectIcp { amount } => assert_eq!(amount, IcpTokens::from_e8s(62_177_593)),
        _ => panic!("the rest of the cost is taken next"),
    }
    d = new_user_apply(&mut state, &user, d, NewUserEvent::CollectIcp(Ok(Ok(9))), NOW).ok().unwrap();
    assert!(matches!(new_user_next_step(&state, &user, &mut d, &cts, NOW), NewUserStep::Finish));

    match new_user_complete(&mut state, &user, d) {
        Ok(success) => assert_eq!(success.user_canister_id, uc),
        Err(_) => panic!("the user is done"),
    }
    assert!(!user_is_in_the_new_users_map(&state, &user));
    assert_eq!(state.user_canister_cache.len(), 1);
}

#[test]
fn new_user_with_a_referral_is_paid_cycles() {
    let (mut state, _controller, cts) = state_with_code();
    let code_hash: [u8; 32] = *state.cts_data.user_canister_code.module_hash();
    let user = p(&[1, 2, 3]);
    let referral = p(&[8, 8]);
    let mut d = register(&mut state, &user, NewUserQuest { opt_referral_user_id: Some(p(&[8, 8])) });
    d = new_user_apply(&mut state, &user, d, NewUserEvent::FindUserInTheUsersMapCanisters(Ok(None)), NOW).ok().unwrap();
    match new_user_next_step(&state, &user, &mut d, &cts, NOW) {
        NewUserStep::FindReferralUserCanister { referral_user_id } => assert_eq!(referral_user_id, referral),
        _ => panic!("the referral is looked for next"),
    }
    d = new_user_apply(&mut state, &user, d, NewUserEvent::FindReferralUserCanister(Ok(Some(p(&[3, 3])))), NOW).ok().unwrap();
    d = new_user_apply(&mut state, &user, d, NewUserEvent::CreateUserCanisterIcpTransfer(Ok(Ok(7))), NOW).ok().unwrap();
    d = new_user_apply(&mut state, &user, d, NewUserEvent::CmcNotifyCreateCanister(Ok(Ok(p(&[4, 4])))), NOW).ok().unwrap();
    d = new_user_apply(&mut state, &user, d, NewUserEvent::InstallCode(Ok(())), NOW).ok().unwrap();
    d = new_user_apply(
        &mut state, &user, d,
        NewUserEvent::CanisterStatus(Ok(status(code_hash, ManagementCanisterCanisterStatusVariant::running))), NOW,
    ).ok().unwrap();
    d = new_user_apply(&mut state, &user, d, NewUserEvent::PutNewUserIntoAUsersMapCanister(Ok(p(&[6, 6]))), NOW).ok().unwrap();
    let settings = match new_user_next_step(&state, &user, &mut d, &cts, NOW) {
        NewUserStep::UpdateSettings { settings, .. } => settings,
        _ => panic!("the settings change next"),
    };
    d = new_user_apply(&mut state, &user, d, NewUserEvent::UpdateSettings(settings, Ok(())), NOW).ok().unwrap();
    match new_user_next_step(&state, &user, &mut d, &cts, NOW) {
        NewUserStep::CollectCyclesCmcIcpTransfer { amount, .. } => assert_eq!(amount, IcpTokens::from_e8s(62_177_593)),
        _ => panic!("the cost goes to the cycles-minting canister next"),
    }
    d = new_user_apply(&mut state, &user, d, NewUserEvent::CollectCyclesCmcIcpTransfer(Ok(11)), NOW).ok().unwrap();
    match new_user_next_step(&state, &user, &mut d, &cts, NOW) {
        NewUserStep::CollectCyclesCmcNotify { block_index } => assert_eq!(block_index, 11),
        _ => panic!("the cycles are asked for next"),
    }
    d = new_user_apply(&mut state, &user, d, NewUserEvent::CollectCyclesCmcNotify(Ok(3_000_000_000_000)), NOW).ok().unwrap();
    match new_user_next_step(&state, &user, &mut d, &cts, NOW) {
        NewUserStep::ReferralUserReferralPayment { canister_id, cycles, .. } => {
            assert_eq!(canister_id, p(&[3, 3]));
            assert_eq!(cycles, REFERRAL_PAYMENT_CYCLES);
            assert_eq!(cycles, 1_000_000_000_000);
        },
        _ => panic!("the referral is paid next"),
    }
    d = new_user_apply(&mut state, &user, d, NewUserEvent::ReferralUserReferralPayment(Ok(())), NOW).ok().unwrap();
    match new_user_next_step(&state, &user, &mut d, &cts, NOW) {
        NewUserStep::UserReferralPayment { canister_id, .. } => assert_eq!(canister_id, p(&[4, 4])),
        _ => panic!("the new user is paid next"),
    }
    d = new_user_apply(&mut state, &user, d, NewUserEvent::UserReferralPayment(Ok(())), NOW).ok().unwrap();
    assert!(matches!(new_user_next_step(&state, &user, &mut d, &cts, NOW), NewUserStep::Finish));
}

#[test]
fn a_stopped_new_user_call_resumes_where_it_stopped() {
    let (mut state, _controller, cts) = state_with_code();
    let user = p(&[1, 2, 3]);
    let q = NewUserQuest { opt_referral_user_id: None };
    let mut d = register(&mut state, &user, NewUserQuest { opt_referral_user_id: None });
    d = new_user_apply(&mut state, &user, d, NewUserEvent::FindUserInTheUsersMapCanisters(Ok(None)), NOW).ok().unwrap();
    let r = new_user_apply(&mut state, &user, d, NewUserEvent::CreateUserCanisterIcpTransfer(Err((2, "down".to_string()))), NOW);
    assert!(matches!(r, Err(NewUserError::MidCallError(NewUserMidCallError::CreateUserCanisterIcpTransferCallError((2, _))))));
    match new_user_begin(&mut state, &user, &q) {
        NewUserBegin::Resume(mut d2) => {
            assert!(d2.lock);
            assert!(d2.look_if_user_is_in_the_users_map_canisters);
            assert!(d2.create_user_canister_block_height.is_none());
            assert!(matches!(new_user_next_step(&state, &user, &mut d2, &cts, NOW), NewUserStep::CreateUserCanisterIcpTransfer { .. }));
        },
        _ => panic!("the call goes on where it stopped"),
    }
    assert!(matches!(new_user_begin(&mut state, &user, &q), NewUserBegin::Refuse(NewUserError::NewUserIsInTheMiddleOfAnotherNewUserCall)));
}

#[test]
fn new_user_refusals() {
    let (mut state, controller, _cts) = state_with_code();
    let user = p(&[1, 2, 3]);
    assert!(matches!(
        new_user_begin(&mut state, &user, &NewUserQuest { opt_referral_user_id: Some(p(&[1, 2, 3])) }),
        NewUserBegin::Refuse(NewUserError::ReferralUserCannotBeTheCaller)
    ));
    let q = NewUserQuest { opt_referral_user_id: None };
    match new_user_register(&mut state, &user, NewUserQuest { opt_referral_user_id: None }, Ok(IcpTokens::from_e8s(200_019_999)), Ok(RATE), NOW) {
        Err(NewUserError::UserIcpLedgerBalanceTooLow { cts_user_contract_cost_icp, user_icp_ledger_balance, icp_ledger_transfer_fee }) => {
            assert_eq!(cts_user_contract_cost_icp, IcpTokens::from_e8s(200_000_000));
            assert_eq!(user_icp_ledger_balance, IcpTokens::from_e8s(200_019_999));
            assert_eq!(icp_ledger_transfer_fee, IcpTokens::from_e8s(10_000));
        },
        _ => panic!("the balance is too low"),
    }
    assert!(matches!(
        new_user_register(&mut state, &user, NewUserQuest { opt_referral_user_id: None }, Err((1, "x".to_string())), Ok(RATE), NOW),
        Err(NewUserError::CheckIcpBalanceCallError((1, _)))
    ));
    assert!(!user_is_in_the_new_users_map(&state, &user));
    let d = register(&mut state, &user, NewUserQuest { opt_referral_user_id: None });
    let r = new_user_apply(&mut state, &user, d, NewUserEvent::FindUserInTheUsersMapCanisters(Ok(Some(p(&[4, 4])))), NOW);
    match r {
        Err(NewUserError::FoundUserCanister(uc)) => assert_eq!(uc, p(&[4, 4])),
        _ => panic!("a user with a user-canister is no new user"),
    }
    assert!(!user_is_in_the_new_users_map(&state, &user));
    let d = register(&mut state, &user, NewUserQuest { opt_referral_user_id: None });
    let r = new_user_apply(
        &mut state, &user, d,
        NewUserEvent::FindUserInTheUsersMapCanisters(Err(FindUserInTheUsersMapCanistersError::UsersMapCanistersFindUserCallFails(vec![]))), NOW,
    );
    assert!(matches!(r, Err(NewUserError::MidCallError(NewUserMidCallError::UsersMapCanistersFindUserCallFails(_)))));
    assert!(matches!(
        new_user_begin(&mut state, &user, &NewUserQuest { opt_referral_user_id: Some(p(&[7])) }),
        NewUserBegin::Refuse(NewUserError::CallWithTheAlreadySetParameters(_))
    ));
    assert!(matches!(new_user_begin(&mut state, &user, &q), NewUserBegin::Resume(_)));
    let _ = controller;
    let mut stopping = CtsState::new();
    stopping.stop_calls = true;
    assert!(matches!(new_user_begin(&mut stopping, &user, &q), NewUserBegin::Trap(CtsTrap::Maintenance)));
}

#[test]
fn a_canister_without_the_code_goes_back_to_the_install() {
    let (mut state, _controller, cts) = state_with_code();
    let user = p(&[1, 2, 3]);
    let mut d = register(&mut state, &user, NewUserQuest { opt_referral_user_id: None });
    d = new_user_apply(&mut state, &user, d, NewUserEvent::FindUserInTheUsersMapCanisters(Ok(None)), NOW).ok().unwrap();
    d = new_user_apply(&mut state, &user, d, NewUserEvent::CreateUserCanisterIcpTransfer(Ok(Ok(7))), NOW).ok().unwrap();
    d = new_user_apply(&mut state, &user, d, NewUserEvent::CmcNotifyCreateCanister(Ok(Ok(p(&[4, 4])))), NOW).ok().unwrap();
    d = new_user_apply(&mut state, &user, d, NewUserEvent::InstallCode(Ok(())), NOW).ok().unwrap();
    d = new_user_apply(
        &mut state, &user, d,
        NewUserEvent::CanisterStatus(Ok(status([1u8; 32], ManagementCanisterCanisterStatusVariant::running))), NOW,
    ).ok().unwrap();
    match new_user_next_step(&state, &user, &mut d, &cts, NOW) {
        NewUserStep::Stop(NewUserMidCallError::UserCanisterModuleVerificationError) => {},
        _ => panic!("the module is not the user-canister code"),
    }
    assert!(!d.user_canister_uninstall_code);
    assert!(!d.user_canister_install_code);
    assert!(d.user_canister_status_record.is_none());
    let e = new_user_pause(&mut state, &user, d, NewUserMidCallError::UserCanisterModuleVerificationError);
    assert!(matches!(e, NewUserError::MidCallError(NewUserMidCallError::UserCanisterModuleVerificationError)));
    match new_user_begin(&mut state, &user, &NewUserQuest { opt_referral_user_id: None }) {
        NewUserBegin::Resume(mut d2) => {
            assert!(matches!(new_user_next_step(&state, &user, &mut d2, &cts, NOW), NewUserStep::UninstallCode { .. }));
        },
        _ => panic!("the call goes on"),
    }
}

#[test]
fn refunded_creation_takes_the_user_out() {
    let (mut state, _controller, _cts) = state_with_code();
    let user = p(&[1, 2, 3]);
    let mut d = register(&mut state, &user, NewUserQuest { opt_referral_user_id: None });
    d = new_user_apply(&mut state, &user, d, NewUserEvent::FindUserInTheUsersMapCanisters(Ok(None)), NOW).ok().unwrap();
    d = new_user_apply(&mut state, &user, d, NewUserEvent::CreateUserCanisterIcpTransfer(Ok(Ok(7))), NOW).ok().unwrap();
    let r = new_user_apply(
        &mut state, &user, d,
        NewUserEvent::CmcNotifyCreateCanister(Ok(Err(cts_lib::cts_canister::data::CmcNotifyError::TransactionTooOld(3)))), NOW,
    );
    assert!(matches!(r, Err(NewUserError::CreateUserCanisterCmcNotifyError(_))));
    assert!(!user_is_in_the_new_users_map(&state, &user));
}

#[test]
fn every_failed_step_stops_the_call_with_its_error() {
    let e = || (3u32, "x".to_string());
    let events: Vec<NewUserEvent> = vec![
        NewUserEvent::FindReferralUserCanister(Err(FindUserInTheUsersMapCanistersError::UsersMapCanistersFindUserCallFails(vec![(p(&[6]), e())]))),
        NewUserEvent::CreateUserCanisterIcpTransfer(Ok(Err(IcpTransferError::TxCreatedInFuture))),
        NewUserEvent::CmcNotifyCreateCanister(Ok(Err(CmcNotifyError::Processing))),
        NewUserEvent::CmcNotifyCreateCanister(Err(e())),
        NewUserEvent::UninstallCode(Err(e())),
        NewUserEvent::InstallCode(Err(e())),
        NewUserEvent::CanisterStatus(Err(e())),
        NewUserEvent::StartCanister(Err(e())),
        NewUserEvent::PutNewUserIntoAUsersMapCanister(Err(PutNewUserIntoAUsersMapCanisterError::CreateNewUsersMapCanisterLockIsOn)),
        NewUserEvent::UpdateSettings(
            ManagementCanisterCanisterSettings { controllers: vec![], compute_allocation: 0, memory_allocation: 0, freezing_threshold: 0 },
            Err(e()),
        ),
        NewUserEvent::CollectCyclesCmcIcpTransfer(Err(LedgerTopupCyclesCmcIcpTransferError::IcpTransferCallError(e()))),
        NewUserEvent::CollectCyclesCmcNotify(Err(LedgerTopupCyclesCmcNotifyError::CmcNotifyCallError(e()))),
        NewUserEvent::ReferralUserReferralPayment(Err(e())),
        NewUserEvent::UserReferralPayment(Err(e())),
        NewUserEvent::CollectIcp(Ok(Err(IcpTransferError::InsufficientFunds { balance: IcpTokens::from_e8s(1) }))),
        NewUserEvent::CollectIcp(Err(e())),
    ];
    let n = events.len();
    let mut stopped = 0;
    for event in events {
        let (mut state, _controller, _cts) = state_with_code();
        let user = p(&[1, 2, 3]);
        let d = register(&mut state, &user, NewUserQuest { opt_referral_user_id: None });
        let r = new_user_apply(&mut state, &user, d, event, NOW);
        match r {
            Err(NewUserError::MidCallError(m)) => {
                stopped += 1;
                let expected = match m {
                    NewUserMidCallError::UsersMapCanistersFindUserCallFails(v) => v.len() == 1,
                    NewUserMidCallError::CreateUserCanisterIcpTransferError(IcpTransferError::TxCreatedInFuture) => true,
                    NewUserMidCallError::CreateUserCanisterCmcNotifyError(CmcNotifyError::Processing) => true,
                    NewUserMidCallError::CreateUserCanisterCmcNotifyCallError(c)
                    | NewUserMidCallError::UserCanisterUninstallCodeCallError(c)
                    | NewUserMidCallError::UserCanisterInstallCodeCallError(c)
                    | NewUserMidCallError::UserCanisterStatusCallError(c)
                    | NewUserMidCallError::UserCanisterStartCanisterCallError(c)
                    | NewUserMidCallError::UserCanisterUpdateSettingsCallError(c)
                    | NewUserMidCallError::ReferralUserReferralPaymentCyclesTransferCallError(c)
                    | NewUserMidCallError::UserReferralPaymentCyclesTransferCallError(c)
                    | NewUserMidCallError::CollectIcpTransferCallError(c) => c == e(),
                    NewUserMidCallError::PutNewUserIntoAUsersMapCanisterError(PutNewUserIntoAUsersMapCanisterError::CreateNewUsersMapCanisterLockIsOn) => true,
                    NewUserMidCallError::CollectCyclesLedgerTopupCyclesCmcIcpTransferError(_) => true,
                    NewUserMidCallError::CollectCyclesLedgerTopupCyclesCmcNotifyError(_) => true,
                    NewUserMidCallError::CollectIcpTransferError(IcpTransferError::InsufficientFunds { balance }) => balance == IcpTokens::from_e8s(1),
                    _ => false,
                };
                assert!(expected);
            },
            _ => panic!("a failed step stops the call in the middle"),
        }
        assert!(user_is_in_the_new_users_map(&state, &user));
        assert!(matches!(new_user_begin(&mut state, &user, &NewUserQuest { opt_referral_user_id: None }), NewUserBegin::Resume(_)));
    }
    assert_eq!(stopped, n);
}

#[test]
fn a_referral_that_is_no_user_takes_the_new_user_out() {
    let (mut state, _controller, _cts) = state_with_code();
    let user = p(&[1, 2, 3]);
    let d = register(&mut state, &user, NewUserQuest { opt_referral_user_id: Some(p(&[8])) });
    let r = new_user_apply(&mut state, &user, d, NewUserEvent::FindReferralUserCanister(Ok(None)), NOW);
    assert!(matches!(r, Err(NewUserError::ReferralUserNotFound)));
    assert!(!user_is_in_the_new_users_map(&state, &user));
    let r = new_user_register(
        &mut state, &user, NewUserQuest { opt_referral_user_id: None }, Ok(IcpTokens::from_e8s(1_000_000_000)),
        Err(cts_lib::cts_canister::data::CheckCurrentXdrPerMyriadPerIcpCmcRateError::CmcGetRateCallError((2, "x".to_string()))), NOW,
    );
    assert!(matches!(r, Err(NewUserError::CheckCurrentXdrPerMyriadPerIcpCmcRateError(_))));
}

#[test]
fn no_more_new_users_than_the_most() {
    let mut state = CtsState::new();
    for i in 0..5000u32 {
        let user = p(&[(i >> 8) as u8, (i & 255) as u8, 1]);
        let r = new_user_register(&mut state, &user, NewUserQuest { opt_referral_user_id: None }, Ok(IcpTokens::from_e8s(1_000_000_000)), Ok(RATE), NOW);
        assert!(r.is_ok());
    }
    let r = new_user_register(&mut state, &p(&[7, 7, 7, 7]), NewUserQuest { opt_referral_user_id: None }, Ok(IcpTokens::from_e8s(1_000_000_000)), Ok(RATE), NOW);
    assert!(matches!(r, Err(NewUserError::MaxNewUsers)));
    let r = new_user_register(&mut state, &p(&[0, 3, 1]), NewUserQuest { opt_referral_user_id: None }, Ok(IcpTokens::from_e8s(1_000_000_000)), Ok(RATE), NOW);
    assert!(matches!(r, Err(NewUserError::NewUserIsInTheMiddleOfAnotherNewUserCall)));
}
