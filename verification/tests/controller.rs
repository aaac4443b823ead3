use sha2::Digest;
use cts_lib::principal::Principal;
use cts_lib::types::canister_code::CanisterCode;
use cts_lib::types::CyclesTransferMemo;
use cts_lib::types::CyclesTransfer;
use cts_lib::cts_canister::controller::{
    init, controller_put_user_canister_code, controller_put_umc_code, controller_put_canisters_for_the_use,
    controller_set_stop_calls_flag, controller_see_stop_calls_flag, controller_put_cycles_transferrer_canisters, CtsTrap,
};
use cts_lib::cts_canister::data::{CtsState, ControllerUpgradeUMCCallErrorType, ControllerCreateNewCyclesTransferrerCanisterError, File};
use cts_lib::cts_canister::calls::{cycles_transfer, CyclesTransferAction, CyclesTransferRejection, find_user_canister, record_found_user_canister, FindUserCanisterStart};
use cts_lib::cts_canister::controller_calls::{
    canister_inspect_message, controller_upgrade_umcs, controller_upgrade_umcs_errors, controller_put_uc_code_errors,
    controller_see_canisters_for_the_use, upgrade_canister_next_step, upgrade_until_a_failure_next_step, controller_upgrade_ctc_result,
    new_cycles_transferrer_canister, new_cycles_transferrer_canister_installed, complete_users_burn_icp_mint_cycles,
    UpgradeOutcome, UpgradeCanisterStep, controller_upgrade_umc_next_call, UpgradeCall, controller_put_uc_code_onto_the_umcs,
    new_cycles_transferrer_canister_install_code_quest, controller_upgrade_ctc_next_call,
};
use cts_lib::types::management_canister::ManagementCanisterInstallCodeMode;
use cts_lib::cts_canister::frontcode::{controller_upload_frontcode_file_chunks, http_request, controller_get_file_hashes};
use cts_lib::cts_canister::upgrade::{
    pre_upgrade, post_upgrade, upgrade_data_len_be_bytes, upgrade_data_len_from_be_bytes, controller_create_state_snapshot,
    controller_download_state_snapshot, controller_clear_state_snapshot, controller_append_state_snapshot_candid_bytes,
    prepare_cts_data_for_the_candid_bytes, re_store_cts_data, state_snapshot_created,
};
use cts_lib::cts_canister::data::CTSData;
use cts_lib::types::users_map_canister::UMCUserData;

fn p(b: &[u8]) -> Principal {
    Principal::from_slice(b)
}

fn state() -> (CtsState, Principal) {
    let mut state = CtsState::new();
    init(&mut state, vec![p(&[9, 9])], p(&[5, 5]));
    (state, p(&[9, 9]))
}

#[test]
fn only_controllers_change_the_cts() {
    let (mut state, controller) = state();
    let stranger = p(&[1]);
    assert!(matches!(controller_set_stop_calls_flag(&mut state, &stranger, true), Err(CtsTrap::CallerIsNotAController)));
    assert!(!state.stop_calls);
    assert!(controller_set_stop_calls_flag(&mut state, &controller, true).is_ok());
    assert!(matches!(controller_see_stop_calls_flag(&state, &controller), Ok(true)));
    let mut code = CanisterCode::new(vec![1, 2, 3]);
    code.change_module(vec![1, 2, 3, 4]);
    assert!(controller_put_user_canister_code(&mut state, &controller, code).is_ok());
    let wrong = CanisterCode::from_module_and_hash(vec![1, 2, 3], [0u8; 32]);
    assert!(matches!(controller_put_user_canister_code(&mut state, &controller, wrong), Err(CtsTrap::ModuleHashIsNotTheHashOfTheModule)));
}

#[test]
fn inspect_message_rules() {
    let (state, controller) = state();
    let anonymous = Principal::anonymous();
    let user = p(&[1, 2]);
    assert!(matches!(canister_inspect_message(&state, &anonymous, b"new_user"), Err(CtsTrap::CallerCannotBeAnonymous)));
    assert!(canister_inspect_message(&state, &anonymous, b"see_fees").is_ok());
    assert!(matches!(canister_inspect_message(&state, &user, b"cycles_transfer"), Err(CtsTrap::CallerMustBeACanister)));
    assert!(matches!(canister_inspect_message(&state, &user, b"controller_set_stop_calls_flag"), Err(CtsTrap::CallerIsNotAController)));
    assert!(canister_inspect_message(&state, &controller, b"controller_set_stop_calls_flag").is_ok());
    assert!(canister_inspect_message(&state, &user, b"new_user").is_ok());
    assert!(canister_inspect_message(&state, &user, b"control").is_ok());
}

#[test]
fn cycles_transfer_takes_donations_only() {
    let (mut state, controller) = state();
    let donation = CyclesTransfer { memo: CyclesTransferMemo::Blob(b"DONATION".to_vec()) };
    assert!(matches!(cycles_transfer(&state, 10, 5_000_000_000, Some(donation)), CyclesTransferAction::Accept(5_000_000_000)));
    let other = CyclesTransfer { memo: CyclesTransferMemo::Blob(b"OTHER".to_vec()) };
    assert!(matches!(cycles_transfer(&state, 10, 5_000_000_000, Some(other)), CyclesTransferAction::Reject(CyclesTransferRejection::UnknownCyclesTransferMemo)));
    let donation = CyclesTransfer { memo: CyclesTransferMemo::Blob(b"DONATION".to_vec()) };
    assert!(matches!(cycles_transfer(&state, 10, 4_999_999_999, Some(donation)), CyclesTransferAction::Reject(CyclesTransferRejection::MinimumCycles(5_000_000_000))));
    assert!(matches!(cycles_transfer(&state, 101, 5_000_000_000, None), CyclesTransferAction::Reject(CyclesTransferRejection::ArgDataTooLarge)));
    assert!(matches!(cycles_transfer(&state, 10, 5_000_000_000, None), CyclesTransferAction::Trap(CtsTrap::CyclesTransferArgCannotBeRead)));
    assert!(controller_set_stop_calls_flag(&mut state, &controller, true).is_ok());
    assert!(matches!(cycles_transfer(&state, 10, 5_000_000_000, None), CyclesTransferAction::Trap(CtsTrap::Maintenance)));
}

#[test]
fn upgrade_targets_must_be_users_map_canisters() {
    let (mut state, controller) = state();
    assert!(matches!(controller_upgrade_umcs(&state, &controller, None), Err(CtsTrap::CanisterCodeIsEmpty)));
    assert!(controller_put_umc_code(&mut state, &controller, CanisterCode::new(vec![7])).is_ok());
    state.cts_data.users_map_canisters.push(p(&[6, 1]));
    state.cts_data.users_map_canisters.push(p(&[6, 2]));
    match controller_upgrade_umcs(&state, &controller, Some(vec![p(&[6, 2]), p(&[6, 3]), p(&[6, 4])])) {
        Err(CtsTrap::NotAUsersMapCanister(x)) => assert_eq!(x, p(&[6, 3])),
        _ => panic!("a canister that is no users-map canister is refused"),
    }
    match controller_upgrade_umcs(&state, &controller, None) {
        Ok(v) => assert_eq!(v, vec![p(&[6, 1]), p(&[6, 2])]),
        Err(_) => panic!("all users-map canisters are upgraded"),
    }
    assert!(matches!(controller_upgrade_umcs(&state, &p(&[1]), None), Err(CtsTrap::CallerIsNotAController)));
}

#[test]
fn upgrade_steps_and_failures() {
    let mut o = UpgradeOutcome::default();
    assert!(upgrade_canister_next_step(&o) == UpgradeCanisterStep::StopCanister);
    o.stop_canister_result = Some(Ok(()));
    assert!(upgrade_canister_next_step(&o) == UpgradeCanisterStep::InstallCode);
    o.install_code_result = Some(Err((5, "bad".to_string())));
    assert!(upgrade_canister_next_step(&o) == UpgradeCanisterStep::StartCanister);
    assert!(upgrade_until_a_failure_next_step(&o) == UpgradeCanisterStep::Done);
    let failed_stop = UpgradeOutcome { stop_canister_result: Some(Err((2, "s".to_string()))), install_code_result: None, start_canister_result: None };
    assert!(upgrade_canister_next_step(&failed_stop) == UpgradeCanisterStep::Done);
    let fine = UpgradeOutcome { stop_canister_result: Some(Ok(())), install_code_result: Some(Ok(())), start_canister_result: Some(Ok(())) };
    let errors = controller_upgrade_umcs_errors(vec![(p(&[1]), failed_stop), (p(&[2]), fine), (p(&[3]), o)]);
    assert_eq!(errors.len(), 2);
    assert_eq!(errors[0].0, p(&[1]));
    assert!(matches!(errors[0].1, ControllerUpgradeUMCCallErrorType::StopCanisterCallError));
    assert_eq!(errors[0].2, (2, "s".to_string()));
    assert_eq!(errors[1].0, p(&[3]));
    assert!(matches!(errors[1].1, ControllerUpgradeUMCCallErrorType::UpgradeCodeCallError));
    let put = controller_put_uc_code_errors(vec![(p(&[1]), Ok(())), (p(&[2]), Err((3, "x".to_string())))]);
    assert_eq!(put, vec![(p(&[2]), (3, "x".to_string()))]);
    let start_failed = UpgradeOutcome { stop_canister_result: Some(Ok(())), install_code_result: Some(Ok(())), start_canister_result: Some(Err((1, "t".to_string()))) };
    assert!(matches!(controller_upgrade_ctc_result(p(&[8]), start_failed), Err((_, cts_lib::cts_canister::data::ControllerUpgradeCTCCallErrorType::StartCanisterCallError, _))));
}

#[test]
fn a_new_cycles_transferrer_canister_without_code_is_kept_for_later() {
    let (mut state, controller) = state();
    let cts = p(&[0, 0, 0, 0, 0, 0, 0, 7, 1, 1]);
    assert!(matches!(
        new_cycles_transferrer_canister(&mut state, &cts, Ok(p(&[3, 3]))),
        Err(ControllerCreateNewCyclesTransferrerCanisterError::CyclesTransferrerCanisterCodeNotFound)
    ));
    match controller_see_canisters_for_the_use(&state, &controller) {
        Ok(v) => assert_eq!(v, vec![p(&[3, 3])]),
        Err(_) => panic!("a controller sees them"),
    }
    assert!(controller_put_canisters_for_the_use(&mut state, &controller, vec![p(&[3, 3]), p(&[3, 4])]).is_ok());
    assert_eq!(state.cts_data.canisters_for_the_use.len(), 2);
    state.cts_data.cycles_transferrer_canister_code = CanisterCode::new(vec![1]);
    match new_cycles_transferrer_canister(&mut state, &cts, Ok(p(&[3, 5]))) {
        Ok((c, init)) => {
            assert_eq!(c, p(&[3, 5]));
            assert_eq!(init.cts_id, cts);
            assert!(matches!(new_cycles_transferrer_canister_installed(&mut state, c, Ok(())), Ok(_)));
        },
        Err(_) => panic!("the code is installed on it"),
    }
    assert_eq!(state.cts_data.cycles_transferrer_canisters, vec![p(&[3, 5])]);
    assert!(matches!(controller_put_cycles_transferrer_canisters(&mut state, &controller, vec![p(&[3, 5])]), Err(CtsTrap::AlreadyInTheCyclesTransferrerCanisters(_))));
}

#[test]
fn completing_burns_needs_them_to_exist() {
    let (state, controller) = state();
    assert!(matches!(complete_users_burn_icp_mint_cycles(&state, &controller, Some(vec![p(&[1])])), Err(CtsTrap::NotAUserThatBurnsIcp(_))));
    match complete_users_burn_icp_mint_cycles(&state, &controller, None) {
        Ok(v) => assert_eq!(v.len(), 0),
        Err(_) => panic!("a controller may complete them"),
    }
}

#[test]
fn user_canister_cache_answers_after_a_search() {
    let (mut state, _controller) = state();
    let user = p(&[1, 2]);
    assert!(matches!(find_user_canister(&mut state, &user, 1), FindUserCanisterStart::AskTheUsersMapCanisters));
    let found = record_found_user_canister(
        &mut state, &user,
        Ok(Some((UMCUserData { user_canister_id: p(&[4, 4]), user_canister_latest_known_module_hash: [0u8; 32] }, p(&[6])))), 2,
    );
    assert!(matches!(found, Ok(Some(_))));
    match find_user_canister(&mut state, &user, 3) {
        FindUserCanisterStart::Found(Some(uc)) => assert_eq!(uc, p(&[4, 4])),
        _ => panic!("the cache knows the user now"),
    }
}

#[test]
fn front_end_files_are_served() {
    let (mut state, controller) = state();
    let file = File { content_type: "text/html".to_string(), content_encoding: "gzip".to_string(), content: vec![1, 2, 3] };
    assert!(controller_upload_frontcode_file_chunks(&mut state, &controller, "/index.html".to_string(), file).is_ok());
    let cert = ("IC-Certificate".to_string(), "c".to_string());
    match http_request(&state, &"/index.html".to_string(), cert.clone()) {
        Ok(resp) => {
            assert_eq!(resp.status_code, 200);
            assert_eq!(resp.body, vec![1, 2, 3]);
            assert_eq!(resp.headers[0], cert);
        },
        Err(_) => panic!("the file is served"),
    }
    match http_request(&state, &"/missing".to_string(), cert) {
        Ok(resp) => {
            assert_eq!(resp.status_code, 404);
            assert_eq!(resp.body.len(), 0);
        },
        Err(_) => panic!("a missing file is a 404"),
    }
    match controller_get_file_hashes(&state, &controller) {
        Ok(h) => assert_eq!(h.len(), 1),
        Err(_) => panic!("a controller sees the hashes"),
    }
}

#[test]
fn post_upgrade_reads_what_pre_upgrade_wrote() {
    let w = pre_upgrade(0, 100);
    assert_eq!(w.grow_pages, Some(1));
    assert_eq!(w.len_offset, 1024);
    assert_eq!(w.data_offset, 1032);
    assert_eq!(w.len_be_bytes, [0, 0, 0, 0, 0, 0, 0, 100]);
    assert_eq!(post_upgrade(w.len_be_bytes), (1032, 100));
    assert_eq!(pre_upgrade(1, 100).grow_pages, None);
    assert_eq!(upgrade_data_len_from_be_bytes(upgrade_data_len_be_bytes(0x0102030405060708)), 0x0102030405060708);
    assert_eq!(upgrade_data_len_be_bytes(0x0102030405060708), [1, 2, 3, 4, 5, 6, 7, 8]);
}

#[test]
fn a_downloaded_snapshot_appended_back_is_the_snapshot() {
    let (mut state, controller) = state();
    let bytes: Vec<u8> = (0..(2 * 1_048_576 + 5)).map(|i: usize| (i % 251) as u8).collect();
    assert!(controller_create_state_snapshot(&mut state, &controller).is_ok());
    assert_eq!(state_snapshot_created(&mut state, bytes.clone()), 2_097_157);
    let mut chunks: Vec<Vec<u8>> = Vec::new();
    let mut i: u64 = 0;
    loop {
        match controller_download_state_snapshot(&state, &controller, i) {
            Ok(Some(c)) => chunks.push(c),
            Ok(None) => break,
            Err(_) => panic!("a controller downloads the snapshot"),
        }
        i += 1;
    }
    assert_eq!(chunks.len(), 3);
    assert_eq!(chunks[2].len(), 5);
    assert!(controller_clear_state_snapshot(&mut state, &controller).is_ok());
    assert_eq!(state.state_snapshot_cts_data_candid_bytes.len(), 0);
    for c in chunks {
        assert!(controller_append_state_snapshot_candid_bytes(&mut state, &controller, c).is_ok());
    }
    assert_eq!(state.state_snapshot_cts_data_candid_bytes, bytes);
}

#[test]
fn an_upgrade_keeps_the_front_end_hashes() {
    let (mut state, controller) = state();
    let file = File { content_type: "text/html".to_string(), content_encoding: "identity".to_string(), content: vec![5] };
    assert!(controller_upload_frontcode_file_chunks(&mut state, &controller, "/b".to_string(), file).is_ok());
    let file = File { content_type: "text/html".to_string(), content_encoding: "identity".to_string(), content: vec![6] };
    assert!(controller_upload_frontcode_file_chunks(&mut state, &controller, "/a".to_string(), file).is_ok());
    let before = controller_get_file_hashes(&state, &controller).ok().unwrap();
    assert_eq!(before[0].0, "/a");
    prepare_cts_data_for_the_candid_bytes(&mut state);
    let data = std::mem::replace(&mut state.cts_data, CTSData::new());
    let mut after_upgrade = CtsState::new();
    re_store_cts_data(&mut after_upgrade, data);
    assert_eq!(controller_get_file_hashes(&after_upgrade, &controller).ok().unwrap(), before);
    assert_eq!(after_upgrade.cts_data.frontcode_files_hashes.len(), 0);
    assert_eq!(after_upgrade.cts_data.controllers, vec![p(&[9, 9])]);
}

#[test]
fn a_snapshot_holds_the_served_front_end_hashes() {
    let (mut state, controller) = state();
    let file = File { content_type: "text/html".to_string(), content_encoding: "identity".to_string(), content: vec![5] };
    assert!(controller_upload_frontcode_file_chunks(&mut state, &controller, "/b".to_string(), file).is_ok());
    let served = controller_get_file_hashes(&state, &controller).ok().unwrap();
    assert_eq!(state.cts_data.frontcode_files_hashes.len(), 0);
    assert!(matches!(controller_create_state_snapshot(&mut state, &p(&[1])), Err(CtsTrap::CallerIsNotAController)));
    assert_eq!(state.cts_data.frontcode_files_hashes.len(), 0);
    assert!(controller_create_state_snapshot(&mut state, &controller).is_ok());
    assert_eq!(state.cts_data.frontcode_files_hashes, served);
    let data = std::mem::replace(&mut state.cts_data, CTSData::new());
    let mut restored = CtsState::new();
    re_store_cts_data(&mut restored, data);
    assert_eq!(controller_get_file_hashes(&restored, &controller).ok().unwrap(), served);
}

#[test]
fn an_upgrade_installs_the_users_map_canister_code() {
    let (mut state, controller) = state();
    assert!(controller_put_umc_code(&mut state, &controller, CanisterCode::new(vec![7, 8])).is_ok());
    let umc = p(&[6, 1]);
    let arg: Vec<u8> = vec![4];
    let mut o = UpgradeOutcome::default();
    match controller_upgrade_umc_next_call(&state, &umc, &arg, &o) {
        UpgradeCall::StopCanister(c) => assert_eq!(c.canister_id, umc),
        _ => panic!("the canister is stopped first"),
    }
    o.stop_canister_result = Some(Ok(()));
    match controller_upgrade_umc_next_call(&state, &umc, &arg, &o) {
        UpgradeCall::InstallCode(q) => {
            assert!(matches!(q.mode, ManagementCanisterInstallCodeMode::upgrade));
            assert_eq!(q.canister_id, umc);
            assert_eq!(q.wasm_module, &[7u8, 8][..]);
            assert_eq!(q.arg, &[4u8][..]);
        },
        _ => panic!("the code is installed after the stop"),
    }
    o.install_code_result = Some(Err((5, "bad".to_string())));
    assert!(matches!(controller_upgrade_umc_next_call(&state, &umc, &arg, &o), UpgradeCall::Done));
    state.cts_data.users_map_canisters.push(umc);
    assert!(matches!(controller_put_uc_code_onto_the_umcs(&state, &controller, None), Err(CtsTrap::CanisterCodeIsEmpty)));
    assert!(controller_put_user_canister_code(&mut state, &controller, CanisterCode::new(vec![3])).is_ok());
    match controller_put_uc_code_onto_the_umcs(&state, &controller, None) {
        Ok((umcs, code)) => {
            assert_eq!(umcs, vec![p(&[6, 1])]);
            assert_eq!(code.module(), &vec![3u8]);
        },
        Err(_) => panic!("the user-canister code is put onto the users-map canisters"),
    }
}

#[test]
fn controllers_see_the_new_users() {
    let (mut state, controller) = state();
    assert!(matches!(cts_lib::cts_canister::controller_calls::controller_see_new_users(&state, &p(&[1])), Err(CtsTrap::CallerIsNotAController)));
    let user = p(&[1, 2, 3]);
    let q = cts_lib::cts_canister::data::NewUserQuest { opt_referral_user_id: None };
    assert!(matches!(cts_lib::cts_canister::new_user::new_user_begin(&mut state, &user, &q), cts_lib::cts_canister::new_user::NewUserBegin::CheckBalanceAndRate));
    let _ = cts_lib::cts_canister::new_user::new_user_register(
        &mut state, &user, q, Ok(cts_lib::ledger::IcpTokens::from_e8s(1_000_000_000)), Ok(50_000), 7,
    );
    match cts_lib::cts_canister::controller_calls::controller_see_new_users(&state, &controller) {
        Ok(v) => {
            assert_eq!(v.len(), 1);
            assert_eq!(v[0].0, user);
            assert_eq!(v[0].1.start_time_nanos, 7);
            assert!(v[0].1.lock);
        },
        Err(_) => panic!("a controller sees the new users"),
    }
}

#[test]
fn read_data_keeps_the_last_value_of_a_key() {
    let mut d = CTSData::new();
    d.frontcode_files_hashes = vec![("/a".to_string(), [1; 32]), ("/b".to_string(), [2; 32]), ("/a".to_string(), [3; 32])];
    d.canisters_for_the_use = vec![p(&[1]), p(&[2]), p(&[1])];
    d.controllers = vec![p(&[9])];
    let r = CTSData::from_read(d);
    assert_eq!(r.frontcode_files_hashes, vec![("/a".to_string(), [3; 32]), ("/b".to_string(), [2; 32])]);
    assert_eq!(r.canisters_for_the_use, vec![p(&[1]), p(&[2])]);
    assert_eq!(r.controllers, vec![p(&[9])]);
}

#[test]
fn cycles_transferrer_canisters_get_their_code() {
    let (mut state, controller) = state();
    assert!(cts_lib::cts_canister::controller::controller_put_ctc_code(&mut state, &controller, CanisterCode::new(vec![1, 2, 3])).is_ok());
    let c = p(&[5, 5, 5]);
    let arg: Vec<u8> = vec![0];
    let q = new_cycles_transferrer_canister_install_code_quest(&state, &c, &arg);
    assert!(matches!(q.mode, ManagementCanisterInstallCodeMode::install));
    assert_eq!(q.canister_id, c);
    assert_eq!(q.wasm_module, &[1u8, 2, 3][..]);
    let o = UpgradeOutcome { stop_canister_result: Some(Ok(())), install_code_result: None, start_canister_result: None };
    match controller_upgrade_ctc_next_call(&state, &c, &arg, &o) {
        UpgradeCall::InstallCode(q) => {
            assert!(matches!(q.mode, ManagementCanisterInstallCodeMode::upgrade));
            assert_eq!(q.wasm_module, &[1u8, 2, 3][..]);
            assert_eq!(q.arg, &[0u8][..]);
        },
        _ => panic!("the code is installed after the stop"),
    }
}

#[test]
fn an_uploaded_file_keeps_its_hash_until_the_files_are_cleared() {
    let (mut state, controller) = state();
    let file = |b: u8| File { content_type: "text/html".to_string(), content_encoding: "identity".to_string(), content: vec![b, b] };
    assert!(controller_upload_frontcode_file_chunks(&mut state, &controller, "/a".to_string(), file(1)).is_ok());
    assert!(controller_upload_frontcode_file_chunks(&mut state, &controller, "/b".to_string(), file(2)).is_ok());
    assert!(controller_upload_frontcode_file_chunks(&mut state, &controller, "/c".to_string(), file(3)).is_ok());
    let hashes = controller_get_file_hashes(&state, &controller).ok().unwrap();
    let at_a: Vec<&(String, [u8; 32])> = hashes.iter().filter(|(p, _)| p == "/a").collect();
    assert_eq!(at_a.len(), 1);
    let expected: [u8; 32] = sha2::Sha256::digest([1u8, 1]).into();
    assert_eq!(at_a[0].1, expected);
    assert!(cts_lib::cts_canister::frontcode::controller_clear_frontcode_files(&mut state, &controller).is_ok());
    assert_eq!(controller_get_file_hashes(&state, &controller).ok().unwrap().len(), 0);
}
