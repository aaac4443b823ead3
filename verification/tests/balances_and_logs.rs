use cts_lib::ledger::IcpTokens;
use cts_lib::principal::Principal;
use cts_lib::tools::RejectionCode;
use cts_lib::types::canister_code::CanisterCode;
use cts_lib::user_balances::{
    UserData, IcpPayoutError, CyclesPayoutError, CyclesSponse, ConvertIcpBalanceForTheCyclesWithTheCmcRateError,
    icp_payout_check, icp_payout_amount_check, cycles_payout_check, cycles_payout_settle, convert_icp_balance_settle,
    check_user_cycles_balance, icp_payout_fee_not_taken, canister_inspect_message,
    CollectBalanceQuest, CyclesPayoutQuest, IcpPayoutQuest, CollectBalanceStep, CollectBalanceEvent, CollectBalanceSponse,
    collect_balance_begin, collect_balance_apply, UserIsLocked, ICP_PAYOUT_MEMO, ICP_TAKE_PAYOUT_FEE_MEMO,
    convert_icp_balance_begin, convert_icp_balance_apply, CmcRateSponse, ConvertIcpBalanceStep, ConvertIcpBalanceEvent, NotifyOutcome,
    see_balance_begin, see_balance_apply,
};
use cts_lib::principal::IcpId;
use cts_lib::ledger::ICP_LEDGER_TOP_UP_CANISTER_MEMO;
use cts_lib::flush_logs::{
    LogStorageData, StorageCanisterInit, flush_logs_start, flush_chunk_sizes, flush_chunk_stored, storage_canister_installed,
    flush_logs_storage_canister, FLUSH_STORAGE_BUFFER_AT_SIZE, flush_chunk, flush_chunk_answered, FlushAnswer,
    storage_canister_install_code_quest, storage_canister_installing,
};
use cts_lib::types::management_canister::ManagementCanisterInstallCodeMode;

fn p(b: &[u8]) -> Principal {
    Principal::from_slice(b)
}

#[test]
fn icp_payout_needs_the_fees() {
    assert!(matches!(icp_payout_amount_check(IcpTokens::from_e8s(0)), Err(IcpPayoutError::InvalidIcpAmount)));
    assert!(icp_payout_amount_check(IcpTokens::from_e8s(1)).is_ok());
    match icp_payout_check(IcpTokens::from_e8s(100), IcpTokens::from_e8s(1_020_099)) {
        Err(IcpPayoutError::BalanceTooLow { max_icp_payout }) => assert_eq!(max_icp_payout, IcpTokens::from_e8s(99)),
        _ => panic!("the balance does not pay the fees"),
    }
    assert!(icp_payout_check(IcpTokens::from_e8s(100), IcpTokens::from_e8s(1_020_100)).is_ok());
}

#[test]
fn cycles_payout_settles_the_balance() {
    assert!(matches!(cycles_payout_check(0, 10), Err(CyclesPayoutError::InvalidCyclesAmount)));
    match cycles_payout_check(1_000, 300_000_000_500) {
        Err(CyclesPayoutError::BalanceTooLow { max_cycles_payout }) => assert_eq!(max_cycles_payout, 500),
        _ => panic!("the balance does not pay the fee"),
    }
    let user = p(&[1]);
    let mut users: Vec<(Principal, UserData)> = vec![];
    assert_eq!(check_user_cycles_balance(&users, &user), 0);
    assert!(matches!(convert_icp_balance_settle(&mut users, &user, 1_000_000_000_000, CyclesSponse::ToppedUp(())), Ok(1_000_000_000_000)));
    assert_eq!(check_user_cycles_balance(&users, &user), 1_000_000_000_000);
    assert!(matches!(cycles_payout_settle(&mut users, &user, 100_000_000_000, Ok(40_000_000_000)), Ok(60_000_000_000)));
    assert_eq!(check_user_cycles_balance(&users, &user), 1_000_000_000_000 - 60_000_000_000 - 300_000_000_000);
    let r = cycles_payout_settle(&mut users, &user, 100_000_000_000, Err((RejectionCode::CanisterReject, "no".to_string())));
    assert!(matches!(r, Err(CyclesPayoutError::CyclesTransferCallError { paid_fee: true, .. })));
    assert_eq!(check_user_cycles_balance(&users, &user), 340_000_000_000);
    let r = cycles_payout_settle(&mut users, &user, 1, Err((RejectionCode::SysTransient, "later".to_string())));
    assert!(matches!(r, Err(CyclesPayoutError::CyclesTransferCallError { paid_fee: false, .. })));
    assert_eq!(check_user_cycles_balance(&users, &user), 340_000_000_000);
    let refund = convert_icp_balance_settle(&mut users, &user, 5, CyclesSponse::Refunded("r".to_string(), Some(3)));
    assert!(matches!(refund, Err(ConvertIcpBalanceForTheCyclesWithTheCmcRateError::TopUpCyclesIcpTransferRefund(_, Some(3)))));
    icp_payout_fee_not_taken(&mut users, &user);
    assert_eq!(users[0].1.untaken_icp_to_collect, IcpTokens::from_e8s(1_010_000));
}

fn logs(buffer_len: usize, log_size: u32) -> LogStorageData {
    let mut data = LogStorageData {
        storage_canisters: vec![],
        storage_buffer: vec![0u8; buffer_len],
        storage_flush_lock: false,
        flush_storage_errors: vec![],
        create_storage_canister_temp_holder: None,
        storage_canister_code: CanisterCode::new(vec![]),
        storage_canister_init: StorageCanisterInit { log_size },
    };
    let installing = storage_canister_installing(&data);
    storage_canister_installed(&mut data, p(&[2]), installing, 1);
    data
}

#[test]
fn the_buffer_is_flushed_in_chunks_of_whole_logs() {
    let mut data = logs(FLUSH_STORAGE_BUFFER_AT_SIZE, 100);
    assert!(flush_logs_start(&mut data));
    assert!(!flush_logs_start(&mut data));
    assert_eq!(flush_logs_storage_canister(&data), Some(p(&[2])));
    let sizes = flush_chunk_sizes(&data);
    assert_eq!(sizes, vec![1_572_800, 1_572_800, 1_572_800, 524_480]);
    assert_eq!(sizes.iter().sum::<usize>(), FLUSH_STORAGE_BUFFER_AT_SIZE);
    flush_chunk_stored(&mut data, sizes[0]);
    assert_eq!(data.storage_buffer.len(), FLUSH_STORAGE_BUFFER_AT_SIZE - 1_572_800);
    assert_eq!(data.storage_canisters[0].length, 15_728);
    let installing = storage_canister_installing(&data);
    data.storage_canister_init = StorageCanisterInit { log_size: 7 };
    storage_canister_installed(&mut data, p(&[3]), installing, 2);
    assert_eq!(data.storage_canisters[1].first_log_id, 15_728);
    assert_eq!(data.storage_canisters[1].log_size, 100);
    assert_eq!(data.storage_canisters[1].module_hash, *data.storage_canister_code.module_hash());
    assert_eq!(data.storage_canisters[1].creation_timestamp, 2);
}

#[test]
fn a_flush_sends_the_front_of_the_buffer_and_stops_at_a_full_canister() {
    let mut data = logs(FLUSH_STORAGE_BUFFER_AT_SIZE, 100);
    for i in 0..data.storage_buffer.len() {
        data.storage_buffer[i] = (i % 7) as u8;
    }
    let whole = data.storage_buffer.clone();
    assert!(flush_logs_start(&mut data));
    let sizes = flush_chunk_sizes(&data);
    let first = flush_chunk(&data, sizes[0]);
    assert_eq!(first, whole[..1_572_800].to_vec());
    assert!(flush_chunk_answered(&mut data, sizes[0], FlushAnswer::Stored, 5));
    let second = flush_chunk(&data, sizes[1]);
    assert_eq!(second, whole[1_572_800..3_145_600].to_vec());
    assert!(!flush_chunk_answered(&mut data, sizes[1], FlushAnswer::StorageIsFull, 6));
    assert!(data.storage_canisters[0].is_full);
    assert!(!data.storage_flush_lock);
    assert_eq!(data.storage_buffer, whole[1_572_800..].to_vec());
    assert_eq!(flush_logs_storage_canister(&data), None);
}

#[test]
fn a_failed_flush_call_is_kept_and_frees_the_lock() {
    let mut data = logs(FLUSH_STORAGE_BUFFER_AT_SIZE, 100);
    assert!(flush_logs_start(&mut data));
    let sizes = flush_chunk_sizes(&data);
    assert!(!flush_chunk_answered(&mut data, sizes[0], FlushAnswer::CallError((2, "busy".to_string())), 9));
    assert!(!data.storage_flush_lock);
    assert_eq!(data.storage_buffer.len(), FLUSH_STORAGE_BUFFER_AT_SIZE);
    assert_eq!(data.flush_storage_errors.len(), 1);
    assert_eq!(data.flush_storage_errors[0].1, 9);
}

#[test]
fn a_new_storage_canister_is_installed_with_the_storage_code() {
    let data = logs(0, 64);
    let arg: Vec<u8> = vec![1, 2, 3];
    let q = storage_canister_install_code_quest(&data, &p(&[8]), &arg);
    assert!(matches!(q.mode, ManagementCanisterInstallCodeMode::install));
    assert_eq!(q.canister_id, p(&[8]));
    assert_eq!(q.wasm_module.len(), 0);
    assert_eq!(q.arg, &[1u8, 2, 3][..]);
}

#[test]
fn anonymous_callers_do_not_reach_the_balances() {
    let anonymous = Principal::anonymous();
    let user = p(&[1, 2]);
    assert!(!canister_inspect_message(&anonymous, b"see_balance"));
    assert!(!canister_inspect_message(&anonymous, b"convert_icp_balance_for_the_cycles_with_the_cmc_rate"));
    assert!(canister_inspect_message(&anonymous, b"see_fees"));
    assert!(canister_inspect_message(&user, b"collect_balance"));
}

fn cycles_user(cycles: u128) -> (Vec<(Principal, UserData)>, Principal) {
    let user = p(&[1]);
    let mut users: Vec<(Principal, UserData)> = vec![];
    assert!(convert_icp_balance_settle(&mut users, &user, cycles, CyclesSponse::ToppedUp(())).is_ok());
    (users, user)
}

#[test]
fn the_payout_memos_are_their_words() {
    assert_eq!(ICP_PAYOUT_MEMO, u64::from_be_bytes(*b"CTS-POUT"));
    assert_eq!(ICP_TAKE_PAYOUT_FEE_MEMO, u64::from_be_bytes(*b"CTS-TFEE"));
    assert_eq!(ICP_LEDGER_TOP_UP_CANISTER_MEMO, u64::from_le_bytes([b'T', b'P', b'U', b'P', 0, 0, 0, 0]));
}

#[test]
fn a_cycles_payout_locks_the_user_until_it_is_settled() {
    let (mut users, user) = cycles_user(1_000_000_000_000);
    let q = CollectBalanceQuest::cycles_payout(CyclesPayoutQuest { cycles: 100_000_000_000, payout_cycles_transfer_canister: p(&[7]) });
    match collect_balance_begin(&mut users, &user, &q, 11) {
        Ok(CollectBalanceStep::CyclesTransfer { canister, cycles }) => {
            assert_eq!(canister, p(&[7]));
            assert_eq!(cycles, 100_000_000_000);
        },
        _ => panic!("the balance pays the cycles and the fee"),
    }
    assert!(users[0].1.user_lock.lock);
    assert_eq!(users[0].1.user_lock.last_lock_time_nanos, 11);
    match collect_balance_begin(&mut users, &user, &q, 12) {
        Err(UserIsLocked { since_nanos }) => assert_eq!(since_nanos, 11),
        _ => panic!("a locked user waits"),
    }
    let r = collect_balance_apply(&mut users, &user, &q, CollectBalanceEvent::CyclesTransfer(Ok(40_000_000_000)));
    assert!(matches!(r, CollectBalanceStep::Done(CollectBalanceSponse::cycles_payout(Ok(60_000_000_000)))));
    assert!(!users[0].1.user_lock.lock);
    assert_eq!(check_user_cycles_balance(&users, &user), 1_000_000_000_000 - 60_000_000_000 - 300_000_000_000);
}

#[test]
fn a_cycles_payout_over_the_balance_is_answered_and_unlocks() {
    let (mut users, user) = cycles_user(300_000_000_100);
    let q = CollectBalanceQuest::cycles_payout(CyclesPayoutQuest { cycles: 500, payout_cycles_transfer_canister: p(&[7]) });
    match collect_balance_begin(&mut users, &user, &q, 1) {
        Ok(CollectBalanceStep::Done(CollectBalanceSponse::cycles_payout(Err(CyclesPayoutError::BalanceTooLow { max_cycles_payout })))) => {
            assert_eq!(max_cycles_payout, 100)
        },
        _ => panic!("the balance does not pay the fee"),
    }
    assert!(!users[0].1.user_lock.lock);
    let q = CollectBalanceQuest::cycles_payout(CyclesPayoutQuest { cycles: 0, payout_cycles_transfer_canister: p(&[7]) });
    assert!(matches!(
        collect_balance_begin(&mut users, &user, &q, 2),
        Ok(CollectBalanceStep::Done(CollectBalanceSponse::cycles_payout(Err(CyclesPayoutError::InvalidCyclesAmount))))
    ));
    assert!(!users[0].1.user_lock.lock);
}

#[test]
fn an_icp_balance_under_the_fees_is_too_low_and_unlocks() {
    let user = p(&[1]);
    let mut users: Vec<(Principal, UserData)> = vec![];
    let q = CollectBalanceQuest::icp_payout(IcpPayoutQuest { icp: IcpTokens::from_e8s(5), payout_icp_id: IcpId([3; 32]) });
    assert!(matches!(collect_balance_begin(&mut users, &user, &q, 1), Ok(CollectBalanceStep::CheckIcpBalance)));
    assert!(users[0].1.user_lock.lock);
    match collect_balance_apply(&mut users, &user, &q, CollectBalanceEvent::IcpBalance(Ok(IcpTokens::from_e8s(20_000)))) {
        CollectBalanceStep::Done(CollectBalanceSponse::icp_payout(Err(IcpPayoutError::BalanceTooLow { max_icp_payout }))) => {
            assert_eq!(max_icp_payout, IcpTokens::from_e8s(0))
        },
        _ => panic!("the balance does not pay the fees"),
    }
    assert!(!users[0].1.user_lock.lock);
}

#[test]
fn an_icp_payout_transfers_then_takes_its_fee() {
    let user = p(&[1]);
    let mut users: Vec<(Principal, UserData)> = vec![];
    let q = CollectBalanceQuest::icp_payout(IcpPayoutQuest { icp: IcpTokens::from_e8s(500), payout_icp_id: IcpId([3; 32]) });
    assert!(matches!(collect_balance_begin(&mut users, &user, &q, 1), Ok(CollectBalanceStep::CheckIcpBalance)));
    match collect_balance_apply(&mut users, &user, &q, CollectBalanceEvent::IcpBalance(Ok(IcpTokens::from_e8s(2_000_000)))) {
        CollectBalanceStep::IcpPayoutTransfer { transfer, to } => {
            assert_eq!(transfer.memo, ICP_PAYOUT_MEMO);
            assert_eq!(transfer.amount, IcpTokens::from_e8s(500));
            assert_eq!(transfer.fee, IcpTokens::from_e8s(10_000));
            assert_eq!(to.0, [3; 32]);
        },
        _ => panic!("the balance pays the ICP and the fees"),
    }
    assert!(users[0].1.user_lock.lock);
    match collect_balance_apply(&mut users, &user, &q, CollectBalanceEvent::IcpPayoutTransfer(Ok(Ok(7)))) {
        CollectBalanceStep::TakeIcpPayoutFee { transfer, payout_block } => {
            assert_eq!(payout_block, 7);
            assert_eq!(transfer.memo, ICP_TAKE_PAYOUT_FEE_MEMO);
            assert_eq!(transfer.amount, IcpTokens::from_e8s(1_000_000));
        },
        _ => panic!("the fee is taken after the payout"),
    }
    let r = collect_balance_apply(&mut users, &user, &q, CollectBalanceEvent::IcpPayoutFeeTransfer { payout_block: 7, fee_taken: false });
    assert!(matches!(r, CollectBalanceStep::Done(CollectBalanceSponse::icp_payout(Ok(7)))));
    assert_eq!(users[0].1.untaken_icp_to_collect, IcpTokens::from_e8s(1_010_000));
    assert!(!users[0].1.user_lock.lock);
    assert!(matches!(collect_balance_begin(&mut users, &user, &q, 2), Ok(CollectBalanceStep::CheckIcpBalance)));
    let r = collect_balance_apply(&mut users, &user, &q, CollectBalanceEvent::IcpPayoutTransfer(Err("down".to_string())));
    assert!(matches!(r, CollectBalanceStep::Done(CollectBalanceSponse::icp_payout(Err(IcpPayoutError::IcpLedgerTransferCallError(_))))));
    assert!(!users[0].1.user_lock.lock);
}

#[test]
fn a_conversion_adds_the_cycles_of_the_rate() {
    let user = p(&[1]);
    let mut users: Vec<(Principal, UserData)> = vec![];
    let icp = IcpTokens::from_e8s(200_000_000);
    match convert_icp_balance_begin(&mut users, &user, icp, CmcRateSponse::Rate(50_000), 3) {
        Ok(ConvertIcpBalanceStep::TopUpTransfer { transfer, cycles }) => {
            assert_eq!(cycles, 10_000_000_000_000);
            assert_eq!(transfer.memo, ICP_LEDGER_TOP_UP_CANISTER_MEMO);
            assert_eq!(transfer.amount, icp);
        },
        _ => panic!("the rate is known"),
    }
    assert!(users[0].1.user_lock.lock);
    assert!(matches!(
        convert_icp_balance_apply(&mut users, &user, icp, 50_000, ConvertIcpBalanceEvent::TopUpTransfer(Ok(Ok(4)))),
        ConvertIcpBalanceStep::Notify { block: 4 }
    ));
    let r = convert_icp_balance_apply(&mut users, &user, icp, 50_000,
        ConvertIcpBalanceEvent::Notify { block: 4, outcome: NotifyOutcome::Sponse(CyclesSponse::ToppedUp(())) });
    assert!(matches!(r, ConvertIcpBalanceStep::Done(Ok(10_000_000_000_000))));
    assert_eq!(check_user_cycles_balance(&users, &user), 10_000_000_000_000);
    assert!(!users[0].1.user_lock.lock);
}

#[test]
fn a_conversion_that_fails_unlocks_and_keeps_the_balance() {
    let (mut users, user) = cycles_user(77);
    let icp = IcpTokens::from_e8s(1);
    assert!(matches!(
        convert_icp_balance_begin(&mut users, &user, icp, CmcRateSponse::CallError("no rate".to_string()), 3),
        Ok(ConvertIcpBalanceStep::Done(Err(ConvertIcpBalanceForTheCyclesWithTheCmcRateError::CmcGetRateCallError(_))))
    ));
    assert!(!users[0].1.user_lock.lock);
    assert!(convert_icp_balance_begin(&mut users, &user, icp, CmcRateSponse::Rate(1), 3).is_ok());
    let r = convert_icp_balance_apply(&mut users, &user, icp, 1,
        ConvertIcpBalanceEvent::Notify { block: 4, outcome: NotifyOutcome::CallError("lost".to_string()) });
    match r {
        ConvertIcpBalanceStep::Done(Err(ConvertIcpBalanceForTheCyclesWithTheCmcRateError::TopUpCyclesIcpNotifyCallError { topup_transfer_block_height, .. })) => {
            assert_eq!(topup_transfer_block_height, 4)
        },
        _ => panic!("the notify call failed"),
    }
    assert!(!users[0].1.user_lock.lock);
    assert_eq!(check_user_cycles_balance(&users, &user), 77);
}

#[test]
fn seeing_the_balance_locks_and_unlocks() {
    let (mut users, user) = cycles_user(5);
    assert!(matches!(see_balance_begin(&mut users, &user, 1), Ok(5)));
    assert!(users[0].1.user_lock.lock);
    assert!(see_balance_begin(&mut users, &user, 2).is_err());
    match see_balance_apply(&mut users, &user, 5, Ok(IcpTokens::from_e8s(9))) {
        Ok(b) => {
            assert_eq!(b.cycles_balance, 5);
            assert_eq!(b.icp_balance, IcpTokens::from_e8s(9));
        },
        Err(_) => panic!("the ledger answered"),
    }
    assert!(!users[0].1.user_lock.lock);
}
