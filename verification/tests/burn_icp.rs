use cts_lib::ledger::IcpTokens;
use cts_lib::principal::Principal;
use cts_lib::cts_canister::controller::CtsTrap;
use cts_lib::cts_canister::data::{
    CtsState, UserBurnIcpMintCyclesQuest, UserBurnIcpMintCyclesError, UserBurnIcpMintCyclesMidCallError,
    LedgerTopupCyclesCmcNotifyError, LedgerTopupCyclesCmcIcpTransferError,
};
use cts_lib::cts_canister::burn_icp::{
    user_burn_icp_mint_cycles_begin, user_burn_icp_mint_cycles_check_balance, user_burn_icp_mint_cycles_register,
    user_burn_icp_mint_cycles_next_step, user_burn_icp_mint_cycles_apply, user_burn_icp_mint_cycles_complete, cycles_for_the_user,
    UserBurnIcpMintCyclesBegin, UserBurnIcpMintCyclesStep, UserBurnIcpMintCyclesEvent,
};

fn p(b: &[u8]) -> Principal {
    Principal::from_slice(b)
}

const NOW: u64 = 5_000_000_000;

#[test]
fn burn_gives_the_user_the_minted_cycles_less_the_fee() {
    let mut state = CtsState::new();
    let user = p(&[1, 2, 3]);
    let q = UserBurnIcpMintCyclesQuest { burn_icp: IcpTokens::from_e8s(100_000_000) };
    assert!(matches!(user_burn_icp_mint_cycles_begin(&mut state, &user, q), UserBurnIcpMintCyclesBegin::CheckBalance));
    assert!(user_burn_icp_mint_cycles_check_balance(q, Ok(IcpTokens::from_e8s(100_010_000))).is_ok());
    let mut d = match user_burn_icp_mint_cycles_register(&mut state, &user, q, Ok(Some(p(&[4, 4]))), NOW) {
        Ok(d) => d,
        Err(_) => panic!("the burn is registered"),
    };
    assert!(d.lock);
    assert_eq!(d.user_burn_icp_mint_cycles_fee, 50_000_000_000);
    match user_burn_icp_mint_cycles_next_step(&user, &d) {
        UserBurnIcpMintCyclesStep::CmcIcpTransfer { amount, .. } => assert_eq!(amount, IcpTokens::from_e8s(100_000_000)),
        _ => panic!("the ICP goes to the cycles-minting canister first"),
    }
    d = user_burn_icp_mint_cycles_apply(&mut state, &user, d, UserBurnIcpMintCyclesEvent::CmcIcpTransfer(Ok(5))).ok().unwrap();
    assert!(matches!(user_burn_icp_mint_cycles_next_step(&user, &d), UserBurnIcpMintCyclesStep::CmcNotify { block_index: 5 }));
    d = user_burn_icp_mint_cycles_apply(&mut state, &user, d, UserBurnIcpMintCyclesEvent::CmcNotify(Ok(1_000_000_000_000))).ok().unwrap();
    match user_burn_icp_mint_cycles_next_step(&user, &d) {
        UserBurnIcpMintCyclesStep::CyclesTransferToTheUserCanister { canister_id, cycles, .. } => {
            assert_eq!(canister_id, p(&[4, 4]));
            assert_eq!(cycles, 950_000_000_000);
        },
        _ => panic!("the cycles go to the user-canister next"),
    }
    d = user_burn_icp_mint_cycles_apply(&mut state, &user, d, UserBurnIcpMintCyclesEvent::CyclesTransferRefund(10)).ok().unwrap();
    match user_burn_icp_mint_cycles_next_step(&user, &d) {
        UserBurnIcpMintCyclesStep::DepositCycles { canister_id, cycles } => {
            assert_eq!(canister_id, p(&[4, 4]));
            assert_eq!(cycles, 10);
        },
        _ => panic!("the refund is deposited next"),
    }
    d = user_burn_icp_mint_cycles_apply(&mut state, &user, d, UserBurnIcpMintCyclesEvent::DepositCycles(Ok(()))).ok().unwrap();
    assert!(matches!(user_burn_icp_mint_cycles_next_step(&user, &d), UserBurnIcpMintCyclesStep::Finish));
    match user_burn_icp_mint_cycles_complete(&mut state, &user, d) {
        Ok(s) => {
            assert_eq!(s.mint_cycles_for_the_user, 950_000_000_000);
            assert_eq!(s.cts_fee_taken, 50_000_000_000);
            assert_eq!(s.mint_cycles_for_the_user + s.cts_fee_taken, 1_000_000_000_000);
        },
        Err(_) => panic!("the burn is done"),
    }
    assert_eq!(state.cts_data.users_burn_icp_mint_cycles.len(), 0);
}

#[test]
fn burn_below_the_fee_takes_no_fee() {
    assert_eq!(cycles_for_the_user(1000, 50_000_000_000), 1000);
    assert_eq!(cycles_for_the_user(50_000_000_000, 50_000_000_000), 0);
    let mut state = CtsState::new();
    let user = p(&[1]);
    let q = UserBurnIcpMintCyclesQuest { burn_icp: IcpTokens::from_e8s(3_000_000) };
    let mut d = user_burn_icp_mint_cycles_register(&mut state, &user, q, Ok(Some(p(&[4]))), NOW).ok().unwrap();
    d = user_burn_icp_mint_cycles_apply(&mut state, &user, d, UserBurnIcpMintCyclesEvent::CmcIcpTransfer(Ok(1))).ok().unwrap();
    d = user_burn_icp_mint_cycles_apply(&mut state, &user, d, UserBurnIcpMintCyclesEvent::CmcNotify(Ok(1000))).ok().unwrap();
    d = user_burn_icp_mint_cycles_apply(&mut state, &user, d, UserBurnIcpMintCyclesEvent::CyclesTransferRefund(0)).ok().unwrap();
    assert!(matches!(user_burn_icp_mint_cycles_next_step(&user, &d), UserBurnIcpMintCyclesStep::Finish));
    let s = user_burn_icp_mint_cycles_complete(&mut state, &user, d).ok().unwrap();
    assert_eq!(s.mint_cycles_for_the_user, 1000);
    assert_eq!(s.cts_fee_taken, 0);
}

#[test]
fn burn_refusals() {
    let mut state = CtsState::new();
    let user = p(&[1, 2, 3]);
    let small = UserBurnIcpMintCyclesQuest { burn_icp: IcpTokens::from_e8s(2_999_999) };
    match user_burn_icp_mint_cycles_begin(&mut state, &user, small) {
        UserBurnIcpMintCyclesBegin::Refuse(UserBurnIcpMintCyclesError::MinimumUserBurnIcpMintCycles { minimum_user_burn_icp_mint_cycles }) =>
            assert_eq!(minimum_user_burn_icp_mint_cycles, IcpTokens::from_e8s(3_000_000)),
        _ => panic!("the burn is under the minimum"),
    }
    let q = UserBurnIcpMintCyclesQuest { burn_icp: IcpTokens::from_e8s(100_000_000) };
    match user_burn_icp_mint_cycles_check_balance(q, Ok(IcpTokens::from_e8s(100_009_999))) {
        Err(UserBurnIcpMintCyclesError::UserIcpBalanceTooLow { user_icp_balance, icp_ledger_transfer_fee }) => {
            assert_eq!(user_icp_balance, IcpTokens::from_e8s(100_009_999));
            assert_eq!(icp_ledger_transfer_fee, IcpTokens::from_e8s(10_000));
        },
        _ => panic!("the balance does not pay the fee"),
    }
    assert!(matches!(user_burn_icp_mint_cycles_check_balance(q, Err((3, "x".to_string()))), Err(UserBurnIcpMintCyclesError::IcpCheckBalanceCallError(_))));
    assert!(matches!(user_burn_icp_mint_cycles_register(&mut state, &user, q, Ok(None), NOW), Err(UserBurnIcpMintCyclesError::UserCanisterNotFound)));
    let d = user_burn_icp_mint_cycles_register(&mut state, &user, q, Ok(Some(p(&[4]))), NOW).ok().unwrap();
    let r = user_burn_icp_mint_cycles_apply(
        &mut state, &user, d,
        UserBurnIcpMintCyclesEvent::CmcIcpTransfer(Err(LedgerTopupCyclesCmcIcpTransferError::IcpTransferCallError((2, "x".to_string())))),
    );
    assert!(matches!(r, Err(UserBurnIcpMintCyclesError::LedgerTopupCyclesCmcIcpTransferError(_))));
    assert_eq!(state.cts_data.users_burn_icp_mint_cycles.len(), 0);
    let mut stopping = CtsState::new();
    stopping.stop_calls = true;
    assert!(matches!(user_burn_icp_mint_cycles_begin(&mut stopping, &user, q), UserBurnIcpMintCyclesBegin::Trap(CtsTrap::Maintenance)));
}

#[test]
fn a_stopped_burn_resumes_where_it_stopped() {
    let mut state = CtsState::new();
    let user = p(&[1, 2, 3]);
    let q = UserBurnIcpMintCyclesQuest { burn_icp: IcpTokens::from_e8s(100_000_000) };
    let mut d = user_burn_icp_mint_cycles_register(&mut state, &user, q, Ok(Some(p(&[4]))), NOW).ok().unwrap();
    d = user_burn_icp_mint_cycles_apply(&mut state, &user, d, UserBurnIcpMintCyclesEvent::CmcIcpTransfer(Ok(5))).ok().unwrap();
    let r = user_burn_icp_mint_cycles_apply(
        &mut state, &user, d,
        UserBurnIcpMintCyclesEvent::CmcNotify(Err(LedgerTopupCyclesCmcNotifyError::CmcNotifyCallError((2, "x".to_string())))),
    );
    assert!(matches!(r, Err(UserBurnIcpMintCyclesError::MidCallError(UserBurnIcpMintCyclesMidCallError::LedgerTopupCyclesCmcNotifyError(_)))));
    let other = UserBurnIcpMintCyclesQuest { burn_icp: IcpTokens::from_e8s(200_000_000) };
    match user_burn_icp_mint_cycles_begin(&mut state, &user, other) {
        UserBurnIcpMintCyclesBegin::Refuse(UserBurnIcpMintCyclesError::CompleteCallWithTheAlreadySetParameters(set)) => assert!(set == q),
        _ => panic!("the burn is made with the request it was begun with"),
    }
    match user_burn_icp_mint_cycles_begin(&mut state, &user, q) {
        UserBurnIcpMintCyclesBegin::Resume(d2) => {
            assert!(d2.lock);
            assert_eq!(d2.cmc_icp_transfer_block_height, Some(5));
            assert!(matches!(user_burn_icp_mint_cycles_next_step(&user, &d2), UserBurnIcpMintCyclesStep::CmcNotify { block_index: 5 }));
        },
        _ => panic!("the burn goes on where it stopped"),
    }
    assert!(matches!(
        user_burn_icp_mint_cycles_begin(&mut state, &user, q),
        UserBurnIcpMintCyclesBegin::Refuse(UserBurnIcpMintCyclesError::UserIsInTheMiddleOfAnotherUserBurnIcpMintCyclesCall)
    ));
}
