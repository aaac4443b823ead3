use cts_lib::ledger::IcpTokens;
use cts_lib::principal::{
    Principal, principal_as_thirty_bytes, thirty_bytes_as_principal, principal_icp_subaccount, principal_token_subaccount,
    user_icp_id, cycles_minting_canister_icp_id,
};
use cts_lib::tools::{
    Cycles, Tokens, RejectionCode, icptokens_to_cycles, cycles_to_icptokens, tokens_transform_cycles, cycles_transform_tokens,
    time_seconds, call_error_as_u32_and_string, round_robin,
};
use cts_lib::types::canister_code::CanisterCode;

#[test]
fn thirty_bytes_principal() {
    let test_principal: Principal = Principal::from_slice(&[0, 1, 2, 3, 4, 5, 6, 7, 8, 9]);
    assert_eq!(test_principal, thirty_bytes_as_principal(&principal_as_thirty_bytes(&test_principal)));
}

#[test]
fn test_icp_cycles_transform() {
    let xdr_permyriad_per_icp: u64 = 456271237;
    let t: IcpTokens = IcpTokens::from_e8s(1);
    assert_eq!(t, cycles_to_icptokens(icptokens_to_cycles(t, xdr_permyriad_per_icp), xdr_permyriad_per_icp));
    let c: Cycles = 456271237 * 513216;
    assert_eq!(c, icptokens_to_cycles(cycles_to_icptokens(c, xdr_permyriad_per_icp), xdr_permyriad_per_icp));

    println!("{}", icptokens_to_cycles(t, xdr_permyriad_per_icp));
    println!("{:?}", cycles_to_icptokens(c, xdr_permyriad_per_icp));

    println!("{}", icptokens_to_cycles(IcpTokens::from_e8s(00000592), 24590));
    println!("{:?}", cycles_to_icptokens(000014557280, 24590));
    assert_eq!(000014557280, icptokens_to_cycles(cycles_to_icptokens(000014557280, 24590), 24590));
}

#[test]
fn test_tokens_cycles_transform() {
    let cycles_per_token: Cycles = 500_000_000;
    let tokens: Tokens = Tokens::from(10u64);
    assert_eq!(tokens.clone(), cycles_transform_tokens(tokens_transform_cycles(tokens.clone(), cycles_per_token), cycles_per_token));

    println!("{:?}", tokens_transform_cycles(tokens.clone(), cycles_per_token));
    println!("{:?}", cycles_transform_tokens(tokens_transform_cycles(tokens.clone(), cycles_per_token), cycles_per_token));
}

#[test]
fn icp_to_cycles_exact_values() {
    assert_eq!(icptokens_to_cycles(IcpTokens::from_e8s(100_000_000), 50_000), 5_000_000_000_000);
    assert_eq!(icptokens_to_cycles(IcpTokens::from_e8s(592), 24590), 14_557_280);
    assert_eq!(cycles_to_icptokens(10_000_000_000_000, 50_000), IcpTokens::from_e8s(200_000_000));
}

#[test]
fn cycles_to_icp_and_back_rounds_down_to_the_rate() {
    let c: Cycles = 1_000_001;
    let e = cycles_to_icptokens(c, 1000);
    assert_eq!(e, IcpTokens::from_e8s(1000));
    assert_eq!(icptokens_to_cycles(e, 1000), 1_000_000);
}

#[test]
fn icp_to_cycles_and_back_gives_the_same_icp() {
    let t = IcpTokens::from_e8s(12345);
    assert_eq!(cycles_to_icptokens(icptokens_to_cycles(t, 30000), 30000), t);
}

#[test]
fn tokens_at_no_price_are_none() {
    assert_eq!(cycles_transform_tokens(1_000_000, 0), 0);
    assert_eq!(cycles_transform_tokens(1_000_001, 500), 2000);
    assert_eq!(tokens_transform_cycles(3, 7), 21);
}

#[test]
fn time_seconds_cuts_down() {
    assert_eq!(time_seconds(1_500_000_000), 1);
    assert_eq!(time_seconds(999_999_999), 0);
}

#[test]
fn call_error_numbers() {
    let (n, s) = call_error_as_u32_and_string((RejectionCode::CanisterReject, "no".to_string()));
    assert_eq!(n, 4);
    assert_eq!(s, "no");
    let (n, _) = call_error_as_u32_and_string((RejectionCode::NoError, String::new()));
    assert_eq!(n, 0);
}

#[test]
fn round_robin_takes_turns() {
    let ctcs: Vec<u32> = vec![1, 2, 3];
    let mut counter: usize = 0;
    assert_eq!(round_robin(&ctcs, &mut counter), Some(1));
    assert_eq!(counter, 1);
    assert_eq!(round_robin(&ctcs, &mut counter), Some(2));
    assert_eq!(round_robin(&ctcs, &mut counter), Some(3));
    assert_eq!(counter, 0);
    assert_eq!(round_robin(&ctcs, &mut counter), Some(1));
    let mut past_the_end: usize = 7;
    assert_eq!(round_robin(&ctcs, &mut past_the_end), Some(1));
    assert_eq!(past_the_end, 1);
    let empty: Vec<u32> = vec![];
    assert_eq!(round_robin(&empty, &mut counter), None);
    let one: Vec<u32> = vec![9];
    let mut c: usize = 5;
    assert_eq!(round_robin(&one, &mut c), Some(9));
    assert_eq!(c, 5);
}

#[test]
fn canister_code_hash_is_the_sha256_of_the_module() {
    let code = CanisterCode::new(b"abc".to_vec());
    let expected: [u8; 32] = [
        0xba, 0x78, 0x16, 0xbf, 0x8f, 0x01, 0xcf, 0xea, 0x41, 0x41, 0x40, 0xde, 0x5d, 0xae, 0x22, 0x23,
        0xb0, 0x03, 0x61, 0xa3, 0x96, 0x17, 0x7a, 0x9c, 0xb4, 0x10, 0xff, 0x61, 0xf2, 0x00, 0x15, 0xad,
    ];
    assert_eq!(*code.module_hash(), expected);
}

#[test]
fn subaccounts_of_a_principal() {
    let p = Principal::from_slice(&[7, 8, 9]);
    let sub = principal_icp_subaccount(&p);
    let mut expected = [0u8; 32];
    expected[0] = 3;
    expected[1] = 7;
    expected[2] = 8;
    expected[3] = 9;
    assert_eq!(sub.0, expected);
    assert_eq!(principal_token_subaccount(&p), expected);
}

#[test]
fn user_icp_id_is_the_ledger_account() {
    let cts = Principal::from_slice(&[0, 0, 0, 0, 0, 0, 0, 7, 1, 1]);
    let user = Principal::from_slice(&[1, 2, 3]);
    let id = user_icp_id(&cts, &user);
    let expected = ic_ledger_types::AccountIdentifier::new(
        &candid::Principal::from_slice(&[0, 0, 0, 0, 0, 0, 0, 7, 1, 1]),
        &ic_ledger_types::Subaccount(principal_icp_subaccount(&user).0),
    );
    assert_eq!(&id.0[..], expected.as_ref());
    assert_ne!(&id.0[..], &principal_icp_subaccount(&user).0[..]);
}

#[test]
fn cycles_minting_canister_account() {
    let cts = Principal::from_slice(&[0, 0, 0, 0, 0, 0, 0, 7, 1, 1]);
    let id = cycles_minting_canister_icp_id(&cts);
    let expected = ic_ledger_types::AccountIdentifier::new(
        &ic_ledger_types::MAINNET_CYCLES_MINTING_CANISTER_ID,
        &ic_ledger_types::Subaccount(principal_icp_subaccount(&cts).0),
    );
    assert_eq!(&id.0[..], expected.as_ref());
}
