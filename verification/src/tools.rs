use vstd::prelude::*;
use crate::consts::{CYCLES_PER_XDR, NANOS_IN_A_SECOND};
use crate::ledger::IcpTokens;
use sha2::Digest;

verus! {

/// An amount of cycles.
pub type Cycles = u128;

/// An amount of the tokens of an ICRC-1 ledger.
pub type Tokens = u128;

/// The ICP/XDR rate, in ten-thousandths of an XDR per ICP.
pub type XdrPerMyriadPerIcp = u64;

/// The cycles that `e8s` 10^-8 ICP buy at the rate `xdr_permyriad_per_icp`.
pub open spec fn spec_icp_to_cycles(e8s: int, xdr_permyriad_per_icp: int) -> int {
    e8s * xdr_permyriad_per_icp * (CYCLES_PER_XDR as int) / (IcpTokens::SUBDIVIDABLE_BY as int * 10_000)
}

/// The 10^-8 ICP that `cycles` cycles buy at the rate `xdr_permyriad_per_icp`, before the
/// result is cut down to 64 bits.
pub open spec fn spec_cycles_to_e8s(cycles: int, xdr_permyriad_per_icp: int) -> int {
    cycles * (IcpTokens::SUBDIVIDABLE_BY as int * 10_000) / (CYCLES_PER_XDR as int) / xdr_permyriad_per_icp
}

/// Converts an amount of ICP into cycles at the given ICP/XDR rate.
pub fn icptokens_to_cycles(icpts: IcpTokens, xdr_permyriad_per_icp: XdrPerMyriadPerIcp) -> (cycles: u128)
    requires
        icpts.e8s * xdr_permyriad_per_icp * CYCLES_PER_XDR <= u128::MAX,
    ensures
        cycles == spec_icp_to_cycles(icpts.e8s as int, xdr_permyriad_per_icp as int),
        cycles == icpts.e8s * xdr_permyriad_per_icp,
{
    let e8s: u128 = icpts.e8s() as u128;
    let rate: u128 = xdr_permyriad_per_icp as u128;
    assert(e8s * rate <= e8s * rate * CYCLES_PER_XDR) by (nonlinear_arith)
        requires e8s * rate >= 0;
    let product: u128 = e8s * rate;
    let r: u128 = product * CYCLES_PER_XDR / (IcpTokens::SUBDIVIDABLE_BY as u128 * 10_000);
    assert(product * (CYCLES_PER_XDR as int) / (IcpTokens::SUBDIVIDABLE_BY as int * 10_000) == product) by (nonlinear_arith)
        requires CYCLES_PER_XDR == IcpTokens::SUBDIVIDABLE_BY * 10_000, product >= 0;
    r
}

/// Converts an amount of cycles into ICP at the given ICP/XDR rate. The count of e8s is cut
/// down to its lowest 64 bits where it does not fit.
pub fn cycles_to_icptokens(cycles: u128, xdr_permyriad_per_icp: XdrPerMyriadPerIcp) -> (t: IcpTokens)
    requires
        cycles * (IcpTokens::SUBDIVIDABLE_BY * 10_000) <= u128::MAX,
        xdr_permyriad_per_icp > 0,
    ensures
        t.e8s == (spec_cycles_to_e8s(cycles as int, xdr_permyriad_per_icp as int) as u64),
        t.e8s == ((cycles / (xdr_permyriad_per_icp as u128)) as u64),
{
    let q: u128 = cycles * (IcpTokens::SUBDIVIDABLE_BY as u128 * 10_000) / CYCLES_PER_XDR
        / xdr_permyriad_per_icp as u128;
    assert(cycles * (IcpTokens::SUBDIVIDABLE_BY as int * 10_000) / (CYCLES_PER_XDR as int) == cycles) by (nonlinear_arith)
        requires CYCLES_PER_XDR == IcpTokens::SUBDIVIDABLE_BY * 10_000, cycles >= 0;
    IcpTokens::from_e8s(#[verifier::truncate] (q as u64))
}

/// Converting ICP into cycles and back gives the same ICP.
pub proof fn lemma_icp_cycles_icp_round_trip(e8s: u64, xdr_permyriad_per_icp: u64)
    requires
        xdr_permyriad_per_icp > 0,
        e8s * xdr_permyriad_per_icp * CYCLES_PER_XDR <= u128::MAX,
    ensures
        spec_icp_to_cycles(e8s as int, xdr_permyriad_per_icp as int) * (IcpTokens::SUBDIVIDABLE_BY * 10_000) <= u128::MAX,
        spec_cycles_to_e8s(spec_icp_to_cycles(e8s as int, xdr_permyriad_per_icp as int), xdr_permyriad_per_icp as int) == e8s,
{
    let r = xdr_permyriad_per_icp as int;
    let c = e8s * r;
    assert(c * (CYCLES_PER_XDR as int) / (IcpTokens::SUBDIVIDABLE_BY as int * 10_000) == c) by (nonlinear_arith)
        requires CYCLES_PER_XDR == IcpTokens::SUBDIVIDABLE_BY * 10_000, c >= 0;
    assert(c * (IcpTokens::SUBDIVIDABLE_BY as int * 10_000) / (CYCLES_PER_XDR as int) == c) by (nonlinear_arith)
        requires CYCLES_PER_XDR == IcpTokens::SUBDIVIDABLE_BY * 10_000, c >= 0;
    assert(c / r == e8s) by (nonlinear_arith)
        requires c == e8s * r, r > 0;
}

/// Converting cycles into ICP and back gives the cycles rounded down to a multiple of the
/// rate: the same cycles exactly where the rate divides them.
pub proof fn lemma_cycles_icp_cycles_round_trip(cycles: u128, xdr_permyriad_per_icp: u64)
    requires
        xdr_permyriad_per_icp > 0,
        cycles * (IcpTokens::SUBDIVIDABLE_BY * 10_000) <= u128::MAX,
    ensures
        ({
            let e8s = spec_cycles_to_e8s(cycles as int, xdr_permyriad_per_icp as int);
            &&& 0 <= e8s <= cycles
            &&& e8s <= u64::MAX ==> {
                let back = spec_icp_to_cycles(e8s, xdr_permyriad_per_icp as int);
                &&& back <= cycles < back + xdr_permyriad_per_icp
                &&& (cycles as int % xdr_permyriad_per_icp as int == 0 ==> back == cycles)
            }
        }),
{
    let r = xdr_permyriad_per_icp as int;
    let c = cycles as int;
    assert(c * (IcpTokens::SUBDIVIDABLE_BY as int * 10_000) / (CYCLES_PER_XDR as int) == c) by (nonlinear_arith)
        requires CYCLES_PER_XDR == IcpTokens::SUBDIVIDABLE_BY * 10_000, c >= 0;
    let e = c / r;
    assert(0 <= e <= c && e * r <= c < e * r + r && (c % r == 0 ==> e * r == c)) by (nonlinear_arith)
        requires e == c / r, r > 0, c >= 0;
    assert((e * r) * (CYCLES_PER_XDR as int) / (IcpTokens::SUBDIVIDABLE_BY as int * 10_000) == e * r) by (nonlinear_arith)
        requires CYCLES_PER_XDR == IcpTokens::SUBDIVIDABLE_BY * 10_000, e * r >= 0;
    assert(e * r * CYCLES_PER_XDR == (e * r) * CYCLES_PER_XDR) by (nonlinear_arith);
}

/// The cycles that `tokens` tokens cost at `cycles_per_token` cycles each.
pub fn tokens_transform_cycles(tokens: Tokens, cycles_per_token: Cycles) -> (cycles: Cycles)
    requires
        tokens * cycles_per_token <= u128::MAX,
    ensures
        cycles == tokens * cycles_per_token,
{
    tokens * cycles_per_token
}

/// The whole tokens that `cycles` cycles buy at `cycles_per_token` cycles each; zero where a
/// token costs nothing.
pub fn cycles_transform_tokens(cycles: Cycles, cycles_per_token: Cycles) -> (tokens: Tokens)
    ensures
        cycles_per_token == 0 ==> tokens == 0,
        cycles_per_token != 0 ==> tokens == cycles / cycles_per_token,
{
    if cycles_per_token == 0 {
        return 0;
    }
    cycles / cycles_per_token
}

/// Converting tokens into cycles and back gives the same tokens, at any rate but zero.
pub proof fn lemma_tokens_cycles_tokens_round_trip(tokens: Tokens, cycles_per_token: Cycles)
    requires
        cycles_per_token > 0,
        tokens * cycles_per_token <= u128::MAX,
    ensures
        (tokens * cycles_per_token) / (cycles_per_token as int) == tokens,
{
    assert((tokens * cycles_per_token) / (cycles_per_token as int) == tokens) by (nonlinear_arith)
        requires cycles_per_token > 0;
}

/// The whole seconds in `time_nanos` nanoseconds.
pub fn time_seconds(time_nanos: u128) -> (seconds: u128)
    ensures
        seconds == time_nanos / NANOS_IN_A_SECOND,
{
    time_nanos / NANOS_IN_A_SECOND
}

} // verus!

verus! {

/// An error of a call to another canister: the reject code as a number, and the message.
pub type CallError = (u32, String);

/// Why the system or the callee rejected a call.
#[derive(Clone, Copy, Debug, PartialEq, Eq, Structural)]
pub enum RejectionCode {
    NoError,
    SysFatal,
    SysTransient,
    DestinationInvalid,
    CanisterReject,
    CanisterError,
    Unknown,
}

/// The number of a reject code.
pub open spec fn spec_rejection_code_number(code: RejectionCode) -> u32 {
    match code {
        RejectionCode::NoError => 0,
        RejectionCode::SysFatal => 1,
        RejectionCode::SysTransient => 2,
        RejectionCode::DestinationInvalid => 3,
        RejectionCode::CanisterReject => 4,
        RejectionCode::CanisterError => 5,
        RejectionCode::Unknown => 6,
    }
}

/// Turns the error of a call into its reject-code number and its message.
pub fn call_error_as_u32_and_string(t: (RejectionCode, String)) -> (e: CallError)
    ensures
        e.0 == spec_rejection_code_number(t.0),
        e.1@ == t.1@,
{
    let n: u32 = match t.0 {
        RejectionCode::NoError => 0,
        RejectionCode::SysFatal => 1,
        RejectionCode::SysTransient => 2,
        RejectionCode::DestinationInvalid => 3,
        RejectionCode::CanisterReject => 4,
        RejectionCode::CanisterError => 5,
        RejectionCode::Unknown => 6,
    };
    (n, t.1)
}

/// What one round-robin pick gives, and the counter after it.
pub open spec fn spec_round_robin(len: nat, counter: usize) -> (Option<int>, usize) {
    if len == 0 {
        (None, counter)
    } else if len == 1 {
        (Some(0), counter)
    } else if counter <= len - 1 {
        (Some(counter as int), if counter == len - 1 { 0 } else { (counter + 1) as usize })
    } else {
        (Some(0), 1)
    }
}

/// Picks the next of the canisters in turn. The counter tells which comes next; it goes back
/// to the start after the last one, and to the second one where it has run past the end.
pub fn round_robin<T: Copy>(ctcs: &Vec<T>, round_robin_counter: &mut usize) -> (pick: Option<T>)
    ensures
        ({
            let (i, c) = spec_round_robin(ctcs@.len(), *old(round_robin_counter));
            &&& *final(round_robin_counter) == c
            &&& match i {
                None => pick is None,
                Some(i) => pick == Some(ctcs@[i]),
            }
        }),
{
    let l: usize = ctcs.len();
    if l == 0 {
        None
    } else if l == 1 {
        Some(ctcs[0])
    } else {
        let c_i: usize = *round_robin_counter;
        if c_i <= l - 1 {
            let ctc: T = ctcs[c_i];
            if c_i == l - 1 {
                *round_robin_counter = 0;
            } else {
                *round_robin_counter = c_i + 1;
            }
            Some(ctc)
        } else {
            *round_robin_counter = 1;
            Some(ctcs[0])
        }
    }
}

/// With two or more canisters, a pick leaves the counter pointing at one of them, and picks
/// that start from a counter in range take the canisters one after another.
pub proof fn lemma_round_robin_cycles(len: nat, counter: usize)
    requires
        2 <= len <= usize::MAX,
    ensures
        (spec_round_robin(len, counter).1 as int) < len,
        counter < len ==> spec_round_robin(len, counter).0 == Some(counter as int),
        counter < len ==> spec_round_robin(len, counter).1 == (counter + 1) % (len as int),
{
    if counter < len {
        let c = counter as int;
        let l = len as int;
        assert(c + 1 < l ==> (c + 1) % l == c + 1) by (nonlinear_arith)
            requires 0 <= c, l >= 2;
        assert(c + 1 == l ==> (c + 1) % l == 0) by (nonlinear_arith)
            requires l >= 2;
    }
}

} // verus!

verus! {

/// The SHA-256 digest of a byte string, as the `sha2` crate computes it.
pub uninterp spec fn sha256_digest(bytes: Seq<u8>) -> Seq<u8>;

/// Calls `sha2::Sha256` on the bytes and hands back the thirty-two bytes of the digest.
/// Trusted to give the same digest for the same bytes; nothing more is claimed of it.
#[verifier::external_body]
pub fn sha256(bytes: &[u8]) -> (hash: [u8; 32])
    ensures
        hash@ == sha256_digest(bytes@),
{
    let mut hasher: sha2::Sha256 = sha2::Sha256::new();
    hasher.update(bytes);
    hasher.finalize().into()
}

} // verus!
