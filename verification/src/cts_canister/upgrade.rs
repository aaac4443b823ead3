use vstd::prelude::*;
use crate::principal::Principal;
use crate::consts::WASM_PAGE_SIZE_BYTES;
use crate::cts_canister::data::{CtsState, CTSData, STABLE_MEMORY_HEADER_SIZE_BYTES, hashes_sorted};
use crate::cts_canister::controller::{CtsTrap, spec_is_controller, is_controller};
use crate::cts_canister::frontcode::{copy_hashes, sort_hashes, lemma_sorted_hashes_unique};
use crate::assoc::{keys_unique, assoc_map};

verus! {

/// The size of a chunk of a state snapshot that is handed out at once.
pub const STATE_SNAPSHOT_CHUNK_SIZE: usize = 1048576;

/// The state `s1` is `s0` with the data of the CTS ready to be written out: the hashes of the
/// front end are in it.
pub open spec fn spec_prepared(s0: CtsState, s1: CtsState) -> bool {
    &&& s1.cts_data.frontcode_files_hashes@ == s0.frontcode_files_hashes@
    &&& s1 == CtsState { cts_data: CTSData { frontcode_files_hashes: s1.cts_data.frontcode_files_hashes, ..s0.cts_data }, ..s0 }
}

/// The state `s1` is `s0` with the data `d` that was read in put back: the hashes of `d`
/// become those that the CTS serves, and leave the data.
pub open spec fn spec_re_stored(s0: CtsState, d: CTSData, s1: CtsState) -> bool {
    &&& assoc_map(s1.frontcode_files_hashes@) == assoc_map(d.frontcode_files_hashes@)
    &&& s1.cts_data == (CTSData { frontcode_files_hashes: s1.cts_data.frontcode_files_hashes, ..d })
    &&& s1.cts_data.frontcode_files_hashes@.len() == 0
    &&& s1.latest_known_cmc_rate == s0.latest_known_cmc_rate
    &&& s1.user_canister_cache == s0.user_canister_cache
    &&& s1.stop_calls == s0.stop_calls
    &&& s1.state_snapshot_cts_data_candid_bytes == s0.state_snapshot_cts_data_candid_bytes
}

/// An upgrade, or a state snapshot put back, keeps the data of the CTS and the hashes of its
/// front end: the data got ready to be written out (by `prepare_cts_data_for_the_candid_bytes`
/// or `controller_create_state_snapshot`), read back in and put back by `re_store_cts_data`,
/// gives the same data and serves the same hashes.
pub proof fn lemma_upgrade_keeps_the_data(s0: CtsState, s1: CtsState, s2: CtsState, s3: CtsState)
    requires
        spec_prepared(s0, s1),
        spec_re_stored(s2, s1.cts_data, s3),
    ensures
        assoc_map(s3.frontcode_files_hashes@) == assoc_map(s0.frontcode_files_hashes@),
        s3.cts_data == (CTSData { frontcode_files_hashes: s3.cts_data.frontcode_files_hashes, ..s0.cts_data }),
{
}

/// Gets the data of the CTS ready to be written out: the hashes of the front end go into it.
pub fn prepare_cts_data_for_the_candid_bytes(state: &mut CtsState)
    requires
        old(state).wf(),
    ensures
        final(state).wf(),
        spec_prepared(*old(state), *final(state)),
{
    proof {
        lemma_sorted_hashes_unique(state.frontcode_files_hashes@);
    }
    state.cts_data.frontcode_files_hashes = copy_hashes(&state.frontcode_files_hashes);
}

/// Puts back the data of the CTS that was read in: its hashes of the front end become the
/// hashes that the CTS serves, in the order of their paths, the last of equal paths counting.
pub fn re_store_cts_data(state: &mut CtsState, cts_data: CTSData)
    requires
        cts_data.wf(),
        old(state).wf(),
    ensures
        final(state).wf(),
        spec_re_stored(*old(state), cts_data, *final(state)),
{
    let mut cts_data = cts_data;
    let mut hashes: Vec<(String, [u8; 32])> = Vec::new();
    std::mem::swap(&mut hashes, &mut cts_data.frontcode_files_hashes);
    state.frontcode_files_hashes = sort_hashes(hashes);
    state.cts_data = cts_data;
}

/// A controller makes a snapshot of the data of the CTS. First the data is got ready to be
/// written out: the hashes of the front end that the CTS serves go into it. Its candid bytes,
/// which only the candid encoder can make, are then handed to `state_snapshot_created`.
pub fn controller_create_state_snapshot(state: &mut CtsState, caller: &Principal) -> (r: Result<(), CtsTrap>)
    requires
        old(state).wf(),
    ensures
        final(state).wf(),
        !spec_is_controller(*old(state), caller@) ==> (r matches Err(CtsTrap::CallerIsNotAController) && *final(state) == *old(state)),
        spec_is_controller(*old(state), caller@) ==> r is Ok && spec_prepared(*old(state), *final(state)),
{
    if !is_controller(state, caller) {
        return Err(CtsTrap::CallerIsNotAController);
    }
    prepare_cts_data_for_the_candid_bytes(state);
    Ok(())
}

/// The candid bytes of the data that `controller_create_state_snapshot` got ready become the
/// snapshot, in place of any earlier one; their length is handed back.
pub fn state_snapshot_created(state: &mut CtsState, cts_data_candid_bytes: Vec<u8>) -> (len: u64)
    ensures
        len == cts_data_candid_bytes@.len() as u64,
        *final(state) == (CtsState { state_snapshot_cts_data_candid_bytes: cts_data_candid_bytes, ..*old(state) }),
{
    let len: u64 = cts_data_candid_bytes.len() as u64;
    state.state_snapshot_cts_data_candid_bytes = cts_data_candid_bytes;
    len
}

/// The chunk of a byte string with the given index, chunks being of the given size.
pub open spec fn spec_chunk(bytes: Seq<u8>, chunk_size: int, chunk_i: int) -> Option<Seq<u8>> {
    if chunk_i * chunk_size < bytes.len() {
        Some(bytes.subrange(chunk_i * chunk_size, if (chunk_i + 1) * chunk_size <= bytes.len() { (chunk_i + 1) * chunk_size } else { bytes.len() as int }))
    } else {
        None
    }
}

/// The chunks `0..n` of a byte string, joined in order; a chunk past the end adds nothing.
pub open spec fn spec_chunks_joined(bytes: Seq<u8>, chunk_size: int, n: nat) -> Seq<u8>
    decreases n,
{
    if n == 0 {
        Seq::empty()
    } else {
        spec_chunks_joined(bytes, chunk_size, (n - 1) as nat) + match spec_chunk(bytes, chunk_size, n - 1) {
            Some(c) => c,
            None => Seq::empty(),
        }
    }
}

/// The chunks that are handed out of a snapshot, joined in order, are the snapshot: chunk by
/// chunk it can be downloaded and appended back.
pub proof fn lemma_snapshot_chunks_join_to_the_snapshot(bytes: Seq<u8>, chunk_size: int, n: nat)
    requires
        chunk_size > 0,
        n * chunk_size >= bytes.len(),
    ensures
        spec_chunks_joined(bytes, chunk_size, n) == bytes,
{
    lemma_chunks_joined_prefix(bytes, chunk_size, n);
    assert(bytes.subrange(0, bytes.len() as int) =~= bytes);
}

proof fn lemma_chunks_joined_prefix(bytes: Seq<u8>, chunk_size: int, n: nat)
    requires
        chunk_size > 0,
    ensures
        spec_chunks_joined(bytes, chunk_size, n) == bytes.subrange(0, if n * chunk_size <= bytes.len() { n * chunk_size } else { bytes.len() as int }),
    decreases n,
{
    let len = bytes.len() as int;
    if n == 0 {
        assert(bytes.subrange(0, 0) =~= Seq::<u8>::empty());
    } else {
        let m = (n - 1) as nat;
        lemma_chunks_joined_prefix(bytes, chunk_size, m);
        assert(n * chunk_size == m * chunk_size + chunk_size) by (nonlinear_arith)
            requires n == m + 1;
        assert(m * chunk_size >= 0) by (nonlinear_arith)
            requires chunk_size > 0;
        let prev_end = if m * chunk_size <= len { m * chunk_size } else { len };
        let end = if n * chunk_size <= len { n * chunk_size } else { len };
        if m * chunk_size < len {
            assert(bytes.subrange(0, prev_end) + bytes.subrange(m * chunk_size, end) =~= bytes.subrange(0, end));
        } else {
            assert(prev_end == len && end == len);
            assert(bytes.subrange(0, prev_end) + Seq::<u8>::empty() =~= bytes.subrange(0, end));
        }
    }
}

/// A state snapshot round trip gives back the data of the CTS and the hashes it serves. From a
/// state `s0`: `controller_create_state_snapshot` gets the data ready (`sp`) and
/// `state_snapshot_created` keeps its candid bytes `b` (`s1`); the `n` chunks that
/// `controller_download_state_snapshot` hands out are all of `b`; `controller_clear_state_snapshot`
/// empties the snapshot (`s2`), and `controller_append_state_snapshot_candid_bytes` appends the
/// chunks in order (`s3`); `controller_re_store_cts_data_out_of_the_state_snapshot` takes the
/// bytes out (`s4`), and `re_store_cts_data` puts back `decoded`, the data that the bytes are
/// read back into (`s5`). The bytes taken out are then `b`, and where `decoded` is the data that
/// `b` was made of, `s5` holds the data of `s0`, with its hashes served as in `s0`, and no
/// snapshot.
pub proof fn lemma_snapshot_round_trip(
    s0: CtsState, sp: CtsState, s1: CtsState, s2: CtsState, s3: CtsState, s4: CtsState, s5: CtsState,
    n: nat, taken: Seq<u8>, decoded: CTSData,
)
    requires
        spec_prepared(s0, sp),
        s1 == (CtsState { state_snapshot_cts_data_candid_bytes: s1.state_snapshot_cts_data_candid_bytes, ..sp }),
        n * STATE_SNAPSHOT_CHUNK_SIZE >= s1.state_snapshot_cts_data_candid_bytes@.len(),
        s2.state_snapshot_cts_data_candid_bytes@.len() == 0,
        s2 == (CtsState { state_snapshot_cts_data_candid_bytes: s2.state_snapshot_cts_data_candid_bytes, ..s1 }),
        s3.state_snapshot_cts_data_candid_bytes@ == s2.state_snapshot_cts_data_candid_bytes@
            + spec_chunks_joined(s1.state_snapshot_cts_data_candid_bytes@, STATE_SNAPSHOT_CHUNK_SIZE as int, n),
        s3 == (CtsState { state_snapshot_cts_data_candid_bytes: s3.state_snapshot_cts_data_candid_bytes, ..s2 }),
        taken == s3.state_snapshot_cts_data_candid_bytes@,
        s4.state_snapshot_cts_data_candid_bytes@.len() == 0,
        s4 == (CtsState { state_snapshot_cts_data_candid_bytes: s4.state_snapshot_cts_data_candid_bytes, ..s3 }),
        spec_re_stored(s4, decoded, s5),
    ensures
        taken == s1.state_snapshot_cts_data_candid_bytes@,
        decoded == sp.cts_data ==> {
            &&& assoc_map(s5.frontcode_files_hashes@) == assoc_map(s0.frontcode_files_hashes@)
            &&& s5.cts_data == (CTSData { frontcode_files_hashes: s5.cts_data.frontcode_files_hashes, ..s0.cts_data })
            &&& s5.state_snapshot_cts_data_candid_bytes@.len() == 0
        },
{
    let b = s1.state_snapshot_cts_data_candid_bytes@;
    lemma_snapshot_chunks_join_to_the_snapshot(b, STATE_SNAPSHOT_CHUNK_SIZE as int, n);
    assert(s2.state_snapshot_cts_data_candid_bytes@ =~= Seq::<u8>::empty());
    assert(taken =~= b);
    if decoded == sp.cts_data {
        lemma_upgrade_keeps_the_data(s0, sp, s4, s5);
    }
}

/// A controller downloads the chunk of the snapshot with the given index, chunks being one
/// mebibyte; `None` past the end.
pub fn controller_download_state_snapshot(state: &CtsState, caller: &Principal, chunk_i: u64) -> (r: Result<Option<Vec<u8>>, CtsTrap>)
    ensures
        !spec_is_controller(*state, caller@) ==> r matches Err(CtsTrap::CallerIsNotAController),
        spec_is_controller(*state, caller@) ==> (r matches Ok(c) && match (c, spec_chunk(state.state_snapshot_cts_data_candid_bytes@, STATE_SNAPSHOT_CHUNK_SIZE as int, chunk_i as int)) {
            (Some(c), Some(s)) => c@ == s,
            (None, None) => true,
            _ => false,
        }),
{
    if !is_controller(state, caller) {
        return Err(CtsTrap::CallerIsNotAController);
    }
    let bytes: &Vec<u8> = &state.state_snapshot_cts_data_candid_bytes;
    let len: usize = bytes.len();
    let n_chunks: u64 = (len / STATE_SNAPSHOT_CHUNK_SIZE) as u64 + if len % STATE_SNAPSHOT_CHUNK_SIZE == 0 { 0 } else { 1 };
    proof {
        let c = STATE_SNAPSHOT_CHUNK_SIZE as int;
        let l = len as int;
        let n = n_chunks as int;
        let k = chunk_i as int;
        assert(k < n <==> k * c < l) by (nonlinear_arith)
            requires c > 0, n == l / c + if l % c == 0 { 0int } else { 1int }, k >= 0, l >= 0;
    }
    if chunk_i >= n_chunks {
        return Ok(None);
    }
    let start: usize = chunk_i as usize * STATE_SNAPSHOT_CHUNK_SIZE;
    let end: usize = if len - start >= STATE_SNAPSHOT_CHUNK_SIZE { start + STATE_SNAPSHOT_CHUNK_SIZE } else { len };
    let mut chunk: Vec<u8> = Vec::new();
    let mut i: usize = start;
    while i < end
        invariant
            start <= i <= end <= len == bytes@.len(),
            chunk@ == bytes@.subrange(start as int, i as int),
        decreases end - i,
    {
        chunk.push(bytes[i]);
        i = i + 1;
        proof {
            assert(chunk@ =~= bytes@.subrange(start as int, i as int));
        }
    }
    Ok(Some(chunk))
}

/// A controller clears the snapshot.
pub fn controller_clear_state_snapshot(state: &mut CtsState, caller: &Principal) -> (r: Result<(), CtsTrap>)
    ensures
        !spec_is_controller(*old(state), caller@) ==> (r matches Err(CtsTrap::CallerIsNotAController) && *final(state) == *old(state)),
        spec_is_controller(*old(state), caller@) ==> {
            &&& r is Ok
            &&& final(state).state_snapshot_cts_data_candid_bytes@.len() == 0
            &&& *final(state) == (CtsState { state_snapshot_cts_data_candid_bytes: final(state).state_snapshot_cts_data_candid_bytes, ..*old(state) })
        },
{
    if !is_controller(state, caller) {
        return Err(CtsTrap::CallerIsNotAController);
    }
    state.state_snapshot_cts_data_candid_bytes = Vec::new();
    Ok(())
}

/// A controller adds bytes at the end of the snapshot.
pub fn controller_append_state_snapshot_candid_bytes(state: &mut CtsState, caller: &Principal, append_bytes: Vec<u8>) -> (r: Result<(), CtsTrap>)
    ensures
        !spec_is_controller(*old(state), caller@) ==> (r matches Err(CtsTrap::CallerIsNotAController) && *final(state) == *old(state)),
        spec_is_controller(*old(state), caller@) ==> {
            &&& r is Ok
            &&& final(state).state_snapshot_cts_data_candid_bytes@ == old(state).state_snapshot_cts_data_candid_bytes@ + append_bytes@
            &&& *final(state) == (CtsState { state_snapshot_cts_data_candid_bytes: final(state).state_snapshot_cts_data_candid_bytes, ..*old(state) })
        },
{
    if !is_controller(state, caller) {
        return Err(CtsTrap::CallerIsNotAController);
    }
    let mut append_bytes = append_bytes;
    state.state_snapshot_cts_data_candid_bytes.append(&mut append_bytes);
    Ok(())
}

/// A controller takes the bytes out of the snapshot, to put the data of the CTS back out of
/// them; the snapshot is left empty.
pub fn controller_re_store_cts_data_out_of_the_state_snapshot(state: &mut CtsState, caller: &Principal) -> (r: Result<Vec<u8>, CtsTrap>)
    ensures
        !spec_is_controller(*old(state), caller@) ==> (r matches Err(CtsTrap::CallerIsNotAController) && *final(state) == *old(state)),
        spec_is_controller(*old(state), caller@) ==> {
            &&& r matches Ok(b) && b@ == old(state).state_snapshot_cts_data_candid_bytes@
            &&& final(state).state_snapshot_cts_data_candid_bytes@.len() == 0
            &&& *final(state) == (CtsState { state_snapshot_cts_data_candid_bytes: final(state).state_snapshot_cts_data_candid_bytes, ..*old(state) })
        },
{
    if !is_controller(state, caller) {
        return Err(CtsTrap::CallerIsNotAController);
    }
    let mut v: Vec<u8> = Vec::new();
    std::mem::swap(&mut v, &mut state.state_snapshot_cts_data_candid_bytes);
    Ok(v)
}

/// The wasm pages that stable memory must grow by to hold the header, the length and the
/// bytes of the data; `None` where it is large enough.
pub fn stable_memory_grow_pages(current_stable_size_wasm_pages: u64, data_len: u64) -> (r: Option<u64>)
    requires
        current_stable_size_wasm_pages * WASM_PAGE_SIZE_BYTES <= u64::MAX,
        STABLE_MEMORY_HEADER_SIZE_BYTES + 8 + data_len <= u64::MAX,
    ensures
        ({
            let current = current_stable_size_wasm_pages * WASM_PAGE_SIZE_BYTES;
            let want = STABLE_MEMORY_HEADER_SIZE_BYTES + 8 + data_len;
            if current < want {
                r == Some(((want - current) / (WASM_PAGE_SIZE_BYTES as int) + 1) as u64)
            } else {
                r is None
            }
        }),
{
    let current: u64 = current_stable_size_wasm_pages * WASM_PAGE_SIZE_BYTES as u64;
    let want: u64 = STABLE_MEMORY_HEADER_SIZE_BYTES + 8 + data_len;
    if current < want {
        Some((want - current) / WASM_PAGE_SIZE_BYTES as u64 + 1)
    } else {
        None
    }
}

/// Growing stable memory by the pages that `stable_memory_grow_pages` asks for makes it large
/// enough.
pub proof fn lemma_grown_stable_memory_is_large_enough(current_stable_size_wasm_pages: u64, data_len: u64)
    requires
        STABLE_MEMORY_HEADER_SIZE_BYTES + 8 + data_len > current_stable_size_wasm_pages * WASM_PAGE_SIZE_BYTES,
    ensures
        ({
            let current = current_stable_size_wasm_pages * WASM_PAGE_SIZE_BYTES;
            let want = STABLE_MEMORY_HEADER_SIZE_BYTES + 8 + data_len;
            (current_stable_size_wasm_pages + (want - current) / (WASM_PAGE_SIZE_BYTES as int) + 1) * WASM_PAGE_SIZE_BYTES >= want
        }),
{
    let p = WASM_PAGE_SIZE_BYTES as int;
    let current = current_stable_size_wasm_pages * p;
    let want = STABLE_MEMORY_HEADER_SIZE_BYTES + 8 + data_len;
    let q = (want - current) / p;
    assert((current_stable_size_wasm_pages + q + 1) * p >= want) by (nonlinear_arith)
        requires p > 0, q == (want - current) / p, want > current, current == current_stable_size_wasm_pages * p;
}

/// The big-endian bytes of a length.
pub open spec fn spec_be_bytes(x: u64) -> Seq<u8> {
    seq![
        (x >> 56u64) as u8, (x >> 48u64) as u8, (x >> 40u64) as u8, (x >> 32u64) as u8,
        (x >> 24u64) as u8, (x >> 16u64) as u8, (x >> 8u64) as u8, x as u8,
    ]
}

/// The length that big-endian bytes stand for.
pub open spec fn spec_from_be_bytes(b: Seq<u8>) -> u64 {
    ((b[0] as u64) << 56u64) | ((b[1] as u64) << 48u64) | ((b[2] as u64) << 40u64) | ((b[3] as u64) << 32u64)
        | ((b[4] as u64) << 24u64) | ((b[5] as u64) << 16u64) | ((b[6] as u64) << 8u64) | (b[7] as u64)
}

/// Writes the length of the data of an upgrade as eight big-endian bytes.
pub fn upgrade_data_len_be_bytes(len: u64) -> (b: [u8; 8])
    ensures
        b@ == spec_be_bytes(len),
{
    let b: [u8; 8] = [
        (len >> 56u64) as u8, (len >> 48u64) as u8, (len >> 40u64) as u8, (len >> 32u64) as u8,
        (len >> 24u64) as u8, (len >> 16u64) as u8, (len >> 8u64) as u8, len as u8,
    ];
    assert(b@ =~= spec_be_bytes(len));
    b
}

/// Reads the length of the data of an upgrade out of eight big-endian bytes.
pub fn upgrade_data_len_from_be_bytes(b: [u8; 8]) -> (len: u64)
    ensures
        len == spec_from_be_bytes(b@),
{
    ((b[0] as u64) << 56u64) | ((b[1] as u64) << 48u64) | ((b[2] as u64) << 40u64) | ((b[3] as u64) << 32u64)
        | ((b[4] as u64) << 24u64) | ((b[5] as u64) << 16u64) | ((b[6] as u64) << 8u64) | (b[7] as u64)
}

/// The length that a pre-upgrade writes is the length that the post-upgrade reads.
pub proof fn lemma_upgrade_data_len_round_trip(len: u64)
    ensures
        spec_from_be_bytes(spec_be_bytes(len)) == len,
{
    let b = spec_be_bytes(len);
    let (b0, b1, b2, b3, b4, b5, b6, b7) = (b[0], b[1], b[2], b[3], b[4], b[5], b[6], b[7]);
    assert(b0 == (len >> 56u64) as u8 && b1 == (len >> 48u64) as u8 && b2 == (len >> 40u64) as u8 && b3 == (len >> 32u64) as u8);
    assert(b4 == (len >> 24u64) as u8 && b5 == (len >> 16u64) as u8 && b6 == (len >> 8u64) as u8 && b7 == len as u8);
    assert(((b0 as u64) << 56u64) | ((b1 as u64) << 48u64) | ((b2 as u64) << 40u64) | ((b3 as u64) << 32u64)
        | ((b4 as u64) << 24u64) | ((b5 as u64) << 16u64) | ((b6 as u64) << 8u64) | (b7 as u64) == len) by (bit_vector)
        requires
            b0 == (len >> 56u64) as u8, b1 == (len >> 48u64) as u8, b2 == (len >> 40u64) as u8, b3 == (len >> 32u64) as u8,
            b4 == (len >> 24u64) as u8, b5 == (len >> 16u64) as u8, b6 == (len >> 8u64) as u8, b7 == len as u8;
}

/// What a pre-upgrade writes to stable memory: the pages to grow it by, where it must grow;
/// the length of the data, as eight big-endian bytes, after the header; and the data after
/// the length.
pub struct PreUpgradeWrites {
    pub grow_pages: Option<u64>,
    pub len_offset: u64,
    pub len_be_bytes: [u8; 8],
    pub data_offset: u64,
}

/// What the pre-upgrade of a CTS whose stable memory has `current_stable_size_wasm_pages`
/// pages writes, for data of `cts_upgrade_data_candid_bytes_len` bytes.
pub fn pre_upgrade(current_stable_size_wasm_pages: u64, cts_upgrade_data_candid_bytes_len: u64) -> (w: PreUpgradeWrites)
    requires
        current_stable_size_wasm_pages * WASM_PAGE_SIZE_BYTES <= u64::MAX,
        STABLE_MEMORY_HEADER_SIZE_BYTES + 8 + cts_upgrade_data_candid_bytes_len <= u64::MAX,
    ensures
        ({
            let current = current_stable_size_wasm_pages * WASM_PAGE_SIZE_BYTES;
            let want = STABLE_MEMORY_HEADER_SIZE_BYTES + 8 + cts_upgrade_data_candid_bytes_len;
            &&& current < want ==> w.grow_pages == Some(((want - current) / (WASM_PAGE_SIZE_BYTES as int) + 1) as u64)
            &&& current >= want ==> w.grow_pages is None
        }),
        w.len_offset == STABLE_MEMORY_HEADER_SIZE_BYTES,
        w.len_be_bytes@ == spec_be_bytes(cts_upgrade_data_candid_bytes_len),
        w.data_offset == STABLE_MEMORY_HEADER_SIZE_BYTES + 8,
{
    PreUpgradeWrites {
        grow_pages: stable_memory_grow_pages(current_stable_size_wasm_pages, cts_upgrade_data_candid_bytes_len),
        len_offset: STABLE_MEMORY_HEADER_SIZE_BYTES,
        len_be_bytes: upgrade_data_len_be_bytes(cts_upgrade_data_candid_bytes_len),
        data_offset: STABLE_MEMORY_HEADER_SIZE_BYTES + 8,
    }
}

/// Where the post-upgrade reads the data, given the eight bytes of the length that it read
/// after the header: the offset of the data, and its length.
pub fn post_upgrade(len_be_bytes: [u8; 8]) -> (r: (u64, u64))
    ensures
        r.0 == STABLE_MEMORY_HEADER_SIZE_BYTES + 8,
        r.1 == spec_from_be_bytes(len_be_bytes@),
{
    (STABLE_MEMORY_HEADER_SIZE_BYTES + 8, upgrade_data_len_from_be_bytes(len_be_bytes))
}

} // verus!
