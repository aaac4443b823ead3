use vstd::prelude::*;
use crate::principal::Principal;
use crate::tools::{CallError, Cycles};
use crate::consts::{MiB, KiB};
use crate::types::canister_code::CanisterCode;
use crate::types::management_canister::{ManagementCanisterInstallCodeQuest, ManagementCanisterInstallCodeMode};

verus! {

/// The size of the buffer of logs at which it is flushed into a storage canister.
pub const FLUSH_STORAGE_BUFFER_AT_SIZE: usize = 5242880;

/// The largest chunk of the buffer that one flush call sends, before it is cut down to whole
/// logs.
pub const FLUSH_STORAGE_BUFFER_CHUNK_SIZE_BEFORE_MODULO: usize = 1572864;

/// The cycles that a new storage canister is made with.
pub const CREATE_STORAGE_CANISTER_CYCLES: Cycles = 10_000_000_000_000;

/// Why a new storage canister was not made.
pub enum CreateStorageCanisterError {
    CreateCanisterCallError(CallError),
    InstallCodeCandidError(String),
    InstallCodeCallError(CallError),
}

/// Why a flush of the logs failed.
pub enum FlushLogsStorageError {
    CreateStorageCanisterError(CreateStorageCanisterError),
    StorageCanisterCallError(CallError),
    NewStorageCanisterIsFull,
}

/// What a market knows of one of its storage canisters.
pub struct StorageCanisterData {
    pub log_size: u32,
    pub first_log_id: u128,
    pub length: u64,
    pub is_full: bool,
    pub canister_id: Principal,
    pub creation_timestamp: u128,
    pub module_hash: [u8; 32],
}

/// The argument with which a storage canister is installed.
pub struct StorageCanisterInit {
    pub log_size: u32,
}

/// The logs of a market that wait to be flushed, and its storage canisters.
pub struct LogStorageData {
    pub storage_canisters: Vec<StorageCanisterData>,
    pub storage_buffer: Vec<u8>,
    pub storage_flush_lock: bool,
    pub flush_storage_errors: Vec<(FlushLogsStorageError, u64)>,
    pub create_storage_canister_temp_holder: Option<Principal>,
    pub storage_canister_code: CanisterCode,
    pub storage_canister_init: StorageCanisterInit,
}

/// Begins a flush where the buffer is large enough and no flush is going on: the flush lock
/// is taken. Says whether the flush goes on.
pub fn flush_logs_start(data: &mut LogStorageData) -> (go: bool)
    ensures
        go == (old(data).storage_buffer@.len() >= FLUSH_STORAGE_BUFFER_AT_SIZE && !old(data).storage_flush_lock),
        go ==> *final(data) == (LogStorageData { storage_flush_lock: true, ..*old(data) }),
        !go ==> *final(data) == *old(data),
{
    if data.storage_buffer.len() >= FLUSH_STORAGE_BUFFER_AT_SIZE && !data.storage_flush_lock {
        data.storage_flush_lock = true;
        true
    } else {
        false
    }
}

/// The storage canister that the logs go to: the last one, where it is not full; `None`
/// where a new one must be made.
pub fn flush_logs_storage_canister(data: &LogStorageData) -> (r: Option<Principal>)
    ensures
        ({
            let s = data.storage_canisters@;
            if s.len() > 0 && !s.last().is_full {
                r matches Some(p) && p@ == s.last().canister_id@
            } else {
                r is None
            }
        }),
{
    let n: usize = data.storage_canisters.len();
    if n > 0 && !data.storage_canisters[n - 1].is_full {
        Some(data.storage_canisters[n - 1].canister_id.copy())
    } else {
        None
    }
}

/// The flush ends where a new storage canister could not be made: the lock is let go and the
/// error is kept with its time.
pub fn flush_logs_create_storage_canister_failed(data: &mut LogStorageData, e: CreateStorageCanisterError, now_nanos: u64)
    ensures
        final(data).flush_storage_errors@ == old(data).flush_storage_errors@.push((FlushLogsStorageError::CreateStorageCanisterError(e), now_nanos)),
        *final(data) == (LogStorageData {
            storage_flush_lock: false,
            flush_storage_errors: final(data).flush_storage_errors,
            ..*old(data)
        }),
{
    data.storage_flush_lock = false;
    data.flush_storage_errors.push((FlushLogsStorageError::CreateStorageCanisterError(e), now_nanos));
}

/// The largest chunk that holds whole logs of the given size.
pub open spec fn spec_max_chunk_size(log_size: int) -> int {
    FLUSH_STORAGE_BUFFER_CHUNK_SIZE_BEFORE_MODULO - (FLUSH_STORAGE_BUFFER_CHUNK_SIZE_BEFORE_MODULO as int % log_size)
}

/// The sizes of the chunks that a buffer of `len` bytes is cut into, chunks of `m` bytes and a
/// shorter last one.
pub open spec fn spec_chunk_sizes(len: int, m: int) -> Seq<usize>
    decreases len,
{
    if len <= 0 || m <= 0 {
        Seq::empty()
    } else if len <= m {
        seq![len as usize]
    } else {
        seq![m as usize] + spec_chunk_sizes(len - m, m)
    }
}

/// The sum of a list of sizes.
pub open spec fn spec_sum(s: Seq<usize>) -> int
    decreases s.len(),
{
    if s.len() == 0 { 0 } else { s[0] + spec_sum(s.drop_first()) }
}

/// The chunks of a buffer add up to the whole buffer, and each holds at least one byte and
/// at most the largest chunk.
pub proof fn lemma_chunk_sizes_cover_the_buffer(len: int, m: int)
    requires
        0 <= len <= usize::MAX,
        0 < m <= usize::MAX,
    ensures
        spec_sum(spec_chunk_sizes(len, m)) == len,
        forall|j: int| 0 <= j < spec_chunk_sizes(len, m).len() ==> 0 < #[trigger] spec_chunk_sizes(len, m)[j] <= m,
    decreases len,
{
    let s = spec_chunk_sizes(len, m);
    if len == 0 {
    } else if len <= m {
        assert(s.drop_first() =~= Seq::<usize>::empty());
        assert(s[0] == len);
        assert(spec_sum(s.drop_first()) == 0);
        assert(spec_sum(s) == s[0] + spec_sum(s.drop_first()));
    } else {
        lemma_chunk_sizes_cover_the_buffer(len - m, m);
        assert(s[0] == m);
        assert(s.drop_first() =~= spec_chunk_sizes(len - m, m));
        assert(spec_sum(s) == s[0] + spec_sum(s.drop_first()));
        assert forall|j: int| 0 <= j < s.len() implies 0 < #[trigger] s[j] <= m by {
            if j > 0 {
                assert(s[j] == spec_chunk_sizes(len - m, m)[j - 1]);
            }
        }
    }
}

/// The chunks of a buffer of `len` bytes cut for storage canisters whose logs are `log_size`
/// bytes each hold whole logs: each chunk but the last is the largest number of whole logs that
/// fits in the largest chunk, a multiple of `log_size` no more than
/// `FLUSH_STORAGE_BUFFER_CHUNK_SIZE_BEFORE_MODULO` with no room for one log more; the last
/// holds the rest, no more than that.
pub proof fn lemma_chunks_hold_whole_logs(len: int, log_size: int)
    requires
        0 <= len <= usize::MAX,
        0 < log_size <= FLUSH_STORAGE_BUFFER_CHUNK_SIZE_BEFORE_MODULO,
    ensures
        ({
            let sizes = spec_chunk_sizes(len, spec_max_chunk_size(log_size));
            &&& spec_sum(sizes) == len
            &&& forall|j: int| 0 <= j < sizes.len() - 1 ==> {
                &&& (#[trigger] sizes[j]) as int % log_size == 0
                &&& sizes[j] <= FLUSH_STORAGE_BUFFER_CHUNK_SIZE_BEFORE_MODULO
                &&& sizes[j] + log_size > FLUSH_STORAGE_BUFFER_CHUNK_SIZE_BEFORE_MODULO
            }
            &&& sizes.len() > 0 ==> 0 < sizes[sizes.len() - 1] <= FLUSH_STORAGE_BUFFER_CHUNK_SIZE_BEFORE_MODULO
        }),
{
    let b = FLUSH_STORAGE_BUFFER_CHUNK_SIZE_BEFORE_MODULO as int;
    let m = spec_max_chunk_size(log_size);
    let q = b / log_size;
    let r = b % log_size;
    vstd::arithmetic::div_mod::lemma_fundamental_div_mod(b, log_size);
    assert(0 <= r < log_size);
    assert(m == q * log_size) by (nonlinear_arith)
        requires m == b - r, b == log_size * q + r;
    vstd::arithmetic::div_mod::lemma_mod_multiples_basic(q, log_size);
    assert(m > 0) by (nonlinear_arith)
        requires m == b - r, 0 <= r < log_size, log_size <= b;
    lemma_chunk_sizes_cover_the_buffer(len, m);
    lemma_chunk_sizes_all_full_but_the_last(len, m);
}

/// Every chunk but the last is of the largest size.
proof fn lemma_chunk_sizes_all_full_but_the_last(len: int, m: int)
    requires
        0 <= len,
        0 < m <= usize::MAX,
    ensures
        forall|j: int| 0 <= j < spec_chunk_sizes(len, m).len() - 1 ==> #[trigger] spec_chunk_sizes(len, m)[j] == m,
    decreases len,
{
    let s = spec_chunk_sizes(len, m);
    if len > m {
        lemma_chunk_sizes_all_full_but_the_last(len - m, m);
        assert(s == seq![m as usize] + spec_chunk_sizes(len - m, m));
        assert forall|j: int| 0 <= j < s.len() - 1 implies #[trigger] s[j] == m by {
            if j == 0 {
                assert(s[0] == m as usize);
            } else {
                assert(s[j] == spec_chunk_sizes(len - m, m)[j - 1]);
            }
        }
    }
}

/// The sizes of the chunks in which the buffer is flushed: chunks of as many whole logs of
/// the last storage canister as fit into one and a half mebibytes, and a shorter last one.
pub fn flush_chunk_sizes(data: &LogStorageData) -> (sizes: Vec<usize>)
    requires
        data.storage_canisters@.len() > 0,
        0 < data.storage_canisters@.last().log_size <= FLUSH_STORAGE_BUFFER_CHUNK_SIZE_BEFORE_MODULO,
    ensures
        sizes@ == spec_chunk_sizes(data.storage_buffer@.len() as int, spec_max_chunk_size(data.storage_canisters@.last().log_size as int)),
        spec_sum(sizes@) == data.storage_buffer@.len(),
        forall|j: int| 0 <= j < sizes@.len() - 1 ==> {
            &&& (#[trigger] sizes@[j]) as int % (data.storage_canisters@.last().log_size as int) == 0
            &&& sizes@[j] <= FLUSH_STORAGE_BUFFER_CHUNK_SIZE_BEFORE_MODULO
            &&& sizes@[j] + data.storage_canisters@.last().log_size > FLUSH_STORAGE_BUFFER_CHUNK_SIZE_BEFORE_MODULO
        },
{
    let log_size: usize = data.storage_canisters[data.storage_canisters.len() - 1].log_size as usize;
    let max_chunk_size: usize = FLUSH_STORAGE_BUFFER_CHUNK_SIZE_BEFORE_MODULO - (FLUSH_STORAGE_BUFFER_CHUNK_SIZE_BEFORE_MODULO % log_size);
    assert(max_chunk_size > 0) by (nonlinear_arith)
        requires max_chunk_size == FLUSH_STORAGE_BUFFER_CHUNK_SIZE_BEFORE_MODULO - (FLUSH_STORAGE_BUFFER_CHUNK_SIZE_BEFORE_MODULO as int % (log_size as int)),
            0 < log_size <= FLUSH_STORAGE_BUFFER_CHUNK_SIZE_BEFORE_MODULO;
    let len: usize = data.storage_buffer.len();
    proof {
        lemma_chunks_hold_whole_logs(len as int, data.storage_canisters@.last().log_size as int);
    }
    let ghost target = spec_chunk_sizes(len as int, max_chunk_size as int);
    let mut sizes: Vec<usize> = Vec::new();
    let mut rest: usize = len;
    while rest > 0
        invariant
            max_chunk_size > 0,
            rest <= len,
            sizes@ + spec_chunk_sizes(rest as int, max_chunk_size as int) == target,
        decreases rest,
    {
        if rest <= max_chunk_size {
            proof {
                assert(spec_chunk_sizes(rest as int, max_chunk_size as int) == seq![rest]);
                assert(spec_chunk_sizes(0, max_chunk_size as int) =~= Seq::<usize>::empty());
                assert(sizes@.push(rest) + Seq::<usize>::empty() =~= sizes@ + seq![rest]);
            }
            sizes.push(rest);
            rest = 0;
        } else {
            proof {
                assert(spec_chunk_sizes(rest as int, max_chunk_size as int)
                    == seq![max_chunk_size] + spec_chunk_sizes(rest - max_chunk_size, max_chunk_size as int));
                assert(sizes@.push(max_chunk_size) + spec_chunk_sizes(rest - max_chunk_size, max_chunk_size as int)
                    =~= sizes@ + (seq![max_chunk_size] + spec_chunk_sizes(rest - max_chunk_size, max_chunk_size as int)));
            }
            sizes.push(max_chunk_size);
            rest = rest - max_chunk_size;
        }
    }
    proof {
        assert(spec_chunk_sizes(0, max_chunk_size as int) =~= Seq::<usize>::empty());
        assert(sizes@ =~= sizes@ + Seq::<usize>::empty());
    }
    sizes
}

/// A chunk was stored: the last storage canister counts the whole logs of the chunk more, and
/// the chunk leaves the front of the buffer.
pub fn flush_chunk_stored(data: &mut LogStorageData, chunk_size: usize)
    requires
        old(data).storage_canisters@.len() > 0,
        old(data).storage_canisters@.last().log_size > 0,
        chunk_size <= old(data).storage_buffer@.len(),
        old(data).storage_canisters@.last().length + (chunk_size as int) / (old(data).storage_canisters@.last().log_size as int) <= u64::MAX,
    ensures
        ({
            let n = old(data).storage_canisters@.len() - 1;
            let last = old(data).storage_canisters@[n];
            &&& final(data).storage_buffer@ == old(data).storage_buffer@.skip(chunk_size as int)
            &&& final(data).storage_canisters@.len() == old(data).storage_canisters@.len()
            &&& forall|i: int| 0 <= i < n ==> #[trigger] final(data).storage_canisters@[i] == old(data).storage_canisters@[i]
            &&& final(data).storage_canisters@[n] == (StorageCanisterData {
                    length: (last.length + (chunk_size as int) / (last.log_size as int)) as u64,
                    ..last
                })
            &&& *final(data) == (LogStorageData {
                    storage_canisters: final(data).storage_canisters,
                    storage_buffer: final(data).storage_buffer,
                    ..*old(data)
                })
        }),
{
    let n: usize = data.storage_canisters.len() - 1;
    let mut canisters: Vec<StorageCanisterData> = Vec::new();
    std::mem::swap(&mut canisters, &mut data.storage_canisters);
    let mut last: StorageCanisterData = canisters.pop().unwrap();
    last.length = last.length + (chunk_size / last.log_size as usize) as u64;
    canisters.push(last);
    data.storage_canisters = canisters;
    let mut rest: Vec<u8> = Vec::new();
    let mut i: usize = chunk_size;
    while i < data.storage_buffer.len()
        invariant
            chunk_size <= i <= data.storage_buffer@.len(),
            data.storage_buffer@ == old(data).storage_buffer@,
            rest@ == old(data).storage_buffer@.subrange(chunk_size as int, i as int),
        decreases data.storage_buffer@.len() - i,
    {
        rest.push(data.storage_buffer[i]);
        i = i + 1;
        proof {
            assert(rest@ =~= old(data).storage_buffer@.subrange(chunk_size as int, i as int));
        }
    }
    data.storage_buffer = rest;
    proof {
        assert(data.storage_buffer@ =~= old(data).storage_buffer@.skip(chunk_size as int));
    }
}

/// The last storage canister said that it is full: it is marked full, and this flush stops.
pub fn flush_storage_is_full(data: &mut LogStorageData)
    requires
        old(data).storage_canisters@.len() > 0,
    ensures
        ({
            let n = old(data).storage_canisters@.len() - 1;
            &&& final(data).storage_canisters@ == old(data).storage_canisters@.update(
                    n, StorageCanisterData { is_full: true, ..old(data).storage_canisters@[n] })
            &&& *final(data) == (LogStorageData { storage_canisters: final(data).storage_canisters, ..*old(data) })
        }),
{
    let mut canisters: Vec<StorageCanisterData> = Vec::new();
    std::mem::swap(&mut canisters, &mut data.storage_canisters);
    let mut last: StorageCanisterData = canisters.pop().unwrap();
    last.is_full = true;
    canisters.push(last);
    data.storage_canisters = canisters;
    proof {
        assert(data.storage_canisters@ =~= old(data).storage_canisters@.update(
            old(data).storage_canisters@.len() - 1,
            StorageCanisterData { is_full: true, ..old(data).storage_canisters@[old(data).storage_canisters@.len() - 1] }));
    }
}

/// The flush call failed: the error is kept with its time, and this flush stops.
pub fn flush_call_failed(data: &mut LogStorageData, call_error: CallError, now_nanos: u64)
    ensures
        final(data).flush_storage_errors@ == old(data).flush_storage_errors@.push((FlushLogsStorageError::StorageCanisterCallError(call_error), now_nanos)),
        *final(data) == (LogStorageData { flush_storage_errors: final(data).flush_storage_errors, ..*old(data) }),
{
    data.flush_storage_errors.push((FlushLogsStorageError::StorageCanisterCallError(call_error), now_nanos));
}

/// The flush is over: the lock is let go.
pub fn flush_logs_finish(data: &mut LogStorageData)
    ensures
        *final(data) == (LogStorageData { storage_flush_lock: false, ..*old(data) }),
{
    data.storage_flush_lock = false;
}

/// Takes the canister that was made for storage but not installed yet, where there is one.
pub fn take_create_storage_canister_temp_holder(data: &mut LogStorageData) -> (r: Option<Principal>)
    ensures
        r == old(data).create_storage_canister_temp_holder,
        *final(data) == (LogStorageData { create_storage_canister_temp_holder: None, ..*old(data) }),
{
    data.create_storage_canister_temp_holder.take()
}

/// The first log id of a new storage canister: where the last one ends, zero where there is
/// none.
pub open spec fn spec_next_first_log_id(canisters: Seq<StorageCanisterData>) -> int {
    if canisters.len() == 0 {
        0
    } else {
        canisters.last().first_log_id + canisters.last().length
    }
}

/// What a new storage canister is installed with, taken when its install request is made:
/// the log size of the argument that storage canisters are installed with, and the hash that
/// the storage canister code carries.
pub struct StorageCanisterInstalling {
    pub log_size: u32,
    pub module_hash: [u8; 32],
}

/// What a new storage canister is installed with, as the data holds it when the install
/// request is made.
pub fn storage_canister_installing(data: &LogStorageData) -> (r: StorageCanisterInstalling)
    ensures
        r.log_size == data.storage_canister_init.log_size,
        r.module_hash@ == data.storage_canister_code.module_hash_view(),
{
    StorageCanisterInstalling {
        log_size: data.storage_canister_init.log_size,
        module_hash: *data.storage_canister_code.module_hash(),
    }
}

/// A new storage canister was installed with what `storage_canister_installing` took when its
/// install request was made: it is added after the others, its logs numbered on from where the
/// last one ends, empty and not full, with that log size and module hash.
pub fn storage_canister_installed(data: &mut LogStorageData, canister_id: Principal, installing: StorageCanisterInstalling, now_nanos: u128)
    requires
        spec_next_first_log_id(old(data).storage_canisters@) <= u128::MAX,
    ensures
        ({
            let n = final(data).storage_canisters@.len() - 1;
            let c = final(data).storage_canisters@[n];
            &&& final(data).storage_canisters@.len() == old(data).storage_canisters@.len() + 1
            &&& final(data).storage_canisters@.take(n) == old(data).storage_canisters@
            &&& c.log_size == installing.log_size
            &&& c.first_log_id == spec_next_first_log_id(old(data).storage_canisters@)
            &&& c.length == 0
            &&& !c.is_full
            &&& c.canister_id == canister_id
            &&& c.creation_timestamp == now_nanos
            &&& c.module_hash == installing.module_hash
        }),
        *final(data) == (LogStorageData { storage_canisters: final(data).storage_canisters, ..*old(data) }),
{
    let n: usize = data.storage_canisters.len();
    let first_log_id: u128 = if n == 0 {
        0
    } else {
        data.storage_canisters[n - 1].first_log_id + data.storage_canisters[n - 1].length as u128
    };
    data.storage_canisters.push(StorageCanisterData {
        log_size: installing.log_size,
        first_log_id,
        length: 0,
        is_full: false,
        canister_id,
        creation_timestamp: now_nanos,
        module_hash: installing.module_hash,
    });
    proof {
        assert(data.storage_canisters@.take(n as int) =~= old(data).storage_canisters@);
    }
}

/// The install request of a new storage canister: mode `install`, the storage canister code,
/// and `init_arg`, the candid bytes of the argument that storage canisters are installed with.
pub fn storage_canister_install_code_quest<'a>(data: &'a LogStorageData, canister_id: &Principal, init_arg: &'a [u8]) -> (q: ManagementCanisterInstallCodeQuest<'a>)
    ensures
        q.mode is install,
        q.canister_id@ == canister_id@,
        q.wasm_module@ == data.storage_canister_code.module_view(),
        q.arg@ == init_arg@,
{
    ManagementCanisterInstallCodeQuest {
        mode: ManagementCanisterInstallCodeMode::install,
        canister_id: canister_id.copy(),
        wasm_module: data.storage_canister_code.module().as_slice(),
        arg: init_arg,
    }
}

/// What a storage canister answered to a chunk of logs.
pub enum FlushAnswer {
    Stored,
    StorageIsFull,
    CallError(CallError),
}

/// The chunk that a flush sends next: the first `chunk_size` bytes of the buffer.
pub fn flush_chunk(data: &LogStorageData, chunk_size: usize) -> (chunk: Vec<u8>)
    requires
        chunk_size <= data.storage_buffer@.len(),
    ensures
        chunk@ == data.storage_buffer@.take(chunk_size as int),
{
    let mut chunk: Vec<u8> = Vec::new();
    let mut i: usize = 0;
    while i < chunk_size
        invariant
            i <= chunk_size <= data.storage_buffer@.len(),
            chunk@ == data.storage_buffer@.take(i as int),
        decreases chunk_size - i,
    {
        chunk.push(data.storage_buffer[i]);
        i = i + 1;
        proof {
            assert(chunk@ =~= data.storage_buffer@.take(i as int));
        }
    }
    chunk
}

/// Takes a flush on after the answer to the chunk of `chunk_size` bytes that `flush_chunk`
/// gave, and says whether it goes on. A stored chunk leaves the front of the buffer and is
/// counted, and the flush goes on. A full storage canister is marked full, and a failed call
/// is kept as an error with its time; either ends the flush, and the lock is let go.
pub fn flush_chunk_answered(data: &mut LogStorageData, chunk_size: usize, answer: FlushAnswer, now_nanos: u64) -> (go_on: bool)
    requires
        old(data).storage_canisters@.len() > 0,
        old(data).storage_canisters@.last().log_size > 0,
        chunk_size <= old(data).storage_buffer@.len(),
        answer is Stored ==> old(data).storage_canisters@.last().length + (chunk_size as int) / (old(data).storage_canisters@.last().log_size as int) <= u64::MAX,
    ensures
        go_on == (answer is Stored),
        ({
            let n = old(data).storage_canisters@.len() - 1;
            let last = old(data).storage_canisters@[n];
            match answer {
                FlushAnswer::Stored => {
                    &&& final(data).storage_buffer@ == old(data).storage_buffer@.skip(chunk_size as int)
                    &&& final(data).storage_canisters@ == old(data).storage_canisters@.update(n,
                            StorageCanisterData { length: (last.length + (chunk_size as int) / (last.log_size as int)) as u64, ..last })
                    &&& *final(data) == (LogStorageData {
                            storage_canisters: final(data).storage_canisters,
                            storage_buffer: final(data).storage_buffer,
                            ..*old(data)
                        })
                },
                FlushAnswer::StorageIsFull => {
                    &&& final(data).storage_canisters@ == old(data).storage_canisters@.update(n, StorageCanisterData { is_full: true, ..last })
                    &&& *final(data) == (LogStorageData {
                            storage_canisters: final(data).storage_canisters,
                            storage_flush_lock: false,
                            ..*old(data)
                        })
                },
                FlushAnswer::CallError(e) => {
                    &&& final(data).flush_storage_errors@ == old(data).flush_storage_errors@.push((FlushLogsStorageError::StorageCanisterCallError(e), now_nanos))
                    &&& *final(data) == (LogStorageData {
                            flush_storage_errors: final(data).flush_storage_errors,
                            storage_flush_lock: false,
                            ..*old(data)
                        })
                },
            }
        }),
{
    match answer {
        FlushAnswer::Stored => {
            flush_chunk_stored(data, chunk_size);
            proof {
                let n = old(data).storage_canisters@.len() - 1;
                assert(data.storage_canisters@ =~= old(data).storage_canisters@.update(n,
                    StorageCanisterData { length: (old(data).storage_canisters@[n].length + (chunk_size as int) / (old(data).storage_canisters@[n].log_size as int)) as u64, ..old(data).storage_canisters@[n] }));
            }
            true
        },
        FlushAnswer::StorageIsFull => {
            flush_storage_is_full(data);
            flush_logs_finish(data);
            false
        },
        FlushAnswer::CallError(e) => {
            flush_call_failed(data, e, now_nanos);
            flush_logs_finish(data);
            false
        },
    }
}

/// The chunks that a flush stores are the buffer from its front, one after the other: after
/// `a` bytes have left it, the next chunk of `c` bytes is the bytes `a..a + c` of the buffer
/// that the flush began with, and what stays is the buffer after them.
pub proof fn lemma_flushed_chunks_follow_each_other(buffer: Seq<u8>, a: int, c: int)
    requires
        0 <= a,
        0 <= c,
        a + c <= buffer.len(),
    ensures
        buffer.skip(a).take(c) == buffer.subrange(a, a + c),
        buffer.skip(a).skip(c) == buffer.skip(a + c),
{
    assert(buffer.skip(a).take(c) =~= buffer.subrange(a, a + c));
    assert(buffer.skip(a).skip(c) =~= buffer.skip(a + c));
}

/// The code could not be installed on a new storage canister: the canister is kept for the
/// next try.
pub fn storage_canister_install_failed(data: &mut LogStorageData, canister_id: Principal)
    ensures
        *final(data) == (LogStorageData { create_storage_canister_temp_holder: Some(canister_id), ..*old(data) }),
{
    data.create_storage_canister_temp_holder = Some(canister_id);
}

} // verus!
