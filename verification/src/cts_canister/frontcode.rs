use vstd::prelude::*;
use vstd::utf8::encode_utf8;
use crate::principal::Principal;
use crate::assoc::{keys_unique, assoc_map, assoc_contains, assoc_index, assoc_find, lemma_assoc_map_at, lemma_assoc_update, lemma_assoc_push};
use crate::byte_order::{bytes_lt, compare_bytes, ByteOrder, lemma_bytes_lt_trichotomy, lemma_bytes_lt_transitive};
use crate::tools::{sha256, sha256_digest};
use crate::cts_canister::data::{CtsState, CTSData, File, hashes_sorted};
use crate::cts_canister::controller::{CtsTrap, spec_is_controller, is_controller};

verus! {

broadcast use vstd::utf8::encode_utf8_decode_utf8;

/// The bytes of a path.
pub open spec fn path_bytes(s: String) -> Seq<u8> {
    encode_utf8(s@)
}

/// The UTF-8 bytes of a string.
fn string_bytes(s: &String) -> (b: &[u8])
    ensures
        b@ == path_bytes(*s),
{
    s.as_str().as_bytes()
}

/// Paths in order are each there once.
pub proof fn lemma_sorted_hashes_unique(s: Seq<(String, [u8; 32])>)
    requires
        hashes_sorted(s),
    ensures
        keys_unique(s),
{
    assert forall|i: int, j: int| 0 <= i < s.len() && 0 <= j < s.len() && i != j implies #[trigger] s[i].0@ != #[trigger] s[j].0@ by {
        if i < j {
            lemma_bytes_lt_trichotomy(path_bytes(s[i].0), path_bytes(s[j].0));
        } else {
            lemma_bytes_lt_trichotomy(path_bytes(s[j].0), path_bytes(s[i].0));
        }
    }
}

/// Adding an entry at a place, with a key not yet in the list, adds it to the map.
proof fn lemma_assoc_insert_at<V>(s: Seq<(String, V)>, p: int, k: String, v: V)
    requires
        keys_unique(s),
        0 <= p <= s.len(),
        !assoc_contains(s, k@),
    ensures
        keys_unique(s.insert(p, (k, v))),
        assoc_map(s.insert(p, (k, v))) == assoc_map(s).insert(k@, v),
{
    let t = s.insert(p, (k, v));
    assert forall|a: int| 0 <= a < t.len() && a != p implies #[trigger] t[a] == s[if a < p { a } else { a - 1 }] by {}
    assert forall|a: int, b: int| 0 <= a < t.len() && 0 <= b < t.len() && a != b implies #[trigger] t[a].0@ != #[trigger] t[b].0@ by {
        let a2 = if a < p { a } else { a - 1 };
        let b2 = if b < p { b } else { b - 1 };
        if a == p {
            assert(t[b] == s[b2]);
            assert(!(0 <= b2 < s.len() && s[b2].0@ == k@));
        } else if b == p {
            assert(t[a] == s[a2]);
            assert(!(0 <= a2 < s.len() && s[a2].0@ == k@));
        } else {
            assert(t[a] == s[a2]);
            assert(t[b] == s[b2]);
        }
    }
    assert forall|key: Seq<char>| #[trigger] assoc_map(t).dom().contains(key) <==> assoc_map(s).insert(k@, v).dom().contains(key) by {
        if assoc_map(t).dom().contains(key) {
            let a = crate::assoc::assoc_index(t, key);
            if a != p {
                let a2 = if a < p { a } else { a - 1 };
                assert(t[a] == s[a2]);
                assert(assoc_contains(s, key));
            }
        }
        if assoc_map(s).dom().contains(key) {
            let a = crate::assoc::assoc_index(s, key);
            let a2 = if a < p { a } else { a + 1 };
            assert(t[a2] == s[a]);
            assert(assoc_contains(t, key));
        }
        if key == k@ {
            assert(t[p].0@ == key);
        }
    }
    assert forall|key: Seq<char>| #[trigger] assoc_map(t).dom().contains(key) implies assoc_map(t)[key] == assoc_map(s).insert(k@, v)[key] by {
        let a = crate::assoc::assoc_index(t, key);
        lemma_assoc_map_at(t, a);
        if a != p {
            let a2 = if a < p { a } else { a - 1 };
            assert(t[a] == s[a2]);
            lemma_assoc_map_at(s, a2);
        }
    }
    assert(assoc_map(t) =~= assoc_map(s).insert(k@, v));
}

/// Puts the hash of a path into a list of hashes in the order of the paths: in the place of
/// the same path where it is there, in its place in the order otherwise.
pub fn hashes_insert(hashes: &mut Vec<(String, [u8; 32])>, path: String, hash: [u8; 32])
    requires
        hashes_sorted(old(hashes)@),
    ensures
        hashes_sorted(final(hashes)@),
        assoc_map(final(hashes)@) == assoc_map(old(hashes)@).insert(path@, hash),
{
    let ghost s0 = hashes@;
    proof {
        lemma_sorted_hashes_unique(s0);
    }
    let mut i: usize = 0;
    while i < hashes.len()
        invariant
            hashes@ == s0,
            s0 == old(hashes)@,
            hashes_sorted(s0),
            keys_unique(s0),
            i <= s0.len(),
            forall|j: int| 0 <= j < i ==> bytes_lt(path_bytes((#[trigger] s0[j]).0), path_bytes(path)),
        decreases s0.len() - i,
    {
        match compare_bytes(string_bytes(&hashes[i].0), string_bytes(&path)) {
            ByteOrder::Before => {
                i = i + 1;
            },
            ByteOrder::Same => {
                proof {
                    vstd::utf8::encode_utf8_decode_utf8(s0[i as int].0@);
                    vstd::utf8::encode_utf8_decode_utf8(path@);
                    lemma_assoc_update(s0, i as int, path, hash);
                }
                hashes.set(i, (path, hash));
                proof {
                    let t = hashes@;
                    assert forall|a: int, b: int| 0 <= a < b < t.len() implies bytes_lt(path_bytes((#[trigger] t[a]).0), path_bytes((#[trigger] t[b]).0)) by {
                        assert(path_bytes(t[a].0) == path_bytes(s0[a].0));
                        assert(path_bytes(t[b].0) == path_bytes(s0[b].0));
                    }
                }
                return;
            },
            ByteOrder::After => {
                proof {
                    assert(!assoc_contains(s0, path@)) by {
                        if assoc_contains(s0, path@) {
                            let k = crate::assoc::assoc_index(s0, path@);
                            assert(path_bytes(s0[k].0) == path_bytes(path));
                            if k < i {
                                lemma_bytes_lt_trichotomy(path_bytes(s0[k].0), path_bytes(path));
                            } else if k > i {
                                lemma_bytes_lt_transitive(path_bytes(path), path_bytes(s0[i as int].0), path_bytes(s0[k].0));
                                lemma_bytes_lt_trichotomy(path_bytes(path), path_bytes(s0[k].0));
                            } else {
                                lemma_bytes_lt_trichotomy(path_bytes(path), path_bytes(s0[k].0));
                            }
                        }
                    }
                    lemma_assoc_insert_at(s0, i as int, path, hash);
                }
                hashes.insert(i, (path, hash));
                proof {
                    let t = hashes@;
                    let p = i as int;
                    assert forall|a: int, b: int| 0 <= a < b < t.len() implies bytes_lt(path_bytes((#[trigger] t[a]).0), path_bytes((#[trigger] t[b]).0)) by {
                        if a < p && b < p {
                            assert(t[a] == s0[a] && t[b] == s0[b]);
                        } else if a < p && b == p {
                            assert(t[a] == s0[a]);
                        } else if a < p {
                            assert(t[a] == s0[a] && t[b] == s0[b - 1]);
                        } else if a == p {
                            assert(t[b] == s0[b - 1]);
                            if b - 1 > p {
                                lemma_bytes_lt_transitive(path_bytes(path), path_bytes(s0[p].0), path_bytes(s0[b - 1].0));
                            }
                        } else {
                            assert(t[a] == s0[a - 1] && t[b] == s0[b - 1]);
                        }
                    }
                }
                return;
            },
        }
    }
    proof {
        assert(!assoc_contains(s0, path@)) by {
            if assoc_contains(s0, path@) {
                let k = crate::assoc::assoc_index(s0, path@);
                assert(path_bytes(s0[k].0) == path_bytes(path));
                lemma_bytes_lt_trichotomy(path_bytes(s0[k].0), path_bytes(path));
            }
        }
        lemma_assoc_push(s0, path, hash);
    }
    hashes.push((path, hash));
    proof {
        let t = hashes@;
        assert forall|a: int, b: int| 0 <= a < b < t.len() implies bytes_lt(path_bytes((#[trigger] t[a]).0), path_bytes((#[trigger] t[b]).0)) by {
            assert(t[a] == s0[a]);
            if b < s0.len() {
                assert(t[b] == s0[b]);
            }
        }
    }
}

/// The hashes of a list with each path once, put in the order of the paths.
pub fn sort_hashes(hashes: Vec<(String, [u8; 32])>) -> (sorted: Vec<(String, [u8; 32])>)
    requires
        keys_unique(hashes@),
    ensures
        hashes_sorted(sorted@),
        assoc_map(sorted@) == assoc_map(hashes@),
{
    let mut sorted: Vec<(String, [u8; 32])> = Vec::new();
    let mut rest = hashes;
    let ghost all = rest@;
    proof {
        assert(assoc_map(sorted@) =~= assoc_map(all.take(0)));
    }
    let mut i: usize = 0;
    let n: usize = rest.len();
    while i < n
        invariant
            n == all.len(),
            rest@ == all,
            keys_unique(all),
            i <= n,
            hashes_sorted(sorted@),
            assoc_map(sorted@) == assoc_map(all.take(i as int)),
        decreases n - i,
    {
        let path: String = rest[i].0.clone();
        let hash: [u8; 32] = rest[i].1;
        hashes_insert(&mut sorted, path, hash);
        proof {
            let pre = all.take(i as int);
            assert(!assoc_contains(pre, path@)) by {
                if assoc_contains(pre, path@) {
                    let k = crate::assoc::assoc_index(pre, path@);
                    assert(pre[k] == all[k]);
                }
            }
            assert(all.take(i + 1) == pre.push(all[i as int]));
            lemma_assoc_push(pre, all[i as int].0, all[i as int].1);
        }
        i = i + 1;
    }
    proof {
        assert(all.take(n as int) =~= all);
    }
    sorted
}

/// A copy of a list of hashes.
pub fn copy_hashes(hashes: &Vec<(String, [u8; 32])>) -> (r: Vec<(String, [u8; 32])>)
    ensures
        r@ == hashes@,
{
    let mut r: Vec<(String, [u8; 32])> = Vec::new();
    let mut i: usize = 0;
    while i < hashes.len()
        invariant
            i <= hashes@.len(),
            r@ == hashes@.take(i as int),
        decreases hashes@.len() - i,
    {
        r.push((hashes[i].0.clone(), hashes[i].1));
        i = i + 1;
        proof {
            assert(r@ =~= hashes@.take(i as int));
        }
    }
    proof {
        assert(r@ =~= hashes@);
    }
    r
}

/// A controller uploads a file of the front end: its hash and the file are put at its path.
pub fn controller_upload_frontcode_file_chunks(state: &mut CtsState, caller: &Principal, file_path: String, file: File) -> (r: Result<(), CtsTrap>)
    requires
        old(state).wf(),
    ensures
        final(state).wf(),
        !spec_is_controller(*old(state), caller@) ==> (r matches Err(CtsTrap::CallerIsNotAController) && *final(state) == *old(state)),
        spec_is_controller(*old(state), caller@) ==> {
            &&& r is Ok
            &&& exists|h: [u8; 32]| h@ == sha256_digest(file.content@) && #[trigger] assoc_map(final(state).frontcode_files_hashes@)
                    == assoc_map(old(state).frontcode_files_hashes@).insert(file_path@, h)
            &&& assoc_map(final(state).cts_data.frontcode_files@) == assoc_map(old(state).cts_data.frontcode_files@).insert(file_path@, file)
            &&& *final(state) == (CtsState {
                    cts_data: CTSData { frontcode_files: final(state).cts_data.frontcode_files, ..old(state).cts_data },
                    frontcode_files_hashes: final(state).frontcode_files_hashes,
                    ..*old(state)
                })
        },
{
    if !is_controller(state, caller) {
        return Err(CtsTrap::CallerIsNotAController);
    }
    let hash: [u8; 32] = sha256(file.content.as_slice());
    hashes_insert(&mut state.frontcode_files_hashes, file_path.clone(), hash);
    let ghost s0 = state.cts_data.frontcode_files@;
    match assoc_find(&state.cts_data.frontcode_files, &file_path) {
        Some(i) => {
            proof {
                lemma_assoc_update(s0, i as int, file_path, file);
            }
            state.cts_data.frontcode_files.set(i, (file_path, file));
        },
        None => {
            proof {
                lemma_assoc_push(s0, file_path, file);
            }
            state.cts_data.frontcode_files.push((file_path, file));
        },
    }
    Ok(())
}

/// The hashes of the front end of `s1` are those of `s0`, or those of `s0` after an upload at a
/// path other than `path`: what every call but an upload to `path` or a clear does to them.
pub open spec fn spec_hashes_kept_at(s0: CtsState, s1: CtsState, path: Seq<char>) -> bool {
    ||| s1.frontcode_files_hashes@ == s0.frontcode_files_hashes@
    ||| exists|other: Seq<char>, h: [u8; 32]| other != path
            && #[trigger] assoc_map(s1.frontcode_files_hashes@) == assoc_map(s0.frontcode_files_hashes@).insert(other, h)
}

/// A file uploaded at `path` keeps its hash: where `states[0]` is the state just after
/// `controller_upload_frontcode_file_chunks` put the hash `h` of the content at `path`, and
/// each later state follows the one before by a call that does not upload to `path` or clear
/// the files, the hashes that `controller_get_file_hashes` hands out in the last state hold
/// `path` exactly once, with `h`, the SHA-256 digest of the content.
pub proof fn lemma_an_uploaded_file_keeps_its_hash(states: Seq<CtsState>, path: Seq<char>, content: Seq<u8>, h: [u8; 32])
    requires
        states.len() > 0,
        h@ == sha256_digest(content),
        assoc_map(states[0].frontcode_files_hashes@).dom().contains(path),
        assoc_map(states[0].frontcode_files_hashes@)[path] == h,
        forall|i: int| 0 <= i < states.len() ==> (#[trigger] states[i]).wf(),
        forall|i: int| 0 <= i < states.len() - 1 ==> spec_hashes_kept_at(#[trigger] states[i], states[i + 1], path),
    ensures
        ({
            let v = states.last().frontcode_files_hashes@;
            exists|j: int| 0 <= j < v.len() && v[j].0@ == path && (#[trigger] v[j]).1@ == sha256_digest(content)
                && forall|k: int| 0 <= k < v.len() && (#[trigger] v[k]).0@ == path ==> k == j
        }),
{
    lemma_hash_kept(states, path, h, (states.len() - 1) as nat);
    let v = states.last().frontcode_files_hashes@;
    lemma_sorted_hashes_unique(v);
    let j = assoc_index(v, path);
    assert(assoc_contains(v, path));
    assert(v[j].0@ == path);
    lemma_assoc_map_at(v, j);
    assert(v[j].1 == h);
    assert forall|k: int| 0 <= k < v.len() && (#[trigger] v[k]).0@ == path implies k == j by {
        if k != j {
            assert(v[k].0@ != v[j].0@);
        }
    }
}

proof fn lemma_hash_kept(states: Seq<CtsState>, path: Seq<char>, h: [u8; 32], n: nat)
    requires
        n < states.len(),
        assoc_map(states[0].frontcode_files_hashes@).dom().contains(path),
        assoc_map(states[0].frontcode_files_hashes@)[path] == h,
        forall|i: int| 0 <= i < states.len() - 1 ==> spec_hashes_kept_at(#[trigger] states[i], states[i + 1], path),
    ensures
        assoc_map(states[n as int].frontcode_files_hashes@).dom().contains(path),
        assoc_map(states[n as int].frontcode_files_hashes@)[path] == h,
    decreases n,
{
    if n > 0 {
        let m = (n - 1) as int;
        lemma_hash_kept(states, path, h, (n - 1) as nat);
        assert(spec_hashes_kept_at(states[m], states[m + 1], path));
        let a = assoc_map(states[m].frontcode_files_hashes@);
        if states[m + 1].frontcode_files_hashes@ == states[m].frontcode_files_hashes@ {
        } else {
            let (other, h2) = choose|other: Seq<char>, h2: [u8; 32]| other != path
                && #[trigger] assoc_map(states[m + 1].frontcode_files_hashes@) == assoc_map(states[m].frontcode_files_hashes@).insert(other, h2);
            assert(assoc_map(states[m + 1].frontcode_files_hashes@) == a.insert(other, h2));
        }
    }
}

/// A controller clears all the files of the front end and their hashes.
pub fn controller_clear_frontcode_files(state: &mut CtsState, caller: &Principal) -> (r: Result<(), CtsTrap>)
    requires
        old(state).wf(),
    ensures
        final(state).wf(),
        !spec_is_controller(*old(state), caller@) ==> (r matches Err(CtsTrap::CallerIsNotAController) && *final(state) == *old(state)),
        spec_is_controller(*old(state), caller@) ==> {
            &&& r is Ok
            &&& final(state).frontcode_files_hashes@.len() == 0
            &&& final(state).cts_data.frontcode_files@.len() == 0
            &&& *final(state) == (CtsState {
                    cts_data: CTSData { frontcode_files: final(state).cts_data.frontcode_files, ..old(state).cts_data },
                    frontcode_files_hashes: final(state).frontcode_files_hashes,
                    ..*old(state)
                })
        },
{
    if !is_controller(state, caller) {
        return Err(CtsTrap::CallerIsNotAController);
    }
    state.cts_data.frontcode_files = Vec::new();
    state.frontcode_files_hashes = Vec::new();
    Ok(())
}

/// A controller sees the hashes of the files of the front end, each path once, in the order
/// of the paths' bytes.
pub fn controller_get_file_hashes(state: &CtsState, caller: &Principal) -> (r: Result<Vec<(String, [u8; 32])>, CtsTrap>)
    ensures
        !spec_is_controller(*state, caller@) ==> r matches Err(CtsTrap::CallerIsNotAController),
        spec_is_controller(*state, caller@) ==> (r matches Ok(v) && v@ == state.frontcode_files_hashes@),
{
    if !is_controller(state, caller) {
        return Err(CtsTrap::CallerIsNotAController);
    }
    Ok(copy_hashes(&state.frontcode_files_hashes))
}

/// The answer to a request for a file of the front end.
pub struct HttpResponse {
    pub status_code: u16,
    pub headers: Vec<(String, String)>,
    pub body: Vec<u8>,
}

/// Serves the file of the front end at the path `url`: 404 with no headers and an empty body
/// where there is none; 200 otherwise, with the certificate header that is handed in, the
/// content type and the content encoding of the file, and its content. Refused while the CTS
/// stops taking calls.
pub fn http_request(state: &CtsState, url: &String, certificate_header: (String, String)) -> (r: Result<HttpResponse, CtsTrap>)
    requires
        state.wf(),
    ensures
        state.stop_calls ==> r matches Err(CtsTrap::Maintenance),
        !state.stop_calls ==> (r matches Ok(resp) && {
            let files = assoc_map(state.cts_data.frontcode_files@);
            if files.dom().contains(url@) {
                let file = files[url@];
                &&& resp.status_code == 200
                &&& resp.headers@.len() == 3
                &&& resp.headers@[0] == certificate_header
                &&& resp.headers@[1].0@ == "content-type"@
                &&& resp.headers@[1].1@ == file.content_type@
                &&& resp.headers@[2].0@ == "content-encoding"@
                &&& resp.headers@[2].1@ == file.content_encoding@
                &&& resp.body@ == file.content@
            } else {
                &&& resp.status_code == 404
                &&& resp.headers@.len() == 0
                &&& resp.body@.len() == 0
            }
        }),
{
    if state.stop_calls {
        return Err(CtsTrap::Maintenance);
    }
    match assoc_find(&state.cts_data.frontcode_files, url) {
        None => {
            Ok(HttpResponse { status_code: 404, headers: Vec::new(), body: Vec::new() })
        },
        Some(i) => {
            proof {
                lemma_assoc_map_at(state.cts_data.frontcode_files@, i as int);
            }
            let file: &File = &state.cts_data.frontcode_files[i].1;
            let mut headers: Vec<(String, String)> = Vec::new();
            headers.push(certificate_header);
            headers.push(("content-type".to_string(), file.content_type.clone()));
            headers.push(("content-encoding".to_string(), file.content_encoding.clone()));
            Ok(HttpResponse { status_code: 200, headers, body: file.content.clone() })
        },
    }
}

} // verus!
