use vstd::prelude::*;
use crate::principal::Principal;

verus! {

/// A key whose equality can be tested, and means that the views are the same.
pub trait KeyEq: View + Sized {
    fn key_eq(&self, other: &Self) -> (r: bool)
        ensures
            r == (self@ == other@);
}

impl KeyEq for Principal {
    fn key_eq(&self, other: &Self) -> (r: bool) {
        self.same_as(other)
    }
}

impl KeyEq for String {
    fn key_eq(&self, other: &Self) -> (r: bool) {
        *self == *other
    }
}

/// No two entries of the list have the same key.
pub open spec fn keys_unique<K: View, V>(s: Seq<(K, V)>) -> bool {
    forall|i: int, j: int|
        0 <= i < s.len() && 0 <= j < s.len() && i != j ==> #[trigger] s[i].0@ != #[trigger] s[j].0@
}

/// Some entry of the list has the principal `k`.
pub open spec fn assoc_contains<K: View, V>(s: Seq<(K, V)>, k: K::V) -> bool {
    exists|i: int| 0 <= i < s.len() && #[trigger] s[i].0@ == k
}

/// The place of the entry with the principal `k`.
pub open spec fn assoc_index<K: View, V>(s: Seq<(K, V)>, k: K::V) -> int {
    choose|i: int| 0 <= i < s.len() && #[trigger] s[i].0@ == k
}

/// The list of entries read as a map from the bytes of each principal to its value.
pub open spec fn assoc_map<K: View, V>(s: Seq<(K, V)>) -> Map<K::V, V> {
    Map::new(|k: K::V| assoc_contains(s, k), |k: K::V| s[assoc_index(s, k)].1)
}

/// Where the keys are unique, the value of the map at the principal of an entry is the value
/// of that entry.
pub proof fn lemma_assoc_map_at<K: View, V>(s: Seq<(K, V)>, i: int)
    requires
        keys_unique(s),
        0 <= i < s.len(),
    ensures
        assoc_map(s).dom().contains(s[i].0@),
        assoc_map(s)[s[i].0@] == s[i].1,
{
    let k = s[i].0@;
    assert(assoc_contains(s, k));
    let j = assoc_index(s, k);
    assert(s[j].0@ == k);
}

/// The map of a list whose entries are all found is finite.
pub proof fn lemma_assoc_map_finite<K: View, V>(s: Seq<(K, V)>)
    ensures
        assoc_map(s).dom().finite(),
        assoc_map(s).dom() == s.map_values(|e: (K, V)| e.0@).to_set(),
{
    let keys = s.map_values(|e: (K, V)| e.0@);
    assert forall|k: K::V| assoc_map(s).dom().contains(k) <==> keys.to_set().contains(k) by {
        if assoc_map(s).dom().contains(k) {
            let i = assoc_index(s, k);
            assert(keys[i] == k);
        }
        if keys.to_set().contains(k) {
            let i = choose|i: int| 0 <= i < keys.len() && keys[i] == k;
            assert(s[i].0@ == k);
        }
    }
    assert(assoc_map(s).dom() =~= keys.to_set());
    vstd::seq_lib::seq_to_set_is_finite(keys);
}

/// The map of a list with unique keys has as many entries as the list.
pub proof fn lemma_assoc_map_len<K: View, V>(s: Seq<(K, V)>)
    requires
        keys_unique(s),
    ensures
        assoc_map(s).dom().finite(),
        assoc_map(s).dom().len() == s.len(),
{
    lemma_assoc_map_finite(s);
    let keys = s.map_values(|e: (K, V)| e.0@);
    assert(keys.no_duplicates()) by {
        assert forall|i: int, j: int| 0 <= i < keys.len() && 0 <= j < keys.len() && i != j implies keys[i] != keys[j] by {
            assert(s[i].0@ != s[j].0@);
        }
    }
    keys.unique_seq_to_set();
}

/// Adding an entry with a new principal adds it to the map.
pub proof fn lemma_assoc_push<K: View, V>(s: Seq<(K, V)>, k: K, v: V)
    requires
        keys_unique(s),
        !assoc_contains(s, k@),
    ensures
        keys_unique(s.push((k, v))),
        assoc_map(s.push((k, v))) == assoc_map(s).insert(k@, v),
{
    let t = s.push((k, v));
    assert forall|i: int, j: int| 0 <= i < t.len() && 0 <= j < t.len() && i != j implies #[trigger] t[i].0@ != #[trigger] t[j].0@ by {
        if i < s.len() && j < s.len() {
            assert(t[i] == s[i] && t[j] == s[j]);
        } else if i < s.len() {
            assert(t[i] == s[i]);
            assert(t[j].0@ == k@);
            assert(!(0 <= i < s.len() && s[i].0@ == k@));
        } else {
            assert(t[j] == s[j]);
            assert(t[i].0@ == k@);
            assert(!(0 <= j < s.len() && s[j].0@ == k@));
        }
    }
    assert forall|key: K::V| #[trigger] assoc_map(t).dom().contains(key) <==> assoc_map(s).insert(k@, v).dom().contains(key) by {
        if assoc_map(t).dom().contains(key) {
            let i = assoc_index(t, key);
            if i < s.len() {
                assert(t[i] == s[i]);
                assert(assoc_contains(s, key));
            }
        }
        if assoc_map(s).dom().contains(key) {
            let i = assoc_index(s, key);
            assert(t[i] == s[i]);
        }
        if key == k@ {
            assert(t[s.len() as int].0@ == key);
        }
    }
    assert forall|key: K::V| #[trigger] assoc_map(t).dom().contains(key) implies assoc_map(t)[key] == assoc_map(s).insert(k@, v)[key] by {
        let i = assoc_index(t, key);
        lemma_assoc_map_at(t, i);
        if i < s.len() {
            assert(t[i] == s[i]);
            lemma_assoc_map_at(s, i);
        }
    }
    assert(assoc_map(t) =~= assoc_map(s).insert(k@, v));
}

/// Putting a new value at the place of an entry, keeping its principal, updates the map at
/// that principal.
pub proof fn lemma_assoc_update<K: View, V>(s: Seq<(K, V)>, i: int, k: K, v: V)
    requires
        keys_unique(s),
        0 <= i < s.len(),
        k@ == s[i].0@,
    ensures
        keys_unique(s.update(i, (k, v))),
        assoc_map(s.update(i, (k, v))) == assoc_map(s).insert(k@, v),
{
    let t = s.update(i, (k, v));
    assert forall|a: int, b: int| 0 <= a < t.len() && 0 <= b < t.len() && a != b implies #[trigger] t[a].0@ != #[trigger] t[b].0@ by {
        assert(t[a].0@ == s[a].0@);
        assert(t[b].0@ == s[b].0@);
    }
    assert forall|key: K::V| #[trigger] assoc_map(t).dom().contains(key) <==> assoc_map(s).insert(k@, v).dom().contains(key) by {
        if assoc_map(t).dom().contains(key) {
            let j = assoc_index(t, key);
            assert(t[j].0@ == s[j].0@);
        }
        if assoc_map(s).dom().contains(key) {
            let j = assoc_index(s, key);
            assert(t[j].0@ == s[j].0@);
        }
        if key == k@ {
            assert(t[i].0@ == key);
        }
    }
    assert forall|key: K::V| #[trigger] assoc_map(t).dom().contains(key) implies assoc_map(t)[key] == assoc_map(s).insert(k@, v)[key] by {
        let j = assoc_index(t, key);
        lemma_assoc_map_at(t, j);
        if j != i {
            assert(t[j] == s[j]);
            lemma_assoc_map_at(s, j);
        }
    }
    assert(assoc_map(t) =~= assoc_map(s).insert(k@, v));
}

/// Taking out the entry at a place takes its principal out of the map.
pub proof fn lemma_assoc_remove<K: View, V>(s: Seq<(K, V)>, i: int)
    requires
        keys_unique(s),
        0 <= i < s.len(),
    ensures
        keys_unique(s.remove(i)),
        assoc_map(s.remove(i)) == assoc_map(s).remove(s[i].0@),
{
    let t = s.remove(i);
    let k = s[i].0@;
    assert forall|a: int| 0 <= a < t.len() implies #[trigger] t[a] == s[if a < i { a } else { a + 1 }] by {}
    assert forall|a: int, b: int| 0 <= a < t.len() && 0 <= b < t.len() && a != b implies #[trigger] t[a].0@ != #[trigger] t[b].0@ by {
        let a2 = if a < i { a } else { a + 1 };
        let b2 = if b < i { b } else { b + 1 };
        assert(t[a] == s[a2]);
        assert(t[b] == s[b2]);
    }
    assert forall|key: K::V| #[trigger] assoc_map(t).dom().contains(key) <==> assoc_map(s).remove(k).dom().contains(key) by {
        if assoc_map(t).dom().contains(key) {
            let a = assoc_index(t, key);
            let a2 = if a < i { a } else { a + 1 };
            assert(t[a] == s[a2]);
            assert(s[a2].0@ == key);
            assert(a2 != i);
        }
        if assoc_map(s).remove(k).dom().contains(key) {
            let a = assoc_index(s, key);
            assert(a != i);
            let a2 = if a < i { a } else { a - 1 };
            assert(t[a2] == s[a]);
        }
    }
    assert forall|key: K::V| #[trigger] assoc_map(t).dom().contains(key) implies assoc_map(t)[key] == assoc_map(s).remove(k)[key] by {
        let a = assoc_index(t, key);
        lemma_assoc_map_at(t, a);
        let a2 = if a < i { a } else { a + 1 };
        assert(t[a] == s[a2]);
        lemma_assoc_map_at(s, a2);
    }
    assert(assoc_map(t) =~= assoc_map(s).remove(k));
}

/// Sets the value of the key `k`: the entry of `k` is given the value `v`, or an entry is
/// added for it.
pub fn assoc_put<K: KeyEq, V>(entries: &mut Vec<(K, V)>, k: K, v: V)
    requires
        keys_unique(old(entries)@),
    ensures
        keys_unique(final(entries)@),
        assoc_map(final(entries)@) == assoc_map(old(entries)@).insert(k@, v),
{
    let ghost s0 = entries@;
    match assoc_find(entries, &k) {
        Some(i) => {
            proof {
                lemma_assoc_update(s0, i as int, k, v);
            }
            entries.set(i, (k, v));
        },
        None => {
            proof {
                lemma_assoc_push(s0, k, v);
            }
            entries.push((k, v));
        },
    }
}

/// The map that a list of entries makes when each entry sets the value of its key, a later
/// entry of a key replacing an earlier one.
pub open spec fn spec_map_of_entries<K: View, V>(s: Seq<(K, V)>) -> Map<K::V, V>
    decreases s.len(),
{
    if s.len() == 0 {
        Map::empty()
    } else {
        spec_map_of_entries(s.drop_last()).insert(s.last().0@, s.last().1)
    }
}

/// The entries of a list, one for each key, with the last value given for it.
pub fn assoc_from_entries<K: KeyEq, V>(entries: Vec<(K, V)>) -> (r: Vec<(K, V)>)
    ensures
        keys_unique(r@),
        assoc_map(r@) == spec_map_of_entries(entries@),
{
    let ghost s = entries@;
    let mut r: Vec<(K, V)> = Vec::new();
    let mut entries = entries;
    let mut i: usize = 0;
    let _n: usize = entries.len();
    proof {
        assert(assoc_map(r@) =~= Map::<K::V, V>::empty());
        assert(s.take(0) =~= Seq::<(K, V)>::empty());
    }
    while entries.len() > 0
        invariant
            i + entries@.len() == s.len(),
            s.len() <= usize::MAX,
            entries@ == s.subrange(i as int, s.len() as int),
            keys_unique(r@),
            assoc_map(r@) == spec_map_of_entries(s.take(i as int)),
        decreases entries@.len(),
    {
        let ghost before = entries@;
        let (k, v) = entries.remove(0);
        proof {
            assert(s[i as int] == (k, v)) by {
                assert(before[0] == s.subrange(i as int, s.len() as int)[0]);
            }
            assert(s.take(i + 1).drop_last() =~= s.take(i as int));
            assert(s.take(i + 1).last() == s[i as int]);
        }
        assoc_put(&mut r, k, v);
        i = i + 1;
        proof {
            assert(entries@ =~= s.subrange(i as int, s.len() as int));
        }
    }
    proof {
        assert(s.take(i as int) =~= s);
    }
    r
}

/// The place of the entry with the principal `k`, where there is one.
pub fn assoc_find<K: KeyEq, V>(entries: &Vec<(K, V)>, k: &K) -> (r: Option<usize>)
    ensures
        match r {
            Some(i) => i < entries@.len() && entries@[i as int].0@ == k@,
            None => !assoc_contains(entries@, k@),
        },
{
    let mut i: usize = 0;
    while i < entries.len()
        invariant
            i <= entries@.len(),
            forall|j: int| 0 <= j < i ==> #[trigger] entries@[j].0@ != k@,
        decreases entries@.len() - i,
    {
        if entries[i].0.key_eq(k) {
            return Some(i);
        }
        i = i + 1;
    }
    None
}

} // verus!
