use vstd::prelude::*;
use crate::principal::Principal;
use crate::assoc::{keys_unique, assoc_map, assoc_index, assoc_find, lemma_assoc_map_len, lemma_assoc_map_at, lemma_assoc_remove, lemma_assoc_update, lemma_assoc_push};
use crate::types::{UserId, UserCanisterId};

verus! {

/// What the cache knows of one user: when it was last put or looked at, and the
/// user-canister of the user, if the user has one.
struct UserCacheData {
    timestamp_nanos: u64,
    opt_user_canister_id: Option<UserCanisterId>,
}

/// The bytes of a principal that may be absent.
pub open spec fn opt_principal_view(p: Option<Principal>) -> Option<Seq<u8>> {
    match p {
        Some(p) => Some(p@),
        None => None,
    }
}

/// A copy of a principal that may be absent.
pub fn copy_opt_principal(p: &Option<Principal>) -> (r: Option<Principal>)
    ensures
        opt_principal_view(r) == opt_principal_view(*p),
{
    match p {
        Some(p) => Some(p.copy()),
        None => None,
    }
}

/// A cache of the user-canisters of users, of a bounded size. When it is full, putting a
/// user first takes out the user that was put or looked at longest ago.
pub struct UserCanisterCache {
    entries: Vec<(UserId, UserCacheData)>,
    max_size: usize,
}

impl UserCanisterCache {
    #[verifier::type_invariant]
    spec fn inv(self) -> bool {
        keys_unique(self.entries@)
    }

    /// The cache as a map from each user to the time it was last touched and its
    /// user-canister.
    pub closed spec fn view_map(&self) -> Map<Seq<u8>, (u64, Option<Seq<u8>>)> {
        assoc_map(self.entries@).map_values(
            |d: UserCacheData| (d.timestamp_nanos, opt_principal_view(d.opt_user_canister_id)),
        )
    }

    /// The most users that the cache holds.
    pub closed spec fn spec_max_size(&self) -> usize {
        self.max_size
    }

    /// How many users the cache holds.
    pub closed spec fn spec_len(&self) -> nat {
        self.entries@.len()
    }

    /// An empty cache that holds at most `max_size` users.
    pub fn new(max_size: usize) -> (cache: UserCanisterCache)
        ensures
            cache.view_map() == Map::<Seq<u8>, (u64, Option<Seq<u8>>)>::empty(),
            cache.spec_max_size() == max_size,
            cache.spec_len() == 0,
    {
        let cache = UserCanisterCache { entries: Vec::new(), max_size };
        assert(cache.view_map() =~= Map::<Seq<u8>, (u64, Option<Seq<u8>>)>::empty());
        cache
    }

    /// How many users the cache holds: as many as its map has keys.
    pub fn len(&self) -> (n: usize)
        ensures
            n == self.spec_len(),
            self.view_map().dom().finite(),
            self.view_map().dom().len() == n,
    {
        proof {
            use_type_invariant(self);
            lemma_assoc_map_len(self.entries@);
            assert(self.view_map().dom() =~= assoc_map(self.entries@).dom());
        }
        self.entries.len()
    }

    /// The place of the entry touched longest ago; the first such one.
    fn oldest_index(entries: &Vec<(UserId, UserCacheData)>) -> (r: usize)
        requires
            entries@.len() > 0,
        ensures
            r < entries@.len(),
            forall|j: int| 0 <= j < entries@.len() ==> entries@[r as int].1.timestamp_nanos <= #[trigger] entries@[j].1.timestamp_nanos,
    {
        let mut best: usize = 0;
        let mut i: usize = 1;
        while i < entries.len()
            invariant
                entries@.len() > 0,
                1 <= i <= entries@.len(),
                best < i,
                forall|j: int| 0 <= j < i ==> entries@[best as int].1.timestamp_nanos <= #[trigger] entries@[j].1.timestamp_nanos,
            decreases entries@.len() - i,
        {
            if entries[i].1.timestamp_nanos < entries[best].1.timestamp_nanos {
                best = i;
            }
            i = i + 1;
        }
        best
    }

    /// What putting `user` with the user-canister `v` at `now` makes of the cache `c0`: where
    /// it is full, the user touched longest ago leaves first; the maximum size stays, and the
    /// count grows by one at most and does not pass the maximum where it did not before.
    pub open spec fn spec_put(c0: UserCanisterCache, c1: UserCanisterCache, user: Seq<u8>, v: Option<Seq<u8>>, now: u64) -> bool {
        &&& c1.spec_max_size() == c0.spec_max_size()
        &&& c0.spec_len() < c0.spec_max_size() ==> c1.view_map() == c0.view_map().insert(user, (now, v))
        &&& c0.spec_len() >= c0.spec_max_size() ==> exists|evicted: Seq<u8>| {
                &&& #[trigger] c0.view_map().dom().contains(evicted)
                &&& (forall|k: Seq<u8>| c0.view_map().dom().contains(k)
                        ==> c0.view_map()[evicted].0 <= #[trigger] c0.view_map()[k].0)
                &&& c1.view_map() == c0.view_map().remove(evicted).insert(user, (now, v))
            }
        &&& c1.spec_len() <= c0.spec_len() + 1
        &&& c0.spec_len() >= c0.spec_max_size() ==> c1.spec_len() <= c0.spec_len()
        &&& c0.spec_len() <= c0.spec_max_size() ==> c1.spec_len() <= c1.spec_max_size()
    }

    /// Puts a user with its user-canister into the cache, touched at `now_nanos`. Where the
    /// cache already holds as many users as it may, the user touched longest ago is taken
    /// out first.
    pub fn put(&mut self, user_id: UserId, opt_user_canister_id: Option<UserCanisterId>, now_nanos: u64)
        requires
            old(self).spec_len() > 0 || old(self).spec_max_size() > 0,
        ensures
            Self::spec_put(*old(self), *final(self), user_id@, opt_principal_view(opt_user_canister_id), now_nanos),
    {
        proof {
            use_type_invariant(&*self);
        }
        let mut entries: Vec<(UserId, UserCacheData)> = Vec::new();
        std::mem::swap(&mut entries, &mut self.entries);
        let ghost s0 = entries@;
        let ghost evicted: Seq<u8> = Seq::empty();
        if entries.len() >= self.max_size {
            let oldest: usize = Self::oldest_index(&entries);
            proof {
                evicted = s0[oldest as int].0@;
                lemma_assoc_remove(s0, oldest as int);
                lemma_assoc_map_at(s0, oldest as int);
                assert forall|k: Seq<u8>| assoc_map(s0).dom().contains(k) implies
                    assoc_map(s0)[evicted].timestamp_nanos <= #[trigger] assoc_map(s0)[k].timestamp_nanos by {
                    let j = assoc_index(s0, k);
                    lemma_assoc_map_at(s0, j);
                }
            }
            entries.remove(oldest);
        }
        let ghost s1 = entries@;
        let data = UserCacheData { timestamp_nanos: now_nanos, opt_user_canister_id };
        match assoc_find(&entries, &user_id) {
            Some(i) => {
                proof {
                    lemma_assoc_update(s1, i as int, user_id, data);
                }
                entries.set(i, (user_id, data));
            },
            None => {
                proof {
                    lemma_assoc_push(s1, user_id, data);
                }
                entries.push((user_id, data));
            },
        }
        self.entries = entries;
        proof {
            let f = |d: UserCacheData| (d.timestamp_nanos, opt_principal_view(d.opt_user_canister_id));
            if s0.len() < self.max_size {
                assert(self.view_map() =~= assoc_map(s0).map_values(f).insert(user_id@, (now_nanos, opt_principal_view(opt_user_canister_id))));
            } else {
                assert(old(self).view_map() =~= assoc_map(s0).map_values(f));
                assert(self.view_map() =~= assoc_map(s0).map_values(f).remove(evicted).insert(user_id@, (now_nanos, opt_principal_view(opt_user_canister_id))));
                assert(old(self).view_map().dom().contains(evicted));
                assert forall|k: Seq<u8>| old(self).view_map().dom().contains(k) implies
                    old(self).view_map()[evicted].0 <= #[trigger] old(self).view_map()[k].0 by {
                    assert(assoc_map(s0).dom().contains(k));
                }
            }
        }
    }

    /// Looks up a user. Where the cache holds it, the user is touched at `now_nanos` and its
    /// user-canister is handed back; otherwise the cache stays as it is.
    pub fn check(&mut self, user_id: &UserId, now_nanos: u64) -> (r: Option<Option<UserCanisterId>>)
        ensures
            final(self).spec_max_size() == old(self).spec_max_size(),
            final(self).spec_len() == old(self).spec_len(),
            match r {
                None => {
                    &&& !old(self).view_map().dom().contains(user_id@)
                    &&& final(self).view_map() == old(self).view_map()
                },
                Some(opt) => {
                    &&& old(self).view_map().dom().contains(user_id@)
                    &&& opt_principal_view(opt) == old(self).view_map()[user_id@].1
                    &&& final(self).view_map() == old(self).view_map().insert(
                            user_id@, (now_nanos, old(self).view_map()[user_id@].1))
                },
            },
    {
        proof {
            use_type_invariant(&*self);
        }
        match assoc_find(&self.entries, user_id) {
            None => {
                None
            },
            Some(i) => {
                let mut entries: Vec<(UserId, UserCacheData)> = Vec::new();
                std::mem::swap(&mut entries, &mut self.entries);
                let ghost s0 = entries@;
                let opt: Option<UserCanisterId> = copy_opt_principal(&entries[i].1.opt_user_canister_id);
                let key: UserId = entries[i].0.copy();
                let data = UserCacheData {
                    timestamp_nanos: now_nanos,
                    opt_user_canister_id: copy_opt_principal(&entries[i].1.opt_user_canister_id),
                };
                proof {
                    lemma_assoc_map_at(s0, i as int);
                    lemma_assoc_update(s0, i as int, key, data);
                }
                entries.set(i, (key, data));
                self.entries = entries;
                proof {
                    let f = |d: UserCacheData| (d.timestamp_nanos, opt_principal_view(d.opt_user_canister_id));
                    assert(self.view_map() =~= assoc_map(s0).map_values(f).insert(
                        user_id@, (now_nanos, assoc_map(s0).map_values(f)[user_id@].1)));
                }
                Some(opt)
            },
        }
    }
}

} // verus!
