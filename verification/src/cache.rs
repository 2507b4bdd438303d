//! The time-bounded response cache.
//!
//! A string-keyed cache of upstream responses with a fixed time-to-live.
//! `get` answers from a stored entry only while the entry's age is below
//! the time-to-live; it never removes anything. `set` inserts or
//! overwrites, then sweeps the whole cache, dropping every entry whose age
//! has reached the time-to-live — including, when the time-to-live is zero,
//! the entry just inserted.
//!
//! Time enters as an explicit reading `now` (monotone ticks, one per
//! second in the pipeline's use) so that every claim here is checked for
//! every clock value; the boundary code supplies the readings. The
//! reader/writer discipline — any number of concurrent `get`s, `set`s
//! exclusive — is the owner's business: the boundary wraps the cache in a
//! reader/writer lock.

use vstd::prelude::*;

use crate::text::str_eq;

verus! {

/// One cached response and the reading of the clock at which it was
/// stored.
pub struct CacheEntry {
    pub key: String,
    pub value: String,
    pub created_at: u64,
}

/// Whether an entry stored at `created_at` is still served at `now` under
/// time-to-live `ttl`: its age — zero if the clock has not moved past the
/// store — is below `ttl`.
pub open spec fn spec_fresh_at(created_at: u64, now: u64, ttl: u64) -> bool {
    if now <= created_at {
        ttl > 0
    } else {
        now - created_at < ttl
    }
}

/// The first entry of `s` stored under `key`, if any.
pub open spec fn spec_lookup(s: Seq<CacheEntry>, key: Seq<char>) -> Option<CacheEntry>
    decreases s.len(),
{
    if s.len() == 0 {
        None
    } else if s[0].key@ == key {
        Some(s[0])
    } else {
        spec_lookup(s.drop_first(), key)
    }
}

/// What a sweep at `now` under `key` leaves of a lookup result: the entry
/// survives only if it is fresh and not overwritten.
pub open spec fn spec_swept(o: Option<CacheEntry>, key: Seq<char>, now: u64, ttl: u64) -> Option<
    CacheEntry,
> {
    match o {
        Some(e) => if e.key@ != key && spec_fresh_at(e.created_at, now, ttl) {
            Some(e)
        } else {
            None
        },
        None => None,
    }
}

/// A lookup misses exactly when no entry has the key.
pub proof fn lemma_lookup_none(s: Seq<CacheEntry>, key: Seq<char>)
    ensures
        spec_lookup(s, key) is None <==> (forall|i: int|
            0 <= i < s.len() ==> (#[trigger] s[i]).key@ != key),
    decreases s.len(),
{
    if spec_lookup(s, key) is Some {
        lemma_lookup_in(s, key);
        let i = choose|i: int| 0 <= i < s.len() && #[trigger] s[i] == spec_lookup(s, key)->0;
        assert(s[i].key@ == key);
    } else {
        assert forall|i: int| 0 <= i < s.len() implies (#[trigger] s[i]).key@ != key by {
            if i > 0 {
                lemma_lookup_none(s.drop_first(), key);
                assert(s.drop_first()[i - 1] == s[i]);
            }
        }
    }
}

/// A lookup hit is an entry of the sequence, and it carries the key.
pub proof fn lemma_lookup_in(s: Seq<CacheEntry>, key: Seq<char>)
    requires
        spec_lookup(s, key) is Some,
    ensures
        spec_lookup(s, key)->0.key@ == key,
        exists|i: int| 0 <= i < s.len() && #[trigger] s[i] == spec_lookup(s, key)->0,
    decreases s.len(),
{
    if s.len() > 0 && s[0].key@ != key {
        lemma_lookup_in(s.drop_first(), key);
        let i = choose|i: int|
            0 <= i < s.drop_first().len() && #[trigger] s.drop_first()[i] == spec_lookup(
                s.drop_first(),
                key,
            )->0;
        assert(s[i + 1] == s.drop_first()[i]);
    }
}

/// A match at `i`, with no match before it, is what the lookup returns.
pub proof fn lemma_lookup_first_match(s: Seq<CacheEntry>, key: Seq<char>, i: int)
    requires
        0 <= i < s.len(),
        s[i].key@ == key,
        forall|j: int| 0 <= j < i ==> (#[trigger] s[j]).key@ != key,
    ensures
        spec_lookup(s, key) == Some(s[i]),
    decreases i,
{
    if i > 0 {
        assert(forall|j: int|
            0 <= j < s.drop_first().len() ==> #[trigger] s.drop_first()[j] == s[j + 1]);
        lemma_lookup_first_match(s.drop_first(), key, i - 1);
    }
}

/// How appending one entry changes a lookup: an existing hit stands, a miss
/// is answered by the new entry exactly when it carries the key.
pub proof fn lemma_lookup_push(s: Seq<CacheEntry>, key: Seq<char>, e: CacheEntry)
    ensures
        spec_lookup(s.push(e), key) == (match spec_lookup(s, key) {
            Some(x) => Some(x),
            None => if e.key@ == key {
                Some(e)
            } else {
                None
            },
        }),
    decreases s.len(),
{
    if s.len() == 0 {
        assert(s.push(e)[0] == e);
        assert(s.push(e).drop_first() =~= Seq::<CacheEntry>::empty());
    } else {
        assert(s.push(e)[0] == s[0]);
        assert(s.push(e).drop_first() =~= s.drop_first().push(e));
        lemma_lookup_push(s.drop_first(), key, e);
    }
}

/// The response cache: entries under distinct keys, and the time-to-live
/// every entry is measured against.
pub struct Cache {
    pub entries: Vec<CacheEntry>,
    pub cache_duration: u64,
}

impl Cache {
    /// Entries are stored under distinct keys.
    pub open spec fn wf(self) -> bool {
        forall|i: int, j: int|
            0 <= i < j < self.entries@.len() ==> (#[trigger] self.entries@[i]).key@ != (
            #[trigger] self.entries@[j]).key@
    }

    /// The value `get` serves for `key` at reading `now`: the stored value
    /// if an entry holds the key and is still fresh, nothing otherwise.
    pub open spec fn spec_get(self, key: Seq<char>, now: u64) -> Option<Seq<char>> {
        match spec_lookup(self.entries@, key) {
            Some(e) => if spec_fresh_at(e.created_at, now, self.cache_duration) {
                Some(e.value@)
            } else {
                None
            },
            None => None,
        }
    }

    /// An empty cache with the given time-to-live in clock ticks.
    pub fn new(duration_secs: u64) -> (c: Cache)
        ensures
            c.wf(),
            c.cache_duration == duration_secs,
            c.entries@.len() == 0,
            forall|k: Seq<char>, now: u64| c.spec_get(k, now) is None,
    {
        Cache { entries: Vec::new(), cache_duration: duration_secs }
    }

    /// Serve `key` at reading `now`: the stored value while its entry is
    /// fresh, nothing if the entry is absent or expired. Expired entries
    /// are only observed as absent, never removed here.
    pub fn get(&self, key: &str, now: u64) -> (r: Option<String>)
        ensures
            r is Some <==> self.spec_get(key@, now) is Some,
            r matches Some(v) ==> Some(v@) == self.spec_get(key@, now),
    {
        let n = self.entries.len();
        let mut i: usize = 0;
        while i < n
            invariant
                i <= n,
                n == self.entries@.len(),
                forall|m: int| 0 <= m < i ==> (#[trigger] self.entries@[m]).key@ != key@,
            decreases n - i,
        {
            if str_eq(self.entries[i].key.as_str(), key) {
                proof {
                    lemma_lookup_first_match(self.entries@, key@, i as int);
                }
                let e = &self.entries[i];
                if is_fresh(e.created_at, now, self.cache_duration) {
                    return Some(e.value.clone());
                } else {
                    return None;
                }
            }
            i = i + 1;
        }
        proof {
            lemma_lookup_none(self.entries@, key@);
        }
        None
    }

    /// Insert or overwrite `key` at reading `now`, then sweep: every entry
    /// whose age has reached the time-to-live is removed — with a zero
    /// time-to-live that includes the entry just inserted, and the cache
    /// comes out empty.
    ///
    /// The clauses over `t` state the idempotence of a lookup after a
    /// write: within the time-to-live window `get` serves exactly the
    /// value written; from the window's end on it serves nothing.
    pub fn set(&mut self, key: &str, value: String, now: u64)
        requires
            old(self).wf(),
        ensures
            final(self).wf(),
            final(self).cache_duration == old(self).cache_duration,
            forall|j: int|
                0 <= j < final(self).entries@.len() ==> spec_fresh_at(
                    (#[trigger] final(self).entries@[j]).created_at,
                    now,
                    old(self).cache_duration,
                ),
            old(self).cache_duration == 0 ==> final(self).entries@.len() == 0,
            old(self).cache_duration > 0 ==> (spec_lookup(final(self).entries@, key@) matches Some(e)
                && e.key@ == key@ && e.value@ == value@ && e.created_at == now),
            forall|k: Seq<char>|
                k != key@ ==> #[trigger] spec_lookup(final(self).entries@, k) == spec_swept(
                    spec_lookup(old(self).entries@, k),
                    key@,
                    now,
                    old(self).cache_duration,
                ),
            forall|t: u64|
                now <= t && (t as int) < now + old(self).cache_duration
                    ==> #[trigger] final(self).spec_get(key@, t) == Some(value@),
            forall|t: u64|
                (t as int) >= now + old(self).cache_duration
                    ==> #[trigger] final(self).spec_get(key@, t) is None,
    {
        let ttl = self.cache_duration;
        let n = self.entries.len();
        let mut kept: Vec<CacheEntry> = Vec::new();
        let mut i: usize = 0;
        while i < n
            invariant
                *self == *old(self),
                self.wf(),
                i <= n,
                n == self.entries@.len(),
                ttl == self.cache_duration,
                forall|a: int, b: int|
                    0 <= a < b < kept@.len() ==> (#[trigger] kept@[a]).key@ != (
                    #[trigger] kept@[b]).key@,
                forall|j: int|
                    0 <= j < kept@.len() ==> spec_fresh_at(
                        (#[trigger] kept@[j]).created_at,
                        now,
                        ttl,
                    ) && kept@[j].key@ != key@,
                forall|k: Seq<char>|
                    #[trigger] spec_lookup(kept@, k) == spec_swept(
                        spec_lookup(self.entries@.take(i as int), k),
                        key@,
                        now,
                        ttl,
                    ),
            decreases n - i,
        {
            let e = &self.entries[i];
            let keep = !str_eq(e.key.as_str(), key) && is_fresh(e.created_at, now, ttl);
            let ghost kept_before = kept@;
            let ghost cur = self.entries@[i as int];
            if keep {
                proof {
                    if spec_lookup(kept_before, cur.key@) is Some {
                        lemma_lookup_in(kept_before, cur.key@);
                        lemma_lookup_in(self.entries@.take(i as int), cur.key@);
                        let m = choose|m: int|
                            0 <= m < self.entries@.take(i as int).len()
                                && #[trigger] self.entries@.take(i as int)[m] == spec_lookup(
                                self.entries@.take(i as int),
                                cur.key@,
                            )->0;
                        assert(self.entries@[m] == self.entries@.take(i as int)[m]);
                        assert(false);
                    }
                    lemma_lookup_none(kept_before, cur.key@);
                }
                kept.push(clone_entry(e));
            }
            proof {
                assert(self.entries@.take(i + 1) =~= self.entries@.take(i as int).push(cur));
                assert forall|k: Seq<char>|
                    #[trigger] spec_lookup(kept@, k) == spec_swept(
                        spec_lookup(self.entries@.take(i + 1), k),
                        key@,
                        now,
                        ttl,
                    ) by {
                    lemma_lookup_push(self.entries@.take(i as int), k, cur);
                    if keep {
                        lemma_lookup_push(kept_before, k, cur);
                    }
                    if spec_lookup(self.entries@.take(i as int), k) is Some {
                        lemma_lookup_in(self.entries@.take(i as int), k);
                        let m = choose|m: int|
                            0 <= m < self.entries@.take(i as int).len()
                                && #[trigger] self.entries@.take(i as int)[m] == spec_lookup(
                                self.entries@.take(i as int),
                                k,
                            )->0;
                        assert(self.entries@.take(i as int)[m] == self.entries@[m]);
                    }
                }
            }
            i = i + 1;
        }
        proof {
            assert(self.entries@.take(n as int) =~= self.entries@);
        }
        if ttl > 0 {
            let new_entry = CacheEntry { key: key.to_owned(), value, created_at: now };
            let ghost ne = new_entry;
            let ghost kept_before = kept@;
            kept.push(new_entry);
            proof {
                assert(kept@ == kept_before.push(ne));
                assert(spec_lookup(kept_before, key@) == spec_swept(
                    spec_lookup(old(self).entries@, key@),
                    key@,
                    now,
                    ttl,
                ));
                if spec_lookup(old(self).entries@, key@) is Some {
                    lemma_lookup_in(old(self).entries@, key@);
                }
                assert(spec_lookup(kept_before, key@) is None);
                lemma_lookup_push(kept_before, key@, ne);
                assert(spec_lookup(kept@, key@) == Some(ne));
                assert forall|k: Seq<char>|
                    k != key@ implies #[trigger] spec_lookup(kept@, k) == spec_swept(
                    spec_lookup(old(self).entries@, k),
                    key@,
                    now,
                    ttl,
                ) by {
                    lemma_lookup_push(kept_before, k, ne);
                }
            }
        } else {
            proof {
                if kept@.len() > 0 {
                    assert(spec_fresh_at(kept@[0].created_at, now, ttl));
                }
                assert(kept@.len() == 0);
            }
        }
        self.entries = kept;
        proof {
            assert forall|t: u64|
                now <= t && (t as int) < now + old(self).cache_duration implies #[trigger] self
                .spec_get(key@, t) == Some(value@) by {
                assert(spec_lookup(self.entries@, key@) is Some);
            }
            assert forall|t: u64|
                (t as int) >= now + old(self).cache_duration implies #[trigger] self.spec_get(
                key@,
                t,
            ) is None by {
                if old(self).cache_duration == 0 {
                    assert(self.entries@.len() == 0);
                }
            }
        }
    }
}

/// Whether an entry stored at `created_at` is fresh at `now` under `ttl`.
fn is_fresh(created_at: u64, now: u64, ttl: u64) -> (b: bool)
    ensures
        b == spec_fresh_at(created_at, now, ttl),
{
    if now <= created_at {
        ttl > 0
    } else {
        now - created_at < ttl
    }
}

/// A field-for-field copy of an entry.
fn clone_entry(e: &CacheEntry) -> (r: CacheEntry)
    ensures
        r == *e,
{
    CacheEntry { key: e.key.clone(), value: e.value.clone(), created_at: e.created_at }
}

/// Idempotence of a cache lookup after a write: in a cache state whose
/// entry under `key` holds value `v` from a write at `t_set` — the state
/// `set` ensures — a `get` at any `t_get` within the time-to-live window
/// serves exactly `v`, and from the window's end on serves nothing.
pub proof fn lemma_set_then_get(c: Cache, key: Seq<char>, v: Seq<char>, t_set: u64, t_get: u64)
    requires
        (spec_lookup(c.entries@, key) matches Some(e) && e.value@ == v && e.created_at == t_set),
        t_set <= t_get,
    ensures
        (t_get as int) < t_set + c.cache_duration ==> c.spec_get(key, t_get) == Some(v),
        (t_get as int) >= t_set + c.cache_duration ==> c.spec_get(key, t_get) is None,
{
}

} // verus!

