//! Caches that bound staleness: one by age, one by residency.
//!
//! Time is a count of milliseconds handed in by the caller, so that every
//! answer is a function of the cache and the arguments alone.

use std::collections::HashMap;
use vstd::prelude::*;

verus! {

broadcast use vstd::std_specs::hash::group_hash_axioms;

/// Time to live of a cache made by `Default`: sixty seconds.
pub const DEFAULT_EXPIRY_MS: i64 = 60_000;

/// A value and the instant at which it was fetched.
pub struct CacheEntry<Value> {
    pub value: Value,
    pub fetched_at: i64,
}

/// Whether a value fetched at `fetched_at` may still be used at `now`: its
/// age is at most `ttl`.
pub open spec fn is_fresh(fetched_at: i64, now: i64, ttl: i64) -> bool {
    now - fetched_at <= ttl
}

/// Whether a value fetched at `fetched_at` may still be used at `now`.
pub fn fresh(fetched_at: i64, now: i64, ttl: i64) -> (yes: bool)
    ensures
        yes == is_fresh(fetched_at, now, ttl),
{
    let age: i128 = now as i128 - fetched_at as i128;
    age <= ttl as i128
}

/// A cache whose entries expire when they are older than its time to live.
/// It is not bounded by count, and nothing is evicted: a stale entry stays
/// until the next insert under its key replaces it.
pub struct Cache<Value> {
    entries: HashMap<u64, CacheEntry<Value>>,
    ttl: i64,
}

impl<Value> View for Cache<Value> {
    type V = Map<u64, CacheEntry<Value>>;

    closed spec fn view(&self) -> Map<u64, CacheEntry<Value>> {
        self.entries@
    }
}

impl<Value> Cache<Value> {
    /// The time to live, in milliseconds.
    pub closed spec fn spec_ttl(&self) -> i64 {
        self.ttl
    }

    /// Whether `key` has an entry that is not older than the time to live.
    pub open spec fn has_fresh(&self, key: u64, now: i64) -> bool {
        self@.contains_key(key) && is_fresh(self@[key].fetched_at, now, self.spec_ttl())
    }

    /// What a lookup of `key` at `now` gives: the value, unless absent or expired.
    pub open spec fn spec_lookup(&self, key: u64, now: i64) -> Option<Value> {
        if self.has_fresh(key, now) {
            Some(self@[key].value)
        } else {
            None
        }
    }

    /// An empty cache with the given time to live in milliseconds, which is
    /// not negative.
    pub fn new(ttl: i64) -> (cache: Self)
        requires
            ttl >= 0,
        ensures
            cache@ == Map::<u64, CacheEntry<Value>>::empty(),
            cache.spec_ttl() == ttl,
    {
        Cache { entries: HashMap::new(), ttl }
    }

    /// The time to live, in milliseconds.
    pub fn ttl(&self) -> (ttl: i64)
        ensures
            ttl == self.spec_ttl(),
    {
        self.ttl
    }

    /// The entry under `key`, whatever its age.
    pub fn entry(&self, key: u64) -> (found: Option<&CacheEntry<Value>>)
        ensures
            match found {
                Some(e) => self@.contains_key(key) && *e == self@[key],
                None => !self@.contains_key(key),
            },
    {
        self.entries.get(&key)
    }

    /// The value under `key` if it was fetched no longer than the time to
    /// live before `now`. An older entry is treated like a missing one.
    pub fn lookup(&self, key: u64, now: i64) -> (found: Option<&Value>)
        ensures
            match found {
                Some(v) => self.spec_lookup(key, now) == Some(*v),
                None => self.spec_lookup(key, now) is None,
            },
    {
        match self.entries.get(&key) {
            None => None,
            Some(e) => {
                if fresh(e.fetched_at, now, self.ttl) {
                    Some(&e.value)
                } else {
                    None
                }
            },
        }
    }

    /// Stores `value` under `key` as fetched at `now`, in place of any entry
    /// that was there.
    pub fn insert(&mut self, key: u64, value: Value, now: i64)
        ensures
            final(self)@ == old(self)@.insert(key, CacheEntry { value, fetched_at: now }),
            final(self).spec_ttl() == old(self).spec_ttl(),
    {
        let _ = self.entries.insert(key, CacheEntry { value, fetched_at: now });
    }

    /// The value under `key`, fetched with `getter` if the cache has no entry
    /// that is fresh at `now`. A fetched value is stored as fetched at `now`; a
    /// failure is handed on and leaves the cache as it was, so that the next
    /// call fetches again.
    pub fn cached_get<E, F: FnOnce() -> Result<Value, E>>(
        &mut self,
        key: u64,
        now: i64,
        getter: F,
    ) -> (got: Result<&Value, E>)
        requires
            call_requires(getter, ()),
        ensures
            final(self).spec_ttl() == old(self).spec_ttl(),
            old(self).has_fresh(key, now) ==> final(self)@ == old(self)@ && (got matches Ok(v)
                && *v == old(self)@[key].value),
            !old(self).has_fresh(key, now) ==> match got {
                Ok(v) => call_ensures(getter, (), Ok(*v)) && final(self)@ == old(self)@.insert(
                    key,
                    CacheEntry { value: *v, fetched_at: now },
                ),
                Err(e) => call_ensures(getter, (), Err(e)) && final(self)@ == old(self)@,
            },
    {
        if self.lookup(key, now).is_none() {
            match getter() {
                Ok(value) => {
                    self.insert(key, value, now);
                },
                Err(e) => {
                    return Err(e);
                },
            }
        }
        match self.entries.get(&key) {
            Some(e) => Ok(&e.value),
            None => vstd::pervasive::unreached(),
        }
    }
}

impl<Value> Default for Cache<Value> {
    /// An empty cache with a time to live of sixty seconds.
    fn default() -> (cache: Self)
        ensures
            cache@ == Map::<u64, CacheEntry<Value>>::empty(),
            cache.spec_ttl() == DEFAULT_EXPIRY_MS,
    {
        Cache::new(DEFAULT_EXPIRY_MS)
    }
}

/// Two lookups within the time to live agree: once a value is stored at `t0`,
/// every lookup of its key from `t0` to `t0 + ttl` finds that value, so a
/// second `cached_get` in that window does not need its getter.
pub proof fn lemma_hit_within_ttl<Value>(
    before: Cache<Value>,
    after: Cache<Value>,
    key: u64,
    value: Value,
    t0: i64,
    t1: i64,
)
    requires
        after@ == before@.insert(key, CacheEntry { value, fetched_at: t0 }),
        after.spec_ttl() == before.spec_ttl(),
        t0 <= t1 <= t0 + before.spec_ttl(),
    ensures
        after.has_fresh(key, t1),
        after.spec_lookup(key, t1) == Some(value),
{
}

/// An entry expires: once stored at `t0`, a lookup later than `t0 + ttl`
/// finds nothing, so the next `cached_get` fetches anew.
pub proof fn lemma_miss_after_ttl<Value>(cache: Cache<Value>, key: u64, t0: i64, t1: i64)
    requires
        cache@.contains_key(key),
        cache@[key].fetched_at == t0,
        t1 > t0 + cache.spec_ttl(),
    ensures
        !cache.has_fresh(key, t1),
        cache.spec_lookup(key, t1) is None,
{
}

/// A failed fetch is not remembered: where a key had no fresh entry and the
/// cache is unchanged, the key still has none, at that instant and at every
/// later one, so the next `cached_get` calls its getter again.
pub proof fn lemma_failure_not_cached<Value>(cache: Cache<Value>, key: u64, t0: i64, t1: i64)
    requires
        !cache.has_fresh(key, t0),
        t0 <= t1,
    ensures
        !cache.has_fresh(key, t1),
{
}

} // verus!
