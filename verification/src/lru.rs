//! A cache bounded by count that evicts the least recently used entry.

use vstd::prelude::*;

verus! {

/// Whether some slot of `s` has the key `key`.
pub open spec fn holds<Value>(s: Seq<(u64, Value)>, key: u64) -> bool {
    exists|i: int| 0 <= i < s.len() && (#[trigger] s[i]).0 == key
}

/// A slot of `s` that has the key `key`, where there is one.
pub open spec fn slot_of<Value>(s: Seq<(u64, Value)>, key: u64) -> int {
    choose|i: int| 0 <= i < s.len() && (#[trigger] s[i]).0 == key
}

/// No key stands in two slots.
pub open spec fn distinct_keys<Value>(s: Seq<(u64, Value)>) -> bool {
    forall|i: int, j: int|
        0 <= i < s.len() && 0 <= j < s.len() && (#[trigger] s[i]).0 == (#[trigger] s[j]).0 ==> i
            == j
}

/// The value stored under `key`.
pub open spec fn value_of<Value>(s: Seq<(u64, Value)>, key: u64) -> Option<Value> {
    if holds(s, key) {
        Some(s[slot_of(s, key)].1)
    } else {
        None
    }
}

/// The slots after a use of `key`: its slot moves to the most recent end.
pub open spec fn touched<Value>(s: Seq<(u64, Value)>, key: u64) -> Seq<(u64, Value)> {
    if holds(s, key) {
        s.remove(slot_of(s, key)).push(s[slot_of(s, key)])
    } else {
        s
    }
}

/// The slots after `value` is stored under `key` in a cache of `capacity`
/// slots: an entry under the same key is replaced; otherwise, where the
/// cache is full, the least recently used entry leaves.
pub open spec fn stored<Value>(
    s: Seq<(u64, Value)>,
    capacity: nat,
    key: u64,
    value: Value,
) -> Seq<(u64, Value)> {
    if capacity == 0 {
        s
    } else if holds(s, key) {
        s.remove(slot_of(s, key)).push((key, value))
    } else if s.len() >= capacity {
        s.drop_first().push((key, value))
    } else {
        s.push((key, value))
    }
}

/// A cache of at most `capacity` entries. Entries never expire; when room is
/// needed the entry that was used longest ago leaves.
pub struct LruCache<Value> {
    slots: Vec<(u64, Value)>,
    capacity: usize,
}

impl<Value> View for LruCache<Value> {
    type V = Seq<(u64, Value)>;

    /// The entries, from the least to the most recently used.
    closed spec fn view(&self) -> Seq<(u64, Value)> {
        self.slots@
    }
}

impl<Value> LruCache<Value> {
    /// The largest number of entries held at once.
    pub closed spec fn spec_capacity(&self) -> nat {
        self.capacity as nat
    }

    /// The cache holds no more than its capacity and no key twice.
    pub open spec fn wf(&self) -> bool {
        &&& self@.len() <= self.spec_capacity()
        &&& distinct_keys(self@)
    }

    /// An empty cache that holds at most `capacity` entries.
    pub fn new(capacity: usize) -> (cache: Self)
        ensures
            cache.wf(),
            cache@ == Seq::<(u64, Value)>::empty(),
            cache.spec_capacity() == capacity,
    {
        LruCache { slots: Vec::new(), capacity }
    }

    /// The largest number of entries held at once.
    pub fn capacity(&self) -> (capacity: usize)
        ensures
            capacity == self.spec_capacity(),
    {
        self.capacity
    }

    /// The number of entries held.
    pub fn len(&self) -> (n: usize)
        ensures
            n == self@.len(),
    {
        self.slots.len()
    }

    /// The slot that holds `key`.
    fn find(&self, key: u64) -> (at: Option<usize>)
        ensures
            match at {
                Some(i) => i < self@.len() && self@[i as int].0 == key && holds(self@, key),
                None => !holds(self@, key),
            },
    {
        let mut i: usize = 0;
        while i < self.slots.len()
            invariant
                i <= self.slots@.len(),
                forall|j: int| 0 <= j < i ==> (#[trigger] self.slots@[j]).0 != key,
            decreases self.slots@.len() - i,
        {
            if self.slots[i].0 == key {
                return Some(i);
            }
            i = i + 1;
        }
        None
    }

    /// Whether `key` is resident.
    pub fn contains(&self, key: u64) -> (yes: bool)
        ensures
            yes == holds(self@, key),
    {
        self.find(key).is_some()
    }

    /// The value under `key`, without counting as a use.
    pub fn peek(&self, key: u64) -> (found: Option<&Value>)
        requires
            self.wf(),
        ensures
            match found {
                Some(v) => value_of(self@, key) == Some(*v),
                None => value_of(self@, key) is None,
            },
    {
        match self.find(key) {
            Some(i) => Some(&self.slots[i].1),
            None => None,
        }
    }

    /// The value under `key`; the entry becomes the most recently used.
    pub fn get(&mut self, key: u64) -> (found: Option<&Value>)
        requires
            old(self).wf(),
        ensures
            final(self).wf(),
            final(self).spec_capacity() == old(self).spec_capacity(),
            final(self)@ == touched(old(self)@, key),
            match found {
                Some(v) => value_of(old(self)@, key) == Some(*v),
                None => value_of(old(self)@, key) is None,
            },
    {
        match self.find(key) {
            Some(i) => {
                let slot = self.slots.remove(i);
                self.slots.push(slot);
                let last: usize = self.slots.len() - 1;
                Some(&self.slots[last].1)
            },
            None => None,
        }
    }

    /// Stores `value` under `key` as the most recently used entry. An entry
    /// under the same key is replaced; otherwise, where the cache is full, the
    /// least recently used entry is evicted. A cache of capacity zero stores
    /// nothing.
    pub fn put(&mut self, key: u64, value: Value)
        requires
            old(self).wf(),
        ensures
            final(self).wf(),
            final(self).spec_capacity() == old(self).spec_capacity(),
            final(self)@ == stored(old(self)@, old(self).spec_capacity(), key, value),
    {
        if self.capacity == 0 {
            return ;
        }
        match self.find(key) {
            Some(i) => {
                let _ = self.slots.remove(i);
            },
            None => {
                if self.slots.len() >= self.capacity {
                    let _ = self.slots.remove(0);
                    assert(self.slots@ =~= old(self)@.drop_first());
                }
            },
        }
        self.slots.push((key, value));
    }

    /// The value under `key`, fetched with `getter` if it is not resident. A
    /// resident value becomes the most recently used; a fetched value is
    /// stored; a failure is handed on and leaves the cache as it was.
    pub fn cached_get<E, F: FnOnce() -> Result<Value, E>>(&mut self, key: u64, getter: F) -> (got:
        Result<&Value, E>)
        requires
            old(self).wf(),
            old(self).spec_capacity() > 0,
            call_requires(getter, ()),
        ensures
            final(self).wf(),
            final(self).spec_capacity() == old(self).spec_capacity(),
            holds(old(self)@, key) ==> final(self)@ == touched(old(self)@, key) && (got matches Ok(
                v,
            ) && Some(*v) == value_of(old(self)@, key)),
            !holds(old(self)@, key) ==> match got {
                Ok(v) => call_ensures(getter, (), Ok(*v)) && final(self)@ == stored(
                    old(self)@,
                    old(self).spec_capacity(),
                    key,
                    *v,
                ),
                Err(e) => call_ensures(getter, (), Err(e)) && final(self)@ == old(self)@,
            },
    {
        if self.find(key).is_some() {
            match self.get(key) {
                Some(v) => Ok(v),
                None => vstd::pervasive::unreached(),
            }
        } else {
            match getter() {
                Ok(value) => {
                    self.put(key, value);
                    let last: usize = self.slots.len() - 1;
                    Ok(&self.slots[last].1)
                },
                Err(e) => Err(e),
            }
        }
    }
}

/// What was just stored is resident: after a store under `key` in a cache
/// with room for at least one entry, `key` holds the stored value and the
/// cache keeps its shape.
pub proof fn lemma_stored_is_resident<Value>(
    s: Seq<(u64, Value)>,
    capacity: nat,
    key: u64,
    value: Value,
)
    requires
        distinct_keys(s),
        s.len() <= capacity,
        capacity > 0,
    ensures
        distinct_keys(stored(s, capacity, key, value)),
        stored(s, capacity, key, value).len() <= capacity,
        holds(stored(s, capacity, key, value), key),
        value_of(stored(s, capacity, key, value), key) == Some(value),
{
    let t = stored(s, capacity, key, value);
    let last = t.len() - 1;
    assert(t[last] == (key, value));
    if holds(s, key) {
        let at = slot_of(s, key);
        assert forall|i: int, j: int|
            0 <= i < t.len() && 0 <= j < t.len() && (#[trigger] t[i]).0 == (#[trigger] t[j]).0
            implies i == j by {
            if i < last {
                lemma_removed_keys(s, at, i);
            }
            if j < last {
                lemma_removed_keys(s, at, j);
            }
        }
    } else if s.len() >= capacity {
        assert forall|i: int, j: int|
            0 <= i < t.len() && 0 <= j < t.len() && (#[trigger] t[i]).0 == (#[trigger] t[j]).0
            implies i == j by {
            if i < last {
                assert(t[i] == s[i + 1]);
            }
            if j < last {
                assert(t[j] == s[j + 1]);
            }
        }
    } else {
        assert forall|i: int, j: int|
            0 <= i < t.len() && 0 <= j < t.len() && (#[trigger] t[i]).0 == (#[trigger] t[j]).0
            implies i == j by {
            if i < last {
                assert(t[i] == s[i]);
            }
            if j < last {
                assert(t[j] == s[j]);
            }
        }
    }
}

/// With slot `at` removed, slot `i` of what is left is slot `i` or `i + 1`
/// of `s`, and never slot `at`.
proof fn lemma_removed_keys<Value>(s: Seq<(u64, Value)>, at: int, i: int)
    requires
        0 <= at < s.len(),
        0 <= i < s.len() - 1,
    ensures
        s.remove(at)[i] == if i < at {
            s[i]
        } else {
            s[i + 1]
        },
{
}

/// A use keeps what is resident: after a use of `key`, every key holds the
/// value it held before, and `key`, if resident, is the most recently used.
pub proof fn lemma_touched_keeps_values<Value>(s: Seq<(u64, Value)>, key: u64, other: u64)
    requires
        distinct_keys(s),
    ensures
        distinct_keys(touched(s, key)),
        touched(s, key).len() == s.len(),
        holds(touched(s, key), other) == holds(s, other),
        value_of(touched(s, key), other) == value_of(s, other),
        holds(s, key) ==> touched(s, key).last().0 == key,
{
    let t = touched(s, key);
    if holds(s, key) {
        let at = slot_of(s, key);
        let last = t.len() - 1;
        assert(t[last] == s[at]);
        assert forall|i: int| 0 <= i < last implies #[trigger] t[i] == (if i < at {
            s[i]
        } else {
            s[i + 1]
        }) by {
            lemma_removed_keys(s, at, i);
        }
        assert forall|i: int, j: int|
            0 <= i < t.len() && 0 <= j < t.len() && (#[trigger] t[i]).0 == (#[trigger] t[j]).0
            implies i == j by {
            if i < last {
                lemma_removed_keys(s, at, i);
            }
            if j < last {
                lemma_removed_keys(s, at, j);
            }
        }
        if holds(s, other) {
            let so = slot_of(s, other);
            let to = if so < at {
                so
            } else if so == at {
                last
            } else {
                so - 1
            };
            if so != at {
                lemma_removed_keys(s, at, to);
            }
            assert(t[to] == s[so]);
            assert(holds(t, other));
            let chosen = slot_of(t, other);
            assert(chosen == to);
        } else if holds(t, other) {
            let chosen = slot_of(t, other);
            if chosen < last {
                lemma_removed_keys(s, at, chosen);
            }
            assert(false);
        }
    }
}

/// Only the least recently used entry is evicted: a store under another key
/// keeps `key` and its value, unless the cache was full and `key` was the
/// entry used longest ago.
pub proof fn lemma_store_evicts_oldest_only<Value>(
    s: Seq<(u64, Value)>,
    capacity: nat,
    key: u64,
    other: u64,
    value: Value,
)
    requires
        distinct_keys(s),
        s.len() <= capacity,
        holds(s, key),
        other != key,
        s.len() < capacity || holds(s, other) || s[0].0 != key,
    ensures
        holds(stored(s, capacity, other, value), key),
        value_of(stored(s, capacity, other, value), key) == value_of(s, key),
{
    let t = stored(s, capacity, other, value);
    lemma_stored_is_resident(s, capacity, other, value);
    let sk = slot_of(s, key);
    if holds(s, other) {
        let at = slot_of(s, other);
        let tk = if sk < at {
            sk
        } else {
            sk - 1
        };
        lemma_removed_keys(s, at, tk);
        assert(t[tk] == s[sk]);
    } else if s.len() >= capacity {
        assert(t[sk - 1] == s[sk]);
    } else {
        assert(t[sk] == s[sk]);
    }
    assert(holds(t, key));
}

} // verus!
