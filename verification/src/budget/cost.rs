//! Token-cost cache with least-recently-used eviction.
//!
//! Maps a stable key of a message list to the input-token count the
//! provider reported for it, so the budget enforcer costs each distinct
//! message list once. At most `capacity` entries are held; inserting past
//! capacity evicts the least recently used entry. Capacity 0 disables the
//! cache.

use vstd::prelude::*;

verus! {

/// Cache key: a stable hash of a message list.
#[derive(Clone, Copy, Debug, PartialEq, Eq, Structural)]
pub struct CostKey(pub u64);

impl CostKey {
    /// A key from a raw hash.
    pub fn from_raw(raw: u64) -> (r: Self)
        ensures
            r == CostKey(raw),
    {
        CostKey(raw)
    }
}

/// The position of `key` in `entries`, if present.
pub open spec fn find_key(entries: Seq<(CostKey, u64)>, key: CostKey) -> Option<int> {
    if exists|i: int| 0 <= i < entries.len() && (#[trigger] entries[i]).0 == key {
        Some(choose|i: int| 0 <= i < entries.len() && (#[trigger] entries[i]).0 == key)
    } else {
        None
    }
}

/// No key occurs twice.
pub open spec fn keys_distinct(entries: Seq<(CostKey, u64)>) -> bool {
    forall|i: int, j: int|
        0 <= i < j < entries.len() ==> (#[trigger] entries[i]).0 != (#[trigger] entries[j]).0
}

/// The entries after an insert: an existing key takes the new value and
/// becomes most recent; a new key is appended, evicting the least recent
/// entry when the cache would exceed its capacity. Capacity 0 keeps
/// nothing.
pub open spec fn inserted(entries: Seq<(CostKey, u64)>, capacity: nat, key: CostKey, value: u64) -> Seq<
    (CostKey, u64),
> {
    if capacity == 0 {
        entries
    } else {
        match find_key(entries, key) {
            Some(i) => entries.remove(i).push((key, value)),
            None => {
                let grown = entries.push((key, value));
                if grown.len() > capacity {
                    grown.drop_first()
                } else {
                    grown
                }
            },
        }
    }
}

/// The entries after a lookup: a hit becomes most recent; a miss changes
/// nothing.
pub open spec fn touched(entries: Seq<(CostKey, u64)>, key: CostKey) -> Seq<(CostKey, u64)> {
    match find_key(entries, key) {
        Some(i) => entries.remove(i).push(entries[i]),
        None => entries,
    }
}

/// The value cached for `key`, if any.
pub open spec fn cached(entries: Seq<(CostKey, u64)>, key: CostKey) -> Option<u64> {
    match find_key(entries, key) {
        Some(i) => Some(entries[i].1),
        None => None,
    }
}

/// LRU cache from cost key to input-token count.
pub struct CostCache {
    capacity: usize,
    entries: Vec<(CostKey, u64)>,
}

impl CostCache {
    /// The entries, least recently used first.
    pub closed spec fn entries(&self) -> Seq<(CostKey, u64)> {
        self.entries@
    }

    /// The maximum number of entries held.
    pub closed spec fn cap(&self) -> nat {
        self.capacity as nat
    }

    /// Keys are distinct and there are at most `capacity` entries.
    pub closed spec fn well_formed(&self) -> bool {
        keys_distinct(self.entries@) && self.entries@.len() <= self.capacity
    }

    /// A well-formed cache holds at most its capacity of entries and each
    /// key once. `new` makes a well-formed cache and `get` and `insert`
    /// keep it so, so this holds after any sequence of calls.
    pub proof fn lemma_size_and_keys(&self)
        requires
            self.well_formed(),
        ensures
            self.entries().len() <= self.cap(),
            keys_distinct(self.entries()),
    {
    }

    /// An empty cache holding at most `capacity` entries.
    pub fn new(capacity: usize) -> (r: Self)
        ensures
            r.well_formed(),
            r.cap() == capacity,
            r.entries() == Seq::<(CostKey, u64)>::empty(),
    {
        CostCache { capacity, entries: Vec::new() }
    }

    fn position(&self, key: &CostKey) -> (r: Option<usize>)
        requires
            keys_distinct(self.entries@),
        ensures
            match find_key(self.entries@, *key) {
                Some(i) => r == Some(i as usize),
                None => r is None,
            },
    {
        let mut i: usize = 0;
        while i < self.entries.len()
            invariant
                i <= self.entries@.len(),
                keys_distinct(self.entries@),
                forall|j: int| 0 <= j < i ==> (#[trigger] self.entries@[j]).0 != *key,
            decreases self.entries@.len() - i,
        {
            if self.entries[i].0 == *key {
                proof {
                    let c = choose|c: int|
                        0 <= c < self.entries@.len() && (#[trigger] self.entries@[c]).0 == *key;
                    if c != i {
                        if c < i {
                            assert(self.entries@[c].0 != self.entries@[i as int].0);
                        } else {
                            assert(self.entries@[i as int].0 != self.entries@[c].0);
                        }
                    }
                }
                return Some(i);
            }
            i = i + 1;
        }
        None
    }

    /// Looks up a cached count; a hit becomes the most recently used
    /// entry.
    pub fn get(&mut self, key: &CostKey) -> (r: Option<u64>)
        requires
            old(self).well_formed(),
        ensures
            final(self).well_formed(),
            final(self).cap() == old(self).cap(),
            r == cached(old(self).entries(), *key),
            final(self).entries() == touched(old(self).entries(), *key),
    {
        match self.position(key) {
            Some(pos) => {
                let ghost before = self.entries@;
                let entry = self.entries.remove(pos);
                self.entries.push(entry);
                proof {
                    lemma_remove_push_distinct(before, pos as int);
                }
                Some(entry.1)
            },
            None => None,
        }
    }

    /// Inserts or updates `key`. An update makes the key most recent; a
    /// new key evicts the least recently used entry when the cache is
    /// full. Capacity 0 keeps nothing.
    pub fn insert(&mut self, key: CostKey, value: u64)
        requires
            old(self).well_formed(),
        ensures
            final(self).well_formed(),
            final(self).cap() == old(self).cap(),
            final(self).entries() == inserted(old(self).entries(), old(self).cap(), key, value),
    {
        if self.capacity == 0 {
            return;
        }
        let ghost before = self.entries@;
        match self.position(&key) {
            Some(pos) => {
                self.entries.remove(pos);
                self.entries.push((key, value));
                proof {
                    let removed = before.remove(pos as int);
                    assert forall|i: int, j: int|
                        0 <= i < j < self.entries@.len() implies (
                        #[trigger] self.entries@[i]).0 != (#[trigger] self.entries@[j]).0 by {
                        if j == self.entries@.len() - 1 {
                            let oi = if i < pos { i } else { i + 1 };
                            assert(removed[i] == before[oi]);
                            assert(before[pos as int].0 == key);
                            if oi < pos {
                                assert(before[oi].0 != before[pos as int].0);
                            } else {
                                assert(before[pos as int].0 != before[oi].0);
                            }
                        } else {
                            let oi = if i < pos { i } else { i + 1 };
                            let oj = if j < pos { j } else { j + 1 };
                            assert(removed[i] == before[oi]);
                            assert(removed[j] == before[oj]);
                        }
                    }
                }
            },
            None => {
                self.entries.push((key, value));
                if self.entries.len() > self.capacity {
                    self.entries.remove(0);
                    proof {
                        assert(self.entries@ =~= before.push((key, value)).drop_first());
                    }
                }
                proof {
                    let grown = before.push((key, value));
                    assert forall|i: int, j: int|
                        0 <= i < j < grown.len() implies (#[trigger] grown[i]).0 != (
                        #[trigger] grown[j]).0 by {
                        if j == grown.len() - 1 {
                            assert(grown[i] == before[i]);
                        }
                    }
                    assert forall|i: int, j: int|
                        0 <= i < j < self.entries@.len() implies (#[trigger] self.entries@[i]).0
                            != (#[trigger] self.entries@[j]).0 by {
                        if self.entries@.len() < grown.len() {
                            assert(self.entries@[i] == grown[i + 1]);
                            assert(self.entries@[j] == grown[j + 1]);
                        } else {
                            assert(self.entries@[i] == grown[i]);
                            assert(self.entries@[j] == grown[j]);
                        }
                    }
                }
            },
        }
    }

    /// Number of cached entries.
    pub fn len(&self) -> (r: usize)
        ensures
            r == self.entries().len(),
    {
        self.entries.len()
    }

    /// No entry is cached.
    pub fn is_empty(&self) -> (r: bool)
        ensures
            r == (self.entries().len() == 0),
    {
        self.entries.len() == 0
    }

    /// The maximum number of entries held.
    pub fn capacity(&self) -> (r: usize)
        ensures
            r == self.cap(),
    {
        self.capacity
    }

    /// The keys, least recently used first.
    pub fn order_snapshot(&self) -> (r: Vec<CostKey>)
        ensures
            r@ == self.entries().map_values(|e: (CostKey, u64)| e.0),
    {
        let mut out: Vec<CostKey> = Vec::new();
        let mut i: usize = 0;
        while i < self.entries.len()
            invariant
                i <= self.entries@.len(),
                out@ == self.entries@.subrange(0, i as int).map_values(|e: (CostKey, u64)| e.0),
            decreases self.entries@.len() - i,
        {
            out.push(self.entries[i].0);
            i = i + 1;
            proof {
                assert(out@ =~= self.entries@.subrange(0, i as int).map_values(
                    |e: (CostKey, u64)| e.0,
                ));
            }
        }
        proof {
            assert(self.entries@.subrange(0, self.entries@.len() as int) =~= self.entries@);
        }
        out
    }
}

impl Default for CostCache {
    /// A cache of 256 entries, more than a multi-turn agent loop's message
    /// count.
    fn default() -> (r: Self)
        ensures
            r.well_formed(),
            r.cap() == 256,
            r.entries() == Seq::<(CostKey, u64)>::empty(),
    {
        CostCache::new(256)
    }
}

proof fn lemma_remove_push_distinct(entries: Seq<(CostKey, u64)>, pos: int)
    requires
        keys_distinct(entries),
        0 <= pos < entries.len(),
    ensures
        keys_distinct(entries.remove(pos).push(entries[pos])),
        find_key(entries, entries[pos].0) == Some(pos),
{
    let removed = entries.remove(pos);
    let after = removed.push(entries[pos]);
    assert forall|i: int, j: int| 0 <= i < j < after.len() implies (#[trigger] after[i]).0 != (
    #[trigger] after[j]).0 by {
        let oi = if i < pos { i } else { i + 1 };
        assert(removed[i] == entries[oi]);
        if j == after.len() - 1 {
            if oi < pos {
                assert(entries[oi].0 != entries[pos].0);
            } else {
                assert(entries[pos].0 != entries[oi].0);
            }
        } else {
            let oj = if j < pos { j } else { j + 1 };
            assert(removed[j] == entries[oj]);
        }
    }
    let c = choose|c: int| 0 <= c < entries.len() && (#[trigger] entries[c]).0 == entries[pos].0;
    if c != pos {
        if c < pos {
            assert(entries[c].0 != entries[pos].0);
        } else {
            assert(entries[pos].0 != entries[c].0);
        }
    }
}

/// The cache never holds more than its capacity, whatever is inserted.
pub proof fn lemma_insert_respects_capacity(
    entries: Seq<(CostKey, u64)>,
    capacity: nat,
    key: CostKey,
    value: u64,
)
    requires
        entries.len() <= capacity,
    ensures
        inserted(entries, capacity, key, value).len() <= capacity,
{
}

/// A value just inserted is what a lookup of its key returns, unless the
/// cache is disabled.
pub proof fn lemma_insert_then_get(
    entries: Seq<(CostKey, u64)>,
    capacity: nat,
    key: CostKey,
    value: u64,
)
    requires
        keys_distinct(entries),
        entries.len() <= capacity,
        capacity > 0,
    ensures
        cached(inserted(entries, capacity, key, value), key) == Some(value),
{
    let after = inserted(entries, capacity, key, value);
    let last = after.len() - 1;
    assert(after[last] == (key, value));
    match find_key(entries, key) {
        Some(pos) => {
            lemma_remove_push_distinct(entries, pos);
            let removed = entries.remove(pos);
            assert forall|i: int, j: int| 0 <= i < j < after.len() implies (#[trigger] after[i]).0
                != (#[trigger] after[j]).0 by {
                let oi = if i < pos { i } else { i + 1 };
                assert(removed[i] == entries[oi]);
                if j == after.len() - 1 {
                    if oi < pos {
                        assert(entries[oi].0 != entries[pos].0);
                    } else {
                        assert(entries[pos].0 != entries[oi].0);
                    }
                } else {
                    let oj = if j < pos { j } else { j + 1 };
                    assert(removed[j] == entries[oj]);
                }
            }
        },
        None => {
            let grown = entries.push((key, value));
            assert forall|i: int, j: int| 0 <= i < j < grown.len() implies (#[trigger] grown[i]).0
                != (#[trigger] grown[j]).0 by {
                if j == grown.len() - 1 {
                    assert(grown[i] == entries[i]);
                }
            }
        },
    }
    let c = choose|c: int| 0 <= c < after.len() && (#[trigger] after[c]).0 == key;
    assert(after[last].0 == key);
    if c != last {
        assert(after[c].0 != after[last].0);
    }
}

/// A disabled cache (capacity 0) never returns a value.
pub proof fn lemma_disabled_cache_misses(
    entries: Seq<(CostKey, u64)>,
    key: CostKey,
    value: u64,
)
    requires
        entries.len() == 0,
    ensures
        inserted(entries, 0, key, value).len() == 0,
        cached(inserted(entries, 0, key, value), key) is None,
{
}

/// Updating a key that is already cached never evicts: the number of
/// entries is unchanged.
pub proof fn lemma_update_keeps_size(
    entries: Seq<(CostKey, u64)>,
    capacity: nat,
    key: CostKey,
    value: u64,
)
    requires
        capacity > 0,
        find_key(entries, key) is Some,
    ensures
        inserted(entries, capacity, key, value).len() == entries.len(),
{
}

} // verus!
