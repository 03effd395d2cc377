//! The in-memory cache of deserialized modules, keyed by cache key, with a
//! pseudo-LRU tracker choosing which entry to evict once its 64 lines are
//! taken. A bimap ties each tracker line to the key of the entry it holds.

use crate::plru::{line_hot, replacement, MicroCache};
use bimap::BiHashMap;
use std::sync::Arc;
use vstd::prelude::*;

verus! {

/// Cache keys are hashes, so 32 bytes are enough for all purposes.
pub type CacheKey = [u8; 32];

/// bimap's map of left values to right values, each of which occurs once,
/// carried through opaquely.
#[verifier::external_type_specification]
#[verifier::external_body]
#[verifier::reject_recursive_types(L)]
#[verifier::reject_recursive_types(R)]
#[verifier::reject_recursive_types(LS)]
#[verifier::reject_recursive_types(RS)]
pub struct ExBiHashMap<L, R, LS, RS>(BiHashMap<L, R, LS, RS>);

/// The pairs a bimap of tracker lines and cache keys holds, each line
/// mapped to its key.
pub uninterp spec fn key_map_pairs(m: BiHashMap<usize, CacheKey>) -> Map<usize, CacheKey>;

/// The pairs left of `pairs` once every pair with line `line` or key `key`
/// is taken out.
pub open spec fn without_either(pairs: Map<usize, CacheKey>, line: usize, key: CacheKey) -> Map<usize, CacheKey> {
    pairs.restrict(pairs.dom().filter(|l: usize| l != line && pairs[l] != key))
}

/// bimap's `BiHashMap::new`: an empty bimap.
#[verifier::external_body]
fn key_map_new() -> (m: BiHashMap<usize, CacheKey>)
    ensures
        key_map_pairs(m) =~= Map::empty(),
{
    BiHashMap::new()
}

/// bimap's `BiHashMap::get_by_left`: the key paired with `line`, if any
/// (copied out of the bimap).
#[verifier::external_body]
fn key_map_get_by_left(m: &BiHashMap<usize, CacheKey>, line: usize) -> (r: Option<CacheKey>)
    ensures
        r == (if key_map_pairs(*m).contains_key(line) {
            Some(key_map_pairs(*m)[line])
        } else {
            None
        }),
{
    m.get_by_left(&line).copied()
}

/// bimap's `BiHashMap::get_by_right`: a line paired with `key`, present
/// exactly when some line is (copied out of the bimap).
#[verifier::external_body]
fn key_map_get_by_right(m: &BiHashMap<usize, CacheKey>, key: &CacheKey) -> (r: Option<usize>)
    ensures
        r is Some <==> key_map_pairs(*m).contains_value(*key),
        r matches Some(l) ==> key_map_pairs(*m).contains_key(l) && key_map_pairs(*m)[l] == *key,
{
    m.get_by_right(key).copied()
}

/// bimap's `BiHashMap::insert`: every pair with the same line or the same
/// key is taken out, then the pair is put in. What was overwritten, which
/// bimap also returns, is dropped.
#[verifier::external_body]
fn key_map_insert(m: &mut BiHashMap<usize, CacheKey>, line: usize, key: CacheKey)
    ensures
        key_map_pairs(*final(m)) == without_either(key_map_pairs(*old(m)), line, key).insert(line, key),
{
    m.insert(line, key);
}

/// Whether two keys are the same, byte by byte.
fn keys_equal(a: &CacheKey, b: &CacheKey) -> (r: bool)
    ensures
        r == (*a == *b),
{
    let mut i: usize = 0;
    while i < 32
        invariant
            i <= 32,
            forall|j: int| 0 <= j < i ==> a@[j] == b@[j],
        decreases 32 - i,
    {
        if a[i] != b[i] {
            return false;
        }
        i = i + 1;
    }
    proof {
        broadcast use vstd::array::group_array_axioms;
        assert(*a =~= *b);
    }
    true
}

/// The items held by the entries, each key once.
pub open spec fn entries_map<T>(entries: Seq<(CacheKey, Arc<T>)>) -> Map<CacheKey, Arc<T>> {
    Map::new(
        |k: CacheKey| exists|i: int| 0 <= i < entries.len() && entries[i].0 == k,
        |k: CacheKey| entries[choose|i: int| 0 <= i < entries.len() && entries[i].0 == k].1,
    )
}

/// No key occurs in two entries.
pub open spec fn keys_distinct<T>(entries: Seq<(CacheKey, Arc<T>)>) -> bool {
    forall|i: int, j: int| 0 <= i < j < entries.len() ==> entries[i].0 != entries[j].0
}

/// The entry at `i` is the one `entries_map` takes for its key.
proof fn lemma_entry_is_item<T>(entries: Seq<(CacheKey, Arc<T>)>, i: int)
    requires
        keys_distinct(entries),
        0 <= i < entries.len(),
    ensures
        entries_map(entries).contains_key(entries[i].0),
        entries_map(entries)[entries[i].0] == entries[i].1,
{
    let k = entries[i].0;
    let c = choose|j: int| 0 <= j < entries.len() && entries[j].0 == k;
    assert(0 <= c < entries.len() && entries[c].0 == k);
    if c != i {
        if c < i {
            assert(entries[c].0 != entries[i].0);
        } else {
            assert(entries[i].0 != entries[c].0);
        }
    }
}

/// Taking out the entry at `i` takes its key out of the items.
proof fn lemma_entries_remove<T>(entries: Seq<(CacheKey, Arc<T>)>, i: int)
    requires
        keys_distinct(entries),
        0 <= i < entries.len(),
    ensures
        keys_distinct(entries.remove(i)),
        entries_map(entries.remove(i)) == entries_map(entries).remove(entries[i].0),
{
    let e2 = entries.remove(i);
    assert forall|a: int, b: int| 0 <= a < b < e2.len() implies e2[a].0 != e2[b].0 by {
        let a0 = if a < i { a } else { a + 1 };
        let b0 = if b < i { b } else { b + 1 };
        assert(e2[a] == entries[a0] && e2[b] == entries[b0]);
    }
    let m = entries_map(entries).remove(entries[i].0);
    let m2 = entries_map(e2);
    assert forall|k: CacheKey| m2.contains_key(k) <==> m.contains_key(k) by {
        if m2.contains_key(k) {
            let j = choose|j: int| 0 <= j < e2.len() && e2[j].0 == k;
            let j0 = if j < i { j } else { j + 1 };
            assert(entries[j0].0 == k);
            if k == entries[i].0 {
                if j0 < i {
                    assert(entries[j0].0 != entries[i].0);
                } else {
                    assert(entries[i].0 != entries[j0].0);
                }
            }
        }
        if m.contains_key(k) {
            let j = choose|j: int| 0 <= j < entries.len() && entries[j].0 == k;
            assert(j != i);
            let j2 = if j < i { j } else { j - 1 };
            assert(e2[j2].0 == k);
        }
    }
    assert forall|k: CacheKey| #[trigger] m2.contains_key(k) implies m2[k] == m[k] by {
        let j = choose|j: int| 0 <= j < e2.len() && e2[j].0 == k;
        let j0 = if j < i { j } else { j + 1 };
        assert(e2[j] == entries[j0]);
        lemma_entry_is_item(e2, j);
        lemma_entry_is_item(entries, j0);
    }
    assert(m2 =~= m);
}

/// Replacing the item of the entry at `i` replaces it in the items.
proof fn lemma_entries_update<T>(entries: Seq<(CacheKey, Arc<T>)>, i: int, item: Arc<T>)
    requires
        keys_distinct(entries),
        0 <= i < entries.len(),
    ensures
        keys_distinct(entries.update(i, (entries[i].0, item))),
        entries_map(entries.update(i, (entries[i].0, item))) == entries_map(entries).insert(entries[i].0, item),
{
    let e2 = entries.update(i, (entries[i].0, item));
    assert forall|a: int, b: int| 0 <= a < b < e2.len() implies e2[a].0 != e2[b].0 by {
        assert(e2[a].0 == entries[a].0 && e2[b].0 == entries[b].0);
    }
    let m = entries_map(entries).insert(entries[i].0, item);
    let m2 = entries_map(e2);
    assert forall|k: CacheKey| m2.contains_key(k) <==> m.contains_key(k) by {
        if m2.contains_key(k) {
            let j = choose|j: int| 0 <= j < e2.len() && e2[j].0 == k;
            assert(entries[j].0 == k);
        }
        if m.contains_key(k) && k != entries[i].0 {
            let j = choose|j: int| 0 <= j < entries.len() && entries[j].0 == k;
            assert(e2[j].0 == k);
        }
        if k == entries[i].0 {
            assert(e2[i].0 == k);
        }
    }
    assert forall|k: CacheKey| #[trigger] m2.contains_key(k) implies m2[k] == m[k] by {
        let j = choose|j: int| 0 <= j < e2.len() && e2[j].0 == k;
        lemma_entry_is_item(e2, j);
        if j != i {
            lemma_entry_is_item(entries, j);
            assert(entries[j].0 != entries[i].0) by {
                if j < i {
                } else {
                }
            }
        }
    }
    assert(m2 =~= m);
}

/// Adding an entry with a key that is not there yet adds it to the items.
proof fn lemma_entries_push<T>(entries: Seq<(CacheKey, Arc<T>)>, key: CacheKey, item: Arc<T>)
    requires
        keys_distinct(entries),
        !entries_map(entries).contains_key(key),
    ensures
        keys_distinct(entries.push((key, item))),
        entries_map(entries.push((key, item))) == entries_map(entries).insert(key, item),
{
    let e2 = entries.push((key, item));
    assert forall|a: int, b: int| 0 <= a < b < e2.len() implies e2[a].0 != e2[b].0 by {
        if b == entries.len() {
            assert(e2[a].0 == entries[a].0);
            if entries[a].0 == key {
                assert(entries_map(entries).contains_key(key));
            }
        } else {
            assert(e2[a] == entries[a] && e2[b] == entries[b]);
        }
    }
    let m = entries_map(entries).insert(key, item);
    let m2 = entries_map(e2);
    assert forall|k: CacheKey| m2.contains_key(k) <==> m.contains_key(k) by {
        if m2.contains_key(k) && k != key {
            let j = choose|j: int| 0 <= j < e2.len() && e2[j].0 == k;
            assert(j < entries.len());
            assert(entries[j].0 == k);
        }
        if m.contains_key(k) && k != key {
            let j = choose|j: int| 0 <= j < entries.len() && entries[j].0 == k;
            assert(e2[j].0 == k);
        }
        if k == key {
            assert(e2[entries.len() as int].0 == k);
        }
    }
    assert forall|k: CacheKey| #[trigger] m2.contains_key(k) implies m2[k] == m[k] by {
        let j = choose|j: int| 0 <= j < e2.len() && e2[j].0 == k;
        lemma_entry_is_item(e2, j);
        if j < entries.len() {
            lemma_entry_is_item(entries, j);
        }
    }
    assert(m2 =~= m);
}

/// Caches deserialized items by cache key. A pseudo-LRU tracker of 64 lines
/// decides which entry a new one replaces, and a bimap ties each line to the
/// key of the entry it holds.
pub struct DeserializedModuleCache<T> {
    plru: MicroCache,
    key_map: BiHashMap<usize, CacheKey>,
    cache: Vec<(CacheKey, Arc<T>)>,
}

impl<T> DeserializedModuleCache<T> {
    /// The cached items by key.
    pub closed spec fn items(&self) -> Map<CacheKey, Arc<T>> {
        entries_map(self.cache@)
    }

    /// The key each tracker line holds.
    pub closed spec fn lines(&self) -> Map<usize, CacheKey> {
        key_map_pairs(self.key_map)
    }

    /// The tracker's "recently used" flags, line `n` in bit `n`.
    pub closed spec fn flags(&self) -> u64 {
        self.plru.flags()
    }

    /// Every key is cached once; every line is below 64 and holds a
    /// distinct key; and the cached keys are exactly the keys some line
    /// holds, so that a cache hit always has its line.
    pub closed spec fn wf(&self) -> bool {
        &&& keys_distinct(self.cache@)
        &&& self.lines().is_injective()
        &&& forall|l: usize| #[trigger] self.lines().contains_key(l) ==> l < 64
        &&& forall|k: CacheKey| #[trigger] self.items().contains_key(k) <==> self.lines().contains_value(k)
    }

    /// The line that holds `key`.
    pub closed spec fn line_of(&self, key: CacheKey) -> usize {
        choose|l: usize| self.lines().contains_key(l) && self.lines()[l] == key
    }

    /// An empty cache, every line cold.
    pub fn new() -> (c: Self)
        ensures
            c.wf(),
            c.items() == Map::<CacheKey, Arc<T>>::empty(),
            c.lines() == Map::<usize, CacheKey>::empty(),
            c.flags() == 0,
    {
        let c = DeserializedModuleCache { plru: MicroCache::new(), key_map: key_map_new(), cache: Vec::new() };
        assert(c.items() =~= Map::<CacheKey, Arc<T>>::empty());
        c
    }

    /// The index of the entry for `key`, if there is one.
    fn find(&self, key: &CacheKey) -> (r: Option<usize>)
        requires
            keys_distinct(self.cache@),
        ensures
            r matches Some(i) ==> i < self.cache@.len() && self.cache@[i as int].0 == *key,
            r is None ==> !self.items().contains_key(*key),
    {
        let mut i: usize = 0;
        while i < self.cache.len()
            invariant
                i <= self.cache@.len(),
                forall|j: int| 0 <= j < i ==> self.cache@[j].0 != *key,
            decreases self.cache@.len() - i,
        {
            if keys_equal(&self.cache[i].0, key) {
                return Some(i);
            }
            i = i + 1;
        }
        None
    }

    /// Drops the entry for `key`, if there is one.
    fn remove_entry(&mut self, key: &CacheKey)
        requires
            keys_distinct(old(self).cache@),
        ensures
            keys_distinct(final(self).cache@),
            final(self).items() == old(self).items().remove(*key),
            final(self).key_map == old(self).key_map,
            final(self).plru == old(self).plru,
    {
        match self.find(key) {
            Some(i) => {
                proof {
                    lemma_entries_remove(self.cache@, i as int);
                }
                self.cache.remove(i);
            },
            None => {
                assert(self.items().remove(*key) =~= self.items());
            },
        }
    }

    /// Puts `item` in the cache under `key`, in place of any item it had.
    fn insert_entry(&mut self, key: CacheKey, item: Arc<T>)
        requires
            keys_distinct(old(self).cache@),
        ensures
            keys_distinct(final(self).cache@),
            final(self).items() == old(self).items().insert(key, item),
            final(self).key_map == old(self).key_map,
            final(self).plru == old(self).plru,
    {
        match self.find(&key) {
            Some(i) => {
                proof {
                    lemma_entries_update(self.cache@, i as int, item);
                }
                self.cache.set(i, (key, item));
            },
            None => {
                proof {
                    lemma_entries_push(self.cache@, key, item);
                }
                self.cache.push((key, item));
            },
        }
    }

    /// The line that holds `key`, which must be cached: a cache hit always
    /// has its line.
    pub fn plru_key(&self, key: &CacheKey) -> (r: usize)
        requires
            self.wf(),
            self.items().contains_key(*key),
        ensures
            r < 64,
            self.lines().contains_key(r),
            self.lines()[r] == *key,
            r == self.line_of(*key),
    {
        match key_map_get_by_right(&self.key_map, key) {
            Some(l) => {
                proof {
                    let c = self.line_of(*key);
                    assert(self.lines().contains_key(c) && self.lines()[c] == *key);
                }
                l
            },
            None => {
                proof {
                    assert(false);
                }
                0
            },
        }
    }

    /// Marks the line of `key`, which must be cached, as recently used.
    pub fn touch(&mut self, key: &CacheKey)
        requires
            old(self).wf(),
            old(self).items().contains_key(*key),
        ensures
            final(self).wf(),
            final(self).items() == old(self).items(),
            final(self).lines() == old(self).lines(),
            final(self).flags() == old(self).flags() | (1u64 << old(self).line_of(*key) as u64),
    {
        let plru_key = self.plru_key(key);
        self.plru.touch(plru_key);
    }

    /// The item cached under `key`, if any; a hit marks its line as
    /// recently used.
    pub fn get_item(&mut self, key: &CacheKey) -> (r: Option<Arc<T>>)
        requires
            old(self).wf(),
        ensures
            final(self).wf(),
            final(self).items() == old(self).items(),
            final(self).lines() == old(self).lines(),
            r == (if old(self).items().contains_key(*key) {
                Some(old(self).items()[*key])
            } else {
                None
            }),
            r is Some ==> final(self).flags() == old(self).flags() | (1u64 << old(self).line_of(*key) as u64),
            r is None ==> final(self).flags() == old(self).flags(),
    {
        match self.find(key) {
            Some(i) => {
                proof {
                    lemma_entry_is_item(self.cache@, i as int);
                }
                let item = Arc::clone(&self.cache[i].1);
                self.touch(key);
                Some(item)
            },
            None => None,
        }
    }

    /// Puts `item` in the cache under `key` and returns it. The line to use
    /// is the one the tracker would replace; the entry that line held, if
    /// any, is evicted, and the line is marked as recently used.
    pub fn put_item(&mut self, key: CacheKey, item: Arc<T>) -> (r: Arc<T>)
        requires
            old(self).wf(),
        ensures
            final(self).wf(),
            r == item,
            ({
                let line = replacement(old(self).flags()) as usize;
                let lines = old(self).lines();
                let kept = if lines.contains_key(line) {
                    old(self).items().remove(lines[line])
                } else {
                    old(self).items()
                };
                let inflated = if old(self).flags() == u64::MAX { 0u64 } else { old(self).flags() };
                &&& final(self).items() == kept.insert(key, item)
                &&& final(self).lines() == without_either(lines, line, key).insert(line, key)
                &&& final(self).flags() == inflated | (1u64 << line as u64)
            }),
    {
        let ghost old_lines = self.lines();
        let ghost old_items = self.items();
        let plru_key = self.plru.replace();
        match key_map_get_by_left(&self.key_map, plru_key) {
            Some(stale_key) => {
                self.remove_entry(&stale_key);
            },
            None => {},
        }
        self.insert_entry(key, Arc::clone(&item));
        self.plru.touch(plru_key);
        key_map_insert(&mut self.key_map, plru_key, key);
        proof {
            let lines = self.lines();
            let items = self.items();
            assert forall|l: usize| #[trigger] lines.contains_key(l) implies l < 64 by {
                if l != plru_key {
                    assert(old_lines.contains_key(l));
                }
            }
            assert forall|a: usize, b: usize|
                lines.contains_key(a) && lines.contains_key(b) && #[trigger] lines[a] == #[trigger] lines[b]
                    implies a == b by {
                if a != plru_key && b != plru_key {
                    assert(old_lines.contains_key(a) && old_lines.contains_key(b));
                }
            }
            assert forall|k: CacheKey| #[trigger] items.contains_key(k) <==> lines.contains_value(k) by {
                if k != key {
                    if items.contains_key(k) {
                        assert(old_items.contains_key(k));
                        assert(old_lines.contains_value(k));
                        let l = choose|l: usize| old_lines.contains_key(l) && old_lines[l] == k;
                        if l == plru_key {
                            assert(old_lines.contains_key(plru_key));
                        }
                        assert(lines.contains_key(l) && lines[l] == k);
                    }
                    if lines.contains_value(k) {
                        let l = choose|l: usize| lines.contains_key(l) && lines[l] == k;
                        assert(l != plru_key);
                        assert(old_lines.contains_key(l) && old_lines[l] == k);
                        assert(old_items.contains_key(k));
                        if old_lines.contains_key(plru_key) {
                            assert(old_lines[plru_key] != k);
                        }
                    }
                } else {
                    assert(lines.contains_key(plru_key) && lines[plru_key] == key);
                }
            }
        }
        item
    }
}

/// In a well-formed cache every cached key has a line of its own below 64,
/// so a cache hit always finds its line and at most 64 items are cached.
pub proof fn lemma_cached_keys_have_their_own_lines<T>(c: DeserializedModuleCache<T>, a: CacheKey, b: CacheKey)
    requires
        c.wf(),
        c.items().contains_key(a),
        c.items().contains_key(b),
    ensures
        c.lines().contains_key(c.line_of(a)),
        c.lines()[c.line_of(a)] == a,
        c.line_of(a) < 64,
        a != b ==> c.line_of(a) != c.line_of(b),
{
    assert(c.lines().contains_value(a));
    assert(c.lines().contains_value(b));
    let la = c.line_of(a);
    let lb = c.line_of(b);
    assert(c.lines().contains_key(la) && c.lines()[la] == a);
    assert(c.lines().contains_key(lb) && c.lines()[lb] == b);
}

/// Once an item is put under a key, getting that key gives the item back,
/// whichever entry the put evicted.
pub proof fn lemma_put_then_get<T>(c: DeserializedModuleCache<T>, key: CacheKey, item: Arc<T>)
    requires
        c.wf(),
    ensures
        ({
            let line = replacement(c.flags()) as usize;
            let kept = if c.lines().contains_key(line) {
                c.items().remove(c.lines()[line])
            } else {
                c.items()
            };
            &&& kept.insert(key, item).contains_key(key)
            &&& kept.insert(key, item)[key] == item
        }),
{
}

/// A well-formed cache holds at most 64 items: one per tracker line.
pub proof fn lemma_at_most_64_items<T>(c: DeserializedModuleCache<T>)
    requires
        c.wf(),
    ensures
        c.items().dom().finite(),
        c.items().dom().len() <= 64,
{
    let lines = c.lines();
    let lines_below = vstd::set_lib::set_int_range(0, 64).map(|i: int| i as usize);
    vstd::set_lib::lemma_int_range(0, 64);
    vstd::set_lib::lemma_map_size_bound(
        vstd::set_lib::set_int_range(0, 64),
        lines_below,
        |i: int| i as usize,
    );
    assert forall|l: usize| #[trigger] lines.dom().contains(l) implies lines_below.contains(l) by {
        assert(vstd::set_lib::set_int_range(0, 64).contains(l as int));
        assert(((l as int) as usize) == l);
    }
    vstd::set_lib::lemma_len_subset(lines.dom(), lines_below);
    let keys = lines.dom().map(|l: usize| lines[l]);
    assert forall|k: CacheKey| #[trigger] c.items().dom().contains(k) <==> keys.contains(k) by {
        if c.items().dom().contains(k) {
            assert(c.items().contains_key(k));
            assert(lines.contains_value(k));
            let l = choose|l: usize| lines.contains_key(l) && lines[l] == k;
            assert(lines.dom().contains(l));
        }
        if keys.contains(k) {
            let l = choose|l: usize| lines.dom().contains(l) && lines[l] == k;
            assert(lines.contains_value(k));
        }
    }
    assert(c.items().dom() =~= keys);
    vstd::set_lib::lemma_map_size_bound(lines.dom(), keys, |l: usize| lines[l]);
}

} // verus!
