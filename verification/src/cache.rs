//! Bounded metadata cache with singleflight fetch coalescing and
//! least-recently-used eviction.
//!
//! The cache maps a file identity to a shared envelope. An entry is either
//! `Loading` — an in-flight fetch that concurrent requesters for the same
//! key must wait on rather than duplicate — or `Ready` with the fetched
//! value. An entry transitions `Loading` to `Ready` exactly once, or is
//! removed when its fetch fails, so no entry is ever `Ready` with a failed
//! or partial value.
//!
//! The model of the cache is its recency sequence: the slots in order of
//! access, least recently accessed first. Eviction removes the first
//! `Ready` slot of that sequence and never touches a `Loading` slot.

use crate::meta_data::{Error, SstMetaData};
use crate::source::{MetaSource, SourceError, SourceEvent};
use crate::types::{SstFilePath, SstReadHint};
use vstd::prelude::*;

verus! {

/// State of one cache entry: an in-flight fetch, or the fetched envelope.
#[derive(Debug)]
pub enum EntryState {
    Loading,
    Ready(SstMetaData),
}

/// The recency sequence: slots in order of access, least recent first.
pub type CacheModel = Seq<(SstFilePath, EntryState)>;

/// The state of the first slot that carries `key`, if any.
pub open spec fn lookup(m: CacheModel, key: SstFilePath) -> Option<EntryState>
    decreases m.len(),
{
    if m.len() == 0 {
        None
    } else if m[0].0 == key {
        Some(m[0].1)
    } else {
        lookup(m.drop_first(), key)
    }
}

/// The index of the first slot that carries `key`.
pub open spec fn index_of(m: CacheModel, key: SstFilePath) -> int
    decreases m.len(),
{
    if m.len() == 0 {
        0
    } else if m[0].0 == key {
        0
    } else {
        1 + index_of(m.drop_first(), key)
    }
}

/// No two slots carry the same key.
pub open spec fn keys_unique(m: CacheModel) -> bool {
    forall|i: int, j: int| 0 <= i < j < m.len() ==> (#[trigger] m[i]).0 != (#[trigger] m[j]).0
}

/// Every `Ready` slot holds a well-formed envelope: the cache never holds
/// an inconsistent or partially-constructed value.
pub open spec fn ready_wf(m: CacheModel) -> bool {
    forall|i: int| 0 <= i < m.len() ==> ((#[trigger] m[i]).1 matches EntryState::Ready(v)
        ==> v.wf())
}

/// No fetch is in flight anywhere in the cache.
pub open spec fn no_loading(m: CacheModel) -> bool {
    forall|i: int| 0 <= i < m.len() ==> !((#[trigger] m[i]).1 is Loading)
}

/// Number of `Ready` slots.
pub open spec fn ready_count(m: CacheModel) -> int
    decreases m.len(),
{
    if m.len() == 0 {
        0
    } else {
        (if m[0].1 is Ready {
            1int
        } else {
            0int
        }) + ready_count(m.drop_first())
    }
}

/// Index of the least-recently-accessed `Ready` slot.
pub open spec fn first_ready_index(m: CacheModel) -> int
    decreases m.len(),
{
    if m.len() == 0 {
        0
    } else if m[0].1 is Ready {
        0
    } else {
        1 + first_ready_index(m.drop_first())
    }
}

/// The model after evicting the least-recently-accessed `Ready` slot.
pub open spec fn evict_lru_ready(m: CacheModel) -> CacheModel {
    m.remove(first_ready_index(m))
}

/// The model after an access of `key`: its slot moves to the
/// most-recently-accessed end.
pub open spec fn touch(m: CacheModel, key: SstFilePath) -> CacheModel {
    let i = index_of(m, key);
    m.remove(i).push(m[i])
}

proof fn lemma_lookup_found(m: CacheModel, key: SstFilePath, i: int)
    requires
        0 <= i < m.len(),
        m[i].0 == key,
        forall|j: int| 0 <= j < i ==> (#[trigger] m[j]).0 != key,
    ensures
        lookup(m, key) == Some(m[i].1),
        index_of(m, key) == i,
    decreases i,
{
    if i > 0 {
        lemma_lookup_found(m.drop_first(), key, i - 1);
    }
}

proof fn lemma_lookup_none(m: CacheModel, key: SstFilePath)
    requires
        forall|j: int| 0 <= j < m.len() ==> (#[trigger] m[j]).0 != key,
    ensures
        lookup(m, key) is None,
    decreases m.len(),
{
    if m.len() > 0 {
        lemma_lookup_none(m.drop_first(), key);
    }
}

proof fn lemma_lookup_none_converse(m: CacheModel, key: SstFilePath)
    requires
        lookup(m, key) is None,
    ensures
        forall|j: int| 0 <= j < m.len() ==> (#[trigger] m[j]).0 != key,
    decreases m.len(),
{
    if m.len() > 0 {
        lemma_lookup_none_converse(m.drop_first(), key);
        assert forall|j: int| 0 <= j < m.len() implies (#[trigger] m[j]).0 != key by {
            if j > 0 {
                assert(m[j] == m.drop_first()[j - 1]);
            }
        }
    }
}

/// A present key names a unique slot: `index_of` points at it and nothing
/// before it carries the key.
proof fn lemma_lookup_index(m: CacheModel, key: SstFilePath)
    requires
        lookup(m, key) is Some,
    ensures
        0 <= index_of(m, key) < m.len(),
        m[index_of(m, key)].0 == key,
        m[index_of(m, key)].1 == lookup(m, key)->Some_0,
        forall|j: int| 0 <= j < index_of(m, key) ==> (#[trigger] m[j]).0 != key,
    decreases m.len(),
{
    if m.len() > 0 && m[0].0 != key {
        lemma_lookup_index(m.drop_first(), key);
        assert forall|j: int| 0 <= j < index_of(m, key) implies (#[trigger] m[j]).0 != key by {
            if j > 0 {
                assert(m[j] == m.drop_first()[j - 1]);
            }
        }
    }
}

/// Removing the slot at `i` removes `i`'s key and leaves every other
/// lookup unchanged.
proof fn lemma_lookup_remove(m: CacheModel, i: int, key: SstFilePath)
    requires
        keys_unique(m),
        0 <= i < m.len(),
    ensures
        lookup(m.remove(i), key) == if m[i].0 == key {
            None::<EntryState>
        } else {
            lookup(m, key)
        },
    decreases m.len(),
{
    let r = m.remove(i);
    if i == 0 {
        assert(r =~= m.drop_first());
        if m[0].0 == key {
            assert(forall|j: int|
                0 <= j < r.len() ==> (#[trigger] r[j]).0 != key) by {
                assert(forall|j: int| 0 <= j < r.len() ==> r[j] == m[j + 1]);
            }
            lemma_lookup_none(r, key);
        }
    } else {
        assert(r[0] == m[0]);
        if m[0].0 == key {
            assert(m[i].0 != key);
        } else {
            assert(r.drop_first() =~= m.drop_first().remove(i - 1));
            assert(forall|x: int, y: int|
                0 <= x < y < m.drop_first().len() ==> (#[trigger] m.drop_first()[x]).0 != (
                #[trigger] m.drop_first()[y]).0) by {
                assert(forall|x: int|
                    0 <= x < m.drop_first().len() ==> m.drop_first()[x] == m[x + 1]);
            }
            lemma_lookup_remove(m.drop_first(), i - 1, key);
        }
    }
}

/// Appending a slot with a fresh key leaves other lookups unchanged and
/// makes the fresh key found.
proof fn lemma_lookup_push(m: CacheModel, p: (SstFilePath, EntryState), key: SstFilePath)
    ensures
        lookup(m.push(p), key) == if lookup(m, key) is Some {
            lookup(m, key)
        } else if p.0 == key {
            Some(p.1)
        } else {
            None::<EntryState>
        },
    decreases m.len(),
{
    reveal_with_fuel(lookup, 2);
    if m.len() == 0 {
        assert(m.push(p).len() == 1);
        assert(m.push(p)[0] == p);
        assert(m.push(p).drop_first() =~= Seq::<(SstFilePath, EntryState)>::empty());
        assert(lookup(m, key) is None);
        assert(lookup(Seq::<(SstFilePath, EntryState)>::empty(), key) is None);
    } else {
        assert(m.push(p)[0] == m[0]);
        assert(m.push(p).drop_first() =~= m.drop_first().push(p));
        lemma_lookup_push(m.drop_first(), p, key);
    }
}

proof fn lemma_ready_count_push(m: CacheModel, p: (SstFilePath, EntryState))
    ensures
        ready_count(m.push(p)) == ready_count(m) + (if p.1 is Ready {
            1int
        } else {
            0int
        }),
    decreases m.len(),
{
    reveal_with_fuel(ready_count, 2);
    if m.len() == 0 {
        assert(m.push(p).len() == 1);
        assert(m.push(p)[0] == p);
        assert(m.push(p).drop_first() =~= Seq::<(SstFilePath, EntryState)>::empty());
        assert(ready_count(Seq::<(SstFilePath, EntryState)>::empty()) == 0);
    } else {
        assert(m.push(p)[0] == m[0]);
        assert(m.push(p).drop_first() =~= m.drop_first().push(p));
        lemma_ready_count_push(m.drop_first(), p);
    }
}

proof fn lemma_ready_count_remove(m: CacheModel, i: int)
    ensures
        0 <= i < m.len() ==> ready_count(m.remove(i)) == ready_count(m) - (if m[i].1 is Ready {
            1int
        } else {
            0int
        }),
    decreases m.len(),
{
    if 0 <= i < m.len() {
        if i == 0 {
            assert(m.remove(0) =~= m.drop_first());
        } else {
            assert(m.remove(i)[0] == m[0]);
            assert(m.remove(i).drop_first() =~= m.drop_first().remove(i - 1));
            lemma_ready_count_remove(m.drop_first(), i - 1);
        }
    }
}

proof fn lemma_first_ready(m: CacheModel, i: int)
    requires
        0 <= i < m.len(),
        m[i].1 is Ready,
        forall|j: int| 0 <= j < i ==> !((#[trigger] m[j]).1 is Ready),
    ensures
        first_ready_index(m) == i,
        ready_count(m) > 0,
    decreases i,
{
    lemma_ready_count_nonneg(m);
    if i > 0 {
        lemma_first_ready(m.drop_first(), i - 1);
    } else {
        lemma_ready_count_nonneg(m.drop_first());
    }
}

proof fn lemma_no_ready(m: CacheModel)
    requires
        forall|j: int| 0 <= j < m.len() ==> !((#[trigger] m[j]).1 is Ready),
    ensures
        ready_count(m) == 0,
    decreases m.len(),
{
    if m.len() > 0 {
        lemma_no_ready(m.drop_first());
    }
}

proof fn lemma_ready_count_nonneg(m: CacheModel)
    ensures
        ready_count(m) >= 0,
    decreases m.len(),
{
    if m.len() > 0 {
        lemma_ready_count_nonneg(m.drop_first());
    }
}

/// Eviction removes exactly the least-recently-accessed `Ready` slot: the
/// first `Ready` slot of the recency sequence; every slot before it is
/// `Loading`.
pub proof fn lemma_evict_lru_ready_is_lru(m: CacheModel)
    requires
        ready_count(m) > 0,
    ensures
        0 <= first_ready_index(m) < m.len(),
        m[first_ready_index(m)].1 is Ready,
        forall|j: int| 0 <= j < first_ready_index(m) ==> !((#[trigger] m[j]).1 is Ready),
        evict_lru_ready(m) == m.remove(first_ready_index(m)),
    decreases m.len(),
{
    if m.len() > 0 && !(m[0].1 is Ready) {
        lemma_evict_lru_ready_is_lru(m.drop_first());
        assert(forall|j: int|
            1 <= j < m.len() ==> m.drop_first()[j - 1] == (#[trigger] m[j]));
    }
}

/// Eviction never removes a `Loading` entry: a key that is loading before
/// an eviction is still loading, unchanged, after it.
pub proof fn lemma_evict_preserves_loading(m: CacheModel, key: SstFilePath)
    requires
        keys_unique(m),
        ready_count(m) > 0,
        lookup(m, key) == Some(EntryState::Loading),
    ensures
        lookup(evict_lru_ready(m), key) == Some(EntryState::Loading),
{
    lemma_evict_lru_ready_is_lru(m);
    lemma_lookup_index(m, key);
    assert(m[first_ready_index(m)].0 != key);
    lemma_lookup_remove(m, first_ready_index(m), key);
}

/// Outcome of asking the cache for a key before fetching: the cached
/// envelope, an order to wait on the fetch already in flight, or the duty
/// to fetch (the cache has recorded the fetch as in flight).
#[derive(Debug)]
pub enum BeginFetch {
    /// The key is `Ready`; its shared envelope.
    Hit(SstMetaData),
    /// A fetch for the key is already in flight; wait on its outcome
    /// instead of duplicating the read.
    Wait,
    /// No entry existed; the caller must perform the fetch and report its
    /// outcome with `complete_fetch` or `abort_fetch`.
    MustFetch,
}

/// Bounded, least-recently-used cache from file identity to shared
/// metadata envelope, with singleflight fetch coalescing.
#[derive(Debug)]
pub struct MetadataCache {
    slots: Vec<(SstFilePath, EntryState)>,
    capacity: usize,
}

impl View for MetadataCache {
    type V = CacheModel;

    closed spec fn view(&self) -> CacheModel {
        self.slots@
    }
}

impl MetadataCache {
    /// Keys are unique and at most `capacity` slots are `Ready`; `Loading`
    /// slots are not counted, they hold no value.
    pub open spec fn wf(&self) -> bool {
        &&& keys_unique(self@)
        &&& ready_wf(self@)
        &&& ready_count(self@) <= self.spec_capacity()
        &&& self.spec_capacity() >= 1
    }

    /// The configured bound on `Ready` entries.
    pub closed spec fn spec_capacity(&self) -> usize {
        self.capacity
    }

    /// An empty cache bounded to `capacity` ready entries.
    pub fn new(capacity: usize) -> (r: MetadataCache)
        requires
            capacity >= 1,
        ensures
            r.wf(),
            r@ == Seq::<(SstFilePath, EntryState)>::empty(),
            r.spec_capacity() == capacity,
    {
        let r = MetadataCache { slots: Vec::new(), capacity };
        proof {
            assert(r@ =~= Seq::<(SstFilePath, EntryState)>::empty());
        }
        r
    }

    /// The configured bound on `Ready` entries.
    pub fn capacity(&self) -> (r: usize)
        ensures
            r == self.spec_capacity(),
    {
        self.capacity
    }

    /// Number of slots, `Loading` ones included.
    pub fn len(&self) -> (r: usize)
        ensures
            r == self@.len(),
    {
        self.slots.len()
    }

    /// Asks the cache for `key` before fetching. Exactly one of three
    /// things happens: a `Ready` entry is a hit, returned shared and moved
    /// to the most-recently-accessed end; a `Loading` entry coalesces the
    /// caller onto the in-flight fetch (`Wait`) and the cache is
    /// unchanged; an absent key is recorded as `Loading` and the caller
    /// alone must fetch (`MustFetch`). A second caller for the same key
    /// therefore always gets `Wait` while a fetch is in flight: at most
    /// one fetch per key.
    pub fn begin_fetch(&mut self, key: SstFilePath) -> (r: BeginFetch)
        requires
            old(self).wf(),
        ensures
            final(self).wf(),
            final(self).spec_capacity() == old(self).spec_capacity(),
            lookup(old(self)@, key) matches Some(EntryState::Ready(m)) ==> r == BeginFetch::Hit(m)
                && final(self)@ == touch(old(self)@, key),
            lookup(old(self)@, key) == Some(EntryState::Loading) ==> r == BeginFetch::Wait && final(self)@ == old(self)@,
            lookup(old(self)@, key) is None ==> r == BeginFetch::MustFetch && final(self)@ == old(self)@.push((key, EntryState::Loading)),
            lookup(old(self)@, key) is None ==> lookup(final(self)@, key) == Some(
                EntryState::Loading,
            ),
    {
        match find_index(&self.slots, key) {
            Some(i) => {
                let is_loading = match &self.slots[i].1 {
                    EntryState::Loading => true,
                    EntryState::Ready(_) => false,
                };
                if is_loading {
                    return BeginFetch::Wait;
                }
                let ghost m0 = self.slots@;
                let (k, st) = self.slots.remove(i);
                proof {
                    lemma_ready_count_remove(m0, i as int);
                    lemma_keys_unique_remove(m0, i as int);
                    lemma_ready_wf_remove(m0, i as int);
                }
                match st {
                    EntryState::Ready(meta) => {
                        let result = meta.clone();
                        self.slots.push((k, EntryState::Ready(meta)));
                        proof {
                            lemma_ready_count_push(m0.remove(i as int), (k, EntryState::Ready(
                                result,
                            )));
                            lemma_keys_unique_push(m0, i as int);
                            lemma_ready_wf_push(m0.remove(i as int), (k, EntryState::Ready(
                                result,
                            )));
                            assert(final(self)@ == touch(old(self)@, key));
                        }
                        BeginFetch::Hit(result)
                    },
                    EntryState::Loading => {
                        // Unreachable: the slot was checked to be `Ready`.
                        self.slots.push((k, EntryState::Loading));
                        BeginFetch::Wait
                    },
                }
            },
            None => {
                let ghost m0 = self.slots@;
                self.slots.push((key, EntryState::Loading));
                proof {
                    lemma_ready_count_push(m0, (key, EntryState::Loading));
                    lemma_ready_wf_push(m0, (key, EntryState::Loading));
                    assert(keys_unique(final(self)@)) by {
                        assert(forall|j: int|
                            0 <= j < m0.len() ==> (#[trigger] m0[j]).0 != key) by {
                            if exists|j: int| 0 <= j < m0.len() && (#[trigger] m0[j]).0 == key {
                                let j = choose|j: int|
                                    0 <= j < m0.len() && (#[trigger] m0[j]).0 == key;
                                let jf = first_key_index(m0, key, j);
                                lemma_lookup_found(m0, key, jf);
                            }
                        }
                        assert(forall|j: int|
                            0 <= j < m0.len() ==> final(self)@[j] == (#[trigger] m0[j]));
                    }
                    lemma_lookup_push(m0, (key, EntryState::Loading), key);
                }
                BeginFetch::MustFetch
            },
        }
    }

    /// Reports the successful outcome of the in-flight fetch of `key`: the
    /// entry transitions `Loading` to `Ready(meta)` exactly once and moves
    /// to the most-recently-accessed end, so every waiter now observes the
    /// same shared envelope. If the cache then holds more `Ready` entries
    /// than its capacity, the least-recently-accessed `Ready` entry is
    /// evicted; `Loading` entries are never evicted, and the entry just
    /// completed survives.
    pub fn complete_fetch(&mut self, key: SstFilePath, meta: SstMetaData)
        requires
            old(self).wf(),
            meta.wf(),
            lookup(old(self)@, key) == Some(EntryState::Loading),
        ensures
            final(self).wf(),
            final(self).spec_capacity() == old(self).spec_capacity(),
            ({
                let mid = old(self)@.remove(index_of(old(self)@, key)).push(
                    (key, EntryState::Ready(meta)),
                );
                final(self)@ == if ready_count(mid) > old(self).spec_capacity() {
                    evict_lru_ready(mid)
                } else {
                    mid
                }
            }),
            lookup(final(self)@, key) == Some(EntryState::Ready(meta)),
    {
        proof {
            lemma_lookup_index(old(self)@, key);
        }
        let i = match find_index(&self.slots, key) {
            Some(i) => i,
            None => {
                proof {
                    assert(false);
                }
                return ;
            },
        };
        let ghost m0 = self.slots@;
        let _slot = self.slots.remove(i);
        proof {
            lemma_keys_unique_remove(m0, i as int);
            lemma_ready_count_remove(m0, i as int);
            lemma_ready_wf_remove(m0, i as int);
            lemma_lookup_remove(m0, i as int, key);
        }
        let ghost m1 = self.slots@;
        self.slots.push((key, EntryState::Ready(meta)));
        proof {
            lemma_keys_unique_push(m0, i as int);
            lemma_ready_count_push(m1, (key, EntryState::Ready(meta)));
            lemma_ready_wf_push(m1, (key, EntryState::Ready(meta)));
            lemma_lookup_push(m1, (key, EntryState::Ready(meta)), key);
        }
        let ghost mid = self.slots@;
        let rc = count_ready(&self.slots);
        if rc > self.capacity {
            let j = match find_first_ready(&self.slots) {
                Some(j) => j,
                None => {
                    proof {
                        assert(false);
                    }
                    return ;
                },
            };
            proof {
                lemma_evict_lru_ready_is_lru(mid);
                assert(ready_count(m1) > 0) by {
                    lemma_ready_count_push(m1, (key, EntryState::Ready(meta)));
                }
                // The completed slot sits at the end; an earlier Ready slot
                // exists, so eviction spares the completed one.
                assert(exists|x: int|
                    0 <= x < m1.len() && (#[trigger] m1[x]).1 is Ready) by {
                    lemma_ready_exists(m1);
                }
                let x = choose|x: int| 0 <= x < m1.len() && (#[trigger] m1[x]).1 is Ready;
                assert(mid[x].1 is Ready);
                assert(j < mid.len() - 1) by {
                    if j as int == mid.len() - 1 {
                        assert(!(mid[x].1 is Ready));
                    }
                }
                assert(mid[j as int].0 != key) by {
                    assert(mid[mid.len() - 1].0 == key);
                    assert(keys_unique(mid));
                }
                lemma_lookup_remove(mid, j as int, key);
                lemma_keys_unique_remove(mid, j as int);
                lemma_ready_wf_remove(mid, j as int);
                lemma_ready_count_remove(mid, j as int);
            }
            self.slots.remove(j);
        }
    }

    /// Reports the failed outcome of the in-flight fetch of `key`: the
    /// `Loading` entry is removed and nothing else changes, so the failure
    /// is not cached and the next lookup for the key retries from scratch.
    pub fn abort_fetch(&mut self, key: SstFilePath)
        requires
            old(self).wf(),
            lookup(old(self)@, key) == Some(EntryState::Loading),
        ensures
            final(self).wf(),
            final(self).spec_capacity() == old(self).spec_capacity(),
            final(self)@ == old(self)@.remove(index_of(old(self)@, key)),
            lookup(final(self)@, key) is None,
    {
        proof {
            lemma_lookup_index(old(self)@, key);
        }
        let i = match find_index(&self.slots, key) {
            Some(i) => i,
            None => {
                proof {
                    assert(false);
                }
                return ;
            },
        };
        let ghost m0 = self.slots@;
        self.slots.remove(i);
        proof {
            lemma_keys_unique_remove(m0, i as int);
            lemma_ready_count_remove(m0, i as int);
            lemma_ready_wf_remove(m0, i as int);
            lemma_lookup_remove(m0, i as int, key);
        }
    }

    /// Resolves `key` through the cache: a `Ready` entry is returned
    /// without invoking the source; otherwise — and only then — the source
    /// is asked once, a success is recorded as `Ready` and returned, and a
    /// failure leaves no entry behind and surfaces as the corresponding
    /// error carrying the file path. A fetch already in flight would have
    /// to be awaited, which a sequential caller cannot do; the caller
    /// rules it out.
    pub fn get_or_fetch<S: MetaSource>(
        &mut self,
        key: SstFilePath,
        hint: SstReadHint,
        source: &mut S,
    ) -> (r: Result<SstMetaData, Error>)
        requires
            old(self).wf(),
            old(source).inv(),
            lookup(old(self)@, key) != Some(EntryState::Loading),
        ensures
            final(self).wf(),
            final(source).inv(),
            final(self).spec_capacity() == old(self).spec_capacity(),
            lookup(old(self)@, key) matches Some(EntryState::Ready(m)) ==> r == Ok::<
                SstMetaData,
                Error,
            >(m) && final(source).log() == old(source).log() && final(self)@ == touch(
                old(self)@,
                key,
            ),
            lookup(old(self)@, key) is None ==> final(source).log().len() == old(source).log().len() + 1 && final(source).log().last().path == key && final(source).log().last().hint == hint && match final(source).log().last().outcome {
                Ok(m) => r == Ok::<SstMetaData, Error>(m) && lookup(final(self)@, key) == Some(
                    EntryState::Ready(m),
                ),
                Err(e) => r == Err::<SstMetaData, Error>(e.to_error(key)) && lookup(
                    final(self)@,
                    key,
                ) is None,
            },
            r matches Ok(m) ==> m.wf(),
    {
        proof {
            if lookup(old(self)@, key) is Some {
                lemma_lookup_index(old(self)@, key);
            }
        }
        match self.begin_fetch(key) {
            BeginFetch::Hit(m) => Ok(m),
            BeginFetch::Wait => {
                // Unreachable: no fetch for `key` is in flight.
                proof {
                    assert(false);
                }
                Err(Error::MetaDataNotFound)
            },
            BeginFetch::MustFetch => {
                match source.read_meta(key, hint) {
                    Ok(m) => {
                        let shared = m.clone();
                        self.complete_fetch(key, m);
                        Ok(shared)
                    },
                    Err(e) => {
                        self.abort_fetch(key);
                        Err(e.into_error(key))
                    },
                }
            },
        }
    }
}

/// The first index of `key` at or before a known occurrence.
spec fn first_key_index(m: CacheModel, key: SstFilePath, j: int) -> int
    decreases j,
{
    if exists|x: int| 0 <= x < j && (#[trigger] m[x]).0 == key {
        first_key_index(m, key, choose|x: int| 0 <= x < j && (#[trigger] m[x]).0 == key)
    } else {
        j
    }
}

proof fn lemma_ready_wf_remove(m: CacheModel, i: int)
    requires
        ready_wf(m),
        0 <= i < m.len(),
    ensures
        ready_wf(m.remove(i)),
{
    let r = m.remove(i);
    assert forall|x: int|
        0 <= x < r.len() implies ((#[trigger] r[x]).1 matches EntryState::Ready(v)
        ==> v.wf()) by {
        let mx = if x < i {
            x
        } else {
            x + 1
        };
        assert(r[x] == m[mx]);
    }
}

proof fn lemma_ready_wf_push(m: CacheModel, p: (SstFilePath, EntryState))
    requires
        ready_wf(m),
        p.1 matches EntryState::Ready(v) ==> v.wf(),
    ensures
        ready_wf(m.push(p)),
{
    let r = m.push(p);
    assert forall|x: int|
        0 <= x < r.len() implies ((#[trigger] r[x]).1 matches EntryState::Ready(v)
        ==> v.wf()) by {
        if x < m.len() {
            assert(r[x] == m[x]);
        } else {
            assert(r[x] == p);
        }
    }
}

proof fn lemma_keys_unique_remove(m: CacheModel, i: int)
    requires
        keys_unique(m),
        0 <= i < m.len(),
    ensures
        keys_unique(m.remove(i)),
{
    let r = m.remove(i);
    assert forall|x: int, y: int| 0 <= x < y < r.len() implies (#[trigger] r[x]).0 != (
    #[trigger] r[y]).0 by {
        let mx = if x < i {
            x
        } else {
            x + 1
        };
        let my = if y < i {
            y
        } else {
            y + 1
        };
        assert(r[x] == m[mx]);
        assert(r[y] == m[my]);
    }
}

proof fn lemma_keys_unique_push(m: CacheModel, i: int)
    requires
        keys_unique(m),
        0 <= i < m.len(),
    ensures
        keys_unique(m.remove(i).push(m[i])),
{
    lemma_keys_unique_remove(m, i);
    let r = m.remove(i).push(m[i]);
    assert forall|x: int, y: int| 0 <= x < y < r.len() implies (#[trigger] r[x]).0 != (
    #[trigger] r[y]).0 by {
        if y < r.len() - 1 {
            assert(r[x] == m.remove(i)[x]);
            assert(r[y] == m.remove(i)[y]);
        } else {
            assert(r[y] == m[i]);
            let mx = if x < i {
                x
            } else {
                x + 1
            };
            assert(r[x] == m[mx]);
            assert(mx != i);
        }
    }
}

proof fn lemma_ready_exists(m: CacheModel)
    requires
        ready_count(m) > 0,
    ensures
        exists|x: int| 0 <= x < m.len() && (#[trigger] m[x]).1 is Ready,
    decreases m.len(),
{
    if m.len() > 0 {
        if m[0].1 is Ready {
            assert(m[0].1 is Ready);
        } else {
            lemma_ready_exists(m.drop_first());
            let x = choose|x: int|
                0 <= x < m.drop_first().len() && (#[trigger] m.drop_first()[x]).1 is Ready;
            assert(m[x + 1].1 is Ready);
        }
    }
}

/// Index of the first slot carrying `key`.
#[verifier::loop_isolation(false)]
fn find_index(slots: &Vec<(SstFilePath, EntryState)>, key: SstFilePath) -> (r: Option<usize>)
    ensures
        match r {
            Some(i) => i < slots@.len() && slots@[i as int].0 == key && lookup(slots@, key)
                == Some(slots@[i as int].1) && index_of(slots@, key) == i,
            None => lookup(slots@, key) is None,
        },
{
    let mut i: usize = 0;
    while i < slots.len()
        invariant
            i <= slots.len(),
            forall|j: int| 0 <= j < i ==> (#[trigger] slots@[j]).0 != key,
        decreases slots.len() - i,
    {
        if slots[i].0 == key {
            proof {
                lemma_lookup_found(slots@, key, i as int);
            }
            return Some(i);
        }
        i += 1;
    }
    proof {
        lemma_lookup_none(slots@, key);
    }
    None
}

/// Number of `Ready` slots.
#[verifier::loop_isolation(false)]
fn count_ready(slots: &Vec<(SstFilePath, EntryState)>) -> (r: usize)
    ensures
        r == ready_count(slots@),
{
    let mut c: usize = 0;
    let mut i: usize = 0;
    while i < slots.len()
        invariant
            i <= slots.len(),
            c == ready_count(slots@.take(i as int)),
            c <= i,
        decreases slots.len() - i,
    {
        let is_ready = match &slots[i].1 {
            EntryState::Ready(_) => true,
            EntryState::Loading => false,
        };
        proof {
            assert(slots@.take(i + 1) =~= slots@.take(i as int).push(slots@[i as int]));
            lemma_ready_count_push(slots@.take(i as int), slots@[i as int]);
        }
        if is_ready {
            c += 1;
        }
        i += 1;
    }
    proof {
        assert(slots@.take(slots@.len() as int) =~= slots@);
    }
    c
}

/// Index of the least-recently-accessed `Ready` slot, if any.
#[verifier::loop_isolation(false)]
fn find_first_ready(slots: &Vec<(SstFilePath, EntryState)>) -> (r: Option<usize>)
    ensures
        match r {
            Some(i) => i < slots@.len() && slots@[i as int].1 is Ready && first_ready_index(slots@)
                == i && ready_count(slots@) > 0,
            None => ready_count(slots@) == 0,
        },
{
    let mut i: usize = 0;
    while i < slots.len()
        invariant
            i <= slots.len(),
            forall|j: int| 0 <= j < i ==> !((#[trigger] slots@[j]).1 is Ready),
        decreases slots.len() - i,
    {
        let is_ready = match &slots[i].1 {
            EntryState::Ready(_) => true,
            EntryState::Loading => false,
        };
        if is_ready {
            proof {
                lemma_first_ready(slots@, i as int);
            }
            return Some(i);
        }
        i += 1;
    }
    proof {
        lemma_no_ready(slots@);
    }
    None
}

/// A metadata source that consults the cache before its inner source: a
/// `Ready` entry is served shared, without touching the inner source; on a
/// miss the inner source is asked once and a success populates the cache.
/// A failure leaves no entry behind, so the next request retries. The
/// cache never holds an in-flight entry between requests: each request
/// that begins a fetch also completes or aborts it.
pub struct CachedSource<S: MetaSource> {
    cache: MetadataCache,
    inner: S,
    log: Ghost<Seq<SourceEvent>>,
}

impl<S: MetaSource> CachedSource<S> {
    /// The cache model as this source holds it.
    pub closed spec fn cache_model(&self) -> CacheModel {
        self.cache@
    }

    /// The requests the inner source has served.
    pub closed spec fn inner_log(&self) -> Seq<SourceEvent> {
        self.inner.log()
    }

    /// Wraps `inner` with `cache`; the cache must hold no in-flight
    /// entry.
    pub fn new(cache: MetadataCache, inner: S) -> (r: CachedSource<S>)
        requires
            cache.wf(),
            no_loading(cache@),
            inner.inv(),
        ensures
            r.inv(),
            r.log() == Seq::<SourceEvent>::empty(),
            r.cache_model() == cache@,
            r.inner_log() == inner.log(),
    {
        CachedSource { cache, inner, log: Ghost(Seq::empty()) }
    }

    /// Number of slots the cache holds.
    pub fn cached_entries(&self) -> (r: usize)
        ensures
            r == self.cache_model().len(),
    {
        self.cache.len()
    }
}

proof fn lemma_no_loading_touch(m: CacheModel, key: SstFilePath)
    requires
        no_loading(m),
        lookup(m, key) is Some,
        keys_unique(m),
    ensures
        no_loading(touch(m, key)),
{
    lemma_lookup_index(m, key);
    let i = index_of(m, key);
    let t = touch(m, key);
    assert forall|x: int| 0 <= x < t.len() implies !((#[trigger] t[x]).1 is Loading) by {
        if x < t.len() - 1 {
            let mx = if x < i {
                x
            } else {
                x + 1
            };
            assert(t[x] == m[mx]);
        } else {
            assert(t[x] == m[i]);
        }
    }
}

impl<S: MetaSource> MetaSource for CachedSource<S> {
    /// The cache is well formed with no fetch left in flight, and the
    /// inner source keeps its own invariant.
    closed spec fn inv(&self) -> bool {
        &&& self.cache.wf()
        &&& no_loading(self.cache@)
        &&& self.inner.inv()
    }

    closed spec fn log(&self) -> Seq<SourceEvent> {
        self.log@
    }

    /// Serves `path` from the cache when it can, from the inner source
    /// when it must.
    fn read_meta(&mut self, path: SstFilePath, hint: SstReadHint) -> (r: Result<
        SstMetaData,
        SourceError,
    >)
        ensures
            lookup(old(self).cache_model(), path) matches Some(EntryState::Ready(m)) ==> r == Ok::<
                SstMetaData,
                SourceError,
            >(m) && final(self).cache_model() == touch(old(self).cache_model(), path) && final(self).inner_log() == old(self).inner_log(),
            lookup(old(self).cache_model(), path) is None ==> final(self).inner_log() == old(self).inner_log().push(SourceEvent { path, hint, outcome: r }) && (r matches Ok(m)
                ==> lookup(final(self).cache_model(), path) == Some(EntryState::Ready(m))) && (r
                is Err ==> lookup(final(self).cache_model(), path) is None),
    {
        let ghost m0 = self.cache@;
        let r: Result<SstMetaData, SourceError> = match self.cache.begin_fetch(path) {
            BeginFetch::Hit(m) => {
                proof {
                    lemma_lookup_index(m0, path);
                    lemma_no_loading_touch(m0, path);
                }
                Ok(m)
            },
            BeginFetch::Wait => {
                // Unreachable: the cache holds no in-flight entry.
                proof {
                    lemma_lookup_index(m0, path);
                    assert(false);
                }
                Err(SourceError::ReadMeta { detail: "fetch already in flight".to_owned() })
            },
            BeginFetch::MustFetch => {
                proof {
                    lemma_lookup_none_converse(m0, path);
                    lemma_lookup_found(m0.push((path, EntryState::Loading)), path, m0.len() as int);
                }
                match self.inner.read_meta(path, hint) {
                    Ok(m) => {
                        let shared = m.clone();
                        let ghost m1 = self.cache@;
                        self.cache.complete_fetch(path, m);
                        proof {
                            assert(m1.remove(m0.len() as int) =~= m0);
                            let mid = m0.push((path, EntryState::Ready(shared)));
                            assert forall|x: int|
                                0 <= x < mid.len() implies !((#[trigger] mid[x]).1 is Loading) by {
                                if x < m0.len() {
                                    assert(mid[x] == m0[x]);
                                }
                            }
                            if ready_count(mid) > self.cache.spec_capacity() {
                                lemma_evict_lru_ready_is_lru(mid);
                                let f = first_ready_index(mid);
                                assert forall|x: int|
                                    0 <= x < self.cache@.len() implies !((#[trigger] self.cache@[x]).1
                                    is Loading) by {
                                    let mx = if x < f {
                                        x
                                    } else {
                                        x + 1
                                    };
                                    assert(self.cache@[x] == mid[mx]);
                                }
                            }
                        }
                        Ok(shared)
                    },
                    Err(e) => {
                        let ghost m1 = self.cache@;
                        self.cache.abort_fetch(path);
                        proof {
                            assert(m1.remove(m0.len() as int) =~= m0);
                        }
                        Err(e)
                    },
                }
            },
        };
        self.log = Ghost(self.log@.push(SourceEvent { path, hint, outcome: r }));
        r
    }
}

} // verus!
