use vstd::prelude::*;

use crate::config::{memory_capacity, total_system_memory_bytes, CacheConfig};
use crate::error::LayerDbError;
use crate::event::{GossipMessage, LayeredEventKind};
use crate::hybrid_cache::{insert_post, read_post, weight_in, Cache, CacheRead, MaybeDeserialized};

verus! {

/// How a key stands in the memory tier.
pub enum Residency {
    Decoded,
    Raw,
    Absent,
}

pub open spec fn residency_of<V>(m: Map<Seq<char>, MaybeDeserialized<V>>, k: Seq<char>) -> Residency {
    if !m.contains_key(k) {
        Residency::Absent
    } else if m[k] is RawBytes {
        Residency::Raw
    } else {
        Residency::Decoded
    }
}

/// The keys of `s`, in order, that stand as `r` in `m`.
pub open spec fn select<V>(s: Seq<Seq<char>>, m: Map<Seq<char>, MaybeDeserialized<V>>, r: Residency) -> Seq<Seq<char>>
    decreases s.len(),
{
    if s.len() == 0 {
        Seq::empty()
    } else if residency_of(m, s.last()) == r {
        select(s.drop_last(), m, r).push(s.last())
    } else {
        select(s.drop_last(), m, r)
    }
}

pub open spec fn key_views(keys: Seq<String>) -> Seq<Seq<char>> {
    Seq::new(keys.len(), |i: int| keys[i]@)
}

/// A bulk lookup split by where each key stands: decoded values found in
/// memory, raw bytes found in memory, and the keys that the durable tier is
/// to be asked for, all at once.
pub struct BulkRead<V> {
    pub found: Vec<(String, V)>,
    pub undecoded: Vec<(String, Vec<u8>)>,
    pub missing: Vec<String>,
}

/// One table's cache: the memory tier under the table's name. The durable
/// tier sits below it; a miss here is for the caller to fetch there, once
/// per batch, and hand back to be filled in.
pub struct LayerCache<V> {
    pub cache: Cache<V>,
    pub name: String,
}

/// What putting gossiped `bytes` under `key` does to a table cache: without
/// `overwrite` a resident key is left alone; otherwise the bytes take the key
/// when they fit the budget, and other entries leave only where room is
/// needed.
pub open spec fn insertion_post<V>(before: LayerCache<V>, after: LayerCache<V>, key: Seq<char>, bytes: Vec<u8>, overwrite: bool) -> bool {
    let b = before.resident();
    let a = after.resident();
    let w = bytes@.len();
    let used = before.cache.used_weight();
    let cap = before.cache.capacity();
    &&& (!overwrite && b.contains_key(key)) ==> a == b && after.cache.used_weight() == used
    &&& (overwrite || !b.contains_key(key)) && w <= cap ==> a.contains_key(key) && a[key]
        == MaybeDeserialized::<V>::RawBytes(bytes)
    &&& (overwrite || !b.contains_key(key)) && w > cap ==> a == b.remove(key)
        && after.cache.used_weight() == used - weight_in(b, key)
    &&& (overwrite || !b.contains_key(key)) && used - weight_in(b, key) + w <= cap ==> a == b.insert(
        key,
        MaybeDeserialized::RawBytes(bytes),
    ) && after.cache.used_weight() == used - weight_in(b, key) + w
}

/// What applying gossip `m` does to a table cache of process `own`: nothing
/// when `own` sent it; else an eviction drops the key and an insertion is as
/// `insertion_post` says.
pub open spec fn cache_update_post<V>(before: LayerCache<V>, after: LayerCache<V>, own: u128, m: GossipMessage, overwrite: bool) -> bool {
    &&& after.wf()
    &&& after.name == before.name
    &&& after.cache.capacity() == before.cache.capacity()
    &&& m.origin == own ==> after.resident() == before.resident() && after.cache.used_weight()
        == before.cache.used_weight()
    &&& m.origin != own && m.event.kind == LayeredEventKind::Eviction ==> after.resident()
        == before.resident().remove(m.event.key@) && after.cache.used_weight()
        == before.cache.used_weight() - weight_in(before.resident(), m.event.key@)
    &&& m.origin != own && m.event.kind == LayeredEventKind::Insertion ==> insertion_post(
        before,
        after,
        m.event.key@,
        m.event.payload,
        overwrite,
    )
}

/// A table cache of process `own` never replays gossip that `own` sent.
pub proof fn lemma_own_gossip_is_ignored<V>(before: LayerCache<V>, after: LayerCache<V>, own: u128, m: GossipMessage, overwrite: bool)
    requires
        cache_update_post(before, after, own, m, overwrite),
        m.origin == own,
    ensures
        after.resident() == before.resident(),
        after.cache.used_weight() == before.cache.used_weight(),
{
}

/// Applying the same insertion twice leaves the cache as the first
/// application did: the same entries, and the same weight charged.
pub proof fn lemma_gossip_insertion_idempotent<V>(
    s0: LayerCache<V>,
    s1: LayerCache<V>,
    s2: LayerCache<V>,
    own: u128,
    m: GossipMessage,
    overwrite: bool,
)
    requires
        s0.wf(),
        m.event.kind == LayeredEventKind::Insertion,
        cache_update_post(s0, s1, own, m, overwrite),
        cache_update_post(s1, s2, own, m, overwrite),
    ensures
        s2.resident() == s1.resident(),
        s2.cache.used_weight() == s1.cache.used_weight(),
{
    if m.origin != own {
        let k = m.event.key@;
        s1.cache.lemma_within_budget();
        if overwrite && m.event.payload@.len() <= s1.cache.capacity() {
            assert(s1.resident().insert(k, MaybeDeserialized::RawBytes(m.event.payload)) =~= s1.resident());
        }
        if m.event.payload@.len() > s1.cache.capacity() && (overwrite || !s0.resident().contains_key(k)) {
            assert(!s1.resident().contains_key(k));
            assert(s1.resident().remove(k) =~= s1.resident());
        }
    }
}

impl<V> LayerCache<V> {
    pub open spec fn wf(&self) -> bool {
        self.cache.wf()
    }

    pub open spec fn resident(&self) -> Map<Seq<char>, MaybeDeserialized<V>> {
        self.cache.resident()
    }

    /// A table cache named `name` whose memory tier `cache_config` sizes for
    /// a machine with `total_memory_bytes` of memory.
    pub fn with_memory(name: &str, cache_config: &CacheConfig, total_memory_bytes: u64) -> (r: Result<Self, LayerDbError>)
        ensures
            (cache_config.memory_reserved_percent <= 100 && cache_config.memory_usable_max_percent <= 100)
                <==> r is Ok,
            r is Err ==> r->Err_0 == LayerDbError::InvalidPercentage,
            r is Ok ==> r->Ok_0.wf() && r->Ok_0.name@ == name@ && r->Ok_0.resident()
                == Map::<Seq<char>, MaybeDeserialized<V>>::empty() && r->Ok_0.cache.used_weight() == 0
                && r->Ok_0.cache.capacity() == memory_capacity(
                total_memory_bytes as nat,
                cache_config.memory_reserved_percent as nat,
                cache_config.memory_usable_max_percent as nat,
            ),
    {
        match Cache::with_memory(cache_config, total_memory_bytes) {
            Ok(cache) => Ok(LayerCache { cache, name: name.to_string() }),
            Err(e) => Err(e),
        }
    }

    /// A table cache named `name`, sized from `cache_config` and this
    /// machine's memory.
    pub fn new(name: &str, cache_config: &CacheConfig) -> (r: Result<Self, LayerDbError>)
        ensures
            (cache_config.memory_reserved_percent <= 100 && cache_config.memory_usable_max_percent <= 100)
                <==> r is Ok,
            r is Err ==> r->Err_0 == LayerDbError::InvalidPercentage,
            r is Ok ==> r->Ok_0.wf() && r->Ok_0.name@ == name@ && r->Ok_0.resident()
                == Map::<Seq<char>, MaybeDeserialized<V>>::empty() && r->Ok_0.cache.used_weight() == 0
                && exists|total: u64| #![auto] r->Ok_0.cache.capacity() == memory_capacity(
                total as nat,
                cache_config.memory_reserved_percent as nat,
                cache_config.memory_usable_max_percent as nat,
            ),
    {
        let total = total_system_memory_bytes();
        Self::with_memory(name, cache_config, total)
    }

    /// Whether `key` is resident in memory.
    pub fn contains(&self, key: &String) -> (r: bool)
        requires
            self.wf(),
        ensures
            r == self.resident().contains_key(key@),
    {
        self.cache.contains(key)
    }

    /// Drops `key` from this process's memory tier only.
    pub fn remove_from_memory(&mut self, key: &String)
        requires
            old(self).wf(),
        ensures
            final(self).wf(),
            final(self).name == old(self).name,
            final(self).cache.capacity() == old(self).cache.capacity(),
            final(self).resident() == old(self).resident().remove(key@),
            final(self).cache.used_weight() == old(self).cache.used_weight() - weight_in(old(self).resident(), key@),
    {
        self.cache.remove(key);
    }

    /// Puts a value in memory unless the key is already resident: the first
    /// writer of a content address wins.
    pub fn insert(&mut self, key: String, value: V, size_hint: usize)
        requires
            old(self).wf(),
        ensures
            final(self).name == old(self).name,
            old(self).resident().contains_key(key@) ==> *final(self) == *old(self),
            !old(self).resident().contains_key(key@) ==> insert_post(
                old(self).cache,
                final(self).cache,
                key@,
                MaybeDeserialized::DeserializedValue { value, size_hint },
            ),
    {
        if !self.cache.contains(&key) {
            self.cache.insert(key, value, size_hint);
        }
    }

    /// Puts a value in memory, replacing whatever the key held.
    pub fn insert_or_update(&mut self, key: String, value: V, size_hint: usize)
        requires
            old(self).wf(),
        ensures
            final(self).name == old(self).name,
            insert_post(
                old(self).cache,
                final(self).cache,
                key@,
                MaybeDeserialized::DeserializedValue { value, size_hint },
            ),
    {
        self.cache.insert(key, value, size_hint);
    }

    /// Puts gossiped bytes in memory unless the key is already resident.
    pub fn insert_from_cache_updates(&mut self, key: String, serialize_value: Vec<u8>)
        requires
            old(self).wf(),
        ensures
            final(self).wf(),
            final(self).name == old(self).name,
            final(self).cache.capacity() == old(self).cache.capacity(),
            insertion_post(*old(self), *final(self), key@, serialize_value, false),
    {
        if !self.cache.contains(&key) {
            self.cache.insert_raw_bytes(key, serialize_value);
        }
    }

    /// Puts gossiped bytes in memory, replacing whatever the key held.
    pub fn insert_or_update_from_cache_updates(&mut self, key: String, serialize_value: Vec<u8>)
        requires
            old(self).wf(),
        ensures
            final(self).wf(),
            final(self).name == old(self).name,
            final(self).cache.capacity() == old(self).cache.capacity(),
            insertion_post(*old(self), *final(self), key@, serialize_value, true),
    {
        self.cache.insert_raw_bytes(key, serialize_value);
    }

    /// Drops a key that another process evicted.
    pub fn evict_from_cache_updates(&mut self, key: &String)
        requires
            old(self).wf(),
        ensures
            final(self).wf(),
            final(self).name == old(self).name,
            final(self).cache.capacity() == old(self).cache.capacity(),
            final(self).resident() == old(self).resident().remove(key@),
            final(self).cache.used_weight() == old(self).cache.used_weight() - weight_in(old(self).resident(), key@),
    {
        self.cache.remove(key);
    }

    /// Applies a gossiped event to this table, unless this process sent it:
    /// an insertion puts its bytes in memory (replacing what was there when
    /// `overwrite` is set, else only where nothing is), an eviction drops the
    /// key. Says whether anything was applied.
    pub fn apply_cache_update(&mut self, own_instance_id: u128, message: GossipMessage, overwrite: bool) -> (applied: bool)
        requires
            old(self).wf(),
        ensures
            applied == (message.origin != own_instance_id),
            cache_update_post(*old(self), *final(self), own_instance_id, message, overwrite),
    {
        if message.origin == own_instance_id {
            return false;
        }
        let key = message.event.key;
        match message.event.kind {
            LayeredEventKind::Insertion => {
                let bytes = message.event.payload;
                if overwrite {
                    self.insert_or_update_from_cache_updates(key, bytes);
                } else {
                    self.insert_from_cache_updates(key, bytes);
                }
            },
            LayeredEventKind::Eviction => {
                self.evict_from_cache_updates(&key);
            },
        }
        true
    }
}

/// What a bulk lookup of `keys` in resident entries `m` gives: the keys, in
/// order, split by where they stand, with clones of the decoded values and
/// copies of the raw bytes.
pub open spec fn bulk_post<V: Clone>(m: Map<Seq<char>, MaybeDeserialized<V>>, keys: Seq<Seq<char>>, r: BulkRead<V>) -> bool {
    &&& key_views(r.found@.map_values(|p: (String, V)| p.0)) == select(keys, m, Residency::Decoded)
    &&& key_views(r.undecoded@.map_values(|p: (String, Vec<u8>)| p.0)) == select(keys, m, Residency::Raw)
    &&& key_views(r.missing@) == select(keys, m, Residency::Absent)
    &&& forall|j: int| 0 <= j < r.found@.len() ==> cloned(m[#[trigger] r.found@[j].0@]->value, r.found@[j].1)
    &&& forall|j: int| 0 <= j < r.undecoded@.len() ==> m[#[trigger] r.undecoded@[j].0@]->RawBytes_0@ == r.undecoded@[j].1@
}

/// What completing a missed read with the durable tier's answer `fetched`
/// does: the answer is returned, and a value found is backfilled into memory
/// when it fits the budget.
pub open spec fn fill_post<V: Clone>(before: LayerCache<V>, after: LayerCache<V>, key: Seq<char>, fetched: Option<(V, usize)>, r: Option<V>) -> bool {
    &&& after.wf()
    &&& after.name == before.name
    &&& after.cache.capacity() == before.cache.capacity()
    &&& fetched is None ==> r is None && after.resident() == before.resident()
    &&& fetched is Some ==> r == Some(fetched->Some_0.0)
    &&& fetched is Some && fetched->Some_0.1 <= before.cache.capacity() ==> after.resident().contains_key(key)
        && after.resident()[key] is DeserializedValue
        && cloned(fetched->Some_0.0, after.resident()[key]->value)
        && after.resident()[key]->size_hint == fetched->Some_0.1
}

/// Once a value read from the durable tier has been filled in, reading the
/// same key again is served from memory, with no durable access.
pub proof fn lemma_read_through_promotion<V: Clone>(
    cold: LayerCache<V>,
    warm: LayerCache<V>,
    key: Seq<char>,
    fetched: Option<(V, usize)>,
    first: Option<V>,
    second: CacheRead<V>,
)
    requires
        fetched is Some,
        fetched->Some_0.1 <= cold.cache.capacity(),
        fill_post(cold, warm, key, fetched, first),
        read_post(warm.resident(), key, second),
    ensures
        first == Some(fetched->Some_0.0),
        second is Hit,
{
}

/// The summed sizes of values fetched from the durable tier.
pub open spec fn fetched_sizes<V>(s: Seq<(String, V, usize)>) -> nat
    decreases s.len(),
{
    if s.len() == 0 {
        0
    } else {
        fetched_sizes(s.drop_last()) + s.last().2 as nat
    }
}

/// No key is fetched twice.
pub open spec fn fetched_keys_distinct<V>(s: Seq<(String, V, usize)>) -> bool {
    forall|a: int, b: int| 0 <= a < b < s.len() ==> s[a].0@ != s[b].0@
}

/// The fetched value `f` is resident in `m`, decoded, as a clone at its size.
pub open spec fn filled_decoded<V: Clone>(m: Map<Seq<char>, MaybeDeserialized<V>>, f: (String, V, usize)) -> bool {
    &&& m.contains_key(f.0@)
    &&& m[f.0@] is DeserializedValue
    &&& m[f.0@]->size_hint == f.2
    &&& cloned(f.1, m[f.0@]->value)
}

proof fn lemma_fetched_sizes_prefix<V>(s: Seq<(String, V, usize)>, i: int)
    requires
        0 <= i <= s.len(),
    ensures
        fetched_sizes(s.take(i)) <= fetched_sizes(s),
    decreases s.len(),
{
    if i < s.len() {
        lemma_fetched_sizes_prefix(s.drop_last(), i);
        assert(s.drop_last().take(i) =~= s.take(i));
    } else {
        assert(s.take(i) =~= s);
    }
}

/// What settling a decode attempt of `k` did to resident entries `old_m`,
/// giving `new_m`: raw bytes that decoded are promoted in place, as a clone
/// of the decoded value at the bytes' weight; raw bytes that did not decode
/// are gone, so the key now misses; any other entry, or none, is untouched.
pub open spec fn settled<V: Clone>(old_m: Map<Seq<char>, MaybeDeserialized<V>>, new_m: Map<Seq<char>, MaybeDeserialized<V>>, k: Seq<char>, d: Option<V>) -> bool {
    if old_m.contains_key(k) && old_m[k] is RawBytes {
        match d {
            Some(v) => new_m.contains_key(k) && new_m[k] is DeserializedValue
                && new_m[k]->size_hint == old_m[k]->RawBytes_0@.len() as usize && cloned(v, new_m[k]->value),
            None => !new_m.contains_key(k),
        }
    } else {
        new_m.contains_key(k) == old_m.contains_key(k) && (old_m.contains_key(k) ==> new_m[k] == old_m[k])
    }
}

/// The keys, in order, whose decode attempt failed.
pub open spec fn failed_keys<V>(d: Seq<(String, Option<V>)>) -> Seq<Seq<char>>
    decreases d.len(),
{
    if d.len() == 0 {
        Seq::empty()
    } else if d.last().1 is None {
        failed_keys(d.drop_last()).push(d.last().0@)
    } else {
        failed_keys(d.drop_last())
    }
}

/// The keys and values, in order, whose decode attempt succeeded.
pub open spec fn decoded_pairs<V>(d: Seq<(String, Option<V>)>) -> Seq<(Seq<char>, V)>
    decreases d.len(),
{
    if d.len() == 0 {
        Seq::empty()
    } else if d.last().1 is Some {
        decoded_pairs(d.drop_last()).push((d.last().0@, d.last().1->Some_0))
    } else {
        decoded_pairs(d.drop_last())
    }
}

/// No key is attempted twice.
pub open spec fn decoded_keys_distinct<V>(d: Seq<(String, Option<V>)>) -> bool {
    forall|a: int, b: int| 0 <= a < b < d.len() ==> d[a].0@ != d[b].0@
}

proof fn lemma_select_step<V>(s: Seq<Seq<char>>, m: Map<Seq<char>, MaybeDeserialized<V>>, r: Residency, i: int)
    requires
        0 <= i < s.len(),
    ensures
        select(s.take(i + 1), m, r) == if residency_of(m, s[i]) == r {
            select(s.take(i), m, r).push(s[i])
        } else {
            select(s.take(i), m, r)
        },
{
    assert(s.take(i + 1).drop_last() =~= s.take(i));
}

impl<V: Clone> LayerCache<V> {
    /// Looks `key` up in memory. A miss is for the caller to fetch from the
    /// durable tier and hand to `fill_from_durable`; raw bytes are for the
    /// caller to decode and settle.
    pub fn get(&self, key: &String) -> (r: CacheRead<V>)
        requires
            self.wf(),
        ensures
            read_post(self.resident(), key@, r),
    {
        self.cache.get(key)
    }

    /// Completes a read that missed memory with what the durable tier gave:
    /// a value found there is backfilled into memory and returned; nothing
    /// found stays nothing.
    pub fn fill_from_durable(&mut self, key: String, fetched: Option<(V, usize)>) -> (r: Option<V>)
        requires
            old(self).wf(),
        ensures
            fill_post(*old(self), *final(self), key@, fetched, r),
    {
        match fetched {
            None => None,
            Some((value, size_hint)) => {
                let copy = value.clone();
                self.cache.insert(key, copy, size_hint);
                Some(value)
            },
        }
    }

    /// Splits `keys` by where each stands in memory, keeping their order.
    /// The missing ones form the one batch to ask the durable tier for.
    pub fn get_bulk(&self, keys: &Vec<String>) -> (r: BulkRead<V>)
        requires
            self.wf(),
        ensures
            bulk_post(self.resident(), key_views(keys@), r),
    {
        let ghost m = self.resident();
        let ghost ks = key_views(keys@);
        let mut found: Vec<(String, V)> = Vec::new();
        let mut undecoded: Vec<(String, Vec<u8>)> = Vec::new();
        let mut missing: Vec<String> = Vec::new();
        let mut i: usize = 0;
        while i < keys.len()
            invariant
                self.wf(),
                m == self.resident(),
                ks == key_views(keys@),
                i <= keys@.len(),
                key_views(found@.map_values(|p: (String, V)| p.0)) == select(ks.take(i as int), m, Residency::Decoded),
                key_views(undecoded@.map_values(|p: (String, Vec<u8>)| p.0)) == select(ks.take(i as int), m, Residency::Raw),
                key_views(missing@) == select(ks.take(i as int), m, Residency::Absent),
                forall|j: int|
                    0 <= j < found@.len() ==> cloned(
                        m[#[trigger] found@[j].0@]->value,
                        found@[j].1,
                    ),
                forall|j: int|
                    0 <= j < undecoded@.len() ==> m[#[trigger] undecoded@[j].0@]->RawBytes_0@
                        == undecoded@[j].1@,
            decreases keys@.len() - i,
        {
            let key = &keys[i];
            proof {
                lemma_select_step(ks, m, Residency::Decoded, i as int);
                lemma_select_step(ks, m, Residency::Raw, i as int);
                lemma_select_step(ks, m, Residency::Absent, i as int);
            }
            let ghost f0 = found@;
            let ghost u0 = undecoded@;
            let ghost m0 = missing@;
            match self.cache.get(key) {
                CacheRead::Hit(v) => {
                    let kc = key.clone();
                    let ghost kg = kc;
                    found.push((kc, v));
                    assert(found@.map_values(|p: (String, V)| p.0) =~= f0.map_values(|p: (String, V)| p.0).push(kg));
                    assert(key_views(found@.map_values(|p: (String, V)| p.0)) =~= key_views(f0.map_values(|p: (String, V)| p.0)).push(ks[i as int]));
                },
                CacheRead::Undecoded(b) => {
                    let kc = key.clone();
                    let ghost kg = kc;
                    undecoded.push((kc, b));
                    assert(undecoded@.map_values(|p: (String, Vec<u8>)| p.0) =~= u0.map_values(|p: (String, Vec<u8>)| p.0).push(kg));
                    assert(key_views(undecoded@.map_values(|p: (String, Vec<u8>)| p.0)) =~= key_views(u0.map_values(|p: (String, Vec<u8>)| p.0)).push(ks[i as int]));
                },
                CacheRead::Miss => {
                    missing.push(key.clone());
                    assert(key_views(missing@) =~= key_views(m0).push(ks[i as int]));
                },
            }
            i = i + 1;
        }
        assert(ks.take(keys@.len() as int) =~= ks);
        BulkRead { found, undecoded, missing }
    }

    /// Settles one raw-bytes entry after a decode attempt and says what the
    /// read gives: the decoded value, or nothing, in which case the key now
    /// misses and the caller reads it from the durable tier.
    pub fn settle_read(&mut self, key: &String, decoded: Option<V>) -> (r: Option<V>)
        requires
            old(self).wf(),
        ensures
            final(self).wf(),
            final(self).name == old(self).name,
            final(self).cache.capacity() == old(self).cache.capacity(),
            r == decoded,
            settled(old(self).resident(), final(self).resident(), key@, decoded),
            forall|k: Seq<char>| k != key@ ==> (#[trigger] final(self).resident().contains_key(k)
                == old(self).resident().contains_key(k) && (old(self).resident().contains_key(k)
                ==> final(self).resident()[k] == old(self).resident()[k])),
    {
        let copy: Option<V> = match &decoded {
            Some(v) => Some(v.clone()),
            None => None,
        };
        self.cache.settle_decoded(key, copy);
        decoded
    }

    /// Settles the raw-bytes entries of a bulk read after their decode
    /// attempts. Values that decoded are promoted in memory and returned, in
    /// order; keys that did not decode are dropped from memory and, being
    /// misses, join the durable batch after the keys that were missing.
    pub fn settle_bulk(&mut self, decoded: &Vec<(String, Option<V>)>, missing: Vec<String>) -> (r: (Vec<(String, V)>, Vec<String>))
        requires
            old(self).wf(),
        ensures
            final(self).wf(),
            final(self).name == old(self).name,
            final(self).cache.capacity() == old(self).cache.capacity(),
            key_views(r.1@) == key_views(missing@) + failed_keys(decoded@),
            r.0@.len() == decoded_pairs(decoded@).len(),
            forall|j: int| 0 <= j < r.0@.len() ==> (#[trigger] r.0@[j]).0@ == decoded_pairs(decoded@)[j].0
                && cloned(decoded_pairs(decoded@)[j].1, r.0@[j].1),
            forall|k: Seq<char>| #[trigger] final(self).resident().contains_key(k) ==> old(self).resident().contains_key(k),
            decoded_keys_distinct(decoded@) ==> forall|j: int| 0 <= j < decoded@.len() ==> settled(
                old(self).resident(), final(self).resident(), (#[trigger] decoded@[j]).0@, decoded@[j].1),
    {
        let ghost d = decoded@;
        let ghost m0 = self.resident();
        let ghost distinct = decoded_keys_distinct(d);
        let mut found: Vec<(String, V)> = Vec::new();
        let mut batch = missing;
        let ghost miss = key_views(batch@);
        let mut i: usize = 0;
        while i < decoded.len()
            invariant
                self.wf(),
                self.name == old(self).name,
                self.cache.capacity() == old(self).cache.capacity(),
                d == decoded@,
                m0 == old(self).resident(),
                distinct == decoded_keys_distinct(d),
                i <= d.len(),
                key_views(batch@) == miss + failed_keys(d.take(i as int)),
                found@.len() == decoded_pairs(d.take(i as int)).len(),
                forall|j: int| 0 <= j < found@.len() ==> (#[trigger] found@[j]).0@ == decoded_pairs(d.take(i as int))[j].0
                    && cloned(decoded_pairs(d.take(i as int))[j].1, found@[j].1),
                forall|k: Seq<char>| #[trigger] self.resident().contains_key(k) ==> m0.contains_key(k),
                distinct ==> forall|j: int| 0 <= j < i ==> settled(m0, self.resident(), (#[trigger] d[j]).0@, d[j].1),
                distinct ==> forall|j: int| i <= j < d.len() ==> (self.resident().contains_key((#[trigger] d[j]).0@)
                    == m0.contains_key(d[j].0@) && (m0.contains_key(d[j].0@) ==> self.resident()[d[j].0@] == m0[d[j].0@])),
            decreases d.len() - i,
        {
            let ghost before = self.resident();
            let ghost fb = found@;
            let ghost bb = batch@;
            proof {
                assert(d.take(i as int + 1).drop_last() =~= d.take(i as int));
            }
            let key = &decoded[i].0;
            let attempt: Option<V> = match &decoded[i].1 {
                Some(v) => Some(v.clone()),
                None => None,
            };
            self.cache.settle_decoded(key, attempt);
            match &decoded[i].1 {
                Some(v) => {
                    let kc = key.clone();
                    let ghost kg = kc;
                    let vc = v.clone();
                    found.push((kc, vc));
                    assert(found@ =~= fb.push((kg, vc)));
                },
                None => {
                    let kc = key.clone();
                    let ghost kg = kc;
                    batch.push(kc);
                    assert(key_views(batch@) =~= key_views(bb).push(kg@));
                },
            }
            proof {
                if distinct {
                    assert forall|j: int| 0 <= j < i + 1 implies settled(m0, self.resident(), (#[trigger] d[j]).0@, d[j].1) by {
                        if j < i {
                            assert(d[j].0@ != d[i as int].0@);
                        }
                    }
                    assert forall|j: int| i + 1 <= j < d.len() implies (self.resident().contains_key((#[trigger] d[j]).0@)
                        == m0.contains_key(d[j].0@) && (m0.contains_key(d[j].0@) ==> self.resident()[d[j].0@] == m0[d[j].0@])) by {
                        assert(d[j].0@ != d[i as int].0@);
                    }
                }
            }
            i = i + 1;
        }
        proof {
            assert(d.take(d.len() as int) =~= d);
        }
        (found, batch)
    }

    /// Completes a bulk read with what the one batched durable query gave:
    /// each value is backfilled into memory and handed back in order. The
    /// last value stays resident when it fits the budget; when the keys are
    /// distinct and all of them fit beside what is resident, every one stays,
    /// decoded, at its size. No key other than these becomes resident.
    pub fn fill_many_from_durable(&mut self, fetched: &Vec<(String, V, usize)>) -> (r: Vec<(String, V)>)
        requires
            old(self).wf(),
        ensures
            final(self).wf(),
            final(self).name == old(self).name,
            final(self).cache.capacity() == old(self).cache.capacity(),
            r@.len() == fetched@.len(),
            forall|j: int|
                0 <= j < r@.len() ==> (#[trigger] r@[j]).0@ == fetched@[j].0@ && cloned(
                    fetched@[j].1,
                    r@[j].1,
                ),
            fetched@.len() > 0 && fetched@.last().2 <= old(self).cache.capacity() ==> final(self).resident().contains_key(
                fetched@.last().0@,
            ),
            fetched_keys_distinct(fetched@) && old(self).cache.used_weight() + fetched_sizes(fetched@)
                <= old(self).cache.capacity() ==> forall|j: int|
                0 <= j < fetched@.len() ==> filled_decoded(final(self).resident(), #[trigger] fetched@[j]),
            forall|k: Seq<char>|
                #[trigger] final(self).resident().contains_key(k) ==> old(self).resident().contains_key(k)
                    || exists|j: int| 0 <= j < fetched@.len() && #[trigger] fetched@[j].0@ == k,
    {
        let ghost all = fetched@;
        let ghost used0 = self.cache.used_weight();
        let ghost fits = fetched_keys_distinct(all) && used0 + fetched_sizes(all) <= self.cache.capacity();
        let mut out: Vec<(String, V)> = Vec::new();
        let mut i: usize = 0;
        while i < fetched.len()
            invariant
                self.wf(),
                self.name == old(self).name,
                self.cache.capacity() == old(self).cache.capacity(),
                all == fetched@,
                fits == (fetched_keys_distinct(all) && used0 + fetched_sizes(all) <= self.cache.capacity()),
                used0 == old(self).cache.used_weight(),
                i <= fetched@.len(),
                out@.len() == i,
                forall|j: int|
                    0 <= j < i ==> (#[trigger] out@[j]).0@ == fetched@[j].0@ && cloned(
                        fetched@[j].1,
                        out@[j].1,
                    ),
                i > 0 && fetched@[i - 1].2 <= self.cache.capacity() ==> self.resident().contains_key(
                    fetched@[i - 1].0@,
                ),
                fits ==> self.cache.used_weight() <= used0 + fetched_sizes(all.take(i as int)),
                fits ==> forall|j: int| 0 <= j < i ==> filled_decoded(self.resident(), #[trigger] fetched@[j]),
                forall|k: Seq<char>|
                    #[trigger] self.resident().contains_key(k) ==> old(self).resident().contains_key(k)
                        || exists|j: int| 0 <= j < i && #[trigger] fetched@[j].0@ == k,
            decreases fetched@.len() - i,
        {
            let entry = &fetched[i];
            let ghost before = *self;
            proof {
                lemma_fetched_sizes_prefix(all, i as int + 1);
                assert(all.take(i as int + 1).drop_last() =~= all.take(i as int));
            }
            self.cache.insert(entry.0.clone(), entry.1.clone(), entry.2);
            proof {
                assert forall|k: Seq<char>|
                    #[trigger] self.resident().contains_key(k) implies old(self).resident().contains_key(k)
                        || exists|j: int| 0 <= j < i + 1 && #[trigger] fetched@[j].0@ == k by {
                    if k == fetched@[i as int].0@ {
                        assert(fetched@[i as int].0@ == k);
                    } else {
                        assert(before.resident().contains_key(k));
                    }
                }
                if fits {
                    assert forall|j: int| 0 <= j < i + 1 implies filled_decoded(self.resident(), #[trigger] fetched@[j]) by {
                        if j < i {
                            assert(fetched@[j].0@ != fetched@[i as int].0@);
                            assert(filled_decoded(before.resident(), fetched@[j]));
                        }
                    }
                }
            }
            out.push((entry.0.clone(), entry.1.clone()));
            i = i + 1;
        }
        proof {
            assert(all.take(all.len() as int) =~= all);
        }
        out
    }
}

} // verus!
