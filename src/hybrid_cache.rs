use vstd::prelude::*;

use crate::config::{memory_capacity, total_system_memory_bytes, CacheConfig};
use crate::error::LayerDbError;

verus! {

/// A resident entry: either the serialized bytes as they arrived (not yet
/// decoded here) or a decoded value with the size it was charged at.
pub enum MaybeDeserialized<V> {
    RawBytes(Vec<u8>),
    DeserializedValue { value: V, size_hint: usize },
}

/// What an entry costs against the byte budget.
pub open spec fn weight_of<V>(e: MaybeDeserialized<V>) -> nat {
    match e {
        MaybeDeserialized::RawBytes(b) => b@.len(),
        MaybeDeserialized::DeserializedValue { size_hint, .. } => size_hint as nat,
    }
}

/// The weight that `k` costs in `m`, or nothing if it is absent.
pub open spec fn weight_in<V>(m: Map<Seq<char>, MaybeDeserialized<V>>, k: Seq<char>) -> nat {
    if m.contains_key(k) {
        weight_of(m[k])
    } else {
        0
    }
}

/// What a lookup of `key` in resident entries `m` gives: a miss where
/// nothing is resident, a clone of a decoded value, or a copy of raw bytes.
pub open spec fn read_post<V: Clone>(m: Map<Seq<char>, MaybeDeserialized<V>>, key: Seq<char>, r: CacheRead<V>) -> bool {
    &&& !m.contains_key(key) ==> r is Miss
    &&& m.contains_key(key) ==> match m[key] {
        MaybeDeserialized::DeserializedValue { value, .. } => r is Hit && cloned(value, r->Hit_0),
        MaybeDeserialized::RawBytes(b) => r is Undecoded && r->Undecoded_0@ == b@,
    }
}

/// The slots of a cache in order, oldest first.
pub type Slots<V> = Seq<(Seq<char>, MaybeDeserialized<V>)>;

pub open spec fn keys_unique<V>(s: Slots<V>) -> bool {
    forall|i: int, j: int| 0 <= i < j < s.len() ==> s[i].0 != s[j].0
}

/// The map from key to entry that the slots hold.
pub open spec fn contents<V>(s: Slots<V>) -> Map<Seq<char>, MaybeDeserialized<V>>
    decreases s.len(),
{
    if s.len() == 0 {
        Map::empty()
    } else {
        contents(s.drop_last()).insert(s.last().0, s.last().1)
    }
}

/// The summed weight of the slots.
pub open spec fn total_weight<V>(s: Slots<V>) -> nat
    decreases s.len(),
{
    if s.len() == 0 {
        0
    } else {
        total_weight(s.drop_last()) + weight_of(s.last().1)
    }
}

proof fn lemma_contents_lacks<V>(s: Slots<V>, k: Seq<char>)
    requires
        forall|i: int| 0 <= i < s.len() ==> s[i].0 != k,
    ensures
        !contents(s).contains_key(k),
    decreases s.len(),
{
    if s.len() > 0 {
        lemma_contents_lacks(s.drop_last(), k);
    }
}

proof fn lemma_contents_has<V>(s: Slots<V>, i: int)
    requires
        keys_unique(s),
        0 <= i < s.len(),
    ensures
        contents(s).contains_key(s[i].0),
        contents(s)[s[i].0] == s[i].1,
    decreases s.len(),
{
    if i < s.len() - 1 {
        lemma_contents_has(s.drop_last(), i);
    }
}

proof fn lemma_push<V>(s: Slots<V>, k: Seq<char>, e: MaybeDeserialized<V>)
    requires
        keys_unique(s),
        forall|i: int| 0 <= i < s.len() ==> s[i].0 != k,
    ensures
        keys_unique(s.push((k, e))),
        contents(s.push((k, e))) == contents(s).insert(k, e),
        total_weight(s.push((k, e))) == total_weight(s) + weight_of(e),
{
    assert(s.push((k, e)).drop_last() =~= s);
}

proof fn lemma_remove<V>(s: Slots<V>, i: int)
    requires
        keys_unique(s),
        0 <= i < s.len(),
    ensures
        keys_unique(s.remove(i)),
        contents(s.remove(i)) == contents(s).remove(s[i].0),
        total_weight(s.remove(i)) + weight_of(s[i].1) == total_weight(s),
    decreases s.len(),
{
    let k = s[i].0;
    let d = s.drop_last();
    if i == s.len() - 1 {
        assert(s.remove(i) =~= d);
        lemma_contents_lacks(d, k);
        assert(contents(s).remove(k) =~= contents(d));
    } else {
        lemma_remove(d, i);
        assert(s.remove(i) =~= d.remove(i).push(s.last()));
        assert(s.remove(i).drop_last() =~= d.remove(i));
        assert(s.last().0 != k);
        assert(contents(s.remove(i)) =~= contents(s).remove(k));
    }
}

proof fn lemma_update<V>(s: Slots<V>, i: int, e: MaybeDeserialized<V>)
    requires
        keys_unique(s),
        0 <= i < s.len(),
        weight_of(e) == weight_of(s[i].1),
    ensures
        keys_unique(s.update(i, (s[i].0, e))),
        contents(s.update(i, (s[i].0, e))) == contents(s).insert(s[i].0, e),
        total_weight(s.update(i, (s[i].0, e))) == total_weight(s),
    decreases s.len(),
{
    let k = s[i].0;
    let t = s.update(i, (k, e));
    let d = s.drop_last();
    if i == s.len() - 1 {
        assert(t.drop_last() =~= d);
        assert(contents(t) =~= contents(s).insert(k, e));
    } else {
        lemma_update(d, i, e);
        assert(t.drop_last() =~= d.update(i, (k, e)));
        assert(s.last().0 != k);
        assert(contents(t) =~= contents(s).insert(k, e));
    }
}

/// What putting `entry` under `key` does: the entry takes the key when it
/// fits the budget at all; an entry heavier than the whole budget leaves the
/// key empty; when it fits beside what stays, nothing else leaves and the
/// weight is exact; other keys only ever leave, never change or appear; and
/// the budget holds throughout.
pub open spec fn insert_post<V>(before: Cache<V>, after: Cache<V>, key: Seq<char>, entry: MaybeDeserialized<V>) -> bool {
    let b = before.resident();
    let a = after.resident();
    let w = weight_of(entry);
    &&& after.wf()
    &&& after.capacity() == before.capacity()
    &&& after.used_weight() <= after.capacity()
    &&& w <= before.capacity() ==> a.contains_key(key) && a[key] == entry
    &&& w > before.capacity() ==> a == b.remove(key) && after.used_weight() == before.used_weight()
        - weight_in(b, key)
    &&& before.used_weight() - weight_in(b, key) + w <= before.capacity() ==> a == b.insert(key, entry)
        && after.used_weight() == before.used_weight() - weight_in(b, key) + w
    &&& forall|k: Seq<char>|
        k != key && #[trigger] a.contains_key(k) ==> b.contains_key(k) && a[k] == b[k]
}

/// Putting the same raw bytes under the same key twice leaves the cache as
/// the first time did: the same entries, and the same weight charged.
pub proof fn lemma_raw_insert_idempotent<V>(s0: Cache<V>, s1: Cache<V>, s2: Cache<V>, key: Seq<char>, bytes: Vec<u8>)
    requires
        insert_post(s0, s1, key, MaybeDeserialized::RawBytes(bytes)),
        insert_post(s1, s2, key, MaybeDeserialized::RawBytes(bytes)),
    ensures
        s2.resident() == s1.resident(),
        s2.used_weight() == s1.used_weight(),
{
    s1.lemma_within_budget();
    let e = MaybeDeserialized::<V>::RawBytes(bytes);
    if weight_of(e) <= s1.capacity() {
        assert(s1.resident().insert(key, e) =~= s1.resident());
    } else {
        assert(s1.resident().remove(key) =~= s1.resident());
    }
}

/// One slot of the cache: a key and what is held for it.
pub struct Slot<V> {
    pub key: String,
    pub entry: MaybeDeserialized<V>,
}

/// The in-process memory tier: a byte-budgeted map from key to entry whose
/// resident weight never exceeds its budget. When an entry does not fit, the
/// oldest entries leave first.
pub struct Cache<V> {
    slots: Vec<Slot<V>>,
    capacity: u64,
    used: u64,
}

/// The outcome of a lookup in the memory tier.
pub enum CacheRead<V> {
    /// A decoded value is resident.
    Hit(V),
    /// Bytes are resident that have not been decoded here yet.
    Undecoded(Vec<u8>),
    /// Nothing is resident under the key.
    Miss,
}

impl<V> Cache<V> {
    pub closed spec fn slots(&self) -> Slots<V> {
        Seq::new(self.slots@.len(), |i: int| (self.slots@[i].key@, self.slots@[i].entry))
    }

    /// The resident entries, by key.
    pub closed spec fn resident(&self) -> Map<Seq<char>, MaybeDeserialized<V>> {
        contents(self.slots())
    }

    /// The summed weight of the resident entries.
    pub closed spec fn used_weight(&self) -> nat {
        self.used as nat
    }

    /// The byte budget.
    pub closed spec fn capacity(&self) -> nat {
        self.capacity as nat
    }

    pub closed spec fn wf(&self) -> bool {
        &&& keys_unique(self.slots())
        &&& self.used as nat == total_weight(self.slots())
        &&& self.used <= self.capacity
    }

    /// The resident weight never exceeds the budget.
    pub proof fn lemma_within_budget(&self)
        requires
            self.wf(),
        ensures
            self.used_weight() <= self.capacity(),
            forall|k: Seq<char>| #[trigger] self.resident().contains_key(k) ==> weight_of(self.resident()[k]) <= self.used_weight(),
    {
        assert forall|k: Seq<char>| #[trigger] self.resident().contains_key(k) implies weight_of(self.resident()[k]) <= self.used_weight() by {
            if !(exists|i: int| 0 <= i < self.slots().len() && self.slots()[i].0 == k) {
                lemma_contents_lacks(self.slots(), k);
            }
            let i = choose|i: int| 0 <= i < self.slots().len() && self.slots()[i].0 == k;
            lemma_contents_has(self.slots(), i);
            lemma_remove(self.slots(), i);
        }
    }

    /// An empty cache with a budget of `capacity_bytes`.
    pub fn with_capacity(capacity_bytes: u64) -> (r: Self)
        ensures
            r.wf(),
            r.resident() == Map::<Seq<char>, MaybeDeserialized<V>>::empty(),
            r.used_weight() == 0,
            r.capacity() == capacity_bytes,
    {
        let r = Cache { slots: Vec::new(), capacity: capacity_bytes, used: 0 };
        assert(r.slots() =~= Seq::empty());
        r
    }

    /// An empty cache whose budget `config` computes for a machine with
    /// `total_memory_bytes` of memory.
    pub fn with_memory(config: &CacheConfig, total_memory_bytes: u64) -> (r: Result<Self, LayerDbError>)
        ensures
            (config.memory_reserved_percent <= 100 && config.memory_usable_max_percent <= 100)
                <==> r is Ok,
            r is Err ==> r->Err_0 == LayerDbError::InvalidPercentage,
            r is Ok ==> {
                &&& r->Ok_0.wf()
                &&& r->Ok_0.resident() == Map::<Seq<char>, MaybeDeserialized<V>>::empty()
                &&& r->Ok_0.used_weight() == 0
                &&& r->Ok_0.capacity() == memory_capacity(
                    total_memory_bytes as nat,
                    config.memory_reserved_percent as nat,
                    config.memory_usable_max_percent as nat,
                )
            },
    {
        match config.memory_cache_capacity_bytes(total_memory_bytes) {
            Ok(capacity) => Ok(Self::with_capacity(capacity)),
            Err(e) => Err(e),
        }
    }

    /// An empty cache sized from `config` and this machine's memory.
    pub fn new(config: &CacheConfig) -> (r: Result<Self, LayerDbError>)
        ensures
            (config.memory_reserved_percent <= 100 && config.memory_usable_max_percent <= 100)
                <==> r is Ok,
            r is Err ==> r->Err_0 == LayerDbError::InvalidPercentage,
            r is Ok ==> {
                &&& r->Ok_0.wf()
                &&& r->Ok_0.resident() == Map::<Seq<char>, MaybeDeserialized<V>>::empty()
                &&& r->Ok_0.used_weight() == 0
                &&& exists|total: u64| #![auto] r->Ok_0.capacity() == memory_capacity(
                    total as nat,
                    config.memory_reserved_percent as nat,
                    config.memory_usable_max_percent as nat,
                )
            },
    {
        let total = total_system_memory_bytes();
        Self::with_memory(config, total)
    }

    fn find(&self, key: &String) -> (r: Option<usize>)
        requires
            self.wf(),
        ensures
            r is Some ==> r->Some_0 < self.slots().len() && self.slots()[r->Some_0 as int].0
                == key@,
            r is None ==> forall|i: int| 0 <= i < self.slots().len() ==> self.slots()[i].0 != key@,
    {
        let mut i: usize = 0;
        while i < self.slots.len()
            invariant
                i <= self.slots@.len(),
                forall|j: int| 0 <= j < i ==> self.slots()[j].0 != key@,
            decreases self.slots@.len() - i,
        {
            if self.slots[i].key == *key {
                return Some(i);
            }
            i = i + 1;
        }
        None
    }

    proof fn lemma_lookup(&self, key: Seq<char>, found: Option<usize>)
        requires
            self.wf(),
            found is Some ==> found->Some_0 < self.slots().len() && self.slots()[found->Some_0 as int].0
                == key,
            found is None ==> forall|i: int| 0 <= i < self.slots().len() ==> self.slots()[i].0 != key,
        ensures
            found is Some <==> self.resident().contains_key(key),
            found is Some ==> self.resident()[key] == self.slots()[found->Some_0 as int].1,
            found is Some ==> weight_of(self.slots()[found->Some_0 as int].1) <= self.used_weight(),
    {
        match found {
            Some(i) => {
                lemma_contents_has(self.slots(), i as int);
                lemma_remove(self.slots(), i as int);
            },
            None => {
                lemma_contents_lacks(self.slots(), key);
            },
        }
    }

    fn remove_at(&mut self, i: usize)
        requires
            old(self).wf(),
            i < old(self).slots().len(),
        ensures
            final(self).wf(),
            final(self).capacity == old(self).capacity,
            final(self).slots@.len() + 1 == old(self).slots@.len(),
            final(self).resident() == old(self).resident().remove(old(self).slots()[i as int].0),
            final(self).used_weight() + weight_of(old(self).slots()[i as int].1)
                == old(self).used_weight(),
    {
        proof {
            lemma_remove(self.slots(), i as int);
        }
        let slot = self.slots.remove(i);
        let w: u64 = match &slot.entry {
            MaybeDeserialized::RawBytes(b) => b.len() as u64,
            MaybeDeserialized::DeserializedValue { size_hint, .. } => *size_hint as u64,
        };
        self.used = self.used - w;
        assert(self.slots() =~= old(self).slots().remove(i as int));
    }

    /// Whether anything is resident under `key`.
    pub fn contains(&self, key: &String) -> (r: bool)
        requires
            self.wf(),
        ensures
            r == self.resident().contains_key(key@),
    {
        let found = self.find(key);
        proof {
            self.lemma_lookup(key@, found);
        }
        found.is_some()
    }

    /// Drops whatever is resident under `key`.
    pub fn remove(&mut self, key: &String)
        requires
            old(self).wf(),
        ensures
            final(self).wf(),
            final(self).capacity() == old(self).capacity(),
            final(self).resident() == old(self).resident().remove(key@),
            final(self).used_weight() == old(self).used_weight() - weight_in(old(self).resident(), key@),
    {
        let found = self.find(key);
        proof {
            self.lemma_lookup(key@, found);
        }
        match found {
            Some(i) => {
                self.remove_at(i);
            },
            None => {
                assert(old(self).resident().remove(key@) =~= old(self).resident());
            },
        }
    }

    /// Puts `entry` under `key`, replacing what was there. The oldest entries
    /// leave until it fits; an entry heavier than the whole budget is not
    /// admitted, and the key is then left empty.
    pub fn insert_entry(&mut self, key: String, entry: MaybeDeserialized<V>)
        requires
            old(self).wf(),
        ensures
            insert_post(*old(self), *final(self), key@, entry),
    {
        self.remove(&key);
        let ghost base = self.resident();
        let ghost base_used = self.used_weight();
        let w: u64 = match &entry {
            MaybeDeserialized::RawBytes(b) => b.len() as u64,
            MaybeDeserialized::DeserializedValue { size_hint, .. } => *size_hint as u64,
        };
        if w > self.capacity {
            return;
        }
        while w > self.capacity - self.used
            invariant
                self.wf(),
                self.capacity == old(self).capacity,
                w <= self.capacity,
                w == weight_of(entry),
                !self.resident().contains_key(key@),
                forall|k: Seq<char>|
                    #[trigger] self.resident().contains_key(k) ==> base.contains_key(k)
                        && self.resident()[k] == base[k],
                self.used_weight() <= base_used,
                base_used + w <= self.capacity() ==> self.resident() == base
                    && self.used_weight() == base_used,
            decreases self.slots@.len(),
        {
            proof {
                if self.slots@.len() == 0 {
                    assert(self.slots() =~= Seq::<(Seq<char>, MaybeDeserialized<V>)>::empty());
                    assert(self.used == 0);
                }
                lemma_contents_has(self.slots(), 0);
            }
            self.remove_at(0);
        }
        proof {
            assert forall|i: int| 0 <= i < self.slots().len() implies self.slots()[i].0
                != key@ by {
                lemma_contents_has(self.slots(), i);
            }
            lemma_push(self.slots(), key@, entry);
        }
        let ghost before = self.slots();
        let ghost k = key@;
        self.slots.push(Slot { key, entry });
        self.used = self.used + w;
        assert(self.slots() =~= before.push((k, entry)));
        proof {
            if base_used + w <= self.capacity() {
                assert(self.resident() =~= old(self).resident().insert(k, entry));
            }
        }
    }
}


impl<V> Cache<V> {
    /// Puts a decoded value under `key`, charged at `size_hint` bytes.
    pub fn insert(&mut self, key: String, value: V, size_hint: usize)
        requires
            old(self).wf(),
        ensures
            insert_post(*old(self), *final(self), key@, MaybeDeserialized::DeserializedValue { value, size_hint }),
    {
        self.insert_entry(key, MaybeDeserialized::DeserializedValue { value, size_hint });
    }

    /// Puts serialized bytes under `key`, to be decoded on first read; they
    /// are charged at their length.
    pub fn insert_raw_bytes(&mut self, key: String, raw_bytes: Vec<u8>)
        requires
            old(self).wf(),
        ensures
            insert_post(*old(self), *final(self), key@, MaybeDeserialized::RawBytes(raw_bytes)),
    {
        self.insert_entry(key, MaybeDeserialized::RawBytes(raw_bytes));
    }

    /// Settles a resident raw-bytes entry once its bytes have been decoded:
    /// a decoded value takes its place in the same slot at the same weight;
    /// bytes that did not decode are dropped, so a bad payload never stays.
    /// Any other entry, or none, is left alone.
    pub fn settle_decoded(&mut self, key: &String, decoded: Option<V>)
        requires
            old(self).wf(),
        ensures
            final(self).wf(),
            final(self).capacity() == old(self).capacity(),
            old(self).resident().contains_key(key@) && old(self).resident()[key@] is RawBytes
                ==> match decoded {
                Some(v) => {
                    &&& final(self).resident() == old(self).resident().insert(
                        key@,
                        MaybeDeserialized::DeserializedValue {
                            value: v,
                            size_hint: old(self).resident()[key@]->RawBytes_0@.len() as usize,
                        },
                    )
                    &&& final(self).used_weight() == old(self).used_weight()
                },
                None => {
                    &&& final(self).resident() == old(self).resident().remove(key@)
                    &&& final(self).used_weight() == old(self).used_weight() - old(self).resident()[key@]->RawBytes_0@.len()
                },
            },
            !(old(self).resident().contains_key(key@) && old(self).resident()[key@] is RawBytes)
                ==> final(self).resident() == old(self).resident() && final(self).used_weight()
                == old(self).used_weight(),
    {
        let found = self.find(key);
        proof {
            self.lemma_lookup(key@, found);
        }
        if let Some(i) = found {
            let len: usize = match &self.slots[i].entry {
                MaybeDeserialized::RawBytes(b) => b.len(),
                MaybeDeserialized::DeserializedValue { .. } => {
                    return;
                },
            };
            match decoded {
                Some(value) => {
                    let ghost e = MaybeDeserialized::DeserializedValue { value, size_hint: len };
                    proof {
                        lemma_update(self.slots(), i as int, e);
                    }
                    let k = self.slots[i].key.clone();
                    let ghost before = self.slots();
                    self.slots.set(
                        i,
                        Slot { key: k, entry: MaybeDeserialized::DeserializedValue { value, size_hint: len } },
                    );
                    assert(self.slots() =~= before.update(i as int, (before[i as int].0, e)));
                },
                None => {
                    self.remove_at(i);
                },
            }
        }
    }

    /// Empties the memory tier; called once on orderly shutdown.
    pub fn close(&mut self)
        requires
            old(self).wf(),
        ensures
            final(self).wf(),
            final(self).capacity() == old(self).capacity(),
            final(self).resident() == Map::<Seq<char>, MaybeDeserialized<V>>::empty(),
            final(self).used_weight() == 0,
    {
        self.slots = Vec::new();
        self.used = 0;
        assert(self.slots() =~= Seq::empty());
    }
}

impl<V: Clone> Cache<V> {
    /// Looks `key` up: a decoded value comes back as a clone; raw bytes come
    /// back for the caller to decode and then settle with `settle_decoded`.
    pub fn get(&self, key: &String) -> (r: CacheRead<V>)
        requires
            self.wf(),
        ensures
            read_post(self.resident(), key@, r),
    {
        let found = self.find(key);
        proof {
            self.lemma_lookup(key@, found);
        }
        match found {
            None => CacheRead::Miss,
            Some(i) => match &self.slots[i].entry {
                MaybeDeserialized::DeserializedValue { value, .. } => CacheRead::Hit(value.clone()),
                MaybeDeserialized::RawBytes(b) => CacheRead::Undecoded(b.clone()),
            },
        }
    }
}

} // verus!
