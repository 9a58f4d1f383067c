use vstd::prelude::*;

use crate::config::{memory_capacity, CacheConfig};
use crate::error::LayerDbError;
use crate::event::{content_hash_of, Actor, ContentHash, GossipMessage, LayeredEvent, LayeredEventKind, Tenancy};
use crate::hybrid_cache::{insert_post, read_post, CacheRead, MaybeDeserialized};
use crate::layer_cache::{bulk_post, cache_update_post, key_views, BulkRead, LayerCache};
use crate::persister::{durable_apply, durable_op_of, DurableRows, PersisterClient, PersisterStatusReader};

verus! {

pub const CAS_TABLE: &'static str = "cas";
pub const CAS_SORT_KEY: &'static str = "cas";
pub const ENCRYPTED_SECRET_TABLE: &'static str = "encrypted_secrets";
pub const ENCRYPTED_SECRET_SORT_KEY: &'static str = "encrypted_secret";
pub const WORKSPACE_SNAPSHOT_TABLE: &'static str = "workspace_snapshots";
pub const WORKSPACE_SNAPSHOT_SORT_KEY: &'static str = "workspace_snapshot";
pub const REBASE_BATCH_TABLE: &'static str = "rebase_batches";
pub const REBASE_BATCH_SORT_KEY: &'static str = "rebase_batch";
pub const FUNC_RUN_TABLE: &'static str = "func_runs";
pub const FUNC_RUN_SORT_KEY: &'static str = "func_run";
pub const FUNC_RUN_LOG_TABLE: &'static str = "func_run_logs";
pub const FUNC_RUN_LOG_SORT_KEY: &'static str = "func_run_log";

/// `e` is an event of `kind` on `table` for `key` carrying `payload`.
pub open spec fn event_is(e: LayeredEvent, kind: LayeredEventKind, table: Seq<char>, key: Seq<char>, payload: Seq<u8>) -> bool {
    &&& e.kind == kind
    &&& e.table@ == table
    &&& e.key@ == key
    &&& e.payload@ == payload
}

/// The persister gained exactly one pending write, `event`, under `ticket`.
pub open spec fn enqueued(before: PersisterClient, after: PersisterClient, ticket: usize, event: LayeredEvent) -> bool {
    &&& after.wf()
    &&& ticket == before.statuses().len()
    &&& after.queued() == before.queued().push((ticket as nat, event))
    &&& after.statuses() == before.statuses().push(crate::persister::PersistStatus::Pending)
}

/// A table whose values are addressed by the hash of their serialized bytes.
pub struct CasDb<V> {
    pub cache: LayerCache<V>,
    pub sort_key: String,
}

/// What a content-addressed write does to the table's memory tier: when
/// something already holds the address (the same bytes, so the same
/// content) nothing changes; otherwise the value is put there as
/// `insert_post` says.
pub open spec fn cas_write_post<V>(before: LayerCache<V>, after: LayerCache<V>, key: Seq<char>, value: V, size_hint: usize) -> bool {
    &&& after.wf()
    &&& after.name == before.name
    &&& before.resident().contains_key(key) ==> after == before
    &&& !before.resident().contains_key(key) ==> insert_post(
        before.cache,
        after.cache,
        key,
        MaybeDeserialized::DeserializedValue { value, size_hint },
    )
}

/// What an explicit-key write does to the table's memory tier: the value
/// replaces what the key held, as `insert_post` says.
pub open spec fn keyed_write_post<V>(before: LayerCache<V>, after: LayerCache<V>, key: Seq<char>, value: V, size_hint: usize) -> bool {
    &&& after.wf()
    &&& after.name == before.name
    &&& insert_post(before.cache, after.cache, key, MaybeDeserialized::DeserializedValue { value, size_hint })
}

impl<V> CasDb<V> {
    pub fn new(cache: LayerCache<V>, sort_key: &str) -> (r: Self)
        ensures
            r.cache == cache,
            r.sort_key@ == sort_key@,
    {
        CasDb { cache, sort_key: sort_key.to_string() }
    }

    /// Writes `value`, whose serialized form is `encoded`: its address is the
    /// hash of `encoded`; memory holds it at once, and its durable write is
    /// queued, with a handle on that write's status.
    pub fn write(
        &mut self,
        value: V,
        encoded: Vec<u8>,
        web_events: Option<Vec<String>>,
        tenancy: Tenancy,
        actor: Actor,
        persister: &mut PersisterClient,
    ) -> (r: (ContentHash, PersisterStatusReader))
        requires
            old(self).cache.wf(),
            old(persister).wf(),
            old(persister).statuses().len() < usize::MAX,
        ensures
            r.0@ == content_hash_of(encoded@),
            final(self).sort_key == old(self).sort_key,
            cas_write_post(old(self).cache, final(self).cache, r.0@, value, encoded@.len() as usize),
            final(persister).queued().len() == old(persister).queued().len() + 1,
            event_is(
                final(persister).queued().last().1,
                LayeredEventKind::Insertion,
                old(self).cache.name@,
                r.0@,
                encoded@,
            ),
            final(persister).queued().last().1.sort_key@ == old(self).sort_key@,
            final(persister).queued().last().1.web_events == web_events,
            final(persister).queued().last().1.tenancy == tenancy,
            final(persister).queued().last().1.actor == actor,
            enqueued(*old(persister), *final(persister), r.1.ticket, final(persister).queued().last().1),
    {
        let key = ContentHash::new(&encoded);
        let cache_key = key.to_string();
        let size_hint = encoded.len();
        self.cache.insert(cache_key.clone(), value, size_hint);
        let event = LayeredEvent::new(
            LayeredEventKind::Insertion,
            self.cache.name.clone(),
            cache_key,
            encoded,
            self.sort_key.clone(),
            web_events,
            tenancy,
            actor,
        );
        let reader = persister.write_event(event);
        (key, reader)
    }

    /// Evicts the value at `key`: it leaves this process's memory at once,
    /// and its durable deletion is queued, to be gossiped to the others.
    pub fn evict(&mut self, key: &ContentHash, tenancy: Tenancy, actor: Actor, persister: &mut PersisterClient) -> (r: PersisterStatusReader)
        requires
            old(self).cache.wf(),
            old(persister).wf(),
            old(persister).statuses().len() < usize::MAX,
        ensures
            final(self).cache.wf(),
            final(self).cache.name == old(self).cache.name,
            final(self).cache.resident() == old(self).cache.resident().remove(key@),
            final(persister).queued().len() == old(persister).queued().len() + 1,
            event_is(
                final(persister).queued().last().1,
                LayeredEventKind::Eviction,
                old(self).cache.name@,
                key@,
                Seq::empty(),
            ),
            enqueued(*old(persister), *final(persister), r.ticket, final(persister).queued().last().1),
    {
        let cache_key = key.to_string();
        self.cache.remove_from_memory(&cache_key);
        let event = LayeredEvent::new(
            LayeredEventKind::Eviction,
            self.cache.name.clone(),
            cache_key,
            Vec::new(),
            self.sort_key.clone(),
            None,
            tenancy,
            actor,
        );
        persister.write_event(event)
    }
}

impl<V: Clone> CasDb<V> {
    /// Looks the value at `key` up in memory (see `LayerCache::get`).
    pub fn read(&self, key: &ContentHash) -> (r: CacheRead<V>)
        requires
            self.cache.wf(),
        ensures
            read_post(self.cache.resident(), key@, r),
    {
        let k = key.to_string();
        self.cache.get(&k)
    }

    /// Splits `keys` by where each stands in memory (see `LayerCache::get_bulk`).
    pub fn read_many(&self, keys: &Vec<ContentHash>) -> (r: BulkRead<V>)
        requires
            self.cache.wf(),
        ensures
            bulk_post(self.cache.resident(), keys@.map_values(|k: ContentHash| k@), r),
    {
        let mut ks: Vec<String> = Vec::new();
        let mut i: usize = 0;
        while i < keys.len()
            invariant
                i <= keys@.len(),
                ks@.len() == i,
                forall|j: int| 0 <= j < i ==> #[trigger] ks@[j]@ == keys@[j]@,
            decreases keys@.len() - i,
        {
            ks.push(keys[i].to_string());
            i = i + 1;
        }
        let r = self.cache.get_bulk(&ks);
        assert(key_views(ks@) =~= keys@.map_values(|k: ContentHash| k@));
        r
    }
}

/// A table under keys the caller chooses; a later write to a key replaces
/// the earlier one.
pub struct KeyedDb<V> {
    pub cache: LayerCache<V>,
    pub sort_key: String,
}

/// The table of encrypted secrets.
pub type EncryptedSecretDb<V> = KeyedDb<V>;

/// The table of execution runs.
pub type FuncRunDb<V> = KeyedDb<V>;

/// The table of execution logs.
pub type FuncRunLogDb<V> = KeyedDb<V>;

impl<V> KeyedDb<V> {
    pub fn new(cache: LayerCache<V>, sort_key: &str) -> (r: Self)
        ensures
            r.cache == cache,
            r.sort_key@ == sort_key@,
    {
        KeyedDb { cache, sort_key: sort_key.to_string() }
    }

    /// Writes `value`, serialized as `encoded`, under `key`: memory holds it
    /// at once in place of what the key held, and its durable write is queued.
    pub fn write(
        &mut self,
        key: String,
        value: V,
        encoded: Vec<u8>,
        web_events: Option<Vec<String>>,
        tenancy: Tenancy,
        actor: Actor,
        persister: &mut PersisterClient,
    ) -> (r: PersisterStatusReader)
        requires
            old(self).cache.wf(),
            old(persister).wf(),
            old(persister).statuses().len() < usize::MAX,
        ensures
            keyed_write_post(old(self).cache, final(self).cache, key@, value, encoded@.len() as usize),
            final(persister).queued().len() == old(persister).queued().len() + 1,
            event_is(
                final(persister).queued().last().1,
                LayeredEventKind::Insertion,
                old(self).cache.name@,
                key@,
                encoded@,
            ),
            final(persister).queued().last().1.sort_key@ == old(self).sort_key@,
            final(self).sort_key == old(self).sort_key,
            final(persister).queued().last().1.web_events == web_events,
            final(persister).queued().last().1.tenancy == tenancy,
            final(persister).queued().last().1.actor == actor,
            enqueued(*old(persister), *final(persister), r.ticket, final(persister).queued().last().1),
    {
        let size_hint = encoded.len();
        self.cache.insert_or_update(key.clone(), value, size_hint);
        let event = LayeredEvent::new(
            LayeredEventKind::Insertion,
            self.cache.name.clone(),
            key,
            encoded,
            self.sort_key.clone(),
            web_events,
            tenancy,
            actor,
        );
        persister.write_event(event)
    }
}

impl<V: Clone> KeyedDb<V> {
    /// Looks the secret at `key` up in memory (see `LayerCache::get`).
    pub fn read(&self, key: &String) -> (r: CacheRead<V>)
        requires
            self.cache.wf(),
        ensures
            read_post(self.cache.resident(), key@, r),
    {
        self.cache.get(key)
    }

    /// Splits `keys` by where each stands in memory (see `LayerCache::get_bulk`).
    pub fn read_many(&self, keys: &Vec<String>) -> (r: BulkRead<V>)
        requires
            self.cache.wf(),
        ensures
            bulk_post(self.cache.resident(), key_views(keys@), r),
    {
        self.cache.get_bulk(keys)
    }
}

/// Relies on `ulid::Ulid::new`: a fresh identifier for this process. It
/// depends on the clock and on chance, and nothing is stated of it.
#[verifier::external_body]
fn new_instance_id() -> (r: u128) {
    ulid::Ulid::new().0
}

/// The tables of one process, its persister queue, and the identity that
/// tags the gossip it sends.
pub struct LayerDb<C, E, W, R, F, L> {
    pub cas: CasDb<C>,
    pub encrypted_secret: EncryptedSecretDb<E>,
    pub workspace_snapshot: CasDb<W>,
    pub rebase_batch: CasDb<R>,
    pub func_run: FuncRunDb<F>,
    pub func_run_log: FuncRunLogDb<L>,
    pub persister_client: PersisterClient,
    pub instance_id: u128,
}

impl<C, E, W, R, F, L> LayerDb<C, E, W, R, F, L> {
    pub open spec fn wf(&self) -> bool {
        &&& self.cas.cache.wf()
        &&& self.encrypted_secret.cache.wf()
        &&& self.workspace_snapshot.cache.wf()
        &&& self.rebase_batch.cache.wf()
        &&& self.func_run.cache.wf()
        &&& self.func_run_log.cache.wf()
        &&& self.persister_client.wf()
    }

    /// The identity of this process.
    pub open spec fn id(&self) -> u128 {
        self.instance_id
    }

    /// Every table is empty, named as it should be, and nothing is queued.
    pub open spec fn is_fresh(&self) -> bool {
        &&& self.wf()
        &&& self.cas.cache.name@ == CAS_TABLE@
        &&& self.encrypted_secret.cache.name@ == ENCRYPTED_SECRET_TABLE@
        &&& self.workspace_snapshot.cache.name@ == WORKSPACE_SNAPSHOT_TABLE@
        &&& self.rebase_batch.cache.name@ == REBASE_BATCH_TABLE@
        &&& self.func_run.cache.name@ == FUNC_RUN_TABLE@
        &&& self.func_run_log.cache.name@ == FUNC_RUN_LOG_TABLE@
        &&& self.encrypted_secret.sort_key@ == ENCRYPTED_SECRET_SORT_KEY@
        &&& self.func_run.sort_key@ == FUNC_RUN_SORT_KEY@
        &&& self.func_run_log.sort_key@ == FUNC_RUN_LOG_SORT_KEY@
        &&& self.cas.sort_key@ == CAS_SORT_KEY@
        &&& self.workspace_snapshot.sort_key@ == WORKSPACE_SNAPSHOT_SORT_KEY@
        &&& self.rebase_batch.sort_key@ == REBASE_BATCH_SORT_KEY@
        &&& self.cas.cache.resident() == Map::<Seq<char>, MaybeDeserialized<C>>::empty()
        &&& self.encrypted_secret.cache.resident() == Map::<Seq<char>, MaybeDeserialized<E>>::empty()
        &&& self.workspace_snapshot.cache.resident() == Map::<Seq<char>, MaybeDeserialized<W>>::empty()
        &&& self.rebase_batch.cache.resident() == Map::<Seq<char>, MaybeDeserialized<R>>::empty()
        &&& self.func_run.cache.resident() == Map::<Seq<char>, MaybeDeserialized<F>>::empty()
        &&& self.func_run_log.cache.resident() == Map::<Seq<char>, MaybeDeserialized<L>>::empty()
        &&& self.persister_client.queued().len() == 0
        &&& self.persister_client.statuses().len() == 0
        &&& self.cas.cache.cache.used_weight() == 0
        &&& self.encrypted_secret.cache.cache.used_weight() == 0
        &&& self.workspace_snapshot.cache.cache.used_weight() == 0
        &&& self.rebase_batch.cache.cache.used_weight() == 0
        &&& self.func_run.cache.cache.used_weight() == 0
        &&& self.func_run_log.cache.cache.used_weight() == 0
    }

    /// Every table's memory tier has a budget of `budget` bytes.
    pub open spec fn budgets_are(&self, budget: nat) -> bool {
        &&& self.cas.cache.cache.capacity() == budget
        &&& self.encrypted_secret.cache.cache.capacity() == budget
        &&& self.workspace_snapshot.cache.cache.capacity() == budget
        &&& self.rebase_batch.cache.cache.capacity() == budget
        &&& self.func_run.cache.cache.capacity() == budget
        &&& self.func_run_log.cache.cache.capacity() == budget
    }

    /// The tables of process `instance_id`, each with a memory tier that
    /// `cache_config` sizes for `total_memory_bytes` of memory.
    pub fn from_parts(instance_id: u128, cache_config: &CacheConfig, total_memory_bytes: u64) -> (r: Result<Self, LayerDbError>)
        ensures
            (cache_config.memory_reserved_percent <= 100 && cache_config.memory_usable_max_percent <= 100)
                <==> r is Ok,
            r is Err ==> r->Err_0 == LayerDbError::InvalidPercentage,
            r is Ok ==> r->Ok_0.is_fresh() && r->Ok_0.id() == instance_id && r->Ok_0.budgets_are(
                memory_capacity(
                    total_memory_bytes as nat,
                    cache_config.memory_reserved_percent as nat,
                    cache_config.memory_usable_max_percent as nat,
                ),
            ),
    {
        let cas = match LayerCache::with_memory(CAS_TABLE, cache_config, total_memory_bytes) {
            Ok(c) => c,
            Err(e) => return Err(e),
        };
        let encrypted_secret = match LayerCache::with_memory(ENCRYPTED_SECRET_TABLE, cache_config, total_memory_bytes) {
            Ok(c) => c,
            Err(e) => return Err(e),
        };
        let workspace_snapshot = match LayerCache::with_memory(WORKSPACE_SNAPSHOT_TABLE, cache_config, total_memory_bytes) {
            Ok(c) => c,
            Err(e) => return Err(e),
        };
        let rebase_batch = match LayerCache::with_memory(REBASE_BATCH_TABLE, cache_config, total_memory_bytes) {
            Ok(c) => c,
            Err(e) => return Err(e),
        };
        let func_run = match LayerCache::with_memory(FUNC_RUN_TABLE, cache_config, total_memory_bytes) {
            Ok(c) => c,
            Err(e) => return Err(e),
        };
        let func_run_log = match LayerCache::with_memory(FUNC_RUN_LOG_TABLE, cache_config, total_memory_bytes) {
            Ok(c) => c,
            Err(e) => return Err(e),
        };
        Ok(LayerDb {
            cas: CasDb::new(cas, CAS_SORT_KEY),
            encrypted_secret: KeyedDb::new(encrypted_secret, ENCRYPTED_SECRET_SORT_KEY),
            workspace_snapshot: CasDb::new(workspace_snapshot, WORKSPACE_SNAPSHOT_SORT_KEY),
            rebase_batch: CasDb::new(rebase_batch, REBASE_BATCH_SORT_KEY),
            func_run: KeyedDb::new(func_run, FUNC_RUN_SORT_KEY),
            func_run_log: KeyedDb::new(func_run_log, FUNC_RUN_LOG_SORT_KEY),
            persister_client: PersisterClient::new(),
            instance_id,
        })
    }

    /// The tables of a new process, with a fresh identity and memory tiers
    /// sized from `cache_config` and this machine's memory.
    pub fn new(cache_config: &CacheConfig) -> (r: Result<Self, LayerDbError>)
        ensures
            (cache_config.memory_reserved_percent <= 100 && cache_config.memory_usable_max_percent <= 100)
                <==> r is Ok,
            r is Err ==> r->Err_0 == LayerDbError::InvalidPercentage,
            r is Ok ==> r->Ok_0.is_fresh() && exists|total: u64| #![auto] r->Ok_0.budgets_are(
                memory_capacity(
                    total as nat,
                    cache_config.memory_reserved_percent as nat,
                    cache_config.memory_usable_max_percent as nat,
                ),
            ),
    {
        let instance_id = new_instance_id();
        let total = crate::config::total_system_memory_bytes();
        Self::from_parts(instance_id, cache_config, total)
    }

    /// The identity of this process.
    pub fn instance_id(&self) -> (r: u128)
        ensures
            r == self.id(),
    {
        self.instance_id
    }

    /// The message that announces `event` on the bus as sent by this process.
    pub fn gossip_message(&self, event: LayeredEvent) -> (r: GossipMessage)
        ensures
            r.origin == self.id(),
            r.event == event,
    {
        GossipMessage { origin: self.instance_id, event }
    }

    /// The name of each table, in the order gossip is matched against them.
    pub open spec fn table_names(&self) -> Seq<Seq<char>> {
        seq![
            self.cas.cache.name@,
            self.encrypted_secret.cache.name@,
            self.workspace_snapshot.cache.name@,
            self.rebase_batch.cache.name@,
            self.func_run.cache.name@,
            self.func_run_log.cache.name@,
        ]
    }

    /// Gossip for table `t` (counted in `table_names` order) goes to that
    /// table: `t` is the first table whose name the event names.
    pub open spec fn routes_to(&self, m: GossipMessage, t: int) -> bool {
        &&& 0 <= t < 6
        &&& self.table_names()[t] == m.event.table@
        &&& forall|u: int| 0 <= u < t ==> self.table_names()[u] != m.event.table@
    }

    /// Applies a gossiped event to the table it names, unless this process
    /// sent it. Explicit-key tables take the latest bytes; content-addressed
    /// tables keep what is resident. Says whether anything was applied; the
    /// tables it was not meant for are left as they were.
    pub fn apply_cache_update(&mut self, message: GossipMessage) -> (applied: bool)
        requires
            old(self).wf(),
        ensures
            final(self).wf(),
            final(self).id() == old(self).id(),
            final(self).persister_client == old(self).persister_client,
            final(self).cas.sort_key == old(self).cas.sort_key,
            final(self).encrypted_secret.sort_key == old(self).encrypted_secret.sort_key,
            final(self).workspace_snapshot.sort_key == old(self).workspace_snapshot.sort_key,
            final(self).rebase_batch.sort_key == old(self).rebase_batch.sort_key,
            final(self).func_run.sort_key == old(self).func_run.sort_key,
            final(self).func_run_log.sort_key == old(self).func_run_log.sort_key,
            applied <==> (message.origin != old(self).id() && exists|t: int| old(self).routes_to(message, t)),
            !(message.origin != old(self).id() && old(self).routes_to(message, 0)) ==> final(self).cas == old(self).cas,
            !(message.origin != old(self).id() && old(self).routes_to(message, 1)) ==> final(self).encrypted_secret == old(self).encrypted_secret,
            !(message.origin != old(self).id() && old(self).routes_to(message, 2)) ==> final(self).workspace_snapshot == old(self).workspace_snapshot,
            !(message.origin != old(self).id() && old(self).routes_to(message, 3)) ==> final(self).rebase_batch == old(self).rebase_batch,
            !(message.origin != old(self).id() && old(self).routes_to(message, 4)) ==> final(self).func_run == old(self).func_run,
            !(message.origin != old(self).id() && old(self).routes_to(message, 5)) ==> final(self).func_run_log == old(self).func_run_log,
            message.origin != old(self).id() && old(self).routes_to(message, 0) ==> cache_update_post(
                old(self).cas.cache, final(self).cas.cache, old(self).id(), message, false),
            message.origin != old(self).id() && old(self).routes_to(message, 1) ==> cache_update_post(
                old(self).encrypted_secret.cache, final(self).encrypted_secret.cache, old(self).id(), message, true),
            message.origin != old(self).id() && old(self).routes_to(message, 2) ==> cache_update_post(
                old(self).workspace_snapshot.cache, final(self).workspace_snapshot.cache, old(self).id(), message, false),
            message.origin != old(self).id() && old(self).routes_to(message, 3) ==> cache_update_post(
                old(self).rebase_batch.cache, final(self).rebase_batch.cache, old(self).id(), message, false),
            message.origin != old(self).id() && old(self).routes_to(message, 4) ==> cache_update_post(
                old(self).func_run.cache, final(self).func_run.cache, old(self).id(), message, true),
            message.origin != old(self).id() && old(self).routes_to(message, 5) ==> cache_update_post(
                old(self).func_run_log.cache, final(self).func_run_log.cache, old(self).id(), message, true),
    {
        if message.origin == self.instance_id {
            return false;
        }
        let own = self.instance_id;
        let ghost names = self.table_names();
        if message.event.table == self.cas.cache.name {
            assert(self.routes_to(message, 0));
            self.cas.cache.apply_cache_update(own, message, false)
        } else if message.event.table == self.encrypted_secret.cache.name {
            assert(self.routes_to(message, 1));
            self.encrypted_secret.cache.apply_cache_update(own, message, true)
        } else if message.event.table == self.workspace_snapshot.cache.name {
            assert(self.routes_to(message, 2));
            self.workspace_snapshot.cache.apply_cache_update(own, message, false)
        } else if message.event.table == self.rebase_batch.cache.name {
            assert(self.routes_to(message, 3));
            self.rebase_batch.cache.apply_cache_update(own, message, false)
        } else if message.event.table == self.func_run.cache.name {
            assert(self.routes_to(message, 4));
            self.func_run.cache.apply_cache_update(own, message, true)
        } else if message.event.table == self.func_run_log.cache.name {
            assert(self.routes_to(message, 5));
            self.func_run_log.cache.apply_cache_update(own, message, true)
        } else {
            assert(forall|t: int| !self.routes_to(message, t));
            false
        }
    }
}

/// Equal serialized values get one address, and writing both leaves one
/// durable row: the second write puts the same bytes under the same key.
pub proof fn lemma_content_addressing(e1: LayeredEvent, e2: LayeredEvent, rows: DurableRows)
    requires
        e1.kind == LayeredEventKind::Insertion,
        e2.kind == LayeredEventKind::Insertion,
        e1.table@ == e2.table@,
        e1.key@ == content_hash_of(e1.payload@),
        e2.key@ == content_hash_of(e2.payload@),
        e1.payload@ == e2.payload@,
    ensures
        e1.key@ == e2.key@,
        durable_apply(durable_apply(rows, durable_op_of(e1)), durable_op_of(e2)) == durable_apply(
            rows,
            durable_op_of(e1),
        ),
{
    assert(durable_apply(durable_apply(rows, durable_op_of(e1)), durable_op_of(e2)) =~= durable_apply(
        rows,
        durable_op_of(e1),
    ));
}

/// Right after a write of a value whose address was not yet resident, and
/// whose size fits the budget, a read of that address is served from memory
/// with the value written, before any durable work is done.
pub proof fn lemma_write_visibility<V: Clone>(
    before: LayerCache<V>,
    after: LayerCache<V>,
    key: Seq<char>,
    value: V,
    size_hint: usize,
    r: CacheRead<V>,
)
    requires
        cas_write_post(before, after, key, value, size_hint),
        !before.resident().contains_key(key),
        size_hint <= before.cache.capacity(),
        read_post(after.resident(), key, r),
    ensures
        r is Hit,
        cloned(value, r->Hit_0),
{
}

/// Right after an explicit-key write whose bytes fit the budget, a read of
/// that key is served from memory with the value written, whatever the key
/// held before and before any durable work is done.
pub proof fn lemma_keyed_write_visibility<V: Clone>(
    before: LayerCache<V>,
    after: LayerCache<V>,
    key: Seq<char>,
    value: V,
    size_hint: usize,
    r: CacheRead<V>,
)
    requires
        keyed_write_post(before, after, key, value, size_hint),
        size_hint <= before.cache.capacity(),
        read_post(after.resident(), key, r),
    ensures
        r is Hit,
        cloned(value, r->Hit_0),
{
}

/// An eviction gossiped from another process takes the key out of this
/// process's memory, and its durable deletion leaves no row for it.
pub proof fn lemma_eviction_propagates<V>(
    before: LayerCache<V>,
    after: LayerCache<V>,
    own: u128,
    m: GossipMessage,
    overwrite: bool,
    rows: DurableRows,
)
    requires
        m.origin != own,
        m.event.kind == LayeredEventKind::Eviction,
        cache_update_post(before, after, own, m, overwrite),
    ensures
        !after.resident().contains_key(m.event.key@),
        !durable_apply(rows, durable_op_of(m.event)).contains_key((m.event.table@, m.event.key@)),
{
}

} // verus!
