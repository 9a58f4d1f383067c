use vstd::prelude::*;

use crate::error::LayerDbError;

verus! {

pub const DEFAULT_MEMORY_RESERVED_PERCENT: u8 = 40;
pub const DEFAULT_MEMORY_USABLE_MAX_PERCENT: u8 = 100;
pub const DEFAULT_DISK_RESERVED_PERCENT: u8 = 5;
pub const DEFAULT_DISK_USAGE_MAX_PERCENT: u8 = 100;
pub const DEFAULT_DISK_CACHE_RATE_LIMIT: usize = 1073741824;
pub const DEFAULT_DISK_BUFFER_SIZE: usize = 134217728;
pub const DEFAULT_DISK_BUFFER_FLUSHERS: usize = 2;
pub const DEFAULT_DISK_INDEXER_SHARDS: usize = 64;
pub const DEFAULT_DISK_RECLAIMERS: usize = 2;
pub const DEFAULT_DISK_RECOVER_CONCURRENCY: usize = 8;

/// The directory beneath which a cache's disk tier lives unless told otherwise.
pub const DEFAULT_DISK_PARENT: &'static str = "/tmp";

/// The byte budget left from `total` once `reserved` percent is set aside and
/// `usable` percent of the remainder is taken, each step rounded down.
pub open spec fn memory_capacity(total: nat, reserved: nat, usable: nat) -> nat {
    (total * (100 - reserved) as nat / 100) * usable / 100
}

/// What `Path::join` gives on Unix: an absolute part replaces the base;
/// otherwise one `/` is put between them, unless the base is empty or
/// already ends in `/`.
pub open spec fn path_join_of(base: Seq<char>, part: Seq<char>) -> Seq<char> {
    if part.len() > 0 && part[0] == '/' {
        part
    } else if base.len() == 0 || base.last() == '/' {
        base + part
    } else {
        base + seq!['/'] + part
    }
}

/// Relies on sysinfo's `System::new_all` and `System::total_memory`: the
/// machine's total memory in bytes. The value depends on the machine alone
/// and nothing is stated of it.
#[verifier::external_body]
pub(crate) fn total_system_memory_bytes() -> (r: u64) {
    let sys = sysinfo::System::new_all();
    sys.total_memory()
}

/// Relies on `std::path::Path::join` (Unix separators) and `to_string_lossy`,
/// which loses nothing on text that came in as UTF-8.
#[verifier::external_body]
fn join_path(base: &String, part: &str) -> (r: String)
    ensures
        r@ == path_join_of(base@, part@),
{
    std::path::Path::new(base).join(part).to_string_lossy().into_owned()
}

/// `total * percent / 100`, rounded down, for a percentage of at most 100.
pub fn percent_of(total: u64, percent: u8) -> (r: u64)
    requires
        percent <= 100,
    ensures
        r as nat == total as nat * percent as nat / 100,
        r <= total,
{
    assert(total as nat * percent as nat <= total as nat * 100) by (nonlinear_arith)
        requires percent <= 100;
    assert(total as nat * 100 <= 0xffff_ffff_ffff_ffff * 100) by (nonlinear_arith)
        requires total <= 0xffff_ffff_ffff_ffffu64;
    let product: u128 = total as u128 * percent as u128;
    let r: u128 = product / 100;
    r as u64
}

/// Settings of one hybrid cache: how much memory and disk it may take, and
/// how its disk tier is tuned.
#[derive(Clone, Debug)]
pub struct CacheConfig {
    pub name: String,
    pub memory_reserved_percent: u8,
    pub memory_usable_max_percent: u8,
    pub disk_reserved_percent: u8,
    pub disk_usable_max_percent: u8,
    pub disk_admission_rate_limit: usize,
    pub disk_buffer_size: usize,
    pub disk_buffer_flushers: usize,
    pub disk_indexer_shards: usize,
    pub disk_path: String,
    pub disk_reclaimers: usize,
    pub disk_recover_concurrency: usize,
}

impl Default for CacheConfig {
    /// The defaults: 40% of memory reserved, all of the rest usable, 5% of the
    /// disk reserved, and the disk tier beneath the temporary directory.
    fn default() -> (r: Self)
        ensures
            r.name@ == "default"@,
            r.memory_reserved_percent == DEFAULT_MEMORY_RESERVED_PERCENT,
            r.memory_usable_max_percent == DEFAULT_MEMORY_USABLE_MAX_PERCENT,
            r.disk_reserved_percent == DEFAULT_DISK_RESERVED_PERCENT,
            r.disk_usable_max_percent == DEFAULT_DISK_USAGE_MAX_PERCENT,
            r.disk_admission_rate_limit == DEFAULT_DISK_CACHE_RATE_LIMIT,
            r.disk_buffer_size == DEFAULT_DISK_BUFFER_SIZE,
            r.disk_buffer_flushers == DEFAULT_DISK_BUFFER_FLUSHERS,
            r.disk_indexer_shards == DEFAULT_DISK_INDEXER_SHARDS,
            r.disk_path@ == DEFAULT_DISK_PARENT@,
            r.disk_reclaimers == DEFAULT_DISK_RECLAIMERS,
            r.disk_recover_concurrency == DEFAULT_DISK_RECOVER_CONCURRENCY,
    {
        CacheConfig {
            name: "default".to_string(),
            memory_reserved_percent: DEFAULT_MEMORY_RESERVED_PERCENT,
            memory_usable_max_percent: DEFAULT_MEMORY_USABLE_MAX_PERCENT,
            disk_reserved_percent: DEFAULT_DISK_RESERVED_PERCENT,
            disk_usable_max_percent: DEFAULT_DISK_USAGE_MAX_PERCENT,
            disk_admission_rate_limit: DEFAULT_DISK_CACHE_RATE_LIMIT,
            disk_buffer_size: DEFAULT_DISK_BUFFER_SIZE,
            disk_buffer_flushers: DEFAULT_DISK_BUFFER_FLUSHERS,
            disk_indexer_shards: DEFAULT_DISK_INDEXER_SHARDS,
            disk_path: DEFAULT_DISK_PARENT.to_string(),
            disk_reclaimers: DEFAULT_DISK_RECLAIMERS,
            disk_recover_concurrency: DEFAULT_DISK_RECOVER_CONCURRENCY,
        }
    }
}

impl CacheConfig {
    /// The size of system memory, in bytes.
    pub fn total_system_memory_bytes() -> (r: u64) {
        total_system_memory_bytes()
    }

    /// The memory tier's byte budget on a machine with `total_memory_bytes` of
    /// memory; a percentage above 100 is a configuration error.
    pub fn memory_cache_capacity_bytes(&self, total_memory_bytes: u64) -> (r: Result<u64, LayerDbError>)
        ensures
            (self.memory_reserved_percent <= 100 && self.memory_usable_max_percent <= 100)
                <==> r is Ok,
            r is Ok ==> r->Ok_0 as nat == memory_capacity(
                total_memory_bytes as nat,
                self.memory_reserved_percent as nat,
                self.memory_usable_max_percent as nat,
            ),
            r is Err ==> r->Err_0 == LayerDbError::InvalidPercentage,
    {
        if self.memory_reserved_percent > 100 || self.memory_usable_max_percent > 100 {
            return Err(LayerDbError::InvalidPercentage);
        }
        let usable = percent_of(total_memory_bytes, 100 - self.memory_reserved_percent);
        Ok(percent_of(usable, self.memory_usable_max_percent))
    }

    /// Sets the name of the cache.
    pub fn with_name(self, name: &str) -> (r: Self)
        ensures
            r.name@ == name@,
            r == (CacheConfig { name: r.name, ..self }),
    {
        CacheConfig { name: name.to_string(), ..self }
    }

    /// Sets the percentage of memory that is *never* used for the cache.
    pub fn memory_reserved_percent(self, value: u8) -> (r: Self)
        ensures
            r == (CacheConfig { memory_reserved_percent: value, ..self }),
    {
        CacheConfig { memory_reserved_percent: value, ..self }
    }

    /// Sets the largest percentage of the usable memory (what the reserve
    /// leaves) that the cache takes.
    pub fn memory_usable_max_percent(self, value: u8) -> (r: Self)
        ensures
            r == (CacheConfig { memory_usable_max_percent: value, ..self }),
    {
        CacheConfig { memory_usable_max_percent: value, ..self }
    }

    /// Sets the percentage of the disk that is *never* used for the cache.
    pub fn disk_reserved_percent(self, value: u8) -> (r: Self)
        ensures
            r == (CacheConfig { disk_reserved_percent: value, ..self }),
    {
        CacheConfig { disk_reserved_percent: value, ..self }
    }

    /// Sets the largest percentage of the usable disk that the cache takes.
    pub fn disk_usable_max_percent(self, value: u8) -> (r: Self)
        ensures
            r == (CacheConfig { disk_usable_max_percent: value, ..self }),
    {
        CacheConfig { disk_usable_max_percent: value, ..self }
    }

    /// Appends `path` to the disk tier's directory.
    pub fn with_path_join(self, path: &str) -> (r: Self)
        ensures
            r.disk_path@ == path_join_of(self.disk_path@, path@),
            r == (CacheConfig { disk_path: r.disk_path, ..self }),
    {
        let disk_path = join_path(&self.disk_path, path);
        CacheConfig { disk_path, ..self }
    }
}

/// Where the object-store tier keeps its blobs.
#[derive(Clone, Debug)]
pub struct ObjectCacheConfig {
    pub bucket: String,
    pub endpoint: Option<String>,
}

pub const DEFAULT_OBJECT_BUCKET: &'static str = "si-local";
pub const DEFAULT_OBJECT_ENDPOINT: &'static str = "http://localhost:4566";

impl ObjectCacheConfig {
    /// Sets the endpoint of the object store.
    pub fn with_endpoint(self, endpoint: String) -> (r: Self)
        ensures
            r.bucket == self.bucket,
            r.endpoint == Some(endpoint),
    {
        ObjectCacheConfig { endpoint: Some(endpoint), ..self }
    }
}

impl Default for ObjectCacheConfig {
    /// A local bucket on a local endpoint.
    fn default() -> (r: Self)
        ensures
            r.bucket@ == DEFAULT_OBJECT_BUCKET@,
            r.endpoint is Some,
            r.endpoint->Some_0@ == DEFAULT_OBJECT_ENDPOINT@,
    {
        ObjectCacheConfig {
            bucket: DEFAULT_OBJECT_BUCKET.to_string(),
            endpoint: Some(DEFAULT_OBJECT_ENDPOINT.to_string()),
        }
    }
}

} // verus!
