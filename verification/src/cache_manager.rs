//! The caches of table metadata that a query node keeps, and how the
//! configuration decides which exist.
use vstd::prelude::*;

verus! {

/// How many bloom index metadata entries are cached by default.
pub const DEFAULT_BLOOM_INDEX_META_CACHE_ITEMS: u64 = 3000;

/// How many bytes of bloom filter index columns are cached by default (1G).
pub const DEFAULT_BLOOM_INDEX_COLUMN_CACHE_SIZE: u64 = 1073741824;

/// A cache of decoded items, bounded by the number of items it holds.
#[derive(PartialEq, Eq, Structural, Clone, Copy, Debug)]
pub struct ItemCache {
    pub capacity: u64,
}

/// A cache of raw bytes, bounded by the number of bytes it holds.
#[derive(PartialEq, Eq, Structural, Clone, Copy, Debug)]
pub struct BytesCache {
    pub capacity: u64,
}

/// The settings of a query node that the caches depend on.
#[derive(Debug, Clone)]
pub struct QueryConfig {
    pub table_cache_enabled: bool,
    pub table_cache_snapshot_count: u64,
    pub table_cache_segment_count: u64,
    pub cluster_id: String,
    pub tenant_id: String,
}

/// Where all the caches reside, with the ids of the cluster and the tenant.
#[derive(Debug)]
pub struct CacheManager {
    table_snapshot_cache: Option<ItemCache>,
    segment_info_cache: Option<ItemCache>,
    bloom_index_cache: Option<BytesCache>,
    bloom_index_meta_cache: Option<ItemCache>,
    cluster_id: String,
    tenant_id: String,
}

/// An item cache of a capacity; none when the capacity is zero.
pub open spec fn item_cache_of(capacity: u64) -> Option<ItemCache> {
    if capacity > 0 {
        Some(ItemCache { capacity })
    } else {
        None
    }
}

/// A bytes cache of a capacity; none when the capacity is zero.
pub open spec fn bytes_cache_of(capacity: u64) -> Option<BytesCache> {
    if capacity > 0 {
        Some(BytesCache { capacity })
    } else {
        None
    }
}

impl CacheManager {
    /// The table snapshot cache, if any.
    pub closed spec fn snapshot_cache(&self) -> Option<ItemCache> {
        self.table_snapshot_cache
    }

    /// The segment info cache, if any.
    pub closed spec fn segment_cache(&self) -> Option<ItemCache> {
        self.segment_info_cache
    }

    /// The bloom index cache, if any.
    pub closed spec fn bloom_cache(&self) -> Option<BytesCache> {
        self.bloom_index_cache
    }

    /// The bloom index metadata cache, if any.
    pub closed spec fn bloom_meta_cache(&self) -> Option<ItemCache> {
        self.bloom_index_meta_cache
    }

    /// The id of the cluster.
    pub closed spec fn cluster(&self) -> Seq<char> {
        self.cluster_id@
    }

    /// The id of the tenant.
    pub closed spec fn tenant(&self) -> Seq<char> {
        self.tenant_id@
    }

    /// The caches that the configuration asks for: none when table caches
    /// are disabled; otherwise a snapshot and a segment cache of the
    /// configured counts and the bloom index caches of their defaults, each
    /// left out when its capacity is zero.
    pub fn init(config: &QueryConfig) -> (r: CacheManager)
        ensures
            r.cluster() == config.cluster_id@,
            r.tenant() == config.tenant_id@,
            !config.table_cache_enabled ==> {
                &&& r.snapshot_cache() is None
                &&& r.segment_cache() is None
                &&& r.bloom_cache() is None
                &&& r.bloom_meta_cache() is None
            },
            config.table_cache_enabled ==> {
                &&& r.snapshot_cache() == item_cache_of(config.table_cache_snapshot_count)
                &&& r.segment_cache() == item_cache_of(config.table_cache_segment_count)
                &&& r.bloom_cache() == bytes_cache_of(DEFAULT_BLOOM_INDEX_COLUMN_CACHE_SIZE)
                &&& r.bloom_meta_cache() == item_cache_of(DEFAULT_BLOOM_INDEX_META_CACHE_ITEMS)
            },
    {
        if !config.table_cache_enabled {
            CacheManager {
                table_snapshot_cache: None,
                segment_info_cache: None,
                bloom_index_cache: None,
                bloom_index_meta_cache: None,
                cluster_id: config.cluster_id.clone(),
                tenant_id: config.tenant_id.clone(),
            }
        } else {
            let table_snapshot_cache = Self::new_item_cache(config.table_cache_snapshot_count);
            let segment_info_cache = Self::new_item_cache(config.table_cache_segment_count);
            let bloom_index_cache = Self::new_bytes_cache(DEFAULT_BLOOM_INDEX_COLUMN_CACHE_SIZE);
            let bloom_index_meta_cache = Self::new_item_cache(DEFAULT_BLOOM_INDEX_META_CACHE_ITEMS);
            CacheManager {
                table_snapshot_cache,
                segment_info_cache,
                bloom_index_cache,
                bloom_index_meta_cache,
                cluster_id: config.cluster_id.clone(),
                tenant_id: config.tenant_id.clone(),
            }
        }
    }

    /// The table snapshot cache, if any.
    pub fn get_table_snapshot_cache(&self) -> (r: Option<ItemCache>)
        ensures
            r == self.snapshot_cache(),
    {
        self.table_snapshot_cache
    }

    /// The segment info cache, if any.
    pub fn get_table_segment_cache(&self) -> (r: Option<ItemCache>)
        ensures
            r == self.segment_cache(),
    {
        self.segment_info_cache
    }

    /// The bloom index cache, if any.
    pub fn get_bloom_index_cache(&self) -> (r: Option<BytesCache>)
        ensures
            r == self.bloom_cache(),
    {
        self.bloom_index_cache
    }

    /// The bloom index metadata cache, if any.
    pub fn get_bloom_index_meta_cache(&self) -> (r: Option<ItemCache>)
        ensures
            r == self.bloom_meta_cache(),
    {
        self.bloom_index_meta_cache
    }

    /// The id of the tenant.
    pub fn get_tenant_id(&self) -> (r: &str)
        ensures
            r@ == self.tenant(),
    {
        self.tenant_id.as_str()
    }

    /// The id of the cluster.
    pub fn get_cluster_id(&self) -> (r: &str)
        ensures
            r@ == self.cluster(),
    {
        self.cluster_id.as_str()
    }

    /// An item cache of a capacity, or none for a capacity of zero.
    fn new_item_cache(capacity: u64) -> (r: Option<ItemCache>)
        ensures
            r == item_cache_of(capacity),
    {
        if capacity > 0 {
            Some(ItemCache { capacity })
        } else {
            None
        }
    }

    /// A bytes cache of a capacity, or none for a capacity of zero.
    fn new_bytes_cache(capacity: u64) -> (r: Option<BytesCache>)
        ensures
            r == bytes_cache_of(capacity),
    {
        if capacity > 0 {
            Some(BytesCache { capacity })
        } else {
            None
        }
    }
}

} // verus!
