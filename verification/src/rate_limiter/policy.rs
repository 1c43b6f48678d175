use std::collections::HashMap;

use moka::future::Cache;
use vstd::prelude::*;
use vstd::string::StringExecFns;

verus! {

/// The rate-limiting algorithm that a policy selects.
#[derive(Debug, Clone, Copy, PartialEq, Eq, Structural)]
pub enum Algorithm {
    TokenBucket,
    Gcra,
}

impl Default for Algorithm {
    /// A policy that names no algorithm uses the token bucket.
    fn default() -> (a: Self)
        ensures
            a == Algorithm::TokenBucket,
    {
        Algorithm::TokenBucket
    }
}

/// A refill rate in tokens per second, held as the IEEE-754 bit pattern of
/// the binary64 number that the policy was written with. The library only
/// carries it; the arithmetic on it happens in Redis and in the caller.
#[derive(Debug, Clone, Copy, PartialEq, Eq, Structural)]
pub struct RefillRate {
    pub bits: u64,
}

/// The limit that applies to one policy of one tenant.
#[derive(Debug, Clone, Copy, PartialEq, Eq, Structural)]
pub struct RatePolicy {
    pub capacity: u32,
    pub refill_tokens_per_sec: RefillRate,
    pub algorithm: Algorithm,
}

/// All policies of a tenant, with the tenant's API key.
#[derive(Debug, Clone)]
pub struct TenantPolicy {
    pub tenant_id: String,
    pub api_key: Option<String>,
    pub policies: HashMap<String, RatePolicy>,
}

/// A policy lookup that found nothing.
#[derive(Debug, Clone, Copy, PartialEq, Eq, Structural)]
pub enum PolicyError {
    NotFound,
}

/// A concurrent cache of the `moka` crate whose entries expire.
#[verifier::external_type_specification]
#[verifier::external_body]
#[verifier::reject_recursive_types(K)]
#[verifier::reject_recursive_types(V)]
#[verifier::reject_recursive_types(S)]
pub struct ExMokaCache<K, V, S>(Cache<K, V, S>);

/// The longest time to live that `moka` accepts: 1000 years of 365 days.
pub const MAX_CACHE_TTL_SECS: u64 = 31_536_000_000;

/// The time to live, in seconds, that the policy cache was built with.
pub uninterp spec fn policy_cache_ttl_secs(cache: Cache<String, RatePolicy>) -> u64;

/// The time to live, in seconds, that the API-key cache was built with.
pub uninterp spec fn api_key_cache_ttl_secs(cache: Cache<String, Option<String>>) -> u64;

/// Calls `Cache::builder().time_to_live(..).build()` of `moka::future` for
/// the policy cache, with a time to live of `ttl_secs` seconds. The builder
/// panics beyond 1000 years, which `requires` rules out. Nothing is claimed
/// of the cache's contents, which expire with time.
#[verifier::external_body]
fn policy_cache_with_ttl(ttl_secs: u64) -> (cache: Cache<String, RatePolicy>)
    requires
        ttl_secs <= MAX_CACHE_TTL_SECS,
    ensures
        policy_cache_ttl_secs(cache) == ttl_secs,
{
    Cache::builder().time_to_live(std::time::Duration::from_secs(ttl_secs)).build()
}

/// Calls the same builder as `policy_cache_with_ttl`, for the API-key
/// cache, whose entries are a tenant's key or its absence.
#[verifier::external_body]
fn api_key_cache_with_ttl(ttl_secs: u64) -> (cache: Cache<String, Option<String>>)
    requires
        ttl_secs <= MAX_CACHE_TTL_SECS,
    ensures
        api_key_cache_ttl_secs(cache) == ttl_secs,
{
    Cache::builder().time_to_live(std::time::Duration::from_secs(ttl_secs)).build()
}

/// Where policies and API keys are read and written: Redis, behind two
/// caches whose entries live `ttl_secs` seconds.
pub struct PolicyStore {
    pub policy_cache: Cache<String, RatePolicy>,
    pub api_key_cache: Cache<String, Option<String>>,
    pub redis: ::redis::aio::ConnectionManager,
    pub ttl_secs: u64,
}

impl PolicyStore {
    /// A store over `redis` with empty caches. A time to live beyond what
    /// the cache accepts (1000 years) is left out: the cache would panic.
    pub fn new(redis: ::redis::aio::ConnectionManager, ttl_secs: u64) -> (store: Self)
        requires
            ttl_secs <= MAX_CACHE_TTL_SECS,
        ensures
            store.redis == redis,
            store.ttl_secs == ttl_secs,
            policy_cache_ttl_secs(store.policy_cache) == ttl_secs,
            api_key_cache_ttl_secs(store.api_key_cache) == ttl_secs,
    {
        let policy_cache = policy_cache_with_ttl(ttl_secs);
        let api_key_cache = api_key_cache_with_ttl(ttl_secs);
        PolicyStore { policy_cache, api_key_cache, redis, ttl_secs }
    }
}

/// What a cached read does next.
pub enum ReadThrough<V, E> {
    /// Read the value from Redis.
    Fetch,
    /// Put the fetched value in the cache, then return it.
    CacheThenReturn(V),
    /// Return this result; the cache is left as it is.
    Return(Result<V, E>),
}

/// A cached read begins with the cache: a hit is returned as it is, a miss
/// leads to Redis.
pub fn read_through_lookup<V, E>(cached: Option<V>) -> (next: ReadThrough<V, E>)
    ensures
        match cached {
            Some(v) => next == ReadThrough::<V, E>::Return(Ok(v)),
            None => next is Fetch,
        },
{
    match cached {
        Some(v) => ReadThrough::Return(Ok(v)),
        None => ReadThrough::Fetch,
    }
}

/// After Redis answers: a value, even an absent API key, is cached before
/// it is returned; a failure is returned and nothing is cached.
pub fn read_through_fetched<V, E>(fetched: Result<V, E>) -> (next: ReadThrough<V, E>)
    ensures
        match fetched {
            Ok(v) => next == ReadThrough::<V, E>::CacheThenReturn(v),
            Err(e) => next == ReadThrough::<V, E>::Return(Err(e)),
        },
{
    match fetched {
        Ok(v) => ReadThrough::CacheThenReturn(v),
        Err(e) => ReadThrough::Return(Err(e)),
    }
}

/// The hash field under which a tenant's API key is stored.
pub const API_KEY_FIELD: &'static str = "api_key";

/// `rl:tenant:{tenant_id}`: the Redis hash that holds a tenant's policies
/// and API key.
pub open spec fn tenant_hash_key_spec(tenant_id: Seq<char>) -> Seq<char> {
    "rl:tenant:"@ + tenant_id
}

/// `policy:{policy_key}`: the field of the tenant hash that holds one
/// policy as JSON.
pub open spec fn policy_field_spec(policy_key: Seq<char>) -> Seq<char> {
    "policy:"@ + policy_key
}

/// `{tenant_id}:{policy_key}`: the key of a policy in the policy cache.
pub open spec fn policy_cache_key_spec(tenant_id: Seq<char>, policy_key: Seq<char>) -> Seq<char> {
    tenant_id + ":"@ + policy_key
}

/// The key of a tenant's API key in the API-key cache: the tenant id.
pub open spec fn api_key_cache_key_spec(tenant_id: Seq<char>) -> Seq<char> {
    tenant_id
}

/// Builds the name of the Redis hash of a tenant.
pub fn tenant_hash_key(tenant_id: &str) -> (key: String)
    ensures
        key@ == tenant_hash_key_spec(tenant_id@),
{
    let mut key = String::from_str("rl:tenant:");
    key.append(tenant_id);
    key
}

/// Builds the hash field that stores a policy.
pub fn policy_field(policy_key: &str) -> (field: String)
    ensures
        field@ == policy_field_spec(policy_key@),
{
    let mut field = String::from_str("policy:");
    field.append(policy_key);
    field
}

/// Builds the key under which a policy is cached.
pub fn policy_cache_key(tenant_id: &str, policy_key: &str) -> (key: String)
    ensures
        key@ == policy_cache_key_spec(tenant_id@, policy_key@),
{
    let mut key = String::from_str(tenant_id);
    key.append(":");
    key.append(policy_key);
    key
}

/// Builds the key under which a tenant's API key is cached.
pub fn api_key_cache_key(tenant_id: &str) -> (key: String)
    ensures
        key@ == api_key_cache_key_spec(tenant_id@),
{
    String::from_str(tenant_id)
}


/// One write to a field of a Redis hash.
pub enum HashWrite {
    /// `HSET key field value`
    Put { key: String, field: String, value: String },
    /// `HDEL key field`
    Remove { key: String, field: String },
}

/// What a store write amounts to: the hash write, and the key of the cache
/// entry that the write makes stale.
pub struct StoreWrite<K> {
    pub write: HashWrite,
    pub invalidate: K,
}

/// The write that stores `policy_json` as policy `policy_key` of tenant
/// `tenant_id`, and the cached entry it invalidates.
pub fn policy_write(tenant_id: &str, policy_key: &str, policy_json: String) -> (w: StoreWrite<
    String,
>)
    ensures
        w.write matches HashWrite::Put { key, field, value } && key@ == tenant_hash_key_spec(
            tenant_id@,
        ) && field@ == policy_field_spec(policy_key@) && value@ == policy_json@,
        w.invalidate@ == policy_cache_key_spec(tenant_id@, policy_key@),
{
    let key = tenant_hash_key(tenant_id);
    let field = policy_field(policy_key);
    let invalidate = policy_cache_key(tenant_id, policy_key);
    StoreWrite { write: HashWrite::Put { key, field, value: policy_json }, invalidate }
}

/// The write that sets a tenant's API key (`Some`) or removes it (`None`),
/// and the API-key cache entry it makes stale.
pub fn api_key_write(tenant_id: &str, api_key: Option<String>) -> (w: StoreWrite<String>)
    ensures
        match api_key {
            Some(k) => w.write matches HashWrite::Put { key, field, value } && key@
                == tenant_hash_key_spec(tenant_id@) && field@ == API_KEY_FIELD@ && value@ == k@,
            None => w.write matches HashWrite::Remove { key, field } && key@
                == tenant_hash_key_spec(tenant_id@) && field@ == API_KEY_FIELD@,
        },
        w.invalidate@ == api_key_cache_key_spec(tenant_id@),
{
    let key = tenant_hash_key(tenant_id);
    let field = String::from_str(API_KEY_FIELD);
    let invalidate = api_key_cache_key(tenant_id);
    let write = match api_key {
        Some(value) => HashWrite::Put { key, field, value },
        None => HashWrite::Remove { key, field },
    };
    StoreWrite { write, invalidate }
}

/// What a policy read from the tenant hash comes to: the stored JSON, or
/// `NotFound` when the field is absent.
pub fn stored_policy_json(value: Option<String>) -> (r: Result<String, PolicyError>)
    ensures
        match value {
            Some(json) => r == Ok::<String, PolicyError>(json),
            None => r == Err::<String, PolicyError>(PolicyError::NotFound),
        },
{
    match value {
        Some(json) => Ok(json),
        None => Err(PolicyError::NotFound),
    }
}


/// A name with no `:` in it, so that it can stand before a `:` separator
/// without ambiguity.
pub open spec fn colon_free(s: Seq<char>) -> bool {
    forall|i: int| 0 <= i < s.len() ==> s[i] != ':'
}

/// Splitting at the first `:`: when the parts before the separator are
/// colon-free, `a1:b1 == a2:b2` only if both parts agree.
pub proof fn lemma_colon_split_unique(a1: Seq<char>, b1: Seq<char>, a2: Seq<char>, b2: Seq<char>)
    requires
        colon_free(a1),
        colon_free(a2),
        a1 + ":"@ + b1 == a2 + ":"@ + b2,
    ensures
        a1 == a2,
        b1 == b2,
{
    reveal_strlit(":");
    let s = a1 + ":"@ + b1;
    let t = a2 + ":"@ + b2;
    if a1.len() < a2.len() {
        assert(s[a1.len() as int] == ':');
        assert(t[a1.len() as int] == a2[a1.len() as int]);
    } else if a2.len() < a1.len() {
        assert(t[a2.len() as int] == ':');
        assert(s[a2.len() as int] == a1[a2.len() as int]);
    }
    assert(a1 =~= s.subrange(0, a1.len() as int));
    assert(a2 =~= t.subrange(0, a2.len() as int));
    assert(b1 =~= s.subrange((a1.len() + 1) as int, s.len() as int));
    assert(b2 =~= t.subrange((a2.len() + 1) as int, t.len() as int));
}

/// Each policy of each tenant has its own cache entry, as long as tenant
/// ids hold no `:`; each tenant has its own API-key cache entry.
pub proof fn law_cache_keys_distinct(
    tenant1: Seq<char>,
    policy1: Seq<char>,
    tenant2: Seq<char>,
    policy2: Seq<char>,
)
    ensures
        colon_free(tenant1) && colon_free(tenant2) && (tenant1 != tenant2 || policy1 != policy2)
            ==> policy_cache_key_spec(tenant1, policy1) != policy_cache_key_spec(tenant2, policy2),
        tenant1 != tenant2 ==> api_key_cache_key_spec(tenant1) != api_key_cache_key_spec(tenant2),
{
    if colon_free(tenant1) && colon_free(tenant2) && policy_cache_key_spec(tenant1, policy1)
        == policy_cache_key_spec(tenant2, policy2) {
        lemma_colon_split_unique(tenant1, policy1, tenant2, policy2);
    }
}

/// The tenant layout in Redis and in the caches: hash `rl:tenant:{tenant}`,
/// field `policy:{policy}` for each policy and `api_key` for the key; cache
/// entries `{tenant}:{policy}` for policies and `{tenant}` for keys.
pub proof fn law_tenant_layout(tenant_id: Seq<char>, policy_key: Seq<char>)
    ensures
        tenant_hash_key_spec(tenant_id) == "rl:tenant:"@ + tenant_id,
        policy_field_spec(policy_key) == "policy:"@ + policy_key,
        API_KEY_FIELD@ == "api_key"@,
        policy_cache_key_spec(tenant_id, policy_key) == tenant_id + ":"@ + policy_key,
        api_key_cache_key_spec(tenant_id) == tenant_id,
{
}

/// Each tenant has its own Redis hash, and each policy its own field in it.
pub proof fn law_tenant_storage_distinct(
    tenant1: Seq<char>,
    tenant2: Seq<char>,
    policy1: Seq<char>,
    policy2: Seq<char>,
)
    ensures
        tenant1 != tenant2 ==> tenant_hash_key_spec(tenant1) != tenant_hash_key_spec(tenant2),
        policy1 != policy2 ==> policy_field_spec(policy1) != policy_field_spec(policy2),
{
    let p = "rl:tenant:"@;
    if tenant1 != tenant2 && tenant_hash_key_spec(tenant1) == tenant_hash_key_spec(tenant2) {
        assert(tenant1 =~= tenant_hash_key_spec(tenant1).subrange(p.len() as int, tenant_hash_key_spec(tenant1).len() as int));
        assert(tenant2 =~= tenant_hash_key_spec(tenant2).subrange(p.len() as int, tenant_hash_key_spec(tenant2).len() as int));
    }
    let q = "policy:"@;
    if policy1 != policy2 && policy_field_spec(policy1) == policy_field_spec(policy2) {
        assert(policy1 =~= policy_field_spec(policy1).subrange(q.len() as int, policy_field_spec(policy1).len() as int));
        assert(policy2 =~= policy_field_spec(policy2).subrange(q.len() as int, policy_field_spec(policy2).len() as int));
    }
}

} // verus!
