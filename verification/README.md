# ratekeeper

A multi-tenant rate-limiting service backed by Redis, with its decision logic
written and proved in Verus.

- `src/` is the verified library:
  - `rate_limiter/policy.rs`: policies, the Redis layout of tenants
    (`rl:tenant:{tenant}`, `policy:{key}`, `api_key`), the policy cache keys,
    the writes that storing a policy or an API key amounts to, and the
    read-through decisions of the policy store.
  - `rate_limiter/redis.rs`: bucket keys (`rl:bucket:…`, `rl:gcra:…`), the
    choice of script, the retry discipline for transient Redis errors.
  - `rate_limiter/token_bucket.rs`, `gcra.rs`, `lua_scripts.rs`: the Lua
    scripts that Redis runs, and the bucket expiry.
  - `api/`: the request flows of `/v1/check` and of the policy endpoints as
    state machines (what to load next, when to refuse), and the mapping of
    errors to replies.
  - `config.rs`, `metrics.rs`: settings with their defaults, and the
    allowed/denied counters.
- `app/` is the server around it: environment, HTTP (axum), Redis commands,
  the moka caches' traffic, JSON, and the floating-point arithmetic on refill
  rates.
- `tests/` runs the library on concrete values.
