use vstd::prelude::*;

use super::policy::{colon_free, lemma_colon_split_unique, Algorithm, RefillRate};
use super::token_bucket::token_bucket_script;
use super::gcra::GCRA_LUA;
use super::lua_scripts::TOKEN_BUCKET_LUA;
use super::CheckInput;
use vstd::string::StringExecFns;

verus! {

/// An error as the `anyhow` crate carries it; the library passes it on
/// without looking inside.
#[verifier::external_type_specification]
#[verifier::external_body]
pub struct ExAnyhowError(anyhow::Error);

/// A Lua script of the `redis` crate, with its code and SHA1 digest.
#[verifier::external_type_specification]
#[verifier::external_body]
pub struct ExRedisScript(::redis::Script);

/// An error reported by the `redis` crate.
#[verifier::external_type_specification]
#[verifier::external_body]
pub struct ExRedisError(::redis::RedisError);

/// A self-reconnecting Redis connection of the `redis` crate.
#[verifier::external_type_specification]
#[verifier::external_body]
pub struct ExConnectionManager(::redis::aio::ConnectionManager);

/// What `redis::Script::new` makes of a script's code: the code with its
/// SHA1 digest, a function of the code alone.
pub uninterp spec fn lua_script(code: Seq<char>) -> ::redis::Script;

/// Calls `redis::Script::new`, which keeps the code and computes its SHA1
/// digest.
#[verifier::external_body]
pub(crate) fn new_script(code: &str) -> (s: ::redis::Script)
    ensures
        s == lua_script(code@),
{
    ::redis::Script::new(code)
}

/// The name of a Redis error's kind, spelled as the variant of
/// `redis::ErrorKind` is named (`IoError`, `TryAgain`, ...).
pub uninterp spec fn redis_error_kind_name(err: ::redis::RedisError) -> Seq<char>;

/// Calls `redis::RedisError::kind` and writes the kind with its derived
/// `Debug`, which prints the variant's name.
#[verifier::external_body]
fn error_kind_name(err: &::redis::RedisError) -> (name: String)
    ensures
        name@ == redis_error_kind_name(*err),
{
    format!("{:?}", err.kind())
}

/// The transient kinds: I/O failures, a server still loading its dump, an
/// explicit "try again", and error replies.
pub open spec fn transient_kind(name: Seq<char>) -> bool {
    ||| name == "IoError"@
    ||| name == "BusyLoadingError"@
    ||| name == "TryAgain"@
    ||| name == "ResponseError"@
}

/// Whether an error kind, by name, is transient.
pub fn is_transient_kind(name: &String) -> (r: bool)
    ensures
        r == transient_kind(name@),
{
    let io = String::from_str("IoError");
    let busy = String::from_str("BusyLoadingError");
    let again = String::from_str("TryAgain");
    let response = String::from_str("ResponseError");
    *name == io || *name == busy || *name == again || *name == response
}

/// Whether a Redis error is transient, so that the command may be tried
/// again.
pub fn is_retryable(err: &::redis::RedisError) -> (r: bool)
    ensures
        r == transient_kind(redis_error_kind_name(*err)),
{
    let name = error_kind_name(err);
    is_transient_kind(&name)
}

/// `rl:bucket:` for the token bucket, `rl:gcra:` for GCRA.
pub open spec fn bucket_prefix_spec(algorithm: Algorithm) -> Seq<char> {
    match algorithm {
        Algorithm::TokenBucket => "rl:bucket:"@,
        Algorithm::Gcra => "rl:gcra:"@,
    }
}

/// `{prefix}{tenant_id}:{policy_key}:{identifier}`: the Redis key that
/// holds the state of one caller under one policy.
pub open spec fn bucket_key_spec(
    algorithm: Algorithm,
    tenant_id: Seq<char>,
    policy_key: Seq<char>,
    identifier: Seq<char>,
) -> Seq<char> {
    bucket_prefix_spec(algorithm) + tenant_id + ":"@ + policy_key + ":"@ + identifier
}

/// The bucket key, regrouped as prefix and the part that names the caller.
proof fn lemma_bucket_key_regroup(
    algorithm: Algorithm,
    tenant_id: Seq<char>,
    policy_key: Seq<char>,
    identifier: Seq<char>,
)
    ensures
        bucket_key_spec(algorithm, tenant_id, policy_key, identifier) == bucket_prefix_spec(
            algorithm,
        ) + (tenant_id + ":"@ + (policy_key + ":"@ + identifier)),
{
    assert(bucket_key_spec(algorithm, tenant_id, policy_key, identifier) =~= bucket_prefix_spec(
        algorithm,
    ) + (tenant_id + ":"@ + (policy_key + ":"@ + identifier)));
}

/// Each caller under each policy of each tenant has a bucket of its own,
/// and the two algorithms never share one, as long as tenant ids and
/// policy keys hold no `:` (identifiers may).
pub proof fn law_bucket_keys_distinct(
    algorithm1: Algorithm,
    tenant1: Seq<char>,
    policy1: Seq<char>,
    identifier1: Seq<char>,
    algorithm2: Algorithm,
    tenant2: Seq<char>,
    policy2: Seq<char>,
    identifier2: Seq<char>,
)
    requires
        colon_free(tenant1),
        colon_free(tenant2),
        colon_free(policy1),
        colon_free(policy2),
        algorithm1 != algorithm2 || tenant1 != tenant2 || policy1 != policy2 || identifier1
            != identifier2,
    ensures
        bucket_key_spec(algorithm1, tenant1, policy1, identifier1) != bucket_key_spec(
            algorithm2,
            tenant2,
            policy2,
            identifier2,
        ),
{
    reveal_strlit("rl:bucket:");
    reveal_strlit("rl:gcra:");
    let k1 = bucket_key_spec(algorithm1, tenant1, policy1, identifier1);
    let k2 = bucket_key_spec(algorithm2, tenant2, policy2, identifier2);
    lemma_bucket_key_regroup(algorithm1, tenant1, policy1, identifier1);
    lemma_bucket_key_regroup(algorithm2, tenant2, policy2, identifier2);
    if k1 == k2 {
        let p1 = bucket_prefix_spec(algorithm1);
        let p2 = bucket_prefix_spec(algorithm2);
        if algorithm1 != algorithm2 {
            assert(k1[3] == p1[3]);
            assert(k2[3] == p2[3]);
        } else {
            let r1 = tenant1 + ":"@ + (policy1 + ":"@ + identifier1);
            let r2 = tenant2 + ":"@ + (policy2 + ":"@ + identifier2);
            assert(r1 =~= k1.subrange(p1.len() as int, k1.len() as int));
            assert(r2 =~= k2.subrange(p2.len() as int, k2.len() as int));
            lemma_colon_split_unique(
                tenant1,
                policy1 + ":"@ + identifier1,
                tenant2,
                policy2 + ":"@ + identifier2,
            );
            lemma_colon_split_unique(policy1, identifier1, policy2, identifier2);
        }
    }
}

/// A bucket key begins with the algorithm's prefix (`rl:bucket:` for the
/// token bucket, `rl:gcra:` for GCRA), then the tenant id, and ends with
/// the caller's identifier.
pub proof fn law_bucket_key_layout(
    algorithm: Algorithm,
    tenant_id: Seq<char>,
    policy_key: Seq<char>,
    identifier: Seq<char>,
)
    ensures
        ({
            let key = bucket_key_spec(algorithm, tenant_id, policy_key, identifier);
            let prefix = if algorithm is TokenBucket {
                "rl:bucket:"@
            } else {
                "rl:gcra:"@
            };
            &&& key.len() >= prefix.len() + tenant_id.len() + identifier.len()
            &&& key.subrange(0, prefix.len() as int) == prefix
            &&& key.subrange(prefix.len() as int, (prefix.len() + tenant_id.len()) as int) == tenant_id
            &&& key.subrange(key.len() - identifier.len(), key.len() as int) == identifier
        }),
{
    let key = bucket_key_spec(algorithm, tenant_id, policy_key, identifier);
    let prefix = bucket_prefix_spec(algorithm);
    lemma_bucket_key_regroup(algorithm, tenant_id, policy_key, identifier);
    assert(key.subrange(0, prefix.len() as int) =~= prefix);
    assert(key.subrange(prefix.len() as int, (prefix.len() + tenant_id.len()) as int) =~= tenant_id);
    assert(key.subrange(key.len() - identifier.len(), key.len() as int) =~= identifier);
}

/// Builds the Redis key of the bucket that a check reads and updates.
pub fn bucket_key(input: &CheckInput) -> (key: String)
    ensures
        key@ == bucket_key_spec(
            input.policy.algorithm,
            input.tenant_id@,
            input.policy_key@,
            input.identifier@,
        ),
{
    let mut key = match input.policy.algorithm {
        Algorithm::TokenBucket => String::from_str("rl:bucket:"),
        Algorithm::Gcra => String::from_str("rl:gcra:"),
    };
    key.append(input.tenant_id);
    key.append(":");
    key.append(input.policy_key);
    key.append(":");
    key.append(input.identifier);
    key
}

/// The arguments of one run of a limiter script: its single key, then, in
/// this order, capacity, refill rate, time (ms), cost and expiry (s).
pub struct ScriptArgs {
    pub key: String,
    pub capacity: u32,
    pub refill_tokens_per_sec: RefillRate,
    pub now_ms: i64,
    pub cost: u32,
    pub ttl_secs: i64,
}

/// Whether `args` are those of a run of the limiter for `input` with an
/// expiry of `ttl_secs` seconds.
pub open spec fn script_args_for(input: CheckInput, ttl_secs: i64, args: ScriptArgs) -> bool {
    &&& args.key@ == bucket_key_spec(
        input.policy.algorithm,
        input.tenant_id@,
        input.policy_key@,
        input.identifier@,
    )
    &&& args.capacity == input.policy.capacity
    &&& args.refill_tokens_per_sec == input.policy.refill_tokens_per_sec
    &&& args.now_ms == input.now_ms
    &&& args.cost == input.cost
    &&& args.ttl_secs == ttl_secs
}

/// Builds the key and arguments of the script run for a check.
pub fn script_args(input: &CheckInput, ttl_secs: i64) -> (args: ScriptArgs)
    ensures
        script_args_for(*input, ttl_secs, args),
{
    ScriptArgs {
        key: bucket_key(input),
        capacity: input.policy.capacity,
        refill_tokens_per_sec: input.policy.refill_tokens_per_sec,
        now_ms: input.now_ms,
        cost: input.cost,
        ttl_secs,
    }
}

/// The script that runs `algorithm`: the token-bucket script or the GCRA
/// script.
pub open spec fn algorithm_script(algorithm: Algorithm) -> ::redis::Script {
    match algorithm {
        Algorithm::TokenBucket => lua_script(TOKEN_BUCKET_LUA@),
        Algorithm::Gcra => lua_script(GCRA_LUA@),
    }
}

/// What the caller feeds back after one attempt of a limiter command.
#[derive(Debug, Clone, Copy, PartialEq, Eq, Structural)]
pub enum AttemptOutcome {
    Succeeded,
    /// The command failed; `retryable_redis_error` holds when the failure
    /// is a Redis error that `is_retryable` accepts.
    Failed { retryable_redis_error: bool },
}

/// What to do after an attempt.
#[derive(Debug, Clone, Copy, PartialEq, Eq, Structural)]
pub enum RetryAction {
    /// Hand the attempt's result (value or error) to the caller.
    Return,
    /// Sleep `backoff_ms` milliseconds, then make the next attempt.
    Retry { backoff_ms: u64 },
}

/// The retry discipline of a limiter check: up to `max_retries` further
/// attempts after the first, for transient Redis errors only, with a
/// backoff that grows linearly with the attempt number.
#[derive(Debug, Clone, Copy, PartialEq, Eq, Structural)]
pub struct RetryLoop {
    pub max_retries: u32,
    pub backoff_ms: u64,
    /// Number of the attempt being made, from 0.
    pub attempt: u32,
}

impl RetryLoop {
    pub open spec fn wf(self) -> bool {
        self.attempt <= self.max_retries
    }

    /// Whether the outcome of the current attempt leads to another one.
    pub open spec fn retries_after(self, outcome: AttemptOutcome) -> bool {
        &&& outcome matches AttemptOutcome::Failed { retryable_redis_error: true }
        &&& self.attempt < self.max_retries
    }

    /// The pause before the next attempt: `backoff_ms * (attempt + 1)`.
    pub open spec fn backoff_spec(self) -> int {
        self.backoff_ms * (self.attempt + 1)
    }

    /// A loop before its first attempt.
    pub fn new(max_retries: u32, backoff_ms: u64) -> (l: Self)
        ensures
            l == (RetryLoop { max_retries, backoff_ms, attempt: 0 }),
            l.wf(),
    {
        RetryLoop { max_retries, backoff_ms, attempt: 0 }
    }

    /// Decides what follows an attempt.
    pub fn after_attempt(&mut self, outcome: AttemptOutcome) -> (action: RetryAction)
        requires
            old(self).wf(),
            old(self).retries_after(outcome) ==> old(self).backoff_spec() <= u64::MAX,
        ensures
            final(self).wf(),
            if old(self).retries_after(outcome) {
                &&& action == (RetryAction::Retry { backoff_ms: old(self).backoff_spec() as u64 })
                &&& *final(self) == (RetryLoop { attempt: (old(self).attempt + 1) as u32, ..*old(self) })
            } else {
                &&& action == RetryAction::Return
                &&& *final(self) == *old(self)
            },
            outcome == (AttemptOutcome::Failed { retryable_redis_error: true }) && old(self).attempt
                < old(self).max_retries ==> action == (RetryAction::Retry {
                backoff_ms: (old(self).backoff_ms * (old(self).attempt + 1)) as u64,
            }),
            outcome != (AttemptOutcome::Failed { retryable_redis_error: true }) || old(self).attempt
                >= old(self).max_retries ==> action == RetryAction::Return,
    {
        match outcome {
            AttemptOutcome::Failed { retryable_redis_error: true } => {
                if self.attempt < self.max_retries {
                    let backoff_ms = self.backoff_ms * ((self.attempt + 1) as u64);
                    self.attempt = self.attempt + 1;
                    RetryAction::Retry { backoff_ms }
                } else {
                    RetryAction::Return
                }
            },
            _ => RetryAction::Return,
        }
    }
}

/// How many attempts a loop makes when they turn out as `outcomes`, in
/// order: it stops at the first outcome that is returned.
pub open spec fn attempts_made(l: RetryLoop, outcomes: Seq<AttemptOutcome>) -> nat
    decreases outcomes.len(),
{
    if outcomes.len() == 0 {
        0
    } else if l.retries_after(outcomes[0]) {
        1 + attempts_made(
            RetryLoop { attempt: (l.attempt + 1) as u32, ..l },
            outcomes.drop_first(),
        )
    } else {
        1
    }
}

/// A check makes at most `max_retries + 1` attempts in all, whatever the
/// attempts return.
pub proof fn law_attempts_bounded(l: RetryLoop, outcomes: Seq<AttemptOutcome>)
    requires
        l.wf(),
    ensures
        attempts_made(l, outcomes) <= l.max_retries - l.attempt + 1,
    decreases outcomes.len(),
{
    if outcomes.len() > 0 && l.retries_after(outcomes[0]) {
        law_attempts_bounded(RetryLoop { attempt: (l.attempt + 1) as u32, ..l }, outcomes.drop_first());
    }
}

/// A run of transient failures only is retried as long as attempts remain:
/// it makes exactly `max_retries + 1` attempts in all, counting from the
/// first, provided the run is long enough.
pub proof fn law_transient_failures_use_every_attempt(l: RetryLoop, outcomes: Seq<AttemptOutcome>)
    requires
        l.wf(),
        outcomes.len() >= l.max_retries - l.attempt + 1,
        forall|i: int|
            0 <= i < outcomes.len() ==> outcomes[i] == (AttemptOutcome::Failed {
                retryable_redis_error: true,
            }),
    ensures
        attempts_made(l, outcomes) == l.max_retries - l.attempt + 1,
    decreases outcomes.len(),
{
    let transient = AttemptOutcome::Failed { retryable_redis_error: true };
    assert(outcomes[0] == transient);
    if l.attempt < l.max_retries {
        let rest = outcomes.drop_first();
        assert forall|i: int| 0 <= i < rest.len() implies rest[i] == transient by {
            assert(rest[i] == outcomes[i + 1]);
        }
        law_transient_failures_use_every_attempt(
            RetryLoop { attempt: (l.attempt + 1) as u32, ..l },
            rest,
        );
    }
}

/// A transient Redis failure is retried whenever attempts remain, after a
/// pause of `backoff_ms` times the number of attempts made so far.
pub proof fn law_transient_failure_retried_while_attempts_remain(l: RetryLoop)
    requires
        l.wf(),
        l.attempt < l.max_retries,
    ensures
        l.retries_after(AttemptOutcome::Failed { retryable_redis_error: true }),
        l.backoff_spec() == l.backoff_ms * (l.attempt + 1),
{
}

/// Only a transient Redis failure is retried: a success or any other
/// failure is handed back at once, and so is every outcome of the last
/// permitted attempt. The pause before retry number `k` (from 1) lasts
/// `k * backoff_ms`.
pub proof fn law_retry_discipline(l: RetryLoop, outcome: AttemptOutcome)
    requires
        l.wf(),
    ensures
        outcome is Succeeded ==> !l.retries_after(outcome),
        outcome == (AttemptOutcome::Failed { retryable_redis_error: false }) ==> !l.retries_after(
            outcome,
        ),
        l.attempt == l.max_retries ==> !l.retries_after(outcome),
        l.retries_after(outcome) ==> l.backoff_spec() == (l.attempt + 1) * l.backoff_ms,
{
    assert((l.attempt + 1) * l.backoff_ms == l.backoff_ms * (l.attempt + 1)) by (nonlinear_arith);
}

/// The Redis-backed limiter: the connection, both prepared scripts and the
/// retry settings.
pub struct RedisRateLimiter {
    pub redis: ::redis::aio::ConnectionManager,
    token_script: ::redis::Script,
    gcra_script: ::redis::Script,
    max_retries: u32,
    backoff_ms: u64,
}

impl RedisRateLimiter {
    pub closed spec fn max_retries_spec(&self) -> u32 {
        self.max_retries
    }

    pub closed spec fn backoff_ms_spec(&self) -> u64 {
        self.backoff_ms
    }

    pub closed spec fn connection_spec(&self) -> ::redis::aio::ConnectionManager {
        self.redis
    }

    /// A limiter over `redis`, with both scripts prepared. It never fails.
    pub fn new(redis: ::redis::aio::ConnectionManager, max_retries: u32, backoff_ms: u64) -> (r:
        Result<Self, anyhow::Error>)
        ensures
            r matches Ok(l) && l.max_retries_spec() == max_retries && l.backoff_ms_spec()
                == backoff_ms && l.connection_spec() == redis && l.scripts_prepared(),
    {
        let token_script = token_bucket_script();
        let gcra_script = new_script(GCRA_LUA);
        Ok(RedisRateLimiter { redis, token_script, gcra_script, max_retries, backoff_ms })
    }

    /// The retry loop that one check runs through.
    pub fn retry_loop(&self) -> (l: RetryLoop)
        ensures
            l == (RetryLoop {
                max_retries: self.max_retries_spec(),
                backoff_ms: self.backoff_ms_spec(),
                attempt: 0,
            }),
    {
        RetryLoop::new(self.max_retries, self.backoff_ms)
    }

    /// The script that implements `algorithm`.
    pub fn script(&self, algorithm: Algorithm) -> (s: &::redis::Script)
        ensures
            *s == (if algorithm is TokenBucket {
                self.token_script_spec()
            } else {
                self.gcra_script_spec()
            }),
    {
        match algorithm {
            Algorithm::TokenBucket => &self.token_script,
            Algorithm::Gcra => &self.gcra_script,
        }
    }

    /// Both scripts are the ones their algorithms name.
    pub open spec fn scripts_prepared(&self) -> bool {
        &&& self.token_script_spec() == algorithm_script(Algorithm::TokenBucket)
        &&& self.gcra_script_spec() == algorithm_script(Algorithm::Gcra)
    }

    /// The script and the arguments of one attempt of a check: the script
    /// of the policy's algorithm, on the caller's bucket key.
    pub fn invocation(&self, input: &CheckInput, ttl_secs: i64) -> (r: (&::redis::Script, ScriptArgs))
        ensures
            self.scripts_prepared() ==> *r.0 == algorithm_script(input.policy.algorithm),
            *r.0 == (if input.policy.algorithm is TokenBucket {
                self.token_script_spec()
            } else {
                self.gcra_script_spec()
            }),
            script_args_for(*input, ttl_secs, r.1),
    {
        (self.script(input.policy.algorithm), script_args(input, ttl_secs))
    }

    pub closed spec fn token_script_spec(&self) -> ::redis::Script {
        self.token_script
    }

    pub closed spec fn gcra_script_spec(&self) -> ::redis::Script {
        self.gcra_script
    }
}

} // verus!
