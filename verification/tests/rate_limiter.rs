use ratekeeper::rate_limiter::policy::{
    api_key_cache_key, api_key_write, policy_cache_key, policy_field, policy_write, read_through_fetched,
    read_through_lookup, stored_policy_json, ReadThrough,
    tenant_hash_key, Algorithm, HashWrite, PolicyError, RatePolicy, RefillRate, API_KEY_FIELD,
};
use ratekeeper::rate_limiter::redis::{
    bucket_key, is_retryable, is_transient_kind, script_args, AttemptOutcome, RetryAction, RetryLoop,
};
use ratekeeper::rate_limiter::token_bucket::{token_bucket_script, ttl_for_window};
use ratekeeper::rate_limiter::{CheckInput, CheckOutput};

fn policy(algorithm: Algorithm) -> RatePolicy {
    RatePolicy { capacity: 5, refill_tokens_per_sec: RefillRate { bits: 1.0f64.to_bits() }, algorithm }
}

#[test]
fn algorithm_defaults_to_token_bucket() {
    assert_eq!(Algorithm::default(), Algorithm::TokenBucket);
}

#[test]
fn tenant_layout_keys() {
    assert_eq!(tenant_hash_key("t123"), "rl:tenant:t123");
    assert_eq!(policy_field("default"), "policy:default");
    assert_eq!(policy_cache_key("t123", "default"), "t123:default");
    assert_eq!(api_key_cache_key("t123"), "t123");
    assert_eq!(API_KEY_FIELD, "api_key");
}

#[test]
fn policy_cache_keys_differ_for_distinct_pairs() {
    assert_ne!(policy_cache_key("t1", "p"), policy_cache_key("t2", "p"));
    assert_ne!(policy_cache_key("t", "p1"), policy_cache_key("t", "p2"));
}

#[test]
fn policy_write_sets_field_and_invalidates_cache_entry() {
    let w = policy_write("t123", "default", "{\"capacity\":5}".to_string());
    match w.write {
        HashWrite::Put { key, field, value } => {
            assert_eq!(key, "rl:tenant:t123");
            assert_eq!(field, "policy:default");
            assert_eq!(value, "{\"capacity\":5}");
        }
        HashWrite::Remove { .. } => panic!("expected a put"),
    }
    assert_eq!(w.invalidate, policy_cache_key("t123", "default"));
}

#[test]
fn api_key_write_sets_or_removes() {
    let w = api_key_write("t1", Some("k".to_string()));
    assert_eq!(w.invalidate, "t1");
    match w.write {
        HashWrite::Put { key, field, value } => {
            assert_eq!(key, "rl:tenant:t1");
            assert_eq!(field, "api_key");
            assert_eq!(value, "k");
        }
        HashWrite::Remove { .. } => panic!("expected a put"),
    }
    let w = api_key_write("t1", None);
    assert_eq!(w.invalidate, "t1");
    match w.write {
        HashWrite::Remove { key, field } => {
            assert_eq!(key, "rl:tenant:t1");
            assert_eq!(field, "api_key");
        }
        HashWrite::Put { .. } => panic!("expected a removal"),
    }
}

#[test]
fn stored_policy_json_missing_is_not_found() {
    assert_eq!(stored_policy_json(Some("{}".to_string())), Ok("{}".to_string()));
    assert_eq!(stored_policy_json(None), Err(PolicyError::NotFound));
}

#[test]
fn cache_keys_of_colon_free_tenants_differ_only_then() {
    assert_ne!(policy_cache_key("a", "b:c"), policy_cache_key("b", "b:c"));
    assert_eq!(policy_cache_key("a", "b:c"), policy_cache_key("a:b", "c"));
}

#[test]
fn bucket_keys_follow_the_layout() {
    let tb = policy(Algorithm::TokenBucket);
    let input = CheckInput {
        tenant_id: "t123",
        identifier: "user:42",
        policy_key: "default",
        policy: &tb,
        cost: 1,
        now_ms: 0,
    };
    assert_eq!(bucket_key(&input), "rl:bucket:t123:default:user:42");
    let gcra = policy(Algorithm::Gcra);
    let input = CheckInput { policy: &gcra, ..input };
    assert_eq!(bucket_key(&input), "rl:gcra:t123:default:user:42");
}

#[test]
fn ttl_is_at_least_a_minute() {
    assert_eq!(ttl_for_window(0), 60);
    assert_eq!(ttl_for_window(59), 60);
    assert_eq!(ttl_for_window(60), 60);
    assert_eq!(ttl_for_window(600), 600);
    assert_eq!(ttl_for_window(i64::MAX as u64), i64::MAX);
    assert_eq!(ttl_for_window(i64::MAX as u64 + 1), i64::MAX);
    assert_eq!(ttl_for_window(u64::MAX), i64::MAX);
}

#[test]
fn script_reply_is_read_as_check_output() {
    assert_eq!(
        CheckOutput::from_script_reply(1, 4, 0),
        CheckOutput { allowed: true, remaining: 4, retry_after_ms: 0 }
    );
    assert_eq!(
        CheckOutput::from_script_reply(0, 0, 1000),
        CheckOutput { allowed: false, remaining: 0, retry_after_ms: 1000 }
    );
    assert_eq!(CheckOutput::from_script_reply(2, -1, -5).allowed, false);
    assert_eq!(CheckOutput::from_script_reply(2, -1, -5).remaining, u32::MAX);
    assert_eq!(CheckOutput::from_script_reply(2, -1, -5).retry_after_ms, -5);
}

#[test]
fn retry_kinds() {
    for name in ["IoError", "BusyLoadingError", "TryAgain", "ResponseError"] {
        assert!(is_transient_kind(&name.to_string()));
    }
    for name in ["AuthenticationFailed", "TypeError", "ClusterDown", "ioerror", ""] {
        assert!(!is_transient_kind(&name.to_string()));
    }
}

#[test]
fn redis_errors_classified() {
    let io = redis::RedisError::from((redis::ErrorKind::IoError, "broken pipe"));
    assert!(is_retryable(&io));
    let busy = redis::RedisError::from((redis::ErrorKind::BusyLoadingError, "loading"));
    assert!(is_retryable(&busy));
    let again = redis::RedisError::from((redis::ErrorKind::TryAgain, "again"));
    assert!(is_retryable(&again));
    let resp = redis::RedisError::from((redis::ErrorKind::ResponseError, "err"));
    assert!(is_retryable(&resp));
    let auth = redis::RedisError::from((redis::ErrorKind::AuthenticationFailed, "auth"));
    assert!(!is_retryable(&auth));
    let ty = redis::RedisError::from((redis::ErrorKind::TypeError, "type"));
    assert!(!is_retryable(&ty));
}

#[test]
fn retry_loop_backs_off_linearly_then_returns() {
    let mut l = RetryLoop::new(3, 50);
    let transient = AttemptOutcome::Failed { retryable_redis_error: true };
    assert_eq!(l.after_attempt(transient), RetryAction::Retry { backoff_ms: 50 });
    assert_eq!(l.after_attempt(transient), RetryAction::Retry { backoff_ms: 100 });
    assert_eq!(l.after_attempt(transient), RetryAction::Retry { backoff_ms: 150 });
    assert_eq!(l.attempt, 3);
    assert_eq!(l.after_attempt(transient), RetryAction::Return);
    assert_eq!(l.attempt, 3);
}

#[test]
fn retry_loop_returns_success_and_permanent_failures_at_once() {
    let mut l = RetryLoop::new(3, 50);
    assert_eq!(l.after_attempt(AttemptOutcome::Succeeded), RetryAction::Return);
    assert_eq!(l.after_attempt(AttemptOutcome::Failed { retryable_redis_error: false }), RetryAction::Return);
    assert_eq!(l.attempt, 0);
}

#[test]
fn retry_loop_without_retries_returns_first_failure() {
    let mut l = RetryLoop::new(0, 50);
    assert_eq!(
        l.after_attempt(AttemptOutcome::Failed { retryable_redis_error: true }),
        RetryAction::Return
    );
}

#[test]
fn token_bucket_script_hash_is_sha1_of_the_code() {
    let script = token_bucket_script();
    let direct = redis::Script::new(ratekeeper::rate_limiter::lua_scripts::TOKEN_BUCKET_LUA);
    assert_eq!(script.get_hash(), direct.get_hash());
    assert_eq!(script.get_hash().len(), 40);
}

#[test]
fn tenant_storage_keys_distinct() {
    assert_ne!(tenant_hash_key("t1"), tenant_hash_key("t2"));
    assert_ne!(policy_field("p1"), policy_field("p2"));
}

#[test]
fn read_through_decisions() {
    assert!(matches!(read_through_lookup::<u32, ()>(Some(7)), ReadThrough::Return(Ok(7))));
    assert!(matches!(read_through_lookup::<u32, ()>(None), ReadThrough::Fetch));
    assert!(matches!(read_through_fetched::<Option<u32>, ()>(Ok(None)), ReadThrough::CacheThenReturn(None)));
    assert!(matches!(read_through_fetched::<u32, &str>(Err("down")), ReadThrough::Return(Err("down"))));
}

#[test]
fn script_args_in_order() {
    let p = policy(Algorithm::Gcra);
    let input = CheckInput {
        tenant_id: "t",
        identifier: "u",
        policy_key: "p",
        policy: &p,
        cost: 3,
        now_ms: 1234,
    };
    let args = script_args(&input, 90);
    assert_eq!(args.key, "rl:gcra:t:p:u");
    assert_eq!(args.capacity, 5);
    assert_eq!(f64::from_bits(args.refill_tokens_per_sec.bits), 1.0);
    assert_eq!(args.now_ms, 1234);
    assert_eq!(args.cost, 3);
    assert_eq!(args.ttl_secs, 90);
}
