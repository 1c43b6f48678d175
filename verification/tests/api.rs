use ratekeeper::api::check::{
    current_time_millis, default_cost, default_policy_key, tenant_key_matches,
    timestamp_from_millis, CheckAction, CheckEvent, CheckFlow, CheckRequest, CheckResponse,
    CheckStage,
};
use ratekeeper::api::error::ApiError;
use ratekeeper::api::tenants::{
    require_admin, PolicyReadAction, PolicyReadEvent, PolicyReadFlow, PolicyReadStage,
    UpsertAction, UpsertEvent, UpsertFlow, UpsertPolicyRequest, UpsertStage, NO_CONTENT,
};
use ratekeeper::rate_limiter::policy::{Algorithm, PolicyError, RatePolicy, RefillRate};
use ratekeeper::rate_limiter::CheckOutput;

fn request(cost: u32) -> CheckRequest {
    CheckRequest {
        tenant_id: "t123".to_string(),
        identifier: "user:42".to_string(),
        policy_key: "default".to_string(),
        cost,
    }
}

fn rate_policy() -> RatePolicy {
    RatePolicy {
        capacity: 5,
        refill_tokens_per_sec: RefillRate { bits: 1.0f64.to_bits() },
        algorithm: Algorithm::TokenBucket,
    }
}

fn some(s: &str) -> Option<String> {
    Some(s.to_string())
}

#[test]
fn defaults() {
    assert_eq!(default_policy_key(), "default");
    assert_eq!(default_cost(), 1);
}

#[test]
fn timestamps() {
    assert_eq!(timestamp_from_millis(None), 0);
    assert_eq!(timestamp_from_millis(Some(1_700_000_000_000)), 1_700_000_000_000);
    assert_eq!(timestamp_from_millis(Some(u64::MAX as u128 + 1)), 0);
    assert!(current_time_millis() > 1_600_000_000_000);
}

#[test]
fn error_replies() {
    let r = ApiError::BadRequest("bad".to_string()).into_response();
    assert_eq!((r.status, r.body.message.as_str()), (400, "bad"));
    let r = ApiError::Unauthorized.into_response();
    assert_eq!((r.status, r.body.message.as_str()), (401, "unauthorized"));
    let r = ApiError::Forbidden("no".to_string()).into_response();
    assert_eq!((r.status, r.body.message.as_str()), (403, "no"));
    let r = ApiError::PolicyNotFound.into_response();
    assert_eq!((r.status, r.body.message.as_str()), (404, "policy not found"));
    let r = ApiError::Internal(anyhow::Error::msg("redis down")).into_response();
    assert_eq!((r.status, r.body.message.as_str()), (500, "internal server error"));
}

#[test]
fn failures_become_api_errors() {
    assert!(matches!(ApiError::from(PolicyError::NotFound), ApiError::PolicyNotFound));
    assert!(matches!(
        ApiError::from_failure(anyhow::Error::msg("policy not found"), true),
        ApiError::PolicyNotFound
    ));
    match ApiError::from_failure(anyhow::Error::msg("boom"), false) {
        ApiError::Internal(e) => assert_eq!(e.to_string(), "boom"),
        _ => panic!("expected an internal error"),
    }
}

#[test]
fn tenant_key_comparison() {
    assert!(tenant_key_matches(&some("k"), &some("k")));
    assert!(!tenant_key_matches(&some("k"), &some("x")));
    assert!(!tenant_key_matches(&None, &some("k")));
    assert!(!tenant_key_matches(&some("k"), &None));
}

#[test]
fn zero_cost_is_refused_first() {
    let (flow, action) = CheckFlow::start(request(0), None);
    assert!(matches!(flow.stage, CheckStage::Finished));
    match action {
        CheckAction::Reply(Err(ApiError::BadRequest(msg))) => {
            assert_eq!(msg, "cost must be greater than zero")
        }
        _ => panic!("expected a bad request"),
    }
}

#[test]
fn missing_api_key_is_unauthorized() {
    let (_, action) = CheckFlow::start(request(1), None);
    assert!(matches!(action, CheckAction::Reply(Err(ApiError::Unauthorized))));
}

#[test]
fn wrong_api_key_is_unauthorized() {
    let (mut flow, action) = CheckFlow::start(request(1), some("k"));
    assert!(matches!(action, CheckAction::LoadApiKey { ref tenant_id } if tenant_id == "t123"));
    let action = flow.step(CheckEvent::ApiKeyLoaded(Ok(some("other"))));
    assert!(matches!(action, CheckAction::Reply(Err(ApiError::Unauthorized))));
    assert!(matches!(flow.stage, CheckStage::Finished));
}

#[test]
fn tenant_without_key_is_unauthorized() {
    let (mut flow, _) = CheckFlow::start(request(1), some("k"));
    let action = flow.step(CheckEvent::ApiKeyLoaded(Ok(None)));
    assert!(matches!(action, CheckAction::Reply(Err(ApiError::Unauthorized))));
}

#[test]
fn authorized_check_runs_limiter_and_replies() {
    let (mut flow, _) = CheckFlow::start(request(2), some("k"));
    let action = flow.step(CheckEvent::ApiKeyLoaded(Ok(some("k"))));
    match action {
        CheckAction::LoadPolicy { tenant_id, policy_key } => {
            assert_eq!(tenant_id, "t123");
            assert_eq!(policy_key, "default");
        }
        _ => panic!("expected a policy load"),
    }
    let action = flow.step(CheckEvent::PolicyLoaded { policy: Ok(rate_policy()), now_ms: 1_000 });
    match action {
        CheckAction::RunLimiter { policy, now_ms } => {
            assert_eq!(policy, rate_policy());
            assert_eq!(now_ms, 1_000);
        }
        _ => panic!("expected the limiter"),
    }
    let out = CheckOutput { allowed: false, remaining: 0, retry_after_ms: 250 };
    match flow.step(CheckEvent::LimiterDone(Ok(out))) {
        CheckAction::CountThenReply { output, response } => {
            assert_eq!(output, out);
            assert_eq!(
                response,
                CheckResponse { allowed: false, remaining: 0, retry_after_ms: 250, reset_at_ms: 1_250 }
            )
        }
        _ => panic!("expected a reply"),
    }
    assert!(matches!(flow.stage, CheckStage::Finished));
}

#[test]
fn missing_policy_is_passed_on() {
    let (mut flow, _) = CheckFlow::start(request(1), some("k"));
    flow.step(CheckEvent::ApiKeyLoaded(Ok(some("k"))));
    let action = flow.step(CheckEvent::PolicyLoaded {
        policy: Err(ApiError::from(PolicyError::NotFound)),
        now_ms: 0,
    });
    assert!(matches!(action, CheckAction::Reply(Err(ApiError::PolicyNotFound))));
}

#[test]
fn limiter_failure_is_internal() {
    let (mut flow, _) = CheckFlow::start(request(1), some("k"));
    flow.step(CheckEvent::ApiKeyLoaded(Ok(some("k"))));
    flow.step(CheckEvent::PolicyLoaded { policy: Ok(rate_policy()), now_ms: 5 });
    let action = flow.step(CheckEvent::LimiterDone(Err(ApiError::from_failure(
        anyhow::Error::msg("redis down"),
        false,
    ))));
    assert!(matches!(action, CheckAction::Reply(Err(ApiError::Internal(_)))));
}

#[test]
fn admin_requirement() {
    match require_admin(&None, &some("x")) {
        Err(ApiError::Forbidden(msg)) => assert_eq!(msg, "admin api key not configured"),
        _ => panic!("expected forbidden"),
    }
    assert!(matches!(require_admin(&some("admin"), &None), Err(ApiError::Unauthorized)));
    assert!(matches!(require_admin(&some("admin"), &some("nope")), Err(ApiError::Unauthorized)));
    assert!(require_admin(&some("admin"), &some("admin")).is_ok());
}

#[test]
fn admin_reads_any_policy() {
    let (mut flow, action) = PolicyReadFlow::start(
        "t1".to_string(),
        "default".to_string(),
        &some("admin"),
        &some("admin"),
        None,
    );
    assert!(matches!(action, PolicyReadAction::LoadPolicy { .. }));
    match flow.step(PolicyReadEvent::PolicyLoaded(Ok(rate_policy()))) {
        PolicyReadAction::Reply(Ok(resp)) => {
            assert_eq!(resp.tenant_id, "t1");
            assert_eq!(resp.policy_key, "default");
            assert_eq!(resp.policy, rate_policy());
        }
        _ => panic!("expected the policy"),
    }
    assert!(matches!(flow.stage, PolicyReadStage::Finished));
}

#[test]
fn tenant_reads_with_its_key() {
    let (mut flow, action) = PolicyReadFlow::start(
        "t1".to_string(),
        "default".to_string(),
        &some("admin"),
        &some("wrong"),
        some("k"),
    );
    assert!(matches!(action, PolicyReadAction::LoadApiKey { ref tenant_id } if tenant_id == "t1"));
    let action = flow.step(PolicyReadEvent::ApiKeyLoaded(Ok(some("k"))));
    assert!(matches!(action, PolicyReadAction::LoadPolicy { .. }));
}

#[test]
fn read_without_any_key_is_unauthorized() {
    let (_, action) =
        PolicyReadFlow::start("t1".to_string(), "default".to_string(), &None, &None, None);
    assert!(matches!(action, PolicyReadAction::Reply(Err(ApiError::Unauthorized))));
    let (mut flow, _) =
        PolicyReadFlow::start("t1".to_string(), "default".to_string(), &None, &None, some("k"));
    let action = flow.step(PolicyReadEvent::ApiKeyLoaded(Ok(some("x"))));
    assert!(matches!(action, PolicyReadAction::Reply(Err(ApiError::Unauthorized))));
}

fn upsert_body(capacity: u32, api_key: Option<String>) -> UpsertPolicyRequest {
    UpsertPolicyRequest {
        capacity,
        refill_tokens_per_sec: RefillRate { bits: 1.5f64.to_bits() },
        algorithm: Algorithm::Gcra,
        api_key,
    }
}

#[test]
fn upsert_requires_admin() {
    let (_, action) = UpsertFlow::start(
        "t1".to_string(),
        "default".to_string(),
        upsert_body(5, None),
        false,
        &None,
        &some("admin"),
    );
    assert!(matches!(action, UpsertAction::Reply(Err(ApiError::Forbidden(_)))));
    let (_, action) = UpsertFlow::start(
        "t1".to_string(),
        "default".to_string(),
        upsert_body(5, None),
        false,
        &some("admin"),
        &some("guess"),
    );
    assert!(matches!(action, UpsertAction::Reply(Err(ApiError::Unauthorized))));
}

#[test]
fn upsert_rejects_invalid_policy() {
    for (capacity, at_most_zero) in [(0, false), (5, true), (0, true)] {
        let (flow, action) = UpsertFlow::start(
            "t1".to_string(),
            "default".to_string(),
            upsert_body(capacity, None),
            at_most_zero,
            &some("admin"),
            &some("admin"),
        );
        assert!(matches!(flow.stage, UpsertStage::Finished));
        match action {
            UpsertAction::Reply(Err(ApiError::BadRequest(msg))) => {
                assert_eq!(msg, "capacity and refill_tokens_per_sec must be positive")
            }
            _ => panic!("expected a bad request"),
        }
    }
}

#[test]
fn upsert_stores_policy_then_key() {
    let (mut flow, action) = UpsertFlow::start(
        "t1".to_string(),
        "default".to_string(),
        upsert_body(5, some("tenantkey")),
        false,
        &some("admin"),
        &some("admin"),
    );
    match action {
        UpsertAction::StorePolicy { tenant_id, policy_key, policy } => {
            assert_eq!(tenant_id, "t1");
            assert_eq!(policy_key, "default");
            assert_eq!(policy.capacity, 5);
            assert_eq!(policy.algorithm, Algorithm::Gcra);
            assert_eq!(f64::from_bits(policy.refill_tokens_per_sec.bits), 1.5);
        }
        _ => panic!("expected the policy write"),
    }
    match flow.step(UpsertEvent::PolicyStored(Ok(()))) {
        UpsertAction::StoreApiKey { tenant_id, api_key } => {
            assert_eq!(tenant_id, "t1");
            assert_eq!(api_key, "tenantkey");
        }
        _ => panic!("expected the key write"),
    }
    assert!(matches!(flow.step(UpsertEvent::ApiKeyStored(Ok(()))), UpsertAction::Reply(Ok(204))));
    assert_eq!(NO_CONTENT, 204);
}

#[test]
fn upsert_without_key_finishes_after_policy() {
    let (mut flow, _) = UpsertFlow::start(
        "t1".to_string(),
        "default".to_string(),
        upsert_body(5, None),
        false,
        &some("admin"),
        &some("admin"),
    );
    assert!(matches!(flow.step(UpsertEvent::PolicyStored(Ok(()))), UpsertAction::Reply(Ok(204))));
}

#[test]
fn upsert_store_failure_is_passed_on() {
    let (mut flow, _) = UpsertFlow::start(
        "t1".to_string(),
        "default".to_string(),
        upsert_body(5, some("k")),
        false,
        &some("admin"),
        &some("admin"),
    );
    let action =
        flow.step(UpsertEvent::PolicyStored(Err(ApiError::from_failure(anyhow::Error::msg("x"), false))));
    assert!(matches!(action, UpsertAction::Reply(Err(ApiError::Internal(_)))));
    assert!(matches!(flow.stage, UpsertStage::Finished));
}

#[test]
fn quickstart_seed_then_check() {
    // Seed: admin writes policy `default` of tenant t123 with a tenant key.
    let body = UpsertPolicyRequest {
        capacity: 5,
        refill_tokens_per_sec: RefillRate { bits: 1.0f64.to_bits() },
        algorithm: Algorithm::TokenBucket,
        api_key: some("tenantkey123"),
    };
    let (mut upsert, action) = UpsertFlow::start(
        "t123".to_string(),
        "default".to_string(),
        body,
        false,
        &some("admin123"),
        &some("admin123"),
    );
    let stored = match action {
        UpsertAction::StorePolicy { policy, .. } => policy,
        _ => panic!("expected the policy write"),
    };
    assert!(matches!(
        upsert.step(UpsertEvent::PolicyStored(Ok(()))),
        UpsertAction::StoreApiKey { ref api_key, .. } if api_key == "tenantkey123"
    ));
    assert!(matches!(upsert.step(UpsertEvent::ApiKeyStored(Ok(()))), UpsertAction::Reply(Ok(204))));

    // Check: the tenant key opens the check, which runs under the stored policy.
    let (mut flow, _) = CheckFlow::start(request(1), some("tenantkey123"));
    flow.step(CheckEvent::ApiKeyLoaded(Ok(some("tenantkey123"))));
    match flow.step(CheckEvent::PolicyLoaded { policy: Ok(stored), now_ms: 10 }) {
        CheckAction::RunLimiter { policy, .. } => assert_eq!(policy.capacity, 5),
        _ => panic!("expected the limiter"),
    }
    let out = CheckOutput { allowed: true, remaining: 4, retry_after_ms: 0 };
    match flow.step(CheckEvent::LimiterDone(Ok(out))) {
        CheckAction::CountThenReply { response: resp, .. } => {
            assert!(resp.allowed);
            assert_eq!(resp.remaining, 4);
            assert_eq!(resp.reset_at_ms, 10);
        }
        _ => panic!("expected a reply"),
    }
}
