use ratekeeper::config::{Config, EnvValues};
use ratekeeper::api::check::record_metrics;
use ratekeeper::metrics::Metrics;
use ratekeeper::rate_limiter::CheckOutput;

fn empty() -> EnvValues {
    EnvValues {
        redis_url: None,
        bind_addr: None,
        policy_cache_ttl_secs: None,
        admin_api_key: None,
        tls_cert_path: None,
        tls_key_path: None,
        redis_max_retries: None,
        redis_backoff_ms: None,
    }
}

#[test]
fn config_defaults() {
    let c = Config::from_values(empty());
    assert_eq!(c.redis_url, "redis://127.0.0.1/");
    assert_eq!(c.bind_addr, "0.0.0.0:8080");
    assert_eq!(c.policy_cache_ttl_secs, 30);
    assert_eq!(c.admin_api_key, None);
    assert_eq!(c.tls_cert_path, None);
    assert_eq!(c.tls_key_path, None);
    assert_eq!(c.redis_max_retries, 3);
    assert_eq!(c.redis_backoff_ms, 50);
}

#[test]
fn config_given_values() {
    let c = Config::from_values(EnvValues {
        redis_url: Some("redis://cache:6379/".to_string()),
        bind_addr: Some("127.0.0.1:9000".to_string()),
        policy_cache_ttl_secs: Some("+45".to_string()),
        admin_api_key: Some("admin123".to_string()),
        tls_cert_path: Some("/c.pem".to_string()),
        tls_key_path: Some("/k.pem".to_string()),
        redis_max_retries: Some("7".to_string()),
        redis_backoff_ms: Some("18446744073709551615".to_string()),
    });
    assert_eq!(c.redis_url, "redis://cache:6379/");
    assert_eq!(c.bind_addr, "127.0.0.1:9000");
    assert_eq!(c.policy_cache_ttl_secs, 45);
    assert_eq!(c.admin_api_key.as_deref(), Some("admin123"));
    assert_eq!(c.tls_cert_path.as_deref(), Some("/c.pem"));
    assert_eq!(c.tls_key_path.as_deref(), Some("/k.pem"));
    assert_eq!(c.redis_max_retries, 7);
    assert_eq!(c.redis_backoff_ms, u64::MAX);
}

#[test]
fn config_unparsable_numbers_fall_back() {
    let c = Config::from_values(EnvValues {
        policy_cache_ttl_secs: Some(" 45".to_string()),
        redis_max_retries: Some("4294967296".to_string()),
        redis_backoff_ms: Some("-1".to_string()),
        ..empty()
    });
    assert_eq!(c.policy_cache_ttl_secs, 30);
    assert_eq!(c.redis_max_retries, 3);
    assert_eq!(c.redis_backoff_ms, 50);
    let c = Config::from_values(EnvValues { redis_max_retries: Some("+".to_string()), ..empty() });
    assert_eq!(c.redis_max_retries, 3);
    let c = Config::from_values(EnvValues { redis_max_retries: Some("".to_string()), ..empty() });
    assert_eq!(c.redis_max_retries, 3);
}

#[test]
fn metrics_export_counts() {
    let m = Metrics::new();
    m.record_allowed();
    m.record_allowed();
    m.record_denied();
    let text = m.export();
    assert!(text.ends_with("# EOF\n"));
    assert!(text.contains("rate_limiter_requests_allowed_total 2"));
    assert!(text.contains("rate_limiter_requests_denied_total 1"));
}

#[test]
fn record_metrics_follows_the_answer() {
    let m = Metrics::new();
    record_metrics(&m, &CheckOutput { allowed: true, remaining: 1, retry_after_ms: 0 });
    record_metrics(&m, &CheckOutput { allowed: false, remaining: 0, retry_after_ms: 10 });
    record_metrics(&m, &CheckOutput { allowed: false, remaining: 0, retry_after_ms: 10 });
    let text = m.export();
    assert!(text.contains("rate_limiter_requests_allowed_total 1"));
    assert!(text.contains("rate_limiter_requests_denied_total 2"));
}
