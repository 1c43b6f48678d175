use vstd::prelude::*;
use vstd::string::StringExecFns;

verus! {

/// Whether every character is an ASCII decimal digit and there is at least
/// one.
pub open spec fn all_decimal_digits(s: Seq<char>) -> bool {
    &&& s.len() > 0
    &&& forall|i: int| 0 <= i < s.len() ==> '0' <= #[trigger] s[i] <= '9'
}

/// The number that a string of decimal digits denotes.
pub open spec fn decimal_value(s: Seq<char>) -> nat
    decreases s.len(),
{
    if s.len() == 0 {
        0
    } else {
        decimal_value(s.drop_last()) * 10 + (s.last() as nat - '0' as nat) as nat
    }
}

/// What `str::parse` makes of `s` for an unsigned integer type whose
/// largest value is `max`: an optional `+` followed by one or more decimal
/// digits, denoting a number no larger than `max`; anything else (a sign
/// alone, other characters, whitespace, an empty string) is refused.
pub open spec fn parsed_unsigned(s: Seq<char>, max: nat) -> Option<nat> {
    let digits = if s.len() > 0 && s[0] == '+' {
        s.drop_first()
    } else {
        s
    };
    if all_decimal_digits(digits) && decimal_value(digits) <= max {
        Some(decimal_value(digits))
    } else {
        None
    }
}

/// Calls `str::parse::<u64>`, whose grammar for unsigned integers std
/// documents as an optional `+` followed by decimal digits, failing on
/// overflow.
#[verifier::external_body]
fn parse_u64(s: &str) -> (r: Option<u64>)
    ensures
        r == match parsed_unsigned(s@, u64::MAX as nat) {
            Some(v) => Some(v as u64),
            None => None::<u64>,
        },
{
    match s.parse::<u64>() {
        Ok(v) => Some(v),
        Err(_) => None,
    }
}

/// Calls `str::parse::<u32>`, with the grammar of `parse_u64` and the
/// bound of `u32`.
#[verifier::external_body]
fn parse_u32(s: &str) -> (r: Option<u32>)
    ensures
        r == match parsed_unsigned(s@, u32::MAX as nat) {
            Some(v) => Some(v as u32),
            None => None::<u32>,
        },
{
    match s.parse::<u32>() {
        Ok(v) => Some(v),
        Err(_) => None,
    }
}

/// The settings as the environment gives them: each variable's value when
/// it is set and valid Unicode.
pub struct EnvValues {
    pub redis_url: Option<String>,
    pub bind_addr: Option<String>,
    pub policy_cache_ttl_secs: Option<String>,
    pub admin_api_key: Option<String>,
    pub tls_cert_path: Option<String>,
    pub tls_key_path: Option<String>,
    pub redis_max_retries: Option<String>,
    pub redis_backoff_ms: Option<String>,
}

/// The service's settings. `bind_addr` is the socket address still as
/// text; the caller reads it as an address and fails when it is none.
#[derive(Debug, Clone)]
pub struct Config {
    pub redis_url: String,
    pub bind_addr: String,
    pub policy_cache_ttl_secs: u64,
    pub admin_api_key: Option<String>,
    pub tls_cert_path: Option<String>,
    pub tls_key_path: Option<String>,
    pub redis_max_retries: u32,
    pub redis_backoff_ms: u64,
}

/// A text setting with a default.
pub open spec fn text_or(value: Option<String>, default: Seq<char>) -> Seq<char> {
    match value {
        Some(v) => v@,
        None => default,
    }
}

/// A numeric setting: its value when it parses, else the default.
pub open spec fn number_or(value: Option<String>, max: nat, default: nat) -> nat {
    match value {
        Some(v) => match parsed_unsigned(v@, max) {
            Some(n) => n,
            None => default,
        },
        None => default,
    }
}

/// A text setting, or the default when it is unset.
fn text_setting(value: Option<String>, default: &str) -> (r: String)
    ensures
        r@ == text_or(value, default@),
{
    match value {
        Some(v) => v,
        None => String::from_str(default),
    }
}

/// A `u64` setting, or the default when it is unset or does not parse.
fn u64_setting(value: &Option<String>, default: u64) -> (r: u64)
    ensures
        r == number_or(*value, u64::MAX as nat, default as nat),
{
    match value {
        Some(v) => match parse_u64(v.as_str()) {
            Some(n) => n,
            None => default,
        },
        None => default,
    }
}

/// A `u32` setting, or the default when it is unset or does not parse.
fn u32_setting(value: &Option<String>, default: u32) -> (r: u32)
    ensures
        r == number_or(*value, u32::MAX as nat, default as nat),
{
    match value {
        Some(v) => match parse_u32(v.as_str()) {
            Some(n) => n,
            None => default,
        },
        None => default,
    }
}

impl Config {
    /// The settings from the environment's values, with the documented
    /// defaults: Redis at `redis://127.0.0.1/`, binding `0.0.0.0:8080`, a
    /// policy cache of 30 s, 3 retries and a 50 ms backoff. A number that
    /// does not parse counts as unset.
    pub fn from_values(env: EnvValues) -> (c: Config)
        ensures
            c.redis_url@ == text_or(env.redis_url, "redis://127.0.0.1/"@),
            c.bind_addr@ == text_or(env.bind_addr, "0.0.0.0:8080"@),
            c.policy_cache_ttl_secs == number_or(env.policy_cache_ttl_secs, u64::MAX as nat, 30),
            c.admin_api_key == env.admin_api_key,
            c.tls_cert_path == env.tls_cert_path,
            c.tls_key_path == env.tls_key_path,
            c.redis_max_retries == number_or(env.redis_max_retries, u32::MAX as nat, 3),
            c.redis_backoff_ms == number_or(env.redis_backoff_ms, u64::MAX as nat, 50),
    {
        let policy_cache_ttl_secs = u64_setting(&env.policy_cache_ttl_secs, 30);
        let redis_max_retries = u32_setting(&env.redis_max_retries, 3);
        let redis_backoff_ms = u64_setting(&env.redis_backoff_ms, 50);
        Config {
            redis_url: text_setting(env.redis_url, "redis://127.0.0.1/"),
            bind_addr: text_setting(env.bind_addr, "0.0.0.0:8080"),
            policy_cache_ttl_secs,
            admin_api_key: env.admin_api_key,
            tls_cert_path: env.tls_cert_path,
            tls_key_path: env.tls_key_path,
            redis_max_retries,
            redis_backoff_ms,
        }
    }
}

/// A setting that is set is taken as given; a number that parses is taken
/// at its value; only an unset setting, or a number that does not parse,
/// falls back to the default.
pub proof fn law_settings_prefer_given_values(value: String, max: nat, number_default: nat, text_default: Seq<char>)
    ensures
        text_or(Some(value), text_default) == value@,
        text_or(None, text_default) == text_default,
        parsed_unsigned(value@, max) matches Some(n) ==> number_or(Some(value), max, number_default)
            == n,
        parsed_unsigned(value@, max) is None ==> number_or(Some(value), max, number_default)
            == number_default,
        number_or(None, max, number_default) == number_default,
{
}

} // verus!
