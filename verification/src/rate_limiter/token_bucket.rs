use vstd::prelude::*;

use super::lua_scripts::TOKEN_BUCKET_LUA;
use super::redis::{lua_script, new_script};

verus! {

/// Shortest life, in seconds, that a bucket is given in Redis.
pub const MIN_BUCKET_TTL_SECS: u64 = 60;

/// The larger of the window and a minute, in seconds; a window too long
/// for an `i64` is held at `i64::MAX`.
pub open spec fn ttl_for_window_spec(window_seconds: u64) -> i64 {
    if window_seconds < MIN_BUCKET_TTL_SECS {
        MIN_BUCKET_TTL_SECS as i64
    } else if window_seconds > i64::MAX as u64 {
        i64::MAX
    } else {
        window_seconds as i64
    }
}

/// The expiry of a bucket, given the time its window spans: never below a
/// minute, and saturating at `i64::MAX` seconds.
pub fn ttl_for_window(window_seconds: u64) -> (ttl: i64)
    ensures
        ttl == ttl_for_window_spec(window_seconds),
{
    if window_seconds < MIN_BUCKET_TTL_SECS {
        MIN_BUCKET_TTL_SECS as i64
    } else if window_seconds > i64::MAX as u64 {
        i64::MAX
    } else {
        window_seconds as i64
    }
}

/// The prepared token-bucket script.
pub fn token_bucket_script() -> (s: ::redis::Script)
    ensures
        s == lua_script(TOKEN_BUCKET_LUA@),
{
    new_script(TOKEN_BUCKET_LUA)
}

/// A bucket lives at least a minute, and at least as long as its window
/// wherever the window fits in an `i64` (else as long as an `i64` allows).
pub proof fn law_bucket_ttl_covers_window(window_seconds: u64)
    ensures
        ttl_for_window_spec(window_seconds) >= MIN_BUCKET_TTL_SECS,
        ttl_for_window_spec(window_seconds) >= if window_seconds <= i64::MAX as u64 {
            window_seconds as int
        } else {
            i64::MAX as int
        },
{
}

/// The expiry is the least value that is at least a minute and at least
/// the window (the window held at `i64::MAX`): it is one of the two.
pub proof fn law_bucket_ttl_is_least_cover(window_seconds: u64)
    ensures
        ttl_for_window_spec(window_seconds) == MIN_BUCKET_TTL_SECS
            || ttl_for_window_spec(window_seconds) == if window_seconds <= i64::MAX as u64 {
            window_seconds as int
        } else {
            i64::MAX as int
        },
        window_seconds <= MIN_BUCKET_TTL_SECS ==> ttl_for_window_spec(window_seconds)
            == MIN_BUCKET_TTL_SECS,
        MIN_BUCKET_TTL_SECS <= window_seconds <= i64::MAX as u64 ==> ttl_for_window_spec(
            window_seconds,
        ) == window_seconds,
{
}

} // verus!
