pub mod gcra;
pub mod lua_scripts;
pub mod policy;
pub mod redis;
pub mod token_bucket;

use vstd::prelude::*;

pub use self::policy::{Algorithm, PolicyError, RatePolicy};

verus! {

/// One request to the limiter: who asks, under which policy, at what cost
/// and at which time (milliseconds since the Unix epoch).
pub struct CheckInput<'a> {
    pub tenant_id: &'a str,
    pub identifier: &'a str,
    pub policy_key: &'a str,
    pub policy: &'a RatePolicy,
    pub cost: u32,
    pub now_ms: i64,
}

/// The limiter's answer.
#[derive(Debug, Clone, Copy, PartialEq, Eq, Structural)]
pub struct CheckOutput {
    pub allowed: bool,
    pub remaining: u32,
    pub retry_after_ms: i64,
}

impl CheckOutput {
    /// Reads the `{ allowed, remaining, retry_after_ms }` triple that both
    /// Lua scripts return: the request passed when the first number is 1,
    /// and the other two are taken over as they are, the remaining count
    /// reinterpreted as unsigned.
    pub fn from_script_reply(allowed: i32, remaining: i32, retry_after: i32) -> (out: Self)
        ensures
            out.allowed == (allowed == 1),
            out.remaining == remaining as u32,
            out.retry_after_ms == retry_after as i64,
    {
        CheckOutput {
            allowed: allowed == 1,
            remaining: remaining as u32,
            retry_after_ms: retry_after as i64,
        }
    }
}

} // verus!
