use std::time::{SystemTime, SystemTimeError};
use vstd::prelude::*;
use vstd::string::StringExecFns;

use super::error::ApiError;
use crate::metrics::{Counted, Metrics, RequestFamily};
use crate::rate_limiter::{CheckOutput, RatePolicy};

verus! {

/// A point in time of the system clock.
#[verifier::external_type_specification]
#[verifier::external_body]
pub struct ExSystemTime(SystemTime);

/// The error of reading a clock that stands before the Unix epoch.
#[verifier::external_type_specification]
#[verifier::external_body]
pub struct ExSystemTimeError(SystemTimeError);

/// Calls `SystemTime::now`. The clock's reading is not stated.
#[verifier::external_body]
fn system_now() -> SystemTime {
    SystemTime::now()
}

/// Calls `SystemTime::duration_since` with the Unix epoch; it fails when
/// the time lies before the epoch. Nothing is claimed of the duration.
#[verifier::external_body]
fn since_unix_epoch(time: &SystemTime) -> Result<std::time::Duration, SystemTimeError> {
    time.duration_since(std::time::UNIX_EPOCH)
}

/// Calls `Duration::as_millis`: the whole milliseconds of a duration. The
/// duration is opaque here, so nothing is claimed of the number.
#[verifier::external_body]
fn duration_millis(duration: &std::time::Duration) -> u128 {
    duration.as_millis()
}

/// A rate-limit request.
#[derive(Debug)]
pub struct CheckRequest {
    pub tenant_id: String,
    pub identifier: String,
    pub policy_key: String,
    pub cost: u32,
}

/// The answer to a rate-limit request. `reset_at_ms` is when a retry may
/// pass: the time of the check plus `retry_after_ms`.
#[derive(Debug, Clone, Copy, PartialEq, Eq, Structural)]
pub struct CheckResponse {
    pub allowed: bool,
    pub remaining: u32,
    pub retry_after_ms: i64,
    pub reset_at_ms: i64,
}

/// The policy that a request names when it names none.
pub fn default_policy_key() -> (key: String)
    ensures
        key@ == "default"@,
{
    String::from_str("default")
}

/// The cost that a request has when it states none.
pub fn default_cost() -> (cost: u32)
    ensures
        cost == 1,
{
    1
}

/// A clock reading in whole milliseconds since the epoch as the signed
/// timestamp the limiter works with: the value taken modulo 2^64 as an
/// `i64`, or 0 when the clock stands before the epoch (`None`).
pub fn timestamp_from_millis(millis: Option<u128>) -> (ts: i64)
    ensures
        ts == match millis {
            Some(m) => m as i64,
            None => 0i64,
        },
{
    match millis {
        Some(m) => m as i64,
        None => 0,
    }
}

/// The current time in milliseconds since the Unix epoch, 0 when the clock
/// stands before the epoch. What the clock reads is not stated.
pub fn current_time_millis() -> i64 {
    let now = system_now();
    let millis = match since_unix_epoch(&now) {
        Ok(elapsed) => Some(duration_millis(&elapsed)),
        Err(_) => None,
    };
    timestamp_from_millis(millis)
}

/// Counts the limiter's answer: as allowed exactly when the limiter
/// admitted the request, as denied otherwise.
pub fn record_metrics(metrics: &Metrics, output: &CheckOutput) -> (c: Counted)
    ensures
        c.family_spec() == RequestFamily::Allowed <==> output.allowed,
        c.family_spec() == RequestFamily::Denied <==> !output.allowed,
{
    if output.allowed {
        metrics.record_allowed()
    } else {
        metrics.record_denied()
    }
}

/// The tenant key check: a stored key exists and the presented key equals
/// it.
pub open spec fn key_matches(stored: Option<String>, provided: Option<String>) -> bool {
    &&& stored matches Some(expected)
    &&& provided matches Some(given)
    &&& expected@ == given@
}

/// Decides the tenant key check on the stored and the presented key.
pub fn tenant_key_matches(stored: &Option<String>, provided: &Option<String>) -> (ok: bool)
    ensures
        ok == key_matches(*stored, *provided),
{
    match (stored, provided) {
        (Some(expected), Some(given)) => *expected == *given,
        _ => false,
    }
}

/// The text of the reply to a request of cost zero.
pub open spec fn zero_cost_message() -> Seq<char> {
    "cost must be greater than zero"@
}

/// Where a rate-limit request stands.
pub enum CheckStage {
    /// The tenant's stored API key has been asked for.
    AwaitingApiKey,
    /// The caller is authenticated; the policy has been asked for.
    AwaitingPolicy,
    /// The limiter has been asked, at time `now_ms`.
    AwaitingLimiter { now_ms: i64 },
    /// The reply has been given.
    Finished,
}

/// The course of one rate-limit request: the request, the API key it
/// presented (`x-api-key`, when present and readable) and its stage.
pub struct CheckFlow {
    pub request: CheckRequest,
    pub provided_api_key: Option<String>,
    pub stage: CheckStage,
}

/// What the caller reports back.
pub enum CheckEvent {
    /// The tenant's stored API key, or the failure to read it.
    ApiKeyLoaded(Result<Option<String>, ApiError>),
    /// The policy, or the failure to read it; and the clock read after it.
    PolicyLoaded { policy: Result<RatePolicy, ApiError>, now_ms: i64 },
    /// The limiter's answer, or its failure.
    LimiterDone(Result<CheckOutput, ApiError>),
}

/// What the caller is to do next.
pub enum CheckAction {
    LoadApiKey { tenant_id: String },
    LoadPolicy { tenant_id: String, policy_key: String },
    /// Run the limiter for the request under `policy` at `now_ms`.
    RunLimiter { policy: RatePolicy, now_ms: i64 },
    /// Count the limiter's answer as allowed or denied (`record_metrics`),
    /// then answer with `response`.
    CountThenReply { output: CheckOutput, response: CheckResponse },
    /// Answer the request.
    Reply(Result<CheckResponse, ApiError>),
}

impl CheckStage {
    /// How far a request has come.
    pub open spec fn rank(self) -> nat {
        match self {
            CheckStage::AwaitingApiKey => 0,
            CheckStage::AwaitingPolicy => 1,
            CheckStage::AwaitingLimiter { .. } => 2,
            CheckStage::Finished => 3,
        }
    }
}

impl CheckFlow {
    /// How a request begins: a zero cost is refused first, then a request
    /// without a key; otherwise the tenant's stored key is looked up.
    pub open spec fn started(
        request: CheckRequest,
        provided_api_key: Option<String>,
        flow: CheckFlow,
        action: CheckAction,
    ) -> bool {
        &&& flow.request == request
        &&& flow.provided_api_key == provided_api_key
        &&& if request.cost == 0 {
            &&& flow.stage is Finished
            &&& action matches CheckAction::Reply(Err(ApiError::BadRequest(msg)))
            &&& msg@ == zero_cost_message()
        } else if provided_api_key is None {
            &&& flow.stage is Finished
            &&& action == CheckAction::Reply(Err(ApiError::Unauthorized))
        } else {
            &&& flow.stage is AwaitingApiKey
            &&& action == CheckAction::LoadApiKey { tenant_id: request.tenant_id }
        }
    }

    /// Whether `event` is the report that the flow waits for, and, for the
    /// limiter's answer, whether the reset time fits in an `i64`.
    pub open spec fn accepts(self, event: CheckEvent) -> bool {
        match (self.stage, event) {
            (CheckStage::AwaitingApiKey, CheckEvent::ApiKeyLoaded(_)) => true,
            (CheckStage::AwaitingPolicy, CheckEvent::PolicyLoaded { .. }) => true,
            (CheckStage::AwaitingLimiter { now_ms }, CheckEvent::LimiterDone(r)) => match r {
                Ok(out) => i64::MIN <= now_ms + out.retry_after_ms <= i64::MAX,
                Err(_) => true,
            },
            _ => false,
        }
    }

    /// One step of a request: failures are answered as they come; a
    /// matching key leads to the policy, the policy to the limiter, and the
    /// limiter's answer to the reply.
    pub open spec fn stepped(self, event: CheckEvent, next: CheckFlow, action: CheckAction) -> bool {
        &&& next.request == self.request
        &&& next.provided_api_key == self.provided_api_key
        &&& match event {
            CheckEvent::ApiKeyLoaded(Err(e)) => next.stage is Finished && action
                == CheckAction::Reply(Err(e)),
            CheckEvent::ApiKeyLoaded(Ok(stored)) => if key_matches(
                stored,
                self.provided_api_key,
            ) {
                &&& next.stage is AwaitingPolicy
                &&& action == CheckAction::LoadPolicy {
                    tenant_id: self.request.tenant_id,
                    policy_key: self.request.policy_key,
                }
            } else {
                next.stage is Finished && action == CheckAction::Reply(Err(ApiError::Unauthorized))
            },
            CheckEvent::PolicyLoaded { policy: Err(e), .. } => next.stage is Finished && action
                == CheckAction::Reply(Err(e)),
            CheckEvent::PolicyLoaded { policy: Ok(p), now_ms } => {
                &&& next.stage == CheckStage::AwaitingLimiter { now_ms }
                &&& action == CheckAction::RunLimiter { policy: p, now_ms }
            },
            CheckEvent::LimiterDone(Err(e)) => next.stage is Finished && action
                == CheckAction::Reply(Err(e)),
            CheckEvent::LimiterDone(Ok(out)) => {
                &&& next.stage is Finished
                &&& action == CheckAction::CountThenReply {
                    output: out,
                    response: CheckResponse {
                        allowed: out.allowed,
                        remaining: out.remaining,
                        retry_after_ms: out.retry_after_ms,
                        reset_at_ms: (self.stage->now_ms + out.retry_after_ms) as i64,
                    },
                }
            },
        }
    }

    /// A request that is still under way has a positive cost and a
    /// presented key.
    pub open spec fn well_begun(self) -> bool {
        !(self.stage is Finished) ==> self.request.cost > 0 && self.provided_api_key is Some
    }

    /// Begins a request.
    pub fn start(request: CheckRequest, provided_api_key: Option<String>) -> (r: (
        CheckFlow,
        CheckAction,
    ))
        ensures
            CheckFlow::started(request, provided_api_key, r.0, r.1),
    {
        if request.cost == 0 {
            let msg = String::from_str("cost must be greater than zero");
            let flow = CheckFlow { request, provided_api_key, stage: CheckStage::Finished };
            return (flow, CheckAction::Reply(Err(ApiError::BadRequest(msg))));
        }
        if provided_api_key.is_none() {
            let flow = CheckFlow { request, provided_api_key, stage: CheckStage::Finished };
            return (flow, CheckAction::Reply(Err(ApiError::Unauthorized)));
        }
        let tenant_id = request.tenant_id.clone();
        let flow = CheckFlow { request, provided_api_key, stage: CheckStage::AwaitingApiKey };
        (flow, CheckAction::LoadApiKey { tenant_id })
    }

    /// Takes the caller's report and says what comes next.
    pub fn step(&mut self, event: CheckEvent) -> (action: CheckAction)
        requires
            old(self).accepts(event),
        ensures
            old(self).stepped(event, *final(self), action),
            event matches CheckEvent::LimiterDone(Ok(out)) ==> (action
                matches CheckAction::CountThenReply { output, response } && output == out
                && response.allowed == out.allowed && response.remaining == out.remaining
                && response.retry_after_ms == out.retry_after_ms && response.reset_at_ms
                == old(self).stage->now_ms + out.retry_after_ms),
    {
        match event {
            CheckEvent::ApiKeyLoaded(Err(e)) => {
                self.stage = CheckStage::Finished;
                CheckAction::Reply(Err(e))
            },
            CheckEvent::ApiKeyLoaded(Ok(stored)) => {
                if tenant_key_matches(&stored, &self.provided_api_key) {
                    self.stage = CheckStage::AwaitingPolicy;
                    CheckAction::LoadPolicy {
                        tenant_id: self.request.tenant_id.clone(),
                        policy_key: self.request.policy_key.clone(),
                    }
                } else {
                    self.stage = CheckStage::Finished;
                    CheckAction::Reply(Err(ApiError::Unauthorized))
                }
            },
            CheckEvent::PolicyLoaded { policy: Err(e), now_ms: _ } => {
                self.stage = CheckStage::Finished;
                CheckAction::Reply(Err(e))
            },
            CheckEvent::PolicyLoaded { policy: Ok(policy), now_ms } => {
                self.stage = CheckStage::AwaitingLimiter { now_ms };
                CheckAction::RunLimiter { policy, now_ms }
            },
            CheckEvent::LimiterDone(Err(e)) => {
                self.stage = CheckStage::Finished;
                CheckAction::Reply(Err(e))
            },
            CheckEvent::LimiterDone(Ok(out)) => {
                let now_ms = match self.stage {
                    CheckStage::AwaitingLimiter { now_ms } => now_ms,
                    _ => 0,
                };
                self.stage = CheckStage::Finished;
                CheckAction::CountThenReply {
                    output: out,
                    response: CheckResponse {
                        allowed: out.allowed,
                        remaining: out.remaining,
                        retry_after_ms: out.retry_after_ms,
                        reset_at_ms: now_ms + out.retry_after_ms,
                    },
                }
            },
        }
    }
}


/// Only requests with a positive cost and a presented key get past the
/// start, and a request never loses that standing.
pub proof fn law_check_flow_well_begun(
    request: CheckRequest,
    provided_api_key: Option<String>,
    flow: CheckFlow,
    action: CheckAction,
    event: CheckEvent,
    next: CheckFlow,
    next_action: CheckAction,
)
    ensures
        CheckFlow::started(request, provided_api_key, flow, action) ==> flow.well_begun(),
        flow.well_begun() && flow.accepts(event) && flow.stepped(event, next, next_action)
            ==> next.well_begun(),
{
}

/// Every report moves a request strictly forward, so a request is answered
/// after at most three reports.
pub proof fn law_check_flow_progress(flow: CheckFlow, event: CheckEvent, next: CheckFlow, action: CheckAction)
    requires
        flow.accepts(event),
        flow.stepped(event, next, action),
    ensures
        next.stage.rank() > flow.stage.rank(),
{
}

/// The policy is read, and the limiter consulted, only for a request whose
/// presented key equals the tenant's stored key; every answer of the limiter
/// is counted before the reply, and only those.
pub proof fn law_limiter_only_for_tenant_key(
    flow: CheckFlow,
    event: CheckEvent,
    next: CheckFlow,
    action: CheckAction,
)
    requires
        flow.accepts(event),
        flow.stepped(event, next, action),
    ensures
        action is RunLimiter ==> flow.stage is AwaitingPolicy,
        action is CountThenReply ==> flow.stage is AwaitingLimiter && event matches CheckEvent::LimiterDone(Ok(_)),
        next.stage is AwaitingPolicy || action is LoadPolicy ==> {
            &&& flow.stage is AwaitingApiKey
            &&& event matches CheckEvent::ApiKeyLoaded(Ok(stored))
            &&& key_matches(stored, flow.provided_api_key)
        },
{
}

/// The start never loads the policy nor runs the limiter.
pub proof fn law_check_start_asks_for_key_first(
    request: CheckRequest,
    provided_api_key: Option<String>,
    flow: CheckFlow,
    action: CheckAction,
)
    requires
        CheckFlow::started(request, provided_api_key, flow, action),
    ensures
        action is LoadApiKey || action is Reply,
        flow.stage is AwaitingApiKey || flow.stage is Finished,
{
}


/// The reply to an admitted check reports the limiter's answer as it is:
/// the same verdict, the same remaining count and wait, and a reset time
/// that lies the wait after the time of the check. The answer is counted
/// as it is, too.
pub proof fn law_check_reply_reports_limiter_answer(
    flow: CheckFlow,
    out: CheckOutput,
    now_ms: i64,
    next: CheckFlow,
    action: CheckAction,
)
    requires
        flow.stage == (CheckStage::AwaitingLimiter { now_ms }),
        flow.accepts(CheckEvent::LimiterDone(Ok(out))),
        flow.stepped(CheckEvent::LimiterDone(Ok(out)), next, action),
    ensures
        action matches CheckAction::CountThenReply { output, response } && {
            &&& output == out
            &&& response.allowed == out.allowed
            &&& response.remaining == out.remaining
            &&& response.retry_after_ms == out.retry_after_ms
            &&& response.reset_at_ms == now_ms + out.retry_after_ms
        },
        next.stage is Finished,
{
}

/// The tenant key check admits exactly a presented key equal to a stored
/// one: no key stored, or none presented, is never a match.
pub proof fn law_key_match_is_equality(stored: Option<String>, provided: Option<String>)
    ensures
        key_matches(stored, provided) <==> (stored matches Some(k) && provided matches Some(p)
            && k@ == p@),
        stored is None ==> !key_matches(stored, provided),
        provided is None ==> !key_matches(stored, provided),
{
}

/// A request of positive cost that presents a key always goes on to the
/// tenant's stored key; a request of cost zero is always refused as a bad
/// request, and only it.
pub proof fn law_check_start_decides_on_cost_and_key(
    request: CheckRequest,
    provided_api_key: Option<String>,
    flow: CheckFlow,
    action: CheckAction,
)
    requires
        CheckFlow::started(request, provided_api_key, flow, action),
    ensures
        request.cost > 0 && provided_api_key is Some ==> action == (CheckAction::LoadApiKey {
            tenant_id: request.tenant_id,
        }),
        request.cost == 0 <==> action matches CheckAction::Reply(Err(ApiError::BadRequest(_))),
        request.cost > 0 && provided_api_key is None ==> action == CheckAction::Reply(
            Err(ApiError::Unauthorized),
        ),
{
}

/// A stored key that equals the presented one always leads on to the
/// request's policy.
pub proof fn law_matching_key_loads_policy(
    flow: CheckFlow,
    stored: Option<String>,
    next: CheckFlow,
    action: CheckAction,
)
    requires
        flow.accepts(CheckEvent::ApiKeyLoaded(Ok(stored))),
        flow.stepped(CheckEvent::ApiKeyLoaded(Ok(stored)), next, action),
        stored matches Some(k) && flow.provided_api_key matches Some(p) && k@ == p@,
    ensures
        action == (CheckAction::LoadPolicy {
            tenant_id: flow.request.tenant_id,
            policy_key: flow.request.policy_key,
        }),
        next.stage is AwaitingPolicy,
{
}

} // verus!
