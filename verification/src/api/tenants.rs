use vstd::prelude::*;
use vstd::string::StringExecFns;

use super::check::{key_matches, tenant_key_matches};
use super::error::ApiError;
use crate::rate_limiter::policy::{Algorithm, RatePolicy, RefillRate};

verus! {

/// A policy as the read endpoint returns it.
#[derive(Debug)]
pub struct PolicyResponse {
    pub tenant_id: String,
    pub policy_key: String,
    pub policy: RatePolicy,
}

/// The body of a policy write.
#[derive(Debug)]
pub struct UpsertPolicyRequest {
    pub capacity: u32,
    pub refill_tokens_per_sec: RefillRate,
    pub algorithm: Algorithm,
    pub api_key: Option<String>,
}

/// The status of a successful policy write.
pub const NO_CONTENT: u16 = 204;

/// The text of the refusal when no admin key is configured.
pub open spec fn admin_unconfigured_message() -> Seq<char> {
    "admin api key not configured"@
}

/// The text of the refusal of an invalid policy.
pub open spec fn invalid_policy_message() -> Seq<char> {
    "capacity and refill_tokens_per_sec must be positive"@
}

/// The admin check: with no admin key configured, writes are forbidden;
/// otherwise the `x-admin-api-key` header must equal it.
pub open spec fn admin_checked(
    admin_api_key: Option<String>,
    admin_header: Option<String>,
    r: Result<(), ApiError>,
) -> bool {
    match admin_api_key {
        None => r matches Err(ApiError::Forbidden(msg)) && msg@ == admin_unconfigured_message(),
        Some(_) => if key_matches(admin_api_key, admin_header) {
            r is Ok
        } else {
            r == Err::<(), ApiError>(ApiError::Unauthorized)
        },
    }
}

/// Admits a request as the administrator.
pub fn require_admin(admin_api_key: &Option<String>, admin_header: &Option<String>) -> (r: Result<
    (),
    ApiError,
>)
    ensures
        admin_checked(*admin_api_key, *admin_header, r),
{
    match admin_api_key {
        Some(_) => {
            if tenant_key_matches(admin_api_key, admin_header) {
                Ok(())
            } else {
                Err(ApiError::Unauthorized)
            }
        },
        None => Err(ApiError::Forbidden(String::from_str("admin api key not configured"))),
    }
}

/// Where a policy read stands.
pub enum PolicyReadStage {
    AwaitingApiKey,
    AwaitingPolicy,
    Finished,
}

/// The course of one policy read.
pub struct PolicyReadFlow {
    pub tenant_id: String,
    pub policy_key: String,
    pub provided_api_key: Option<String>,
    pub stage: PolicyReadStage,
}

pub enum PolicyReadEvent {
    ApiKeyLoaded(Result<Option<String>, ApiError>),
    PolicyLoaded(Result<RatePolicy, ApiError>),
}

pub enum PolicyReadAction {
    LoadApiKey { tenant_id: String },
    LoadPolicy { tenant_id: String, policy_key: String },
    Reply(Result<PolicyResponse, ApiError>),
}

impl PolicyReadStage {
    pub open spec fn rank(self) -> nat {
        match self {
            PolicyReadStage::AwaitingApiKey => 0,
            PolicyReadStage::AwaitingPolicy => 1,
            PolicyReadStage::Finished => 2,
        }
    }
}

impl PolicyReadFlow {
    /// How a read begins: the administrator's key opens every tenant;
    /// without it the tenant key is needed, and a request without one is
    /// refused.
    pub open spec fn started(
        tenant_id: String,
        policy_key: String,
        admin_api_key: Option<String>,
        admin_header: Option<String>,
        provided_api_key: Option<String>,
        flow: PolicyReadFlow,
        action: PolicyReadAction,
    ) -> bool {
        &&& flow.tenant_id == tenant_id
        &&& flow.policy_key == policy_key
        &&& flow.provided_api_key == provided_api_key
        &&& if key_matches(admin_api_key, admin_header) {
            &&& flow.stage is AwaitingPolicy
            &&& action == PolicyReadAction::LoadPolicy { tenant_id, policy_key }
        } else if provided_api_key is None {
            &&& flow.stage is Finished
            &&& action == PolicyReadAction::Reply(Err(ApiError::Unauthorized))
        } else {
            &&& flow.stage is AwaitingApiKey
            &&& action == PolicyReadAction::LoadApiKey { tenant_id }
        }
    }

    pub open spec fn accepts(self, event: PolicyReadEvent) -> bool {
        match (self.stage, event) {
            (PolicyReadStage::AwaitingApiKey, PolicyReadEvent::ApiKeyLoaded(_)) => true,
            (PolicyReadStage::AwaitingPolicy, PolicyReadEvent::PolicyLoaded(_)) => true,
            _ => false,
        }
    }

    /// One step of a read: failures are answered as they come, a matching
    /// tenant key leads to the policy, and the policy is returned with the
    /// names it was asked under.
    pub open spec fn stepped(
        self,
        event: PolicyReadEvent,
        next: PolicyReadFlow,
        action: PolicyReadAction,
    ) -> bool {
        &&& next.tenant_id == self.tenant_id
        &&& next.policy_key == self.policy_key
        &&& next.provided_api_key == self.provided_api_key
        &&& match event {
            PolicyReadEvent::ApiKeyLoaded(Err(e)) => next.stage is Finished && action
                == PolicyReadAction::Reply(Err(e)),
            PolicyReadEvent::ApiKeyLoaded(Ok(stored)) => if key_matches(
                stored,
                self.provided_api_key,
            ) {
                &&& next.stage is AwaitingPolicy
                &&& action == PolicyReadAction::LoadPolicy {
                    tenant_id: self.tenant_id,
                    policy_key: self.policy_key,
                }
            } else {
                next.stage is Finished && action == PolicyReadAction::Reply(
                    Err(ApiError::Unauthorized),
                )
            },
            PolicyReadEvent::PolicyLoaded(Err(e)) => next.stage is Finished && action
                == PolicyReadAction::Reply(Err(e)),
            PolicyReadEvent::PolicyLoaded(Ok(policy)) => {
                &&& next.stage is Finished
                &&& action == PolicyReadAction::Reply(
                    Ok(
                        PolicyResponse {
                            tenant_id: self.tenant_id,
                            policy_key: self.policy_key,
                            policy,
                        },
                    ),
                )
            },
        }
    }

    /// Begins a read of policy `policy_key` of `tenant_id`, given the
    /// configured admin key and the `x-admin-api-key` and `x-api-key`
    /// headers.
    pub fn start(
        tenant_id: String,
        policy_key: String,
        admin_api_key: &Option<String>,
        admin_header: &Option<String>,
        provided_api_key: Option<String>,
    ) -> (r: (PolicyReadFlow, PolicyReadAction))
        ensures
            PolicyReadFlow::started(
                tenant_id,
                policy_key,
                *admin_api_key,
                *admin_header,
                provided_api_key,
                r.0,
                r.1,
            ),
    {
        if tenant_key_matches(admin_api_key, admin_header) {
            let action = PolicyReadAction::LoadPolicy {
                tenant_id: tenant_id.clone(),
                policy_key: policy_key.clone(),
            };
            let flow = PolicyReadFlow {
                tenant_id,
                policy_key,
                provided_api_key,
                stage: PolicyReadStage::AwaitingPolicy,
            };
            return (flow, action);
        }
        if provided_api_key.is_none() {
            let flow = PolicyReadFlow {
                tenant_id,
                policy_key,
                provided_api_key,
                stage: PolicyReadStage::Finished,
            };
            return (flow, PolicyReadAction::Reply(Err(ApiError::Unauthorized)));
        }
        let action = PolicyReadAction::LoadApiKey { tenant_id: tenant_id.clone() };
        let flow = PolicyReadFlow {
            tenant_id,
            policy_key,
            provided_api_key,
            stage: PolicyReadStage::AwaitingApiKey,
        };
        (flow, action)
    }

    /// Takes the caller's report and says what comes next.
    pub fn step(&mut self, event: PolicyReadEvent) -> (action: PolicyReadAction)
        requires
            old(self).accepts(event),
        ensures
            old(self).stepped(event, *final(self), action),
            event matches PolicyReadEvent::PolicyLoaded(Ok(p)) ==> (action
                matches PolicyReadAction::Reply(Ok(resp)) && resp.policy == p && resp.tenant_id
                == old(self).tenant_id && resp.policy_key == old(self).policy_key),
    {
        match event {
            PolicyReadEvent::ApiKeyLoaded(Err(e)) => {
                self.stage = PolicyReadStage::Finished;
                PolicyReadAction::Reply(Err(e))
            },
            PolicyReadEvent::ApiKeyLoaded(Ok(stored)) => {
                if tenant_key_matches(&stored, &self.provided_api_key) {
                    self.stage = PolicyReadStage::AwaitingPolicy;
                    PolicyReadAction::LoadPolicy {
                        tenant_id: self.tenant_id.clone(),
                        policy_key: self.policy_key.clone(),
                    }
                } else {
                    self.stage = PolicyReadStage::Finished;
                    PolicyReadAction::Reply(Err(ApiError::Unauthorized))
                }
            },
            PolicyReadEvent::PolicyLoaded(Err(e)) => {
                self.stage = PolicyReadStage::Finished;
                PolicyReadAction::Reply(Err(e))
            },
            PolicyReadEvent::PolicyLoaded(Ok(policy)) => {
                self.stage = PolicyReadStage::Finished;
                PolicyReadAction::Reply(
                    Ok(
                        PolicyResponse {
                            tenant_id: self.tenant_id.clone(),
                            policy_key: self.policy_key.clone(),
                            policy,
                        },
                    ),
                )
            },
        }
    }
}

/// Where a policy write stands.
pub enum UpsertStage {
    AwaitingPolicyStored,
    AwaitingApiKeyStored,
    Finished,
}

/// The course of one policy write: the names written under, the API key
/// to set afterwards, and the stage.
pub struct UpsertFlow {
    pub tenant_id: String,
    pub policy_key: String,
    pub api_key: Option<String>,
    pub stage: UpsertStage,
}

pub enum UpsertEvent {
    PolicyStored(Result<(), ApiError>),
    ApiKeyStored(Result<(), ApiError>),
}

pub enum UpsertAction {
    StorePolicy { tenant_id: String, policy_key: String, policy: RatePolicy },
    StoreApiKey { tenant_id: String, api_key: String },
    /// Answer with the given status, or the error.
    Reply(Result<u16, ApiError>),
}

impl UpsertStage {
    pub open spec fn rank(self) -> nat {
        match self {
            UpsertStage::AwaitingPolicyStored => 0,
            UpsertStage::AwaitingApiKeyStored => 1,
            UpsertStage::Finished => 2,
        }
    }
}

impl UpsertFlow {
    /// How a write begins: the admin check first, then the policy must
    /// have a positive capacity and a refill rate that does not compare
    /// at most zero; then the policy is stored as given.
    pub open spec fn started(
        tenant_id: String,
        policy_key: String,
        body: UpsertPolicyRequest,
        rate_at_most_zero: bool,
        admin_api_key: Option<String>,
        admin_header: Option<String>,
        flow: UpsertFlow,
        action: UpsertAction,
    ) -> bool {
        &&& flow.tenant_id == tenant_id
        &&& flow.policy_key == policy_key
        &&& flow.api_key == body.api_key
        &&& if !key_matches(admin_api_key, admin_header) {
            &&& flow.stage is Finished
            &&& action matches UpsertAction::Reply(Err(e))
            &&& admin_checked(admin_api_key, admin_header, Err(e))
        } else if body.capacity == 0 || rate_at_most_zero {
            &&& flow.stage is Finished
            &&& action matches UpsertAction::Reply(Err(ApiError::BadRequest(msg)))
            &&& msg@ == invalid_policy_message()
        } else {
            &&& flow.stage is AwaitingPolicyStored
            &&& action == UpsertAction::StorePolicy {
                tenant_id,
                policy_key,
                policy: RatePolicy {
                    capacity: body.capacity,
                    refill_tokens_per_sec: body.refill_tokens_per_sec,
                    algorithm: body.algorithm,
                },
            }
        }
    }

    pub open spec fn accepts(self, event: UpsertEvent) -> bool {
        match (self.stage, event) {
            (UpsertStage::AwaitingPolicyStored, UpsertEvent::PolicyStored(_)) => true,
            (UpsertStage::AwaitingApiKeyStored, UpsertEvent::ApiKeyStored(_)) => true,
            _ => false,
        }
    }

    /// One step of a write: failures are answered as they come; a stored
    /// policy is followed by the API key when the request carries one; the
    /// write ends with 204.
    pub open spec fn stepped(self, event: UpsertEvent, next: UpsertFlow, action: UpsertAction) -> bool {
        &&& next.tenant_id == self.tenant_id
        &&& next.policy_key == self.policy_key
        &&& next.api_key == self.api_key
        &&& match event {
            UpsertEvent::PolicyStored(Err(e)) => next.stage is Finished && action
                == UpsertAction::Reply(Err(e)),
            UpsertEvent::PolicyStored(Ok(())) => match self.api_key {
                Some(k) => next.stage is AwaitingApiKeyStored && action == UpsertAction::StoreApiKey {
                    tenant_id: self.tenant_id,
                    api_key: k,
                },
                None => next.stage is Finished && action == UpsertAction::Reply(Ok(NO_CONTENT)),
            },
            UpsertEvent::ApiKeyStored(Err(e)) => next.stage is Finished && action
                == UpsertAction::Reply(Err(e)),
            UpsertEvent::ApiKeyStored(Ok(())) => next.stage is Finished && action
                == UpsertAction::Reply(Ok(NO_CONTENT)),
        }
    }

    /// Begins a write of policy `policy_key` of `tenant_id`.
    /// `rate_at_most_zero` is whether the requested refill rate compares
    /// at most zero, a floating-point comparison that the caller makes.
    pub fn start(
        tenant_id: String,
        policy_key: String,
        body: UpsertPolicyRequest,
        rate_at_most_zero: bool,
        admin_api_key: &Option<String>,
        admin_header: &Option<String>,
    ) -> (r: (UpsertFlow, UpsertAction))
        ensures
            UpsertFlow::started(
                tenant_id,
                policy_key,
                body,
                rate_at_most_zero,
                *admin_api_key,
                *admin_header,
                r.0,
                r.1,
            ),
            key_matches(*admin_api_key, *admin_header) && body.capacity > 0 && !rate_at_most_zero
                ==> (r.1 matches UpsertAction::StorePolicy { tenant_id: t, policy_key: k, policy }
                && t == tenant_id && k == policy_key && policy.capacity == body.capacity
                && policy.refill_tokens_per_sec == body.refill_tokens_per_sec && policy.algorithm
                == body.algorithm),
    {
        let admitted = require_admin(admin_api_key, admin_header);
        match admitted {
            Err(e) => {
                let flow = UpsertFlow {
                    tenant_id,
                    policy_key,
                    api_key: body.api_key,
                    stage: UpsertStage::Finished,
                };
                return (flow, UpsertAction::Reply(Err(e)));
            },
            Ok(()) => {},
        }
        if body.capacity == 0 || rate_at_most_zero {
            let msg = String::from_str("capacity and refill_tokens_per_sec must be positive");
            let flow = UpsertFlow {
                tenant_id,
                policy_key,
                api_key: body.api_key,
                stage: UpsertStage::Finished,
            };
            return (flow, UpsertAction::Reply(Err(ApiError::BadRequest(msg))));
        }
        let policy = RatePolicy {
            capacity: body.capacity,
            refill_tokens_per_sec: body.refill_tokens_per_sec,
            algorithm: body.algorithm,
        };
        let action = UpsertAction::StorePolicy {
            tenant_id: tenant_id.clone(),
            policy_key: policy_key.clone(),
            policy,
        };
        let flow = UpsertFlow {
            tenant_id,
            policy_key,
            api_key: body.api_key,
            stage: UpsertStage::AwaitingPolicyStored,
        };
        (flow, action)
    }

    /// Takes the caller's report and says what comes next.
    pub fn step(&mut self, event: UpsertEvent) -> (action: UpsertAction)
        requires
            old(self).accepts(event),
        ensures
            old(self).stepped(event, *final(self), action),
    {
        match event {
            UpsertEvent::PolicyStored(Err(e)) => {
                self.stage = UpsertStage::Finished;
                UpsertAction::Reply(Err(e))
            },
            UpsertEvent::PolicyStored(Ok(())) => {
                match &self.api_key {
                    Some(k) => {
                        let api_key = k.clone();
                        self.stage = UpsertStage::AwaitingApiKeyStored;
                        UpsertAction::StoreApiKey { tenant_id: self.tenant_id.clone(), api_key }
                    },
                    None => {
                        self.stage = UpsertStage::Finished;
                        UpsertAction::Reply(Ok(NO_CONTENT))
                    },
                }
            },
            UpsertEvent::ApiKeyStored(Err(e)) => {
                self.stage = UpsertStage::Finished;
                UpsertAction::Reply(Err(e))
            },
            UpsertEvent::ApiKeyStored(Ok(())) => {
                self.stage = UpsertStage::Finished;
                UpsertAction::Reply(Ok(NO_CONTENT))
            },
        }
    }
}


/// The admin check admits exactly the requests whose `x-admin-api-key`
/// equals a configured admin key.
pub proof fn law_admin_check(admin_api_key: Option<String>, admin_header: Option<String>, r: Result<(), ApiError>)
    requires
        admin_checked(admin_api_key, admin_header, r),
    ensures
        r is Ok <==> key_matches(admin_api_key, admin_header),
{
}

/// A policy is read only on behalf of the administrator or of a holder of
/// the tenant's key, and every report moves the read forward.
pub proof fn law_policy_read_authorized(
    tenant_id: String,
    policy_key: String,
    admin_api_key: Option<String>,
    admin_header: Option<String>,
    provided_api_key: Option<String>,
    flow: PolicyReadFlow,
    action: PolicyReadAction,
    event: PolicyReadEvent,
    next: PolicyReadFlow,
    next_action: PolicyReadAction,
)
    ensures
        PolicyReadFlow::started(
            tenant_id,
            policy_key,
            admin_api_key,
            admin_header,
            provided_api_key,
            flow,
            action,
        ) && action is LoadPolicy ==> key_matches(admin_api_key, admin_header),
        flow.accepts(event) && flow.stepped(event, next, next_action) ==> {
            &&& next.stage.rank() > flow.stage.rank()
            &&& next_action is LoadPolicy ==> (event matches PolicyReadEvent::ApiKeyLoaded(
                Ok(stored),
            ) && key_matches(stored, flow.provided_api_key))
            &&& next_action matches PolicyReadAction::Reply(Ok(_)) ==> flow.stage is AwaitingPolicy
        },
{
}

/// Nothing is written unless a configured admin key was presented and the
/// policy has a positive capacity and a rate that does not compare at most
/// zero; the policy written is the one requested. The API key is written
/// only after the policy, and success is reported only when every write
/// succeeded.
pub proof fn law_policy_write_guarded(
    tenant_id: String,
    policy_key: String,
    body: UpsertPolicyRequest,
    rate_at_most_zero: bool,
    admin_api_key: Option<String>,
    admin_header: Option<String>,
    flow: UpsertFlow,
    action: UpsertAction,
    event: UpsertEvent,
    next: UpsertFlow,
    next_action: UpsertAction,
)
    ensures
        UpsertFlow::started(
            tenant_id,
            policy_key,
            body,
            rate_at_most_zero,
            admin_api_key,
            admin_header,
            flow,
            action,
        ) && action is StorePolicy ==> {
            &&& admin_api_key is Some
            &&& key_matches(admin_api_key, admin_header)
            &&& body.capacity > 0
            &&& !rate_at_most_zero
            &&& action->policy.capacity == body.capacity
            &&& action->policy.refill_tokens_per_sec == body.refill_tokens_per_sec
            &&& action->policy.algorithm == body.algorithm
        },
        flow.accepts(event) && flow.stepped(event, next, next_action) ==> {
            &&& next.stage.rank() > flow.stage.rank()
            &&& next_action is StoreApiKey ==> event == UpsertEvent::PolicyStored(Ok(()))
                && flow.api_key is Some
            &&& next_action matches UpsertAction::Reply(Ok(status)) ==> status == NO_CONTENT && (
            event == UpsertEvent::ApiKeyStored(Ok(())) || (event == UpsertEvent::PolicyStored(
                Ok(()),
            ) && flow.api_key is None))
        },
{
    if flow.accepts(event) && flow.stepped(event, next, next_action) {
        match event {
            UpsertEvent::PolicyStored(Ok(u)) => {
                assert(u == ());
                assert(event == UpsertEvent::PolicyStored(Ok(())));
            },
            UpsertEvent::ApiKeyStored(Ok(u)) => {
                assert(event == UpsertEvent::ApiKeyStored(Ok(())));
            },
            _ => {},
        }
    }
}


/// A read that reaches the policy answers with that policy exactly, every
/// field as stored, under the names it was asked for.
pub proof fn law_policy_read_returns_stored_policy(
    flow: PolicyReadFlow,
    policy: RatePolicy,
    next: PolicyReadFlow,
    action: PolicyReadAction,
)
    requires
        flow.accepts(PolicyReadEvent::PolicyLoaded(Ok(policy))),
        flow.stepped(PolicyReadEvent::PolicyLoaded(Ok(policy)), next, action),
    ensures
        action matches PolicyReadAction::Reply(Ok(resp)) && {
            &&& resp.policy == policy
            &&& resp.policy.capacity == policy.capacity
            &&& resp.policy.refill_tokens_per_sec == policy.refill_tokens_per_sec
            &&& resp.policy.algorithm == policy.algorithm
            &&& resp.tenant_id == flow.tenant_id
            &&& resp.policy_key == flow.policy_key
        },
        next.stage is Finished,
{
}

/// The administrator's key opens every policy for reading.
pub proof fn law_admin_reads_any_policy(
    tenant_id: String,
    policy_key: String,
    admin_api_key: Option<String>,
    admin_header: Option<String>,
    provided_api_key: Option<String>,
    flow: PolicyReadFlow,
    action: PolicyReadAction,
)
    requires
        PolicyReadFlow::started(
            tenant_id,
            policy_key,
            admin_api_key,
            admin_header,
            provided_api_key,
            flow,
            action,
        ),
        admin_api_key matches Some(a) && admin_header matches Some(h) && a@ == h@,
    ensures
        action == (PolicyReadAction::LoadPolicy { tenant_id, policy_key }),
{
}

/// An administrator's write of a policy with positive capacity and a rate
/// that does not compare at most zero is always stored, as requested; a
/// write is refused as a bad request only for a zero capacity or such a
/// rate.
pub proof fn law_valid_admin_write_is_stored(
    tenant_id: String,
    policy_key: String,
    body: UpsertPolicyRequest,
    rate_at_most_zero: bool,
    admin_api_key: Option<String>,
    admin_header: Option<String>,
    flow: UpsertFlow,
    action: UpsertAction,
)
    requires
        UpsertFlow::started(
            tenant_id,
            policy_key,
            body,
            rate_at_most_zero,
            admin_api_key,
            admin_header,
            flow,
            action,
        ),
    ensures
        admin_api_key matches Some(a) && admin_header matches Some(h) && a@ == h@ && body.capacity
            > 0 && !rate_at_most_zero ==> {
            &&& action is StorePolicy
            &&& action->StorePolicy_tenant_id == tenant_id
            &&& action->StorePolicy_policy_key == policy_key
            &&& action->policy.capacity == body.capacity
            &&& action->policy.refill_tokens_per_sec == body.refill_tokens_per_sec
            &&& action->policy.algorithm == body.algorithm
            &&& flow.stage is AwaitingPolicyStored
        },
        action matches UpsertAction::Reply(Err(ApiError::BadRequest(_))) ==> body.capacity == 0
            || rate_at_most_zero,
{
}

/// After the policy is stored, the API key the request carries is stored
/// next, under the same tenant; without one the write answers 204.
pub proof fn law_api_key_follows_policy(
    flow: UpsertFlow,
    next: UpsertFlow,
    action: UpsertAction,
)
    requires
        flow.accepts(UpsertEvent::PolicyStored(Ok(()))),
        flow.stepped(UpsertEvent::PolicyStored(Ok(())), next, action),
    ensures
        flow.api_key matches Some(k) ==> action == (UpsertAction::StoreApiKey {
            tenant_id: flow.tenant_id,
            api_key: k,
        }),
        flow.api_key is None ==> action == UpsertAction::Reply(Ok(NO_CONTENT)),
{
}

} // verus!
