use vstd::prelude::*;

use prometheus_client::metrics::counter::Counter;
use prometheus_client::registry::Registry;

verus! {

/// A metric registry of the `prometheus_client` crate.
#[verifier::external_type_specification]
#[verifier::external_body]
pub struct ExRegistry(Registry);

/// A monotonically increasing counter of the `prometheus_client` crate.
/// Its clones share one atomic value.
#[verifier::external_type_specification]
#[verifier::external_body]
#[verifier::reject_recursive_types(N)]
#[verifier::reject_recursive_types(A)]
pub struct ExCounter<N, A>(Counter<N, A>);

/// One metric family as a registry describes it: its name (followed by
/// `_` and the unit, where it has one), its help text and its type.
pub type FamilyDescriptor = (Seq<char>, Seq<char>, Seq<char>);

/// What a registry holds: the descriptor of each metric registered in it
/// directly, in the order of registration.
pub uninterp spec fn registered_metrics(registry: Registry) -> Seq<FamilyDescriptor>;

/// The prefix that a registry puts before every name it exposes, if any.
pub uninterp spec fn registry_prefix(registry: Registry) -> Option<Seq<char>>;

/// Whether a registry holds counters alone: no other kind of metric, no
/// collector and no sub-registry.
pub uninterp spec fn registry_holds_only_counters(registry: Registry) -> bool;

/// Calls `Registry::default`, which holds no metric, no collector and no
/// sub-registry, and has no prefix.
#[verifier::external_body]
fn new_registry() -> (registry: Registry)
    ensures
        registered_metrics(registry) == Seq::<FamilyDescriptor>::empty(),
        registry_prefix(registry) == None::<Seq<char>>,
        registry_holds_only_counters(registry),
{
    Registry::default()
}

/// Calls `Counter::default`: a counter at zero. Nothing is claimed of it.
#[verifier::external_body]
fn new_counter() -> Counter {
    Counter::default()
}

/// Calls `Counter::clone`: a handle on the same atomic value. Nothing is
/// claimed of it.
#[verifier::external_body]
fn share_counter(counter: &Counter) -> Counter {
    counter.clone()
}

/// Calls `Registry::register` with a counter, which appends a descriptor
/// with the name as given, no unit, the help text with a `.` added, and the
/// type `counter`; the prefix stays. Which counter value the family shows
/// is not stated.
#[verifier::external_body]
fn register_counter(registry: &mut Registry, name: &str, help: &str, counter: Counter)
    ensures
        registered_metrics(*final(registry)) == registered_metrics(*old(registry)).push(
            (name@, help@ + "."@, "counter"@),
        ),
        registry_prefix(*final(registry)) == registry_prefix(*old(registry)),
        registry_holds_only_counters(*final(registry)) == registry_holds_only_counters(
            *old(registry),
        ),
{
    registry.register(name, help, counter)
}

/// Calls `Counter::inc`, which adds one to the shared value and returns
/// the value before. The value is shared between threads, so nothing is
/// claimed of it.
#[verifier::external_body]
fn increment(counter: &Counter) -> u64 {
    counter.inc()
}

/// A name as a registry exposes it: after the prefix and `_`, if any.
pub open spec fn exposed_name(prefix: Option<Seq<char>>, name: Seq<char>) -> Seq<char> {
    match prefix {
        Some(p) => p + "_"@ + name,
        None => name,
    }
}

/// The `# HELP` and `# TYPE` lines that open a metric family in the text
/// exposition.
pub open spec fn family_header(prefix: Option<Seq<char>>, family: FamilyDescriptor) -> Seq<char> {
    "# HELP "@ + exposed_name(prefix, family.0) + " "@ + family.1 + "\n"@ + "# TYPE "@
        + exposed_name(prefix, family.0) + " "@ + family.2 + "\n"@
}

/// Whether `part` occurs in `text`.
pub open spec fn contains_text(text: Seq<char>, part: Seq<char>) -> bool {
    exists|i: int| 0 <= i && i + part.len() <= text.len() && #[trigger] text.subrange(i, i + part.len()) == part
}

/// `# EOF\n`: the line that closes every OpenMetrics text exposition.
pub open spec fn ends_with_eof(text: Seq<char>) -> bool {
    let eof = "# EOF\n"@;
    text.len() >= eof.len() && text.subrange(text.len() - eof.len(), text.len() as int) == eof
}

/// Calls `prometheus_client::encoding::text::encode`, which appends the
/// registry's metrics to `buffer` and then the `# EOF\n` line; it answers
/// whether encoding succeeded. Encoding fails only where the writer fails
/// or a metric other than a counter, a collector or a sub-registry does:
/// writing to a `String` never fails, so a registry of counters alone is
/// always encoded. What the counters read is not stated: they are shared
/// and change at any time.
#[verifier::external_body]
fn encode_text(buffer: &mut String, registry: &Registry) -> (ok: bool)
    ensures
        registry_holds_only_counters(*registry) ==> ok,
        ok ==> {
            &&& final(buffer)@.len() >= old(buffer)@.len()
            &&& final(buffer)@.subrange(0, old(buffer)@.len() as int) == old(buffer)@
            &&& ends_with_eof(final(buffer)@)
            &&& forall|i: int|
                0 <= i < registered_metrics(*registry).len() ==> contains_text(
                    final(buffer)@,
                    family_header(registry_prefix(*registry), #[trigger] registered_metrics(*registry)[i]),
                )
        },
{
    match prometheus_client::encoding::text::encode(buffer, registry) {
        Ok(()) => true,
        Err(_) => false,
    }
}

/// The family in which a request is counted.
#[derive(Debug, Clone, Copy, PartialEq, Eq, Structural)]
pub enum RequestFamily {
    Allowed,
    Denied,
}

/// The record that one request was counted, and in which family. Only the
/// counting methods of `Metrics` make one.
#[derive(Debug)]
pub struct Counted {
    family: RequestFamily,
}

impl Counted {
    pub closed spec fn family_spec(self) -> RequestFamily {
        self.family
    }

    /// The family the request was counted in.
    pub fn family(&self) -> (f: RequestFamily)
        ensures
            f == self.family_spec(),
    {
        self.family
    }
}

/// The counters of allowed and denied requests, and the registry that
/// exposes them.
#[derive(Debug)]
pub struct Metrics {
    registry: Registry,
    allowed: Counter,
    denied: Counter,
}

/// The families that `Metrics::new` registers, in order.
pub open spec fn request_metric_descriptors() -> Seq<FamilyDescriptor> {
    seq![
        (
            "rate_limiter_requests_allowed"@,
            "Total requests allowed by the rate limiter."@,
            "counter"@,
        ),
        (
            "rate_limiter_requests_denied"@,
            "Total requests denied by the rate limiter."@,
            "counter"@,
        ),
    ]
}

impl Metrics {
    /// The registry exposes the struct's counters alone.
    #[verifier::type_invariant]
    spec fn only_counters(self) -> bool {
        registry_holds_only_counters(self.registry)
    }

    /// The families that the registry exposes.
    pub closed spec fn registered(&self) -> Seq<FamilyDescriptor> {
        registered_metrics(self.registry)
    }

    /// The prefix of the names that the registry exposes.
    pub closed spec fn prefix(&self) -> Option<Seq<char>> {
        registry_prefix(self.registry)
    }

    /// Both counters at zero, registered as `rate_limiter_requests_allowed`
    /// and `rate_limiter_requests_denied`.
    pub fn new() -> (m: Self)
        ensures
            m.registered() == request_metric_descriptors(),
            m.prefix() == None::<Seq<char>>,
    {
        let mut registry = new_registry();
        let allowed = new_counter();
        let denied = new_counter();
        register_counter(
            &mut registry,
            "rate_limiter_requests_allowed",
            "Total requests allowed by the rate limiter",
            share_counter(&allowed),
        );
        register_counter(
            &mut registry,
            "rate_limiter_requests_denied",
            "Total requests denied by the rate limiter",
            share_counter(&denied),
        );
        proof {
            reveal_strlit("rate_limiter_requests_allowed");
            reveal_strlit("rate_limiter_requests_denied");
            reveal_strlit("Total requests allowed by the rate limiter");
            reveal_strlit("Total requests denied by the rate limiter");
            reveal_strlit("Total requests allowed by the rate limiter.");
            reveal_strlit("Total requests denied by the rate limiter.");
            reveal_strlit(".");
            reveal_strlit("counter");
            assert("Total requests allowed by the rate limiter"@ + "."@
                =~= "Total requests allowed by the rate limiter."@);
            assert("Total requests denied by the rate limiter"@ + "."@
                =~= "Total requests denied by the rate limiter."@);
            assert(registered_metrics(registry) =~= request_metric_descriptors());
        }
        Metrics { registry, allowed, denied }
    }

    /// Counts one allowed request.
    pub fn record_allowed(&self) -> (c: Counted)
        ensures
            c.family_spec() == RequestFamily::Allowed,
    {
        let _ = increment(&self.allowed);
        Counted { family: RequestFamily::Allowed }
    }

    /// Counts one denied request.
    pub fn record_denied(&self) -> (c: Counted)
        ensures
            c.family_spec() == RequestFamily::Denied,
    {
        let _ = increment(&self.denied);
        Counted { family: RequestFamily::Denied }
    }

    /// The OpenMetrics text exposition of the registry: each registered
    /// family opens with its `# HELP` and `# TYPE` lines, and the text ends
    /// with `# EOF`.
    pub fn export(&self) -> (text: String)
        ensures
            ends_with_eof(text@),
            forall|i: int|
                0 <= i < self.registered().len() ==> contains_text(
                    text@,
                    family_header(self.prefix(), #[trigger] self.registered()[i]),
                ),
    {
        proof {
            use_type_invariant(self);
        }
        let mut buffer = String::new();
        if encode_text(&mut buffer, &self.registry) {
            buffer
        } else {
            String::new()
        }
    }
}

} // verus!
