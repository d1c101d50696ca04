//! Counters and gauges for cost attribution and observability.
//!
//! Label values such as tenant ids multiply: dashboards should aggregate by agent type.
//!
//! A family finds the metric of some label values by the FNV-1a hash over the values one after the
//! other, with nothing between them. Label values that spell the same text when strung together
//! therefore share a metric, and the contracts here say so.

#[allow(unused_imports)]
use crate::budget::count_sum;
use crate::proto::CircuitBreakerState;
use prometheus::{IntCounterVec, IntGaugeVec, Opts, Registry};
use vstd::prelude::*;

verus! {

/// `prometheus::Registry`, carried unseen.
#[verifier::external_type_specification]
#[verifier::external_body]
pub struct ExRegistry(Registry);

/// `prometheus::Error`, carried unseen.
#[verifier::external_type_specification]
#[verifier::external_body]
pub struct ExPrometheusError(prometheus::Error);

/// Integer counters of one name: `prometheus::IntCounterVec`.
#[verifier::external_body]
pub struct CounterFamily {
    inner: IntCounterVec,
}

/// Integer gauges of one name: `prometheus::IntGaugeVec`.
#[verifier::external_body]
pub struct GaugeFamily {
    inner: IntGaugeVec,
}

/// The 64-bit FNV-1a hash of some bytes.
pub open spec fn fnv1a(bytes: Seq<u8>) -> u64
    decreases bytes.len(),
{
    if bytes.len() == 0 {
        0xcbf2_9ce4_8422_2325
    } else {
        (((fnv1a(bytes.drop_last()) ^ (bytes.last() as u64)) * 0x100_0000_01b3)
            % 0x1_0000_0000_0000_0000) as u64
    }
}

/// The hash by which a family finds the metric of label values that spell `text` when strung
/// together.
pub open spec fn label_slot(text: Seq<char>) -> u64 {
    fnv1a(vstd::utf8::encode_utf8(text))
}

/// The counters of a family, by the hash of their label values.
pub uninterp spec fn counter_values(family: CounterFamily) -> Map<u64, u64>;

/// The name of a family of counters.
pub uninterp spec fn counter_name(family: CounterFamily) -> Seq<char>;

/// The help text of a family of counters.
pub uninterp spec fn counter_help(family: CounterFamily) -> Seq<char>;

/// The label names of a family of counters.
pub uninterp spec fn counter_labels(family: CounterFamily) -> Seq<Seq<char>>;

/// The gauges of a family, by the hash of their label values.
pub uninterp spec fn gauge_values(family: GaugeFamily) -> Map<u64, i64>;

/// The name of a family of gauges.
pub uninterp spec fn gauge_name(family: GaugeFamily) -> Seq<char>;

/// The help text of a family of gauges.
pub uninterp spec fn gauge_help(family: GaugeFamily) -> Seq<char>;

/// The label names of a family of gauges.
pub uninterp spec fn gauge_labels(family: GaugeFamily) -> Seq<Seq<char>>;

/// The contents of some label names.
pub open spec fn label_texts(labels: Seq<&str>) -> Seq<Seq<char>> {
    labels.map_values(|label: &str| label@)
}

/// Label values strung together.
pub open spec fn joined(values: Seq<&str>) -> Seq<char>
    decreases values.len(),
{
    if values.len() == 0 {
        seq![]
    } else {
        joined(values.drop_last()) + values.last()@
    }
}

/// A letter of the Latin alphabet or an underscore.
pub open spec fn is_name_char(c: char) -> bool {
    'a' <= c <= 'z' || 'A' <= c <= 'Z' || c == '_'
}

/// A decimal digit.
pub open spec fn is_digit_char(c: char) -> bool {
    '0' <= c <= '9'
}

/// Whether Prometheus takes `text` as the name of a metric.
pub open spec fn is_metric_name(text: Seq<char>) -> bool {
    &&& text.len() > 0
    &&& forall|i: int|
        0 <= i < text.len() ==> is_name_char(#[trigger] text[i]) || text[i] == ':' || (i > 0
            && is_digit_char(text[i]))
}

/// Whether Prometheus takes `text` as the name of a label.
pub open spec fn is_label_name(text: Seq<char>) -> bool {
    &&& text.len() > 0
    &&& forall|i: int|
        0 <= i < text.len() ==> is_name_char(#[trigger] text[i]) || (i > 0 && is_digit_char(
            text[i],
        ))
}

/// Whether a family of this name, help text and label names can be made.
pub open spec fn is_description(name: Seq<char>, help: Seq<char>, labels: Seq<&str>) -> bool {
    &&& is_metric_name(name)
    &&& help.len() > 0
    &&& forall|i: int| 0 <= i < labels.len() ==> is_label_name(#[trigger] labels[i]@)
    &&& forall|i: int, j: int|
        0 <= i < j < labels.len() ==> #[trigger] labels[i]@ != #[trigger] labels[j]@
}

/// Counts after `n` more for the label values that spell `text`.
pub open spec fn counted(values: Map<u64, u64>, text: Seq<char>, n: u64) -> Map<u64, u64> {
    let slot = label_slot(text);
    let before = if values.contains_key(slot) {
        values[slot]
    } else {
        0
    };
    values.insert(slot, count_sum(before, n))
}

impl CounterFamily {
    /// `IntCounterVec::new`. It fails exactly where the name, the help text or the label names
    /// are not acceptable or a label name occurs twice. A new family has the given name, help text
    /// and label names, and no counters yet.
    #[verifier::external_body]
    fn new(name: &str, help: &str, labels: &[&str]) -> (result: Result<Self, prometheus::Error>)
        ensures
            (result is Ok) == is_description(name@, help@, labels@),
            match result {
                Ok(family) => counter_name(family) == name@ && counter_help(family) == help@
                    && counter_labels(family) == label_texts(labels@) && counter_values(
                    family,
                ).dom().is_empty(),
                Err(_) => true,
            },
    {
        Ok(CounterFamily { inner: IntCounterVec::new(Opts::new(name, help), labels)? })
    }

    /// `Registry::register` for the counters of a family. Whether it succeeds depends on what is
    /// registered already, and nothing is claimed of it.
    #[verifier::external_body]
    fn register(&self, registry: &Registry) -> (result: Result<(), prometheus::Error>) {
        registry.register(Box::new(self.inner.clone()))
    }

    /// `MetricVec::with_label_values` and `IntCounter::inc_by`: the counter of the label values,
    /// which starts at zero, grows by `n` and starts again at zero after its largest value. The
    /// name, help text and label names of the family stay. The number of label values must be that
    /// of the label names: the call panics on another.
    #[verifier::external_body]
    fn inc_by(&mut self, values: &[&str], n: u64)
        requires
            values@.len() == counter_labels(*old(self)).len(),
        ensures
            counter_values(*final(self)) == counted(
                counter_values(*old(self)),
                joined(values@),
                n,
            ),
            counter_name(*final(self)) == counter_name(*old(self)),
            counter_help(*final(self)) == counter_help(*old(self)),
            counter_labels(*final(self)) == counter_labels(*old(self)),
    {
        self.inner.with_label_values(values).inc_by(n)
    }
}

impl GaugeFamily {
    /// `IntGaugeVec::new`. It fails exactly where the name, the help text or the label names are
    /// not acceptable or a label name occurs twice. A new family has the given name, help text and
    /// label names, and no gauges yet.
    #[verifier::external_body]
    fn new(name: &str, help: &str, labels: &[&str]) -> (result: Result<Self, prometheus::Error>)
        ensures
            (result is Ok) == is_description(name@, help@, labels@),
            match result {
                Ok(family) => gauge_name(family) == name@ && gauge_help(family) == help@
                    && gauge_labels(family) == label_texts(labels@) && gauge_values(
                    family,
                ).dom().is_empty(),
                Err(_) => true,
            },
    {
        Ok(GaugeFamily { inner: IntGaugeVec::new(Opts::new(name, help), labels)? })
    }

    /// `Registry::register` for the gauges of a family. Whether it succeeds depends on what is
    /// registered already, and nothing is claimed of it.
    #[verifier::external_body]
    fn register(&self, registry: &Registry) -> (result: Result<(), prometheus::Error>) {
        registry.register(Box::new(self.inner.clone()))
    }

    /// `MetricVec::with_label_values` and `IntGauge::set`: the gauge of the label values takes a
    /// value. The name, help text and label names of the family stay. The number of label values
    /// must be that of the label names: the call panics on another.
    #[verifier::external_body]
    fn set(&mut self, values: &[&str], value: i64)
        requires
            values@.len() == gauge_labels(*old(self)).len(),
        ensures
            gauge_values(*final(self)) == gauge_values(*old(self)).insert(
                label_slot(joined(values@)),
                value,
            ),
            gauge_name(*final(self)) == gauge_name(*old(self)),
            gauge_help(*final(self)) == gauge_help(*old(self)),
            gauge_labels(*final(self)) == gauge_labels(*old(self)),
    {
        self.inner.with_label_values(values).set(value)
    }
}

/// What a family is called and how its metrics are told apart.
#[verifier::ext_equal]
pub struct FamilyDescription {
    pub name: Seq<char>,
    pub help: Seq<char>,
    pub labels: Seq<Seq<char>>,
}

/// The description of a family of counters.
pub open spec fn counter_description(family: CounterFamily) -> FamilyDescription {
    FamilyDescription {
        name: counter_name(family),
        help: counter_help(family),
        labels: counter_labels(family),
    }
}

/// The description of a family of gauges.
pub open spec fn gauge_description(family: GaugeFamily) -> FamilyDescription {
    FamilyDescription {
        name: gauge_name(family),
        help: gauge_help(family),
        labels: gauge_labels(family),
    }
}

/// How many families of counters there are.
const COUNTERS: usize = 4;

/// How many families there are.
const FAMILIES: usize = 7;

/// The counters and gauges of the cluster.
pub struct ClusterMetrics {
    requests_total: CounterFamily,
    tokens_in_total: CounterFamily,
    tokens_out_total: CounterFamily,
    cost_usd_micros_total: CounterFamily,
    budget_remaining_tokens: GaugeFamily,
    active_sequences: GaugeFamily,
    circuit_breaker_state: GaugeFamily,
}

/// The number that stands for a state of the circuit breaker.
pub open spec fn breaker_code(state: CircuitBreakerState) -> i64 {
    match state {
        CircuitBreakerState::Closed => 0,
        CircuitBreakerState::HalfOpen => 1,
        CircuitBreakerState::Open => 2,
    }
}

impl ClusterMetrics {
    /// Requests, by agent type, tenant, model, task type, sensitivity and status.
    pub closed spec fn requests(&self) -> Map<u64, u64> {
        counter_values(self.requests_total)
    }

    /// Input tokens, by agent type, tenant and model.
    pub closed spec fn tokens_in(&self) -> Map<u64, u64> {
        counter_values(self.tokens_in_total)
    }

    /// Output tokens, by agent type, tenant and model.
    pub closed spec fn tokens_out(&self) -> Map<u64, u64> {
        counter_values(self.tokens_out_total)
    }

    /// Cost in millionths of a dollar, by agent type, tenant and model.
    pub closed spec fn cost_usd_micros(&self) -> Map<u64, u64> {
        counter_values(self.cost_usd_micros_total)
    }

    /// Remaining budget in tokens, by tenant and model.
    pub closed spec fn budget_remaining(&self) -> Map<u64, i64> {
        gauge_values(self.budget_remaining_tokens)
    }

    /// Active sequences, by model and replica.
    pub closed spec fn sequences(&self) -> Map<u64, i64> {
        gauge_values(self.active_sequences)
    }

    /// State of the circuit breaker, by model.
    pub closed spec fn breakers(&self) -> Map<u64, i64> {
        gauge_values(self.circuit_breaker_state)
    }

    /// The description of the family `inference_requests_total`.
    pub closed spec fn requests_total_family(&self) -> FamilyDescription {
        counter_description(self.requests_total)
    }

    /// The description of the family `inference_tokens_in_total`.
    pub closed spec fn tokens_in_total_family(&self) -> FamilyDescription {
        counter_description(self.tokens_in_total)
    }

    /// The description of the family `inference_tokens_out_total`.
    pub closed spec fn tokens_out_total_family(&self) -> FamilyDescription {
        counter_description(self.tokens_out_total)
    }

    /// The description of the family `inference_cost_usd_micros_total`.
    pub closed spec fn cost_usd_micros_total_family(&self) -> FamilyDescription {
        counter_description(self.cost_usd_micros_total)
    }

    /// The description of the family `inference_budget_remaining_tokens`.
    pub closed spec fn budget_remaining_tokens_family(&self) -> FamilyDescription {
        gauge_description(self.budget_remaining_tokens)
    }

    /// The description of the family `inference_cluster_active_sequences`.
    pub closed spec fn active_sequences_family(&self) -> FamilyDescription {
        gauge_description(self.active_sequences)
    }

    /// The description of the family `inference_circuit_breaker_state`.
    pub closed spec fn circuit_breaker_state_family(&self) -> FamilyDescription {
        gauge_description(self.circuit_breaker_state)
    }

    /// Every family has its documented name, help text and labels.
    pub open spec fn well_formed(&self) -> bool {
        &&& self.requests_total_family() == FamilyDescription {
            name: "inference_requests_total"@,
            help: "Total inference requests"@,
            labels: seq!["agent_type"@, "tenant_id"@, "model"@, "task_type"@, "sensitivity"@, "status"@],
        }
        &&& self.tokens_in_total_family() == FamilyDescription {
            name: "inference_tokens_in_total"@,
            help: "Input tokens consumed"@,
            labels: seq!["agent_type"@, "tenant_id"@, "model"@],
        }
        &&& self.tokens_out_total_family() == FamilyDescription {
            name: "inference_tokens_out_total"@,
            help: "Output tokens generated"@,
            labels: seq!["agent_type"@, "tenant_id"@, "model"@],
        }
        &&& self.cost_usd_micros_total_family() == FamilyDescription {
            name: "inference_cost_usd_micros_total"@,
            help: "Estimated cost in USD × 1,000,000 (integer counter)"@,
            labels: seq!["agent_type"@, "tenant_id"@, "model"@],
        }
        &&& self.budget_remaining_tokens_family() == FamilyDescription {
            name: "inference_budget_remaining_tokens"@,
            help: "API budget remaining (tokens)"@,
            labels: seq!["tenant_id"@, "model"@],
        }
        &&& self.active_sequences_family() == FamilyDescription {
            name: "inference_cluster_active_sequences"@,
            help: "Currently active vLLM sequences per replica"@,
            labels: seq!["model"@, "replica_id"@],
        }
        &&& self.circuit_breaker_state_family() == FamilyDescription {
            name: "inference_circuit_breaker_state"@,
            help: "Circuit breaker state: 0=CLOSED, 1=HALF_OPEN, 2=OPEN"@,
            labels: seq!["model"@],
        }
    }

    /// Whether nothing has been counted or set.
    pub open spec fn is_fresh(&self) -> bool {
        &&& self.requests().dom().is_empty()
        &&& self.tokens_in().dom().is_empty()
        &&& self.tokens_out().dom().is_empty()
        &&& self.cost_usd_micros().dom().is_empty()
        &&& self.budget_remaining().dom().is_empty()
        &&& self.sequences().dom().is_empty()
        &&& self.breakers().dom().is_empty()
    }

    /// Makes all families, without registering them. Their descriptions are acceptable, so this
    /// succeeds.
    pub fn unregistered() -> (result: Result<Self, prometheus::Error>)
        ensures
            result matches Ok(metrics) && metrics.well_formed() && metrics.is_fresh(),
    {
        proof {
            lemma_label_names();
            lemma_family_names();
        }
        let labels = ["agent_type", "tenant_id", "model", "task_type", "sensitivity", "status"];
        assert(label_texts(labels@) =~= seq!["agent_type"@, "tenant_id"@, "model"@, "task_type"@, "sensitivity"@, "status"@]);
        let requests_total = match CounterFamily::new(
            "inference_requests_total",
            "Total inference requests",
            labels.as_slice(),
        ) {
            Ok(family) => family,
            Err(e) => return Err(e),
        };
        let labels = ["agent_type", "tenant_id", "model"];
        assert(label_texts(labels@) =~= seq!["agent_type"@, "tenant_id"@, "model"@]);
        let tokens_in_total = match CounterFamily::new(
            "inference_tokens_in_total",
            "Input tokens consumed",
            labels.as_slice(),
        ) {
            Ok(family) => family,
            Err(e) => return Err(e),
        };
        let labels = ["agent_type", "tenant_id", "model"];
        assert(label_texts(labels@) =~= seq!["agent_type"@, "tenant_id"@, "model"@]);
        let tokens_out_total = match CounterFamily::new(
            "inference_tokens_out_total",
            "Output tokens generated",
            labels.as_slice(),
        ) {
            Ok(family) => family,
            Err(e) => return Err(e),
        };
        let labels = ["agent_type", "tenant_id", "model"];
        assert(label_texts(labels@) =~= seq!["agent_type"@, "tenant_id"@, "model"@]);
        let cost_usd_micros_total = match CounterFamily::new(
            "inference_cost_usd_micros_total",
            "Estimated cost in USD × 1,000,000 (integer counter)",
            labels.as_slice(),
        ) {
            Ok(family) => family,
            Err(e) => return Err(e),
        };
        let labels = ["tenant_id", "model"];
        assert(label_texts(labels@) =~= seq!["tenant_id"@, "model"@]);
        let budget_remaining_tokens = match GaugeFamily::new(
            "inference_budget_remaining_tokens",
            "API budget remaining (tokens)",
            labels.as_slice(),
        ) {
            Ok(family) => family,
            Err(e) => return Err(e),
        };
        let labels = ["model", "replica_id"];
        assert(label_texts(labels@) =~= seq!["model"@, "replica_id"@]);
        let active_sequences = match GaugeFamily::new(
            "inference_cluster_active_sequences",
            "Currently active vLLM sequences per replica",
            labels.as_slice(),
        ) {
            Ok(family) => family,
            Err(e) => return Err(e),
        };
        let labels = ["model"];
        assert(label_texts(labels@) =~= seq!["model"@]);
        let circuit_breaker_state = match GaugeFamily::new(
            "inference_circuit_breaker_state",
            "Circuit breaker state: 0=CLOSED, 1=HALF_OPEN, 2=OPEN",
            labels.as_slice(),
        ) {
            Ok(family) => family,
            Err(e) => return Err(e),
        };
        Ok(
            ClusterMetrics {
                requests_total,
                tokens_in_total,
                tokens_out_total,
                cost_usd_micros_total,
                budget_remaining_tokens,
                active_sequences,
                circuit_breaker_state,
            },
        )
    }

    /// Makes all families and registers them. Whether a registry takes them depends on what it
    /// holds already.
    pub fn new(registry: &Registry) -> (result: Result<Self, prometheus::Error>)
        ensures
            result matches Ok(metrics) ==> metrics.well_formed() && metrics.is_fresh()
                && metrics.is_registered_in(registry),
            result matches Err(e) ==> Self::registration_fails(registry, e),
    {
        let metrics = match Self::unregistered() {
            Ok(metrics) => metrics,
            Err(e) => return Err(e),
        };
        match metrics.register(registry) {
            Ok(()) => Ok(metrics),
            Err(e) => {
                assert(metrics.is_refused_by(registry, e));
                assert(Self::registration_fails(registry, e));
                Err(e)
            },
        }
    }

    /// Whether `result` is what `Registry::register` answered to family number `i`, in the order
    /// of the fields.
    closed spec fn answers(
        &self,
        registry: &Registry,
        i: int,
        result: Result<(), prometheus::Error>,
    ) -> bool {
        if i == 0 {
            call_ensures(CounterFamily::register, (&self.requests_total, registry), result)
        } else if i == 1 {
            call_ensures(CounterFamily::register, (&self.tokens_in_total, registry), result)
        } else if i == 2 {
            call_ensures(CounterFamily::register, (&self.tokens_out_total, registry), result)
        } else if i == 3 {
            call_ensures(CounterFamily::register, (&self.cost_usd_micros_total, registry), result)
        } else if i == 4 {
            call_ensures(GaugeFamily::register, (&self.budget_remaining_tokens, registry), result)
        } else if i == 5 {
            call_ensures(GaugeFamily::register, (&self.active_sequences, registry), result)
        } else {
            call_ensures(GaugeFamily::register, (&self.circuit_breaker_state, registry), result)
        }
    }

    /// Whether the registry took family number `i`.
    closed spec fn takes(&self, registry: &Registry, i: int) -> bool {
        exists|answer: Result<(), prometheus::Error>| #[trigger]
            self.answers(registry, i, answer) && answer is Ok
    }

    /// Whether the registry refused family number `i` with the error `e`.
    closed spec fn refuses(&self, registry: &Registry, i: int, e: prometheus::Error) -> bool {
        self.answers(registry, i, Err(e))
    }

    /// Whether the registry took the families from number `lo` up to `hi`.
    closed spec fn takes_all(&self, registry: &Registry, lo: int, hi: int) -> bool {
        forall|i: int| lo <= i < hi ==> #[trigger] self.takes(registry, i)
    }

    /// Whether `e` is the error of the registry for one of the families from number `lo` up to
    /// `hi`, after it took those before.
    closed spec fn refuses_one(
        &self,
        registry: &Registry,
        lo: int,
        hi: int,
        e: prometheus::Error,
    ) -> bool {
        exists|i: int|
            lo <= i < hi && #[trigger] self.refuses(registry, i, e) && self.takes_all(
                registry,
                lo,
                i,
            )
    }

    /// Whether the registry took the counters.
    pub closed spec fn counters_registered(&self, registry: &Registry) -> bool {
        self.takes_all(registry, 0, COUNTERS as int)
    }

    /// Whether `e` is the error of the registry for a family of counters, after it took those
    /// before.
    pub closed spec fn counters_refused(&self, registry: &Registry, e: prometheus::Error) -> bool {
        self.refuses_one(registry, 0, COUNTERS as int, e)
    }

    /// Whether the registry took the gauges.
    pub closed spec fn gauges_registered(&self, registry: &Registry) -> bool {
        self.takes_all(registry, COUNTERS as int, FAMILIES as int)
    }

    /// Whether `e` is the error of the registry for a family of gauges, after it took those before.
    pub closed spec fn gauges_refused(&self, registry: &Registry, e: prometheus::Error) -> bool {
        self.refuses_one(registry, COUNTERS as int, FAMILIES as int, e)
    }

    /// Whether the registry took every family.
    pub open spec fn is_registered_in(&self, registry: &Registry) -> bool {
        self.counters_registered(registry) && self.gauges_registered(registry)
    }

    /// Whether `e` is the error of the registry for a family, after it took those before.
    pub open spec fn is_refused_by(&self, registry: &Registry, e: prometheus::Error) -> bool {
        self.counters_refused(registry, e) || (self.counters_registered(registry)
            && self.gauges_refused(registry, e))
    }

    /// Whether `e` is the error of the registry for one of some new families, after it took those
    /// before.
    pub open spec fn registration_fails(registry: &Registry, e: prometheus::Error) -> bool {
        exists|metrics: Self|
            metrics.well_formed() && metrics.is_fresh() && #[trigger] metrics.is_refused_by(
                registry,
                e,
            )
    }

    /// Registers the families one after the other, up to the first that is refused.
    fn register(&self, registry: &Registry) -> (result: Result<(), prometheus::Error>)
        ensures
            match result {
                Ok(_) => self.is_registered_in(registry),
                Err(e) => self.is_refused_by(registry, e),
            },
    {
        if let Err(e) = self.register_counters(registry) {
            return Err(e);
        }
        self.register_gauges(registry)
    }

    /// Registers the counters one after the other, up to the first that is refused.
    pub fn register_counters(&self, registry: &Registry) -> (result: Result<(), prometheus::Error>)
        ensures
            match result {
                Ok(_) => self.counters_registered(registry),
                Err(e) => self.counters_refused(registry, e),
            },
    {
        let answer = self.requests_total.register(registry);
        assert(self.answers(registry, 0, answer));
        if let Err(e) = answer {
            assert(self.refuses(registry, 0, e));
            return Err(e);
        }
        assert(self.takes(registry, 0));
        let answer = self.tokens_in_total.register(registry);
        assert(self.answers(registry, 1, answer));
        if let Err(e) = answer {
            assert(self.refuses(registry, 1, e));
            return Err(e);
        }
        assert(self.takes(registry, 1));
        let answer = self.tokens_out_total.register(registry);
        assert(self.answers(registry, 2, answer));
        if let Err(e) = answer {
            assert(self.refuses(registry, 2, e));
            return Err(e);
        }
        assert(self.takes(registry, 2));
        let answer = self.cost_usd_micros_total.register(registry);
        assert(self.answers(registry, 3, answer));
        if let Err(e) = answer {
            assert(self.refuses(registry, 3, e));
            return Err(e);
        }
        assert(self.takes(registry, 3));
        Ok(())
    }

    /// Registers the gauges one after the other, up to the first that is refused.
    pub fn register_gauges(&self, registry: &Registry) -> (result: Result<(), prometheus::Error>)
        ensures
            match result {
                Ok(_) => self.gauges_registered(registry),
                Err(e) => self.gauges_refused(registry, e),
            },
    {
        let answer = self.budget_remaining_tokens.register(registry);
        assert(self.answers(registry, 4, answer));
        if let Err(e) = answer {
            assert(self.refuses(registry, 4, e));
            return Err(e);
        }
        assert(self.takes(registry, 4));
        let answer = self.active_sequences.register(registry);
        assert(self.answers(registry, 5, answer));
        if let Err(e) = answer {
            assert(self.refuses(registry, 5, e));
            return Err(e);
        }
        assert(self.takes(registry, 5));
        let answer = self.circuit_breaker_state.register(registry);
        assert(self.answers(registry, 6, answer));
        if let Err(e) = answer {
            assert(self.refuses(registry, 6, e));
            return Err(e);
        }
        assert(self.takes(registry, 6));
        Ok(())
    }

    /// Whether the gauges are those of `other`.
    pub open spec fn same_gauges(&self, other: &Self) -> bool {
        &&& self.budget_remaining() == other.budget_remaining()
        &&& self.sequences() == other.sequences()
        &&& self.breakers() == other.breakers()
    }

    /// Whether the counters are those of `other`.
    pub open spec fn same_counters(&self, other: &Self) -> bool {
        &&& self.requests() == other.requests()
        &&& self.tokens_in() == other.tokens_in()
        &&& self.tokens_out() == other.tokens_out()
        &&& self.cost_usd_micros() == other.cost_usd_micros()
    }

    /// Counts a completed request, its tokens and its cost in millionths of a dollar.
    pub fn record(
        &mut self,
        agent_type: &str,
        tenant_id: &str,
        model: &str,
        task_type: &str,
        sensitivity: &str,
        status: &str,
        tokens_in: u64,
        tokens_out: u64,
        cost_usd_micros: u64,
    )
        requires
            old(self).well_formed(),
        ensures
            final(self).well_formed(),
            final(self).same_gauges(old(self)),
            final(self).requests() == counted(
                old(self).requests(),
                agent_type@ + tenant_id@ + model@ + task_type@ + sensitivity@ + status@,
                1,
            ),
            final(self).tokens_in() == counted(
                old(self).tokens_in(),
                agent_type@ + tenant_id@ + model@,
                tokens_in,
            ),
            final(self).tokens_out() == counted(
                old(self).tokens_out(),
                agent_type@ + tenant_id@ + model@,
                tokens_out,
            ),
            final(self).cost_usd_micros() == counted(
                old(self).cost_usd_micros(),
                agent_type@ + tenant_id@ + model@,
                cost_usd_micros,
            ),
    {
        let request_labels = [agent_type, tenant_id, model, task_type, sensitivity, status];
        let cost_labels = [agent_type, tenant_id, model];
        proof {
            reveal_with_fuel(joined, 7);
            assert(joined(request_labels@) =~= agent_type@ + tenant_id@ + model@ + task_type@
                + sensitivity@ + status@);
            assert(joined(cost_labels@) =~= agent_type@ + tenant_id@ + model@);
        }
        self.requests_total.inc_by(request_labels.as_slice(), 1);
        self.tokens_in_total.inc_by(cost_labels.as_slice(), tokens_in);
        self.tokens_out_total.inc_by(cost_labels.as_slice(), tokens_out);
        self.cost_usd_micros_total.inc_by(cost_labels.as_slice(), cost_usd_micros);
    }

    /// Sets the remaining budget of a tenant for a model, in tokens.
    pub fn set_budget_remaining_tokens(&mut self, tenant_id: &str, model: &str, tokens: i64)
        requires
            old(self).well_formed(),
        ensures
            final(self).well_formed(),
            final(self).same_counters(old(self)),
            final(self).budget_remaining() == old(self).budget_remaining().insert(
                label_slot(tenant_id@ + model@),
                tokens,
            ),
            final(self).sequences() == old(self).sequences(),
            final(self).breakers() == old(self).breakers(),
    {
        let labels = [tenant_id, model];
        proof {
            reveal_with_fuel(joined, 3);
            assert(joined(labels@) =~= tenant_id@ + model@);
        }
        self.budget_remaining_tokens.set(labels.as_slice(), tokens);
    }

    /// Sets the number of active sequences of a replica.
    pub fn set_active_sequences(&mut self, model: &str, replica_id: &str, sequences: i64)
        requires
            old(self).well_formed(),
        ensures
            final(self).well_formed(),
            final(self).same_counters(old(self)),
            final(self).budget_remaining() == old(self).budget_remaining(),
            final(self).sequences() == old(self).sequences().insert(
                label_slot(model@ + replica_id@),
                sequences,
            ),
            final(self).breakers() == old(self).breakers(),
    {
        let labels = [model, replica_id];
        proof {
            reveal_with_fuel(joined, 3);
            assert(joined(labels@) =~= model@ + replica_id@);
        }
        self.active_sequences.set(labels.as_slice(), sequences);
    }

    /// Sets the state of the circuit breaker of a model, by its number.
    pub fn set_circuit_breaker_state(&mut self, model: &str, state: CircuitBreakerState)
        requires
            old(self).well_formed(),
        ensures
            final(self).well_formed(),
            final(self).same_counters(old(self)),
            final(self).budget_remaining() == old(self).budget_remaining(),
            final(self).sequences() == old(self).sequences(),
            final(self).breakers() == old(self).breakers().insert(
                label_slot(model@),
                breaker_code(state),
            ),
    {
        let labels = [model];
        let code: i64 = match state {
            CircuitBreakerState::Closed => 0,
            CircuitBreakerState::HalfOpen => 1,
            CircuitBreakerState::Open => 2,
        };
        proof {
            reveal_with_fuel(joined, 2);
            assert(joined(labels@) =~= model@);
        }
        self.circuit_breaker_state.set(labels.as_slice(), code);
    }
}

/// Requests add up: counting twice for the same label values is counting the sum.
pub proof fn law_counts_add_up(values: Map<u64, u64>, text: Seq<char>, first: u64, second: u64)
    ensures
        counted(counted(values, text, first), text, second) == counted(
            values,
            text,
            count_sum(first, second),
        ),
{
    let slot = label_slot(text);
    let before = if values.contains_key(slot) {
        values[slot]
    } else {
        0
    };
    assert(count_sum(count_sum(before, first), second) == count_sum(
        before,
        count_sum(first, second),
    ));
    assert(counted(counted(values, text, first), text, second) =~= counted(
        values,
        text,
        count_sum(first, second),
    ));
}

/// The names of the families are acceptable, and their help texts are not empty.
proof fn lemma_family_names()
    ensures
        is_metric_name("inference_requests_total"@),
        "Total inference requests"@.len() > 0,
        is_metric_name("inference_tokens_in_total"@),
        "Input tokens consumed"@.len() > 0,
        is_metric_name("inference_tokens_out_total"@),
        "Output tokens generated"@.len() > 0,
        is_metric_name("inference_cost_usd_micros_total"@),
        "Estimated cost in USD × 1,000,000 (integer counter)"@.len() > 0,
        is_metric_name("inference_budget_remaining_tokens"@),
        "API budget remaining (tokens)"@.len() > 0,
        is_metric_name("inference_cluster_active_sequences"@),
        "Currently active vLLM sequences per replica"@.len() > 0,
        is_metric_name("inference_circuit_breaker_state"@),
        "Circuit breaker state: 0=CLOSED, 1=HALF_OPEN, 2=OPEN"@.len() > 0,
{
    reveal_strlit("inference_requests_total");
    reveal_strlit("Total inference requests");
    reveal_strlit("inference_tokens_in_total");
    reveal_strlit("Input tokens consumed");
    reveal_strlit("inference_tokens_out_total");
    reveal_strlit("Output tokens generated");
    reveal_strlit("inference_cost_usd_micros_total");
    reveal_strlit("Estimated cost in USD × 1,000,000 (integer counter)");
    reveal_strlit("inference_budget_remaining_tokens");
    reveal_strlit("API budget remaining (tokens)");
    reveal_strlit("inference_cluster_active_sequences");
    reveal_strlit("Currently active vLLM sequences per replica");
    reveal_strlit("inference_circuit_breaker_state");
    reveal_strlit("Circuit breaker state: 0=CLOSED, 1=HALF_OPEN, 2=OPEN");
}

/// The label names in use are acceptable and differ from each other.
proof fn lemma_label_names()
    ensures
        is_label_name("agent_type"@),
        is_label_name("tenant_id"@),
        is_label_name("model"@),
        is_label_name("task_type"@),
        is_label_name("sensitivity"@),
        is_label_name("status"@),
        is_label_name("replica_id"@),
        "agent_type"@.len() == 10,
        "tenant_id"@.len() == 9,
        "model"@.len() == 5,
        "task_type"@.len() == 9,
        "sensitivity"@.len() == 11,
        "status"@.len() == 6,
        "replica_id"@.len() == 10,
        "tenant_id"@ != "task_type"@,
        "agent_type"@ != "replica_id"@,
{
    reveal_strlit("agent_type");
    reveal_strlit("tenant_id");
    reveal_strlit("model");
    reveal_strlit("task_type");
    reveal_strlit("sensitivity");
    reveal_strlit("status");
    reveal_strlit("replica_id");
    assert("tenant_id"@[1] != "task_type"@[1]);
    assert("agent_type"@[0] != "replica_id"@[0]);
}

/// The count under a hash, which is zero where nothing was counted.
pub open spec fn count_at(values: Map<u64, u64>, slot: u64) -> u64 {
    if values.contains_key(slot) {
        values[slot]
    } else {
        0
    }
}

/// Whether `after` is `before` with `n` more under a hash and the same under every other.
pub open spec fn grew_by(before: Map<u64, u64>, after: Map<u64, u64>, slot: u64, n: u64) -> bool {
    &&& count_at(before, slot) + n <= u64::MAX ==> count_at(after, slot) == count_at(before, slot)
        + n
    &&& after.contains_key(slot)
    &&& forall|other: u64|
        other != slot ==> #[trigger] count_at(after, other) == count_at(before, other)
}

/// A completed request counts as one under all its labels, and its tokens and its cost count whole
/// under its agent type, tenant and model, whatever its status. No gauge is touched.
pub proof fn law_completed_request_is_counted(
    metrics: &mut ClusterMetrics,
    agent_type: &str,
    tenant_id: &str,
    model: &str,
    task_type: &str,
    sensitivity: &str,
    status: &str,
    tokens_in: u64,
    tokens_out: u64,
    cost_usd_micros: u64,
)
    requires
        old(metrics).well_formed(),
        call_ensures(
            ClusterMetrics::record,
            (
                metrics,
                agent_type,
                tenant_id,
                model,
                task_type,
                sensitivity,
                status,
                tokens_in,
                tokens_out,
                cost_usd_micros,
            ),
            (),
        ),
    ensures
        ({
            let scope = label_slot(agent_type@ + tenant_id@ + model@);
            &&& grew_by(
                old(metrics).requests(),
                final(metrics).requests(),
                label_slot(
                    agent_type@ + tenant_id@ + model@ + task_type@ + sensitivity@ + status@,
                ),
                1,
            )
            &&& grew_by(old(metrics).tokens_in(), final(metrics).tokens_in(), scope, tokens_in)
            &&& grew_by(old(metrics).tokens_out(), final(metrics).tokens_out(), scope, tokens_out)
            &&& grew_by(
                old(metrics).cost_usd_micros(),
                final(metrics).cost_usd_micros(),
                scope,
                cost_usd_micros,
            )
        }),
        final(metrics).budget_remaining() == old(metrics).budget_remaining(),
        final(metrics).sequences() == old(metrics).sequences(),
        final(metrics).breakers() == old(metrics).breakers(),
        final(metrics).well_formed(),
{
}

/// Whether `after` is `before` with a value under a hash and the same under every other.
pub open spec fn is_set_to(
    before: Map<u64, i64>,
    after: Map<u64, i64>,
    slot: u64,
    value: i64,
) -> bool {
    &&& after.contains_key(slot) && after[slot] == value
    &&& forall|other: u64|
        other != slot ==> (#[trigger] after.contains_key(other) <==> before.contains_key(other))
            && (before.contains_key(other) ==> after[other] == before[other])
}

/// A gauge shows the value that was set last for its labels; the gauges of other labels, the other
/// families and the counters stay. A negative budget is shown as such.
pub proof fn law_gauges_show_what_was_set(
    budget: &mut ClusterMetrics,
    sequences: &mut ClusterMetrics,
    breakers: &mut ClusterMetrics,
    tenant_id: &str,
    model: &str,
    replica_id: &str,
    tokens: i64,
    active: i64,
    state: CircuitBreakerState,
)
    requires
        old(budget).well_formed(),
        old(sequences).well_formed(),
        old(breakers).well_formed(),
        call_ensures(
            ClusterMetrics::set_budget_remaining_tokens,
            (budget, tenant_id, model, tokens),
            (),
        ),
        call_ensures(
            ClusterMetrics::set_active_sequences,
            (sequences, model, replica_id, active),
            (),
        ),
        call_ensures(ClusterMetrics::set_circuit_breaker_state, (breakers, model, state), ()),
    ensures
        is_set_to(
            old(budget).budget_remaining(),
            final(budget).budget_remaining(),
            label_slot(tenant_id@ + model@),
            tokens,
        ),
        final(budget).sequences() == old(budget).sequences(),
        final(budget).breakers() == old(budget).breakers(),
        final(budget).same_counters(old(budget)),
        is_set_to(
            old(sequences).sequences(),
            final(sequences).sequences(),
            label_slot(model@ + replica_id@),
            active,
        ),
        final(sequences).budget_remaining() == old(sequences).budget_remaining(),
        final(sequences).breakers() == old(sequences).breakers(),
        final(sequences).same_counters(old(sequences)),
        is_set_to(
            old(breakers).breakers(),
            final(breakers).breakers(),
            label_slot(model@),
            if state == CircuitBreakerState::Closed {
                0
            } else if state == CircuitBreakerState::HalfOpen {
                1
            } else {
                2
            },
        ),
        final(breakers).budget_remaining() == old(breakers).budget_remaining(),
        final(breakers).sequences() == old(breakers).sequences(),
        final(breakers).same_counters(old(breakers)),
{
}

/// New metrics show nothing under any labels.
pub proof fn law_new_metrics_are_empty(
    result: Result<ClusterMetrics, prometheus::Error>,
    slot: u64,
)
    requires
        call_ensures(ClusterMetrics::unregistered, (), result),
    ensures
        result matches Ok(metrics) && {
            &&& count_at(metrics.requests(), slot) == 0
            &&& count_at(metrics.tokens_in(), slot) == 0
            &&& count_at(metrics.tokens_out(), slot) == 0
            &&& count_at(metrics.cost_usd_micros(), slot) == 0
            &&& !metrics.budget_remaining().contains_key(slot)
            &&& !metrics.sequences().contains_key(slot)
            &&& !metrics.breakers().contains_key(slot)
        },
{
    if let Ok(metrics) = result {
        assert(!metrics.requests().dom().contains(slot));
        assert(!metrics.tokens_in().dom().contains(slot));
        assert(!metrics.tokens_out().dom().contains(slot));
        assert(!metrics.cost_usd_micros().dom().contains(slot));
        assert(!metrics.budget_remaining().dom().contains(slot));
        assert(!metrics.sequences().dom().contains(slot));
        assert(!metrics.breakers().dom().contains(slot));
    }
}

} // verus!
