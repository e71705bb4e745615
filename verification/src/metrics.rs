//! What the executor counts and measures, and how it is registered for scraping.
use core::time::Duration;
use vstd::prelude::*;

verus! {

/// Why a metric could not be made or registered.
#[verifier::external_type_specification]
#[verifier::external_body]
pub struct ExError(prometheus::Error);

/// Where metrics are registered to be scraped.
#[verifier::external_type_specification]
#[verifier::external_body]
pub struct ExRegistry(prometheus::Registry);

/// A histogram of observed values.
#[verifier::external_type_specification]
#[verifier::external_body]
pub struct ExHistogram(prometheus::Histogram);

/// The options of a histogram. The executor takes the bounds of the buckets from them.
#[verifier::external_type_specification]
#[verifier::external_body]
pub struct ExHistogramOpts(prometheus::HistogramOpts);

/// A character that may stand anywhere in the name of a metric.
pub open spec fn is_name_start(c: char) -> bool {
    'a' <= c <= 'z' || 'A' <= c <= 'Z' || c == '_' || c == ':'
}

/// A name that a metric can have: letters, underscores, colons, and digits after the first
/// character.
pub open spec fn is_metric_name(name: Seq<char>) -> bool {
    &&& name.len() > 0
    &&& is_name_start(name[0])
    &&& forall|i: int|
        0 < i < name.len() ==> is_name_start(#[trigger] name[i]) || '0' <= name[i] <= '9'
}

/// Whether a metric can have this name and this explanation.
pub open spec fn describes_metric(name: Seq<char>, help: Seq<char>) -> bool {
    is_metric_name(name) && help.len() > 0
}

/// The name of a metric and the sentence that explains it.
pub struct Description {
    pub name: Seq<char>,
    pub help: Seq<char>,
}

pub open spec fn description(name: Seq<char>, help: Seq<char>) -> Description {
    Description { name, help }
}

/// Why a registry has not taken a metric.
pub struct Refusal {
    error: prometheus::Error,
    registry: Ghost<prometheus::Registry>,
    description: Ghost<Description>,
}

impl Refusal {
    /// What the registry has answered.
    pub closed spec fn answer(&self) -> prometheus::Error {
        self.error
    }

    /// The registry that the metric was handed to.
    pub closed spec fn registry(&self) -> prometheus::Registry {
        self.registry@
    }

    /// How the refused metric is named and explained.
    pub closed spec fn description(&self) -> Description {
        self.description@
    }

    /// What the registry has answered.
    pub fn error(&self) -> (error: &prometheus::Error)
        ensures
            *error == self.answer(),
    {
        &self.error
    }
}

/// Keeps a [`prometheus::IntCounter`], whose type is generic over a trait of its crate.
#[verifier::external_body]
struct IntCounterHandle {
    inner: prometheus::IntCounter,
}

/// A counter that only this value moves. What is registered of it is only read.
pub struct Counter {
    handle: IntCounterHandle,
    value: Ghost<u64>,
    description: Ghost<Description>,
    registry: Ghost<Option<prometheus::Registry>>,
}

impl Counter {
    /// What the counter has counted.
    pub closed spec fn value(&self) -> u64 {
        self.value@
    }

    /// How the counter is named and explained.
    pub closed spec fn description(&self) -> Description {
        self.description@
    }

    /// The registry that has taken the counter.
    pub closed spec fn registry(&self) -> Option<prometheus::Registry> {
        self.registry@
    }

    /// Calls [`prometheus::IntCounter::new`], which makes a counter of the name and the help,
    /// standing at zero, exactly if the help is not empty and the name is the name of a metric. No
    /// registry knows the new counter.
    #[verifier::external_body]
    fn new(name: &str, help: &str) -> (counter: Result<Counter, prometheus::Error>)
        ensures
            counter is Ok <==> describes_metric(name@, help@),
            counter is Ok ==> counter->Ok_0.value() == 0,
            counter is Ok ==> counter->Ok_0.description() == description(name@, help@),
            counter is Ok ==> counter->Ok_0.registry() is None,
    {
        prometheus::IntCounter::new(name, help).map(
            |inner|
                Counter {
                    handle: IntCounterHandle { inner },
                    value: Ghost(0),
                    description: Ghost(description(name@, help@)),
                    registry: Ghost(None),
                },
        )
    }

    /// Calls [`prometheus::IntCounter::inc`], which adds one to the counter and wraps around at
    /// the end of the 64-bit range. Nobody else moves the counter: its handle never leaves this
    /// value but into a registry, which only reads it.
    #[verifier::external_body]
    fn inc(&mut self)
        ensures
            final(self).value() == old(self).value().wrapping_add(1),
            final(self).description() == old(self).description(),
            final(self).registry() == old(self).registry(),
    {
        self.handle.inner.inc();
    }

    /// Calls [`prometheus::Registry::register`] with a second handle on the counter: either the
    /// registry has the counter then, or it answers why it refuses it. Which of the two depends on
    /// what is registered there already, so nothing is claimed of that.
    #[verifier::external_body]
    fn register(&mut self, registry: &prometheus::Registry) -> (outcome: Result<(), Refusal>)
        ensures
            final(self).value() == old(self).value(),
            final(self).description() == old(self).description(),
            outcome is Ok ==> final(self).registry() == Some(*registry),
            outcome is Err ==> final(self).registry() == old(self).registry(),
            outcome is Err ==> outcome->Err_0.registry() == *registry,
            outcome is Err ==> outcome->Err_0.description() == old(self).description(),
    {
        registry.register(Box::new(self.handle.inner.clone())).map_err(
            |error|
                Refusal { error, registry: Ghost(*registry), description: self.description },
        )
    }
}

/// Whether [`prometheus::Histogram::with_opts`] takes the bucket bounds of these options.
pub uninterp spec fn takes_bounds(bounds: prometheus::HistogramOpts) -> bool;

/// Whether a histogram can be made of the name, the explanation and the bucket bounds.
pub open spec fn makes_histogram(
    name: Seq<char>,
    help: Seq<char>,
    bounds: prometheus::HistogramOpts,
) -> bool {
    describes_metric(name, help) && takes_bounds(bounds)
}

/// A histogram of durations that only this value feeds. What is registered of it is only read.
pub struct DurationHistogram {
    handle: prometheus::Histogram,
    durations: Ghost<Seq<Duration>>,
    description: Ghost<Description>,
    bounds: Ghost<prometheus::HistogramOpts>,
    registry: Ghost<Option<prometheus::Registry>>,
}

impl DurationHistogram {
    /// The durations that were observed, in their order.
    pub closed spec fn durations(&self) -> Seq<Duration> {
        self.durations@
    }

    /// The number of samples. It has 63 bits and wraps around.
    pub open spec fn samples(&self) -> u64 {
        sample_number(self.durations())
    }

    /// How the histogram is named and explained.
    pub closed spec fn description(&self) -> Description {
        self.description@
    }

    /// The options whose bucket bounds the histogram was made with.
    pub closed spec fn bounds(&self) -> prometheus::HistogramOpts {
        self.bounds@
    }

    /// The registry that has taken the histogram.
    pub closed spec fn registry(&self) -> Option<prometheus::Registry> {
        self.registry@
    }

    /// Calls [`prometheus::Histogram::with_opts`] with the name, the help and the bucket bounds
    /// of the given options. It makes a histogram, which has no sample yet, exactly if the help is
    /// not empty, the name is the name of a metric and it takes the bounds. No registry knows the
    /// new histogram. Whether it takes the bounds depends on nothing but the bounds: it takes those
    /// that increase. That condition has only a name here, because the bounds are floating-point
    /// numbers.
    #[verifier::external_body]
    fn new(name: &str, help: &str, bounds: prometheus::HistogramOpts) -> (histogram: Result<
        DurationHistogram,
        prometheus::Error,
    >)
        ensures
            histogram is Ok <==> (describes_metric(name@, help@) && takes_bounds(bounds)),
            histogram is Ok ==> histogram->Ok_0.durations() == Seq::<Duration>::empty(),
            histogram is Ok ==> histogram->Ok_0.description() == description(name@, help@),
            histogram is Ok ==> histogram->Ok_0.bounds() == bounds,
            histogram is Ok ==> histogram->Ok_0.registry() is None,
    {
        let opts = prometheus::HistogramOpts::new(name, help).buckets(bounds.buckets);
        prometheus::Histogram::with_opts(opts).map(
            |handle|
                DurationHistogram {
                    handle,
                    durations: Ghost(Seq::empty()),
                    description: Ghost(description(name@, help@)),
                    bounds: Ghost(bounds),
                    registry: Ghost(None),
                },
        )
    }

    /// Calls [`prometheus::Histogram::observe`] with the duration in seconds, which records it as
    /// one more sample. Into which bucket it falls is left unsaid: the bounds are floating-point
    /// numbers.
    #[verifier::external_body]
    fn observe(&mut self, elapsed: Duration)
        ensures
            final(self).durations() == old(self).durations().push(elapsed),
            final(self).description() == old(self).description(),
            final(self).bounds() == old(self).bounds(),
            final(self).registry() == old(self).registry(),
    {
        self.handle.observe(elapsed.as_secs_f64());
    }

    /// Calls [`prometheus::Histogram::get_sample_count`], which returns the number of samples.
    /// That number has 63 bits and wraps around.
    #[verifier::external_body]
    fn sample_count(&self) -> (count: u64)
        ensures
            count == self.samples(),
    {
        self.handle.get_sample_count()
    }

    /// Calls [`prometheus::Registry::register`] with a second handle on the histogram: either the
    /// registry has the histogram then, or it answers why it refuses it. Which of the two depends
    /// on what is registered there already, so nothing is claimed of that.
    #[verifier::external_body]
    fn register(&mut self, registry: &prometheus::Registry) -> (outcome: Result<(), Refusal>)
        ensures
            final(self).durations() == old(self).durations(),
            final(self).description() == old(self).description(),
            final(self).bounds() == old(self).bounds(),
            outcome is Ok ==> final(self).registry() == Some(*registry),
            outcome is Err ==> final(self).registry() == old(self).registry(),
            outcome is Err ==> outcome->Err_0.registry() == *registry,
            outcome is Err ==> outcome->Err_0.description() == old(self).description(),
    {
        registry.register(Box::new(self.handle.clone())).map_err(
            |error|
                Refusal { error, registry: Ghost(*registry), description: self.description },
        )
    }
}

/// How many samples a histogram counts after these durations: the count has 63 bits.
pub open spec fn sample_number(durations: Seq<Duration>) -> u64 {
    (durations.len() % 0x8000_0000_0000_0000) as u64
}

/// Which system API functions, all of them about to be retired, a module imports.
#[derive(Clone, Copy, Debug, PartialEq, Eq, Structural)]
pub struct WasmImportsDetails {
    pub imports_call_simple: bool,
    pub imports_call_cycles_add: bool,
    pub imports_canister_cycle_balance: bool,
    pub imports_msg_cycles_available: bool,
    pub imports_msg_cycles_refunded: bool,
    pub imports_msg_cycles_accept: bool,
    pub imports_mint_cycles: bool,
}

/// What the metrics stand at and how they were set up. The descriptions and the registries are in
/// the order of the counters, with those of the compilation histogram at the end.
#[verifier::ext_equal]
pub struct MetricsView {
    pub imports_call_simple: u64,
    pub imports_call_cycles_add: u64,
    pub imports_canister_cycle_balance: u64,
    pub imports_msg_cycles_available: u64,
    pub imports_msg_cycles_refunded: u64,
    pub imports_msg_cycles_accept: u64,
    pub imports_mint_cycles: u64,
    /// How long each compilation took.
    pub durations: Seq<Duration>,
    pub descriptions: Seq<Description>,
    /// Where each metric is registered.
    pub registries: Seq<Option<prometheus::Registry>>,
    /// The options whose bucket bounds the compilation histogram was made with.
    pub bounds: prometheus::HistogramOpts,
}

/// A count after a module was seen that has the import or has it not.
pub open spec fn counted(count: u64, imported: bool) -> u64 {
    if imported {
        count.wrapping_add(1)
    } else {
        count
    }
}

impl MetricsView {
    /// The metrics after a module with these imports was seen.
    pub open spec fn observe(self, imports: WasmImportsDetails) -> MetricsView {
        MetricsView {
            imports_call_simple: counted(self.imports_call_simple, imports.imports_call_simple),
            imports_call_cycles_add: counted(
                self.imports_call_cycles_add,
                imports.imports_call_cycles_add,
            ),
            imports_canister_cycle_balance: counted(
                self.imports_canister_cycle_balance,
                imports.imports_canister_cycle_balance,
            ),
            imports_msg_cycles_available: counted(
                self.imports_msg_cycles_available,
                imports.imports_msg_cycles_available,
            ),
            imports_msg_cycles_refunded: counted(
                self.imports_msg_cycles_refunded,
                imports.imports_msg_cycles_refunded,
            ),
            imports_msg_cycles_accept: counted(
                self.imports_msg_cycles_accept,
                imports.imports_msg_cycles_accept,
            ),
            imports_mint_cycles: counted(self.imports_mint_cycles, imports.imports_mint_cycles),
            ..self
        }
    }

    /// The metrics after a compilation that took so long.
    pub open spec fn compile(self, elapsed: Duration) -> MetricsView {
        MetricsView { durations: self.durations.push(elapsed), ..self }
    }

    /// How many compilations are counted.
    pub open spec fn compilations(self) -> u64 {
        sample_number(self.durations)
    }

    /// Whether the registry has every one of the metrics.
    pub open spec fn registered_in(self, registry: prometheus::Registry) -> bool {
        self.registries == all_in(registry)
    }

    /// Whether the metrics were set up in the same way: with the same names, explanations and
    /// bucket bounds, and in the same registries.
    pub open spec fn set_up_like(self, other: MetricsView) -> bool {
        &&& self.descriptions == other.descriptions
        &&& self.registries == other.registries
        &&& self.bounds == other.bounds
    }
}

/// The registries of the metrics where one registry has them all.
pub open spec fn all_in(registry: prometheus::Registry) -> Seq<Option<prometheus::Registry>> {
    Seq::new(metric_descriptions().len(), |i: int| Some(registry))
}

/// The metrics before anything has happened: all of them are registered.
pub open spec fn initial_metrics(
    registry: prometheus::Registry,
    bounds: prometheus::HistogramOpts,
) -> MetricsView {
    MetricsView {
        imports_call_simple: 0,
        imports_call_cycles_add: 0,
        imports_canister_cycle_balance: 0,
        imports_msg_cycles_available: 0,
        imports_msg_cycles_refunded: 0,
        imports_msg_cycles_accept: 0,
        imports_mint_cycles: 0,
        durations: Seq::empty(),
        descriptions: metric_descriptions(),
        registries: all_in(registry),
        bounds,
    }
}

/// The names of the metrics and their explanations.
pub open spec fn metric_descriptions() -> Seq<Description> {
    seq![
        Description {
            name: "execution_wasm_imports_call_simple_total"@,
            help: "The number of Wasm modules that import ic0.call_simple"@,
        },
        Description {
            name: "execution_wasm_imports_call_cycles_add"@,
            help: "The number of Wasm modules that import ic0.call_cycles_add"@,
        },
        Description {
            name: "execution_wasm_imports_canister_cycle_balance"@,
            help: "The number of Wasm modules that import ic0.canister_cycle_balance"@,
        },
        Description {
            name: "execution_wasm_imports_msg_cycles_available"@,
            help: "The number of Wasm modules that import ic0.msg_cycles_available"@,
        },
        Description {
            name: "execution_wasm_imports_msg_cycles_refunded"@,
            help: "The number of Wasm modules that import ic0.msg_cycles_refunded"@,
        },
        Description {
            name: "execution_wasm_imports_msg_cycles_accept"@,
            help: "The number of Wasm modules that import ic0.msg_cycles_accept"@,
        },
        Description {
            name: "execution_wasm_imports_mint_cycles"@,
            help: "The number of Wasm modules that import ic0.mint_cycles"@,
        },
        Description {
            name: "execution_wasm_compile"@,
            help:
                "The duration of Wasm module compilation including validation and instrumentation"@,
        },
    ]
}

/// The buckets of the compilation histogram are zero and then 1, 2 and 5 times each power of ten
/// from this one on, in seconds.
pub const COMPILE_BUCKETS_MIN_POWER: i32 = -4;

/// The last power of ten of the buckets of the compilation histogram.
pub const COMPILE_BUCKETS_MAX_POWER: i32 = 1;

/// Why the metrics of an executor could not be set up.
pub enum MetricsError {
    /// A metric could not be made.
    Definition(prometheus::Error),
    /// The registry refused a metric.
    Registration(Refusal),
}

/// The metrics of an executor.
pub struct WasmExecutorMetrics {
    imports_call_simple: Counter,
    imports_call_cycles_add: Counter,
    imports_canister_cycle_balance: Counter,
    imports_msg_cycles_available: Counter,
    imports_msg_cycles_refunded: Counter,
    imports_msg_cycles_accept: Counter,
    imports_mint_cycles: Counter,
    compile: DurationHistogram,
}

impl View for WasmExecutorMetrics {
    type V = MetricsView;

    closed spec fn view(&self) -> MetricsView {
        MetricsView {
            imports_call_simple: self.imports_call_simple.value(),
            imports_call_cycles_add: self.imports_call_cycles_add.value(),
            imports_canister_cycle_balance: self.imports_canister_cycle_balance.value(),
            imports_msg_cycles_available: self.imports_msg_cycles_available.value(),
            imports_msg_cycles_refunded: self.imports_msg_cycles_refunded.value(),
            imports_msg_cycles_accept: self.imports_msg_cycles_accept.value(),
            imports_mint_cycles: self.imports_mint_cycles.value(),
            durations: self.compile.durations(),
            descriptions: seq![
                self.imports_call_simple.description(),
                self.imports_call_cycles_add.description(),
                self.imports_canister_cycle_balance.description(),
                self.imports_msg_cycles_available.description(),
                self.imports_msg_cycles_refunded.description(),
                self.imports_msg_cycles_accept.description(),
                self.imports_mint_cycles.description(),
                self.compile.description(),
            ],
            registries: seq![
                self.imports_call_simple.registry(),
                self.imports_call_cycles_add.registry(),
                self.imports_canister_cycle_balance.registry(),
                self.imports_msg_cycles_available.registry(),
                self.imports_msg_cycles_refunded.registry(),
                self.imports_msg_cycles_accept.registry(),
                self.imports_mint_cycles.registry(),
                self.compile.registry(),
            ],
            bounds: self.compile.bounds(),
        }
    }
}

/// What comes of a metric that was handed to a registry: it is kept exactly if the registry has
/// taken it.
pub fn registered<M>(metric: M, outcome: Result<(), Refusal>) -> (kept: Result<M, MetricsError>)
    ensures
        kept == match outcome {
            Ok(()) => Ok(metric),
            Err(refusal) => Err(MetricsError::Registration(refusal)),
        },
{
    match outcome {
        Ok(()) => Ok(metric),
        Err(refusal) => Err(MetricsError::Registration(refusal)),
    }
}

/// Whether a metric could not even be made.
pub open spec fn is_undefined<M>(metric: Result<M, MetricsError>) -> bool {
    metric is Err && metric->Err_0 is Definition
}

/// Whether a refusal, if there is one, is the registry's answer to one of these metrics.
pub open spec fn is_refused_by<M>(
    metric: Result<M, MetricsError>,
    registry: prometheus::Registry,
    descriptions: Seq<Description>,
) -> bool {
    metric matches Err(MetricsError::Registration(refusal)) ==> refusal.registry() == registry
        && descriptions.contains(refusal.description())
}

/// Makes a counter and registers it.
fn int_counter(registry: &prometheus::Registry, name: &str, help: &str) -> (counter: Result<
    Counter,
    MetricsError,
>)
    requires
        describes_metric(name@, help@),
    ensures
        counter is Ok ==> counter->Ok_0.value() == 0,
        counter is Ok ==> counter->Ok_0.description() == description(name@, help@),
        counter is Ok ==> counter->Ok_0.registry() == Some(*registry),
        counter matches Err(error) ==> error is Registration,
        counter matches Err(MetricsError::Registration(refusal)) ==> refusal.registry() == *registry
            && refusal.description() == description(name@, help@),
{
    match Counter::new(name, help) {
        Ok(mut counter) => {
            let outcome = counter.register(registry);
            registered(counter, outcome)
        },
        Err(error) => Err(MetricsError::Definition(error)),
    }
}

/// Makes a histogram and registers it. If it cannot be made, the registry is left alone.
fn histogram(
    registry: &prometheus::Registry,
    name: &str,
    help: &str,
    bounds: prometheus::HistogramOpts,
) -> (histogram: Result<DurationHistogram, MetricsError>)
    ensures
        is_undefined(histogram) <==> !makes_histogram(name@, help@, bounds),
        histogram is Ok ==> histogram->Ok_0.durations() == Seq::<Duration>::empty(),
        histogram is Ok ==> histogram->Ok_0.description() == description(name@, help@),
        histogram is Ok ==> histogram->Ok_0.bounds() == bounds,
        histogram is Ok ==> histogram->Ok_0.registry() == Some(*registry),
        histogram matches Err(MetricsError::Registration(refusal)) ==> refusal.registry()
            == *registry && refusal.description() == description(name@, help@),
{
    match DurationHistogram::new(name, help, bounds) {
        Ok(mut histogram) => {
            let outcome = histogram.register(registry);
            registered(histogram, outcome)
        },
        Err(error) => Err(MetricsError::Definition(error)),
    }
}

proof fn lemma_metric_names()
    ensures
        forall|i: int|
            0 <= i < metric_descriptions().len() ==> describes_metric(
                (#[trigger] metric_descriptions()[i]).name,
                metric_descriptions()[i].help,
            ),
{
    reveal_strlit("execution_wasm_imports_call_simple_total");
    reveal_strlit("execution_wasm_imports_call_cycles_add");
    reveal_strlit("execution_wasm_imports_canister_cycle_balance");
    reveal_strlit("execution_wasm_imports_msg_cycles_available");
    reveal_strlit("execution_wasm_imports_msg_cycles_refunded");
    reveal_strlit("execution_wasm_imports_msg_cycles_accept");
    reveal_strlit("execution_wasm_imports_mint_cycles");
    reveal_strlit("execution_wasm_compile");
    reveal_strlit("The number of Wasm modules that import ic0.call_simple");
    reveal_strlit("The number of Wasm modules that import ic0.call_cycles_add");
    reveal_strlit("The number of Wasm modules that import ic0.canister_cycle_balance");
    reveal_strlit("The number of Wasm modules that import ic0.msg_cycles_available");
    reveal_strlit("The number of Wasm modules that import ic0.msg_cycles_refunded");
    reveal_strlit("The number of Wasm modules that import ic0.msg_cycles_accept");
    reveal_strlit("The number of Wasm modules that import ic0.mint_cycles");
    reveal_strlit(
        "The duration of Wasm module compilation including validation and instrumentation",
    );
}

impl WasmExecutorMetrics {
    /// Makes the metrics and registers them. The bounds of the buckets of the compilation
    /// histogram are those of the given options. If they cannot be the bounds of a histogram,
    /// nothing is registered; otherwise only the registry can refuse a metric.
    pub fn new(
        metrics_registry: &prometheus::Registry,
        compile_bounds: prometheus::HistogramOpts,
    ) -> (metrics: Result<Self, MetricsError>)
        ensures
            is_undefined(metrics) <==> !takes_bounds(compile_bounds),
            metrics is Ok ==> metrics->Ok_0@ == initial_metrics(*metrics_registry, compile_bounds),
            metrics is Ok ==> metrics->Ok_0@.registered_in(*metrics_registry),
            is_refused_by(metrics, *metrics_registry, metric_descriptions()),
    {
        proof {
            lemma_metric_names();
            let d = metric_descriptions();
            assert(describes_metric(d[0].name, d[0].help));
            assert(describes_metric(d[1].name, d[1].help));
            assert(describes_metric(d[2].name, d[2].help));
            assert(describes_metric(d[3].name, d[3].help));
            assert(describes_metric(d[4].name, d[4].help));
            assert(describes_metric(d[5].name, d[5].help));
            assert(describes_metric(d[6].name, d[6].help));
            assert(describes_metric(d[7].name, d[7].help));
        }
        let compile = match histogram(
            metrics_registry,
            "execution_wasm_compile",
            "The duration of Wasm module compilation including validation and instrumentation",
            compile_bounds,
        ) {
            Ok(histogram) => histogram,
            Err(error) => return Err(error),
        };
        let imports_call_simple = match int_counter(
            metrics_registry,
            "execution_wasm_imports_call_simple_total",
            "The number of Wasm modules that import ic0.call_simple",
        ) {
            Ok(counter) => counter,
            Err(error) => return Err(error),
        };
        let imports_call_cycles_add = match int_counter(
            metrics_registry,
            "execution_wasm_imports_call_cycles_add",
            "The number of Wasm modules that import ic0.call_cycles_add",
        ) {
            Ok(counter) => counter,
            Err(error) => return Err(error),
        };
        let imports_canister_cycle_balance = match int_counter(
            metrics_registry,
            "execution_wasm_imports_canister_cycle_balance",
            "The number of Wasm modules that import ic0.canister_cycle_balance",
        ) {
            Ok(counter) => counter,
            Err(error) => return Err(error),
        };
        let imports_msg_cycles_available = match int_counter(
            metrics_registry,
            "execution_wasm_imports_msg_cycles_available",
            "The number of Wasm modules that import ic0.msg_cycles_available",
        ) {
            Ok(counter) => counter,
            Err(error) => return Err(error),
        };
        let imports_msg_cycles_refunded = match int_counter(
            metrics_registry,
            "execution_wasm_imports_msg_cycles_refunded",
            "The number of Wasm modules that import ic0.msg_cycles_refunded",
        ) {
            Ok(counter) => counter,
            Err(error) => return Err(error),
        };
        let imports_msg_cycles_accept = match int_counter(
            metrics_registry,
            "execution_wasm_imports_msg_cycles_accept",
            "The number of Wasm modules that import ic0.msg_cycles_accept",
        ) {
            Ok(counter) => counter,
            Err(error) => return Err(error),
        };
        let imports_mint_cycles = match int_counter(
            metrics_registry,
            "execution_wasm_imports_mint_cycles",
            "The number of Wasm modules that import ic0.mint_cycles",
        ) {
            Ok(counter) => counter,
            Err(error) => return Err(error),
        };
        let metrics = Self {
            imports_call_simple,
            imports_call_cycles_add,
            imports_canister_cycle_balance,
            imports_msg_cycles_available,
            imports_msg_cycles_refunded,
            imports_msg_cycles_accept,
            imports_mint_cycles,
            compile,
        };
        assert(metrics@ =~= initial_metrics(*metrics_registry, compile_bounds));
        Ok(metrics)
    }

    /// Counts the module under each function that it imports.
    pub fn observe_imports(&mut self, imports_details: &WasmImportsDetails)
        ensures
            final(self)@ == old(self)@.observe(*imports_details),
            final(self)@.set_up_like(old(self)@),
    {
        if imports_details.imports_call_simple {
            self.imports_call_simple.inc();
        }
        if imports_details.imports_call_cycles_add {
            self.imports_call_cycles_add.inc();
        }
        if imports_details.imports_canister_cycle_balance {
            self.imports_canister_cycle_balance.inc();
        }
        if imports_details.imports_msg_cycles_available {
            self.imports_msg_cycles_available.inc();
        }
        if imports_details.imports_msg_cycles_accept {
            self.imports_msg_cycles_accept.inc();
        }
        if imports_details.imports_msg_cycles_refunded {
            self.imports_msg_cycles_refunded.inc();
        }
        if imports_details.imports_mint_cycles {
            self.imports_mint_cycles.inc();
        }
    }

    /// Records how long a compilation took.
    pub fn observe_compilation(&mut self, elapsed: Duration)
        ensures
            final(self)@ == old(self)@.compile(elapsed),
            final(self)@.set_up_like(old(self)@),
    {
        self.compile.observe(elapsed);
    }

    /// How many compilations were recorded.
    pub fn compilation_count(&self) -> (count: u64)
        ensures
            count == self@.compilations(),
    {
        self.compile.sample_count()
    }
}

} // verus!
