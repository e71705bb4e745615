use std::time::Duration;

use prometheus::{HistogramOpts, Registry};
use wasm_executor::metrics::{registered, MetricsError, WasmExecutorMetrics, WasmImportsDetails};

const NO_IMPORTS: WasmImportsDetails = WasmImportsDetails {
    imports_call_simple: false,
    imports_call_cycles_add: false,
    imports_canister_cycle_balance: false,
    imports_msg_cycles_available: false,
    imports_msg_cycles_refunded: false,
    imports_msg_cycles_accept: false,
    imports_mint_cycles: false,
};

const COUNTERS: [&str; 7] = [
    "execution_wasm_imports_call_simple_total",
    "execution_wasm_imports_call_cycles_add",
    "execution_wasm_imports_canister_cycle_balance",
    "execution_wasm_imports_msg_cycles_available",
    "execution_wasm_imports_msg_cycles_refunded",
    "execution_wasm_imports_msg_cycles_accept",
    "execution_wasm_imports_mint_cycles",
];

fn bounds() -> HistogramOpts {
    HistogramOpts::new("bounds", "bounds").buckets(vec![0.0, 0.5, 2.0])
}

fn counter(registry: &Registry, name: &str) -> f64 {
    let families = registry.gather();
    let family = families.iter().find(|family| family.get_name() == name).unwrap();
    family.get_metric()[0].get_counter().get_value()
}

#[test]
fn the_metrics_are_registered_under_their_names() {
    let registry = Registry::new();
    let metrics = WasmExecutorMetrics::new(&registry, bounds()).ok().unwrap();
    let gathered: Vec<(String, String)> = registry
        .gather()
        .iter()
        .map(|family| (family.get_name().to_string(), family.get_help().to_string()))
        .collect();
    let expected: Vec<(String, String)> = vec![
        (
            "execution_wasm_compile",
            "The duration of Wasm module compilation including validation and instrumentation",
        ),
        (
            "execution_wasm_imports_call_cycles_add",
            "The number of Wasm modules that import ic0.call_cycles_add",
        ),
        (
            "execution_wasm_imports_call_simple_total",
            "The number of Wasm modules that import ic0.call_simple",
        ),
        (
            "execution_wasm_imports_canister_cycle_balance",
            "The number of Wasm modules that import ic0.canister_cycle_balance",
        ),
        (
            "execution_wasm_imports_mint_cycles",
            "The number of Wasm modules that import ic0.mint_cycles",
        ),
        (
            "execution_wasm_imports_msg_cycles_accept",
            "The number of Wasm modules that import ic0.msg_cycles_accept",
        ),
        (
            "execution_wasm_imports_msg_cycles_available",
            "The number of Wasm modules that import ic0.msg_cycles_available",
        ),
        (
            "execution_wasm_imports_msg_cycles_refunded",
            "The number of Wasm modules that import ic0.msg_cycles_refunded",
        ),
    ]
    .into_iter()
    .map(|(name, help)| (name.to_string(), help.to_string()))
    .collect();
    assert_eq!(gathered, expected);
    for name in COUNTERS {
        assert_eq!(counter(&registry, name), 0.0);
    }
    assert_eq!(metrics.compilation_count(), 0);
}

#[test]
fn each_import_moves_its_own_counter() {
    let imports = [
        WasmImportsDetails { imports_call_simple: true, ..NO_IMPORTS },
        WasmImportsDetails { imports_call_cycles_add: true, ..NO_IMPORTS },
        WasmImportsDetails { imports_canister_cycle_balance: true, ..NO_IMPORTS },
        WasmImportsDetails { imports_msg_cycles_available: true, ..NO_IMPORTS },
        WasmImportsDetails { imports_msg_cycles_refunded: true, ..NO_IMPORTS },
        WasmImportsDetails { imports_msg_cycles_accept: true, ..NO_IMPORTS },
        WasmImportsDetails { imports_mint_cycles: true, ..NO_IMPORTS },
    ];
    for (i, details) in imports.iter().enumerate() {
        let registry = Registry::new();
        let mut metrics = WasmExecutorMetrics::new(&registry, bounds()).ok().unwrap();
        metrics.observe_imports(details);
        metrics.observe_imports(&NO_IMPORTS);
        for (j, name) in COUNTERS.iter().enumerate() {
            assert_eq!(counter(&registry, name), if i == j { 1.0 } else { 0.0 });
        }
        assert_eq!(metrics.compilation_count(), 0);
    }
}

#[test]
fn each_counter_counts_the_modules_that_import_its_function() {
    let registry = Registry::new();
    let mut metrics = WasmExecutorMetrics::new(&registry, bounds()).ok().unwrap();
    let modules = [
        WasmImportsDetails { imports_call_simple: true, imports_mint_cycles: true, ..NO_IMPORTS },
        NO_IMPORTS,
        WasmImportsDetails { imports_mint_cycles: true, ..NO_IMPORTS },
        WasmImportsDetails {
            imports_mint_cycles: true,
            imports_msg_cycles_accept: true,
            ..NO_IMPORTS
        },
    ];
    for module in &modules {
        metrics.observe_imports(module);
    }
    let counts: Vec<f64> = COUNTERS.iter().map(|name| counter(&registry, name)).collect();
    assert_eq!(counts, vec![1.0, 0.0, 0.0, 0.0, 0.0, 1.0, 3.0]);
}

#[test]
fn compilations_are_counted_and_measured() {
    let registry = Registry::new();
    let mut metrics = WasmExecutorMetrics::new(&registry, bounds()).ok().unwrap();
    metrics.observe_compilation(Duration::from_millis(250));
    metrics.observe_compilation(Duration::from_secs(1));
    metrics.observe_compilation(Duration::from_secs(5));
    assert_eq!(metrics.compilation_count(), 3);
    let families = registry.gather();
    let family = families.iter().find(|f| f.get_name() == "execution_wasm_compile").unwrap();
    let histogram = family.get_metric()[0].get_histogram();
    assert_eq!(histogram.get_sample_count(), 3);
    assert_eq!(histogram.get_sample_sum(), 6.25);
    let buckets: Vec<(f64, u64)> = histogram
        .get_bucket()
        .iter()
        .map(|bucket| (bucket.get_upper_bound(), bucket.get_cumulative_count()))
        .collect();
    assert_eq!(buckets, vec![(0.0, 0), (0.5, 1), (2.0, 2)]);
    assert_eq!(counter(&registry, "execution_wasm_imports_mint_cycles"), 0.0);
}

#[test]
fn metrics_are_registered_once() {
    let registry = Registry::new();
    let first = WasmExecutorMetrics::new(&registry, bounds());
    assert!(first.is_ok());
    match WasmExecutorMetrics::new(&registry, bounds()) {
        Err(MetricsError::Registration(refusal)) => {
            assert!(matches!(refusal.error(), prometheus::Error::AlreadyReg));
        }
        _ => panic!("registered twice"),
    }
    assert!(WasmExecutorMetrics::new(&Registry::new(), bounds()).is_ok());
}

#[test]
fn one_refused_metric_refuses_them_all() {
    let registry = Registry::new();
    let name = "execution_wasm_imports_mint_cycles";
    let other = prometheus::IntCounter::new(name, "another counter").unwrap();
    registry.register(Box::new(other)).unwrap();
    let metrics = WasmExecutorMetrics::new(&registry, bounds());
    assert!(matches!(metrics, Err(MetricsError::Registration(_))));
}

#[test]
fn bounds_that_do_not_increase_make_no_histogram() {
    let registry = Registry::new();
    let opts = HistogramOpts::new("bounds", "bounds").buckets(vec![1.0, 1.0]);
    assert!(matches!(WasmExecutorMetrics::new(&registry, opts), Err(MetricsError::Definition(_))));
    assert!(registry.gather().is_empty());
    assert!(WasmExecutorMetrics::new(&registry, bounds()).is_ok());
}

#[test]
fn a_metric_is_kept_if_the_registry_has_taken_it() {
    assert!(matches!(registered(7, Ok(())), Ok(7)));
    let registry = Registry::new();
    let first = WasmExecutorMetrics::new(&registry, bounds());
    assert!(first.is_ok());
    let refusal = match WasmExecutorMetrics::new(&registry, bounds()) {
        Err(MetricsError::Registration(refusal)) => refusal,
        _ => panic!("registered twice"),
    };
    match registered(7, Err(refusal)) {
        Err(MetricsError::Registration(refusal)) => {
            assert!(matches!(refusal.error(), prometheus::Error::AlreadyReg));
        }
        _ => panic!("kept"),
    }
}
