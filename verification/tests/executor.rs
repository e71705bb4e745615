use std::collections::BTreeMap;
use std::path::PathBuf;
use std::sync::Arc;
use std::time::Duration;

use prometheus::{HistogramOpts, Registry};
use wasm_executor::execution_state::{
    get_wasm_reserved_pages, ExecutionState, Memory, WasmBinary,
};
use wasm_executor::executor::{
    BinaryEncodedWasm, CacheStep, ExecutorStep, FlagStatus, FullCompilationOutput,
    PendingModulePages, PendingSystemStateChanges, WasmExecutionInput, WasmExecutionResult,
    WasmExecutor, WasmValidationDetails, EMIT_STATE_HASHES_FOR_DEBUGGING,
};
use wasm_executor::initial_state::{
    get_initial_globals_and_memory, InitialInstance, InstrumentationOutput,
};
use wasm_executor::metrics::{MetricsError, WasmImportsDetails};
use wasm_executor::module_info::{
    CustomSection, CustomSectionType, ExportedFunctions, WasmMetadata, WasmMethod,
};
use wasm_executor::platform::{HypervisorError, Platform};
use wasm_executor::process::{
    process, ApiType, ExecutionParameters, InstanceRunResult, InstanceStats, MemoryUpdate,
    ModificationTracking, OutOfInstructionsHandler, PendingInstance, PendingResult, PendingRun,
    ProcessOutcome, ProcessStep, RunReport, SandboxSafeSystemState, TakenResult,
};
use wasm_executor::state_changes::{Global, WasmStateChanges};
use wasm_executor::units::{NumBytes, NumInstructions, NumWasmPages, PageIndex, PAGE_SIZE};

struct Replica;

impl Platform for Replica {
    type WasmEmbedder = &'static str;
    type Logger = &'static str;
    type CanisterId = u64;
    type EmbedderCache = String;
    type CompilationResult = u32;
    type PageMap = BTreeMap<u64, Vec<u8>>;
    type FuncRef = &'static str;
    type ApiCall = &'static str;
    type ExecutionSettings = u8;
    type SystemState = &'static str;
    type SystemStateChanges = &'static str;
    type OutOfInstructionsHandler = &'static str;
    type WasmResult = &'static str;
    type EngineError = &'static str;
    type SubnetAvailableMemory = i64;
    type PausedExecution = ();
}

const STATS: InstanceStats = InstanceStats { accessed_pages: 5, dirty_pages: 3 };

fn executor() -> WasmExecutor<Replica> {
    let bounds = HistogramOpts::new("bounds", "bounds").buckets(vec![0.0, 1.0]);
    WasmExecutor::new("engine", &Registry::new(), bounds, "log").ok().unwrap()
}

fn memory(page: u64, byte: u8, size: usize) -> Memory<Replica> {
    Memory::new(BTreeMap::from([(page, vec![byte; 4])]), NumWasmPages(size))
}

fn section(name: &str, content: u8) -> CustomSection {
    CustomSection {
        name: name.to_string(),
        visibility: CustomSectionType::Private,
        content: vec![content],
    }
}

fn state_of(
    cache: Option<&str>,
    methods: Vec<WasmMethod>,
    sections: Vec<CustomSection>,
) -> ExecutionState<Replica> {
    ExecutionState::new(
        PathBuf::from("/canister"),
        WasmBinary {
            binary: vec![0, 97, 115, 109],
            embedder_cache: cache.map(|cache| Arc::new(cache.to_string())),
        },
        ExportedFunctions::new(methods),
        memory(1, 1, 10),
        memory(2, 2, 20),
        vec![Global::I32(1)],
        WasmMetadata::new(sections),
    )
}

fn input(
    tracking: ModificationTracking,
    execution_state: ExecutionState<Replica>,
) -> WasmExecutionInput<Replica> {
    WasmExecutionInput {
        api_type: ApiType { modification_tracking: tracking, call: "call" },
        sandbox_safe_system_state: SandboxSafeSystemState {
            canister_id: 42,
            system_state_changes: "no changes",
            details: "details",
        },
        canister_current_memory_usage: NumBytes(77),
        execution_parameters: ExecutionParameters {
            total_instruction_limit: NumInstructions(1000),
            slice_instruction_limit: NumInstructions(1000),
            settings: 9,
        },
        func_ref: "update",
        execution_state,
    }
}

fn run_report() -> RunReport<Replica> {
    RunReport {
        run_result: Ok(InstanceRunResult {
            dirty_pages: vec![PageIndex(1), PageIndex(0)],
            stable_memory_size: NumWasmPages(21),
            exported_globals: vec![Global::I64(2)],
        }),
        num_instructions_left: NumInstructions(400),
        instance_stats: STATS,
    }
}

fn taken(heap_size: usize) -> TakenResult<Replica> {
    TakenResult { wasm_result: Ok(Some("reply")), heap_size: NumWasmPages(heap_size) }
}

fn memory_update() -> MemoryUpdate<Replica> {
    MemoryUpdate {
        wasm_page_map: BTreeMap::from([(3, vec![3])]),
        wasm_memory_delta: vec![PageIndex(0), PageIndex(1)],
        stable_page_map: BTreeMap::from([(4, vec![4])]),
        stable_memory_delta: vec![PageIndex(9)],
    }
}

fn compilation_output() -> FullCompilationOutput<Replica> {
    FullCompilationOutput {
        compilation_result: 123,
        instrumentation_output: InstrumentationOutput {
            exported_functions: vec![
                WasmMethod::Query("read".to_string()),
                WasmMethod::Query("read".to_string()),
            ],
            data_pages: vec![(PageIndex(6), vec![66])],
        },
        validation_details: WasmValidationDetails {
            wasm_metadata: WasmMetadata::new(vec![section("name", 1)]),
        },
    }
}

fn pending_instance(tracking: ModificationTracking, reserved: usize) -> PendingInstance<Replica> {
    let input = input(tracking, state_of(None, vec![], vec![]));
    let (_, pending) = process(
        input.func_ref,
        input.api_type,
        input.canister_current_memory_usage,
        input.execution_parameters,
        input.sandbox_safe_system_state,
        Arc::new("compiled".to_string()),
        input.execution_state.wasm_memory,
        input.execution_state.stable_memory,
        input.execution_state.exported_globals,
        Arc::new("log"),
        NumWasmPages(reserved),
        OutOfInstructionsHandler::Default,
    );
    pending
}

fn running(tracking: ModificationTracking, reserved: usize) -> PendingRun<Replica> {
    match pending_instance(tracking, reserved).created(Ok(())) {
        ProcessStep::Run(pending) => pending,
        _ => panic!("not running"),
    }
}

fn ran(pending: PendingRun<Replica>, report: RunReport<Replica>) -> PendingResult<Replica> {
    match pending.completed(report) {
        ProcessStep::TakeResult(pending) => pending,
        _ => panic!("result not taken"),
    }
}

fn done(step: ProcessStep<Replica>) -> ProcessOutcome<Replica> {
    match step {
        ProcessStep::Done(outcome) => outcome,
        _ => panic!("not done"),
    }
}

fn assert_memory(memory: &Memory<Replica>, page: u64, bytes: &[u8], size: usize) {
    assert_eq!(memory.page_map, BTreeMap::from([(page, bytes.to_vec())]));
    assert_eq!(memory.size, NumWasmPages(size));
}

fn assert_untouched(state: &ExecutionState<Replica>) {
    assert_eq!(state.canister_root, PathBuf::from("/canister"));
    assert_eq!(state.wasm_binary.binary, vec![0, 97, 115, 109]);
    assert_memory(&state.wasm_memory, 1, &[1; 4], 10);
    assert_memory(&state.stable_memory, 2, &[2; 4], 20);
    assert_eq!(state.exported_globals, vec![Global::I32(1)]);
}

fn concluded(step: ExecutorStep<Replica>) -> PendingSystemStateChanges<Replica> {
    match step {
        ExecutorStep::TakeSystemStateChanges(pending) => pending,
        _ => panic!("execution not over"),
    }
}

// Module information and reserved pages.

fn motoko_marker() -> WasmMethod {
    WasmMethod::Update("__motoko_async_helper".to_string())
}

#[test]
fn old_motoko_canisters_have_sixteen_reserved_pages() {
    let state = state_of(None, vec![WasmMethod::Query("q".to_string()), motoko_marker()], vec![]);
    assert_eq!(get_wasm_reserved_pages(&state), NumWasmPages(16));
    let state = state_of(None, vec![motoko_marker()], vec![section("motoko:stable-types", 0)]);
    assert_eq!(get_wasm_reserved_pages(&state), NumWasmPages(16));
}

#[test]
fn other_canisters_have_no_reserved_pages() {
    let state = state_of(None, vec![motoko_marker()], vec![section("motoko:compiler", 0)]);
    assert_eq!(get_wasm_reserved_pages(&state), NumWasmPages(0));
    let state = state_of(None, vec![], vec![]);
    assert_eq!(get_wasm_reserved_pages(&state), NumWasmPages(0));
    let query = WasmMethod::Query("__motoko_async_helper".to_string());
    assert_eq!(get_wasm_reserved_pages(&state_of(None, vec![query], vec![])), NumWasmPages(0));
    let other = WasmMethod::Update("__motoko_async".to_string());
    assert_eq!(get_wasm_reserved_pages(&state_of(None, vec![other], vec![])), NumWasmPages(0));
}

#[test]
fn exports_are_found_by_kind_and_name() {
    let exports = ExportedFunctions::new(vec![
        WasmMethod::Update("a".to_string()),
        WasmMethod::System("canister_init".to_string()),
        WasmMethod::Update("a".to_string()),
    ]);
    assert!(exports.has_method(&WasmMethod::Update("a".to_string())));
    assert!(exports.has_method(&WasmMethod::System("canister_init".to_string())));
    assert!(!exports.has_method(&WasmMethod::Query("a".to_string())));
    assert!(!exports.has_method(&WasmMethod::Update("b".to_string())));
}

#[test]
fn sections_are_found_by_name() {
    let metadata = WasmMetadata::new(vec![section("a", 1), section("b", 2), section("a", 3)]);
    assert!(metadata.contains_section(&"a".to_string()));
    assert!(metadata.contains_section(&"b".to_string()));
    assert!(!metadata.contains_section(&"c".to_string()));
}

// The execution of a message on a compiled module.

#[test]
fn the_instance_is_requested_with_what_was_given() {
    let given = input(ModificationTracking::Track, state_of(None, vec![], vec![]));
    let (request, pending) = process::<Replica>(
        given.func_ref,
        given.api_type,
        given.canister_current_memory_usage,
        ExecutionParameters {
            total_instruction_limit: NumInstructions(5000),
            slice_instruction_limit: NumInstructions(600),
            settings: 9,
        },
        given.sandbox_safe_system_state,
        Arc::new("compiled".to_string()),
        given.execution_state.wasm_memory,
        given.execution_state.stable_memory,
        given.execution_state.exported_globals,
        Arc::new("a log"),
        NumWasmPages(16),
        OutOfInstructionsHandler::Other("a handler"),
    );
    assert_eq!(request.api_type.call, "call");
    assert_eq!(request.sandbox_safe_system_state.canister_id, 42);
    assert_eq!(request.sandbox_safe_system_state.details, "details");
    assert_eq!(request.canister_current_memory_usage, NumBytes(77));
    assert_eq!(request.execution_parameters.settings, 9);
    assert_eq!(*request.logger, "a log");
    let handler = request.out_of_instructions_handler;
    assert!(matches!(handler, OutOfInstructionsHandler::Other("a handler")));
    assert_eq!(pending.func_ref, "update");
    assert_eq!(*pending.embedder_cache, "compiled");
    assert_eq!(pending.globals, vec![Global::I32(1)]);
    assert_eq!(pending.modification_tracking, ModificationTracking::Track);
    assert_eq!(pending.instruction_limit, NumInstructions(600));
    assert_eq!(pending.wasm_heap_limit, NumWasmPages(65520));
    assert_memory(&pending.wasm_memory, 1, &[1; 4], 10);
    assert_memory(&pending.stable_memory, 2, &[2; 4], 20);
}

#[test]
fn the_whole_address_space_may_be_reserved() {
    let pending = pending_instance(ModificationTracking::Track, 65536);
    assert_eq!(pending.wasm_heap_limit, NumWasmPages(0));
    let pending = pending_instance(ModificationTracking::Track, 0);
    assert_eq!(pending.wasm_heap_limit, NumWasmPages(65536));
}

#[test]
fn without_an_instance_the_execution_fails() {
    let pending = pending_instance(ModificationTracking::Track, 0);
    let outcome = done(pending.created(Err(HypervisorError::Engine("no memory"))));
    assert!(matches!(outcome.output.wasm_result, Err(HypervisorError::Engine("no memory"))));
    assert_eq!(outcome.output.num_instructions_left, NumInstructions(0));
    assert_eq!(
        outcome.output.instance_stats,
        InstanceStats { accessed_pages: 0, dirty_pages: 0 }
    );
    assert!(outcome.wasm_state_changes.is_none());
    assert!(!outcome.instance_created);
    assert_memory(&outcome.wasm_memory, 1, &[1; 4], 10);
    assert_memory(&outcome.stable_memory, 2, &[2; 4], 20);
    assert_eq!(outcome.globals, vec![Global::I32(1)]);
}

#[test]
fn a_tracked_run_updates_the_memories() {
    let pending = running(ModificationTracking::Track, 0);
    assert_eq!(pending.func_ref, "update");
    assert_eq!(pending.instruction_limit, NumInstructions(1000));
    let updating = match ran(pending, run_report()).taken(taken(11)) {
        ProcessStep::UpdateMemories(pending) => pending,
        _ => panic!("memories not updated"),
    };
    assert_eq!(updating.dirty_pages, vec![PageIndex(1), PageIndex(0)]);
    let mut heap = vec![8u8; 2 * PAGE_SIZE];
    heap[PAGE_SIZE] = 9;
    let update = updating.wasm_memory_update(&heap);
    assert_eq!(*update.page_map, BTreeMap::from([(1, vec![1; 4])]));
    let pages = update.pages;
    assert_eq!(pages.len(), 2);
    assert_eq!((pages[0].0, pages[0].1[0]), (PageIndex(1), 9));
    assert_eq!((pages[1].0, pages[1].1[0]), (PageIndex(0), 8));
    let stable_pages = vec![(PageIndex(9), vec![7, 7]), (PageIndex(3), vec![])];
    let update = updating.stable_memory_update(&stable_pages);
    assert_eq!(*update.page_map, BTreeMap::from([(2, vec![2; 4])]));
    assert_eq!(update.pages, vec![(PageIndex(9), &[7u8, 7][..]), (PageIndex(3), &[][..])]);
    let outcome = updating.applied(memory_update());
    assert!(matches!(outcome.output.wasm_result, Ok(Some("reply"))));
    assert_eq!(outcome.output.num_instructions_left, NumInstructions(400));
    assert_eq!(outcome.output.instance_stats, STATS);
    assert_memory(&outcome.wasm_memory, 3, &[3], 11);
    assert_memory(&outcome.stable_memory, 4, &[4], 21);
    let changes = outcome.wasm_state_changes.unwrap();
    assert_eq!(changes.dirty_page_indices.wasm_memory_delta, vec![PageIndex(0), PageIndex(1)]);
    assert_eq!(changes.dirty_page_indices.stable_memory_delta, vec![PageIndex(9)]);
    assert_eq!(changes.globals, vec![Global::I64(2)]);
    assert_eq!(outcome.globals, vec![Global::I32(1)]);
    assert!(outcome.instance_created);
}

#[test]
fn an_untracked_run_leaves_the_memories() {
    let pending = ran(running(ModificationTracking::Ignore, 0), run_report());
    let outcome = done(pending.taken(taken(11)));
    assert!(matches!(outcome.output.wasm_result, Ok(Some("reply"))));
    assert!(outcome.wasm_state_changes.is_none());
    assert!(outcome.instance_created);
    assert_memory(&outcome.wasm_memory, 1, &[1; 4], 10);
    assert_memory(&outcome.stable_memory, 2, &[2; 4], 20);
}

#[test]
fn a_failed_run_leaves_the_memories() {
    let report = RunReport {
        run_result: Err(HypervisorError::Engine("trap")),
        ..run_report()
    };
    let pending = ran(running(ModificationTracking::Track, 0), report);
    let outcome = done(pending.taken(TakenResult {
        wasm_result: Err(HypervisorError::Engine("trapped")),
        ..taken(11)
    }));
    assert!(matches!(outcome.output.wasm_result, Err(HypervisorError::Engine("trapped"))));
    assert_eq!(outcome.output.num_instructions_left, NumInstructions(400));
    assert!(outcome.wasm_state_changes.is_none());
    assert_memory(&outcome.wasm_memory, 1, &[1; 4], 10);
}

#[test]
fn the_system_api_is_told_of_the_error_that_ended_the_run() {
    let report = RunReport {
        run_result: Err(HypervisorError::Engine("trap")),
        ..run_report()
    };
    let pending = ran(running(ModificationTracking::Track, 0), report);
    assert!(matches!(pending.execution_error(), Some(HypervisorError::Engine("trap"))));
    let pending = ran(running(ModificationTracking::Ignore, 0), run_report());
    assert!(pending.execution_error().is_none());
}

#[test]
fn a_heap_in_the_reserved_pages_fails_the_message() {
    let fails = |reserved: usize, heap_size: usize| {
        let pending = ran(running(ModificationTracking::Ignore, reserved), run_report());
        let step = pending.taken(taken(heap_size));
        matches!(done(step).output.wasm_result, Err(HypervisorError::WasmReservedPages))
    };
    assert!(!fails(16, 65520));
    assert!(fails(16, 65521));
    assert!(!fails(0, 65536));
    assert!(fails(0, 65537));
}

#[test]
fn a_heap_in_the_reserved_pages_keeps_the_writes_of_a_tracked_run() {
    let pending = ran(running(ModificationTracking::Track, 16), run_report());
    let outcome = match pending.taken(taken(65536)) {
        ProcessStep::UpdateMemories(pending) => pending.applied(memory_update()),
        _ => panic!("memories not updated"),
    };
    assert!(matches!(outcome.output.wasm_result, Err(HypervisorError::WasmReservedPages)));
    assert!(outcome.wasm_state_changes.is_some());
    assert_memory(&outcome.wasm_memory, 3, &[3], 65536);
}

// Messages, from the binary on.

#[test]
fn an_uncompiled_message_is_decoded_compiled_and_executed() {
    let mut executor = executor();
    let message = input(
        ModificationTracking::Track,
        state_of(None, vec![motoko_marker()], vec![]),
    );
    let message = match executor.process(message) {
        ExecutorStep::Decode(message) => message,
        _ => panic!("not decoded"),
    };
    assert_eq!(message.execution_state.wasm_binary.binary, vec![0, 97, 115, 109]);
    let decoded = BinaryEncodedWasm { bytes: vec![1, 2, 3] };
    let pending = match executor.process_decoded(message, Ok(decoded)) {
        ExecutorStep::Compile(pending) => pending,
        _ => panic!("not compiled"),
    };
    assert_eq!(pending.decoded_wasm.bytes, vec![1, 2, 3]);
    assert_eq!(executor.compile_count_for_testing(), 0);
    let compiled = Ok((Arc::new("compiled".to_string()), compilation_output()));
    let step = executor.process_compiled(pending, Duration::from_millis(1), compiled);
    assert_eq!(executor.compile_count_for_testing(), 1);
    let (request, module, pending) = match step {
        ExecutorStep::NewInstance(request, module, pending) => (request, module, pending),
        _ => panic!("no instance"),
    };
    assert_eq!(request.sandbox_safe_system_state.canister_id, 42);
    assert_eq!(*request.logger, "log");
    let handler = request.out_of_instructions_handler;
    assert!(matches!(handler, OutOfInstructionsHandler::Default));
    assert_eq!(*pending.embedder_cache, "compiled");
    assert_eq!(pending.wasm_heap_limit, NumWasmPages(65520));
    let (module, pending) = match module.created(pending, Ok(())) {
        ExecutorStep::Run(module, pending) => (module, pending),
        _ => panic!("not running"),
    };
    let (module, pending) = match module.completed(pending, run_report()) {
        ExecutorStep::TakeResult(module, pending) => (module, pending),
        _ => panic!("result not taken"),
    };
    assert!(pending.execution_error().is_none());
    let (module, pending) = match module.result_taken(pending, taken(11)) {
        ExecutorStep::UpdateMemories(module, pending) => (module, pending),
        _ => panic!("memories not updated"),
    };
    let pending = concluded(module.applied(pending, memory_update()));
    assert!(pending.instance_created);
    assert_eq!(EMIT_STATE_HASHES_FOR_DEBUGGING, FlagStatus::Disabled);
    assert_eq!(pending.state_hashes, None);
    match pending.taken("some changes") {
        ExecutorStep::Finished(
            compilation_result,
            state,
            WasmExecutionResult::Finished(output, changes),
        ) => {
            assert_eq!(compilation_result, Some(123));
            assert!(matches!(output.wasm_result, Ok(Some("reply"))));
            assert_eq!(changes, "some changes");
            assert_eq!(state.canister_root, PathBuf::from("/canister"));
            assert_eq!(state.wasm_binary.binary, vec![0, 97, 115, 109]);
            assert_eq!(*state.wasm_binary.embedder_cache.clone().unwrap(), "compiled");
            assert!(state.exports_method(&motoko_marker()));
            assert_memory(&state.wasm_memory, 3, &[3], 11);
            assert_memory(&state.stable_memory, 4, &[4], 21);
            assert_eq!(state.exported_globals, vec![Global::I64(2)]);

            // The next message finds the module compiled.
            match executor.process(input(ModificationTracking::Track, state)) {
                ExecutorStep::NewInstance(_, module, pending) => {
                    assert_eq!(*pending.embedder_cache, "compiled");
                    assert_eq!(module.compilation_result, None);
                }
                _ => panic!("compiled again"),
            }
            assert_eq!(executor.compile_count_for_testing(), 1);
        }
        _ => panic!("not finished"),
    }
}

#[test]
fn a_message_that_cannot_be_decoded_fails_without_a_compilation() {
    let executor = executor();
    let message = input(ModificationTracking::Track, state_of(None, vec![], vec![]));
    let message = match executor.process(message) {
        ExecutorStep::Decode(message) => message,
        _ => panic!("not decoded"),
    };
    match executor.process_decoded(message, Err(HypervisorError::Engine("not wasm"))) {
        ExecutorStep::Finished(None, state, WasmExecutionResult::Finished(output, changes)) => {
            assert!(matches!(output.wasm_result, Err(HypervisorError::Engine("not wasm"))));
            assert_eq!(output.num_instructions_left, NumInstructions(0));
            assert_eq!(output.instance_stats.accessed_pages, 0);
            assert_eq!(output.instance_stats.dirty_pages, 0);
            assert_eq!(changes, "no changes");
            assert_untouched(&state);
        }
        _ => panic!("not finished"),
    }
    assert_eq!(executor.compile_count_for_testing(), 0);
}

#[test]
fn a_failed_compilation_is_counted_and_leaves_the_binary_uncompiled() {
    let mut executor = executor();
    let message = input(ModificationTracking::Track, state_of(None, vec![], vec![]));
    let decoded = BinaryEncodedWasm { bytes: vec![] };
    let pending = match executor.process_decoded(message, Ok(decoded)) {
        ExecutorStep::Compile(pending) => pending,
        _ => panic!("not compiled"),
    };
    let failure = Err(HypervisorError::Engine("invalid"));
    match executor.process_compiled(pending, Duration::from_secs(2), failure) {
        ExecutorStep::Finished(None, state, WasmExecutionResult::Finished(output, _)) => {
            assert!(matches!(output.wasm_result, Err(HypervisorError::Engine("invalid"))));
            assert_untouched(&state);
            assert!(state.wasm_binary.embedder_cache.is_none());
            let step = executor.get_embedder_cache(None, &state.wasm_binary);
            assert!(matches!(step, CacheStep::Decode));
        }
        _ => panic!("not finished"),
    }
    assert_eq!(executor.compile_count_for_testing(), 1);
}

#[test]
fn queries_and_failed_messages_leave_the_state() {
    let executor = executor();
    let failed_run = || RunReport {
        run_result: Err(HypervisorError::Engine("trap")),
        ..run_report()
    };
    let cases = vec![
        (ModificationTracking::Ignore, Ok(()), run_report()),
        (ModificationTracking::Track, Ok(()), failed_run()),
        (ModificationTracking::Track, Err(HypervisorError::Engine("no")), run_report()),
    ];
    for (tracking, instance, report) in cases {
        let has_instance = instance.is_ok();
        let message = input(tracking, state_of(Some("cached"), vec![], vec![]));
        let (module, pending) = match executor.process(message) {
            ExecutorStep::NewInstance(_, module, pending) => (module, pending),
            _ => panic!("no instance"),
        };
        let pending = match module.created(pending, instance) {
            ExecutorStep::Run(module, pending) => match module.completed(pending, report) {
                ExecutorStep::TakeResult(module, pending) => {
                    concluded(module.result_taken(pending, taken(11)))
                }
                _ => panic!("result not taken"),
            },
            step => concluded(step),
        };
        assert_eq!(pending.instance_created, has_instance);
        assert_eq!(pending.compilation_result, None);
        assert_untouched(&pending.execution_state);
    }
}

// The cache of compiled modules.

#[test]
fn a_compiled_module_is_reused() {
    let mut executor = executor();
    let mut binary = WasmBinary::<Replica>::new(vec![5]);
    assert!(matches!(executor.get_embedder_cache(None, &binary), CacheStep::Decode));
    let decoded = Some(BinaryEncodedWasm { bytes: vec![6] });
    match executor.get_embedder_cache(decoded, &binary) {
        CacheStep::Compile(wasm) => assert_eq!(wasm.bytes, vec![6]),
        _ => panic!("not compiled"),
    }
    let compiled = Ok((Arc::new("compiled".to_string()), compilation_output()));
    match executor.embedder_compiled(&mut binary, Duration::from_millis(3), compiled) {
        Ok((cache, Some(output))) => {
            assert_eq!(*cache, "compiled");
            assert_eq!(output.compilation_result, 123);
        }
        _ => panic!("no compilation output"),
    }
    assert_eq!(binary.binary, vec![5]);
    let decoded = Some(BinaryEncodedWasm { bytes: vec![7] });
    for decoded in [None, decoded] {
        match executor.get_embedder_cache(decoded, &binary) {
            CacheStep::Cached(cache) => assert_eq!(*cache, "compiled"),
            _ => panic!("compiled again"),
        }
    }
    assert_eq!(executor.compile_count_for_testing(), 1);
}

// New canisters.

fn pending_pages(executor: &mut WasmExecutor<Replica>) -> PendingModulePages<Replica> {
    let pending = executor.create_execution_state(vec![1, 2], PathBuf::from("/new"), 7);
    assert_eq!(pending.wasm_source, vec![1, 2]);
    let decoded = BinaryEncodedWasm { bytes: vec![3] };
    let pending = executor.module_decoded(pending, Ok(decoded)).ok().unwrap();
    assert_eq!(pending.decoded_wasm.bytes, vec![3]);
    assert!(pending.wasm_binary.embedder_cache.is_none());
    let compiled = Ok((Arc::new("compiled".to_string()), compilation_output()));
    executor.module_compiled(pending, Duration::from_millis(1), compiled).ok().unwrap()
}

#[test]
fn a_new_canister_begins_with_its_pages_and_globals() {
    let mut executor = executor();
    let pending = pending_pages(&mut executor);
    assert_eq!(executor.compile_count_for_testing(), 1);
    assert!(pending.initial.wasm_page_map.is_empty());
    let update = pending.initial.page_update();
    assert!(update.page_map.is_empty());
    assert_eq!(update.pages, vec![(PageIndex(6), &[66u8][..])]);
    let pending = pending.applied(BTreeMap::from([(6, vec![66])]), vec![PageIndex(6)]);
    assert_eq!(pending.initial.canister_id, 7);
    assert_eq!(*pending.initial.embedder_cache, "compiled");
    assert!(pending.initial.globals.is_empty());
    assert_eq!(pending.initial.wasm_memory_size, NumWasmPages(0));
    assert_eq!(pending.initial.modification_tracking, ModificationTracking::Ignore);
    let instance = InitialInstance {
        exported_globals: vec![Global::F64(1)],
        heap_size: NumWasmPages(2),
    };
    let (compilation_result, state) = pending.created(Ok(instance)).ok().unwrap();
    assert_eq!(compilation_result, 123);
    assert_eq!(state.canister_root, PathBuf::from("/new"));
    assert_eq!(state.wasm_binary.binary, vec![1, 2]);
    assert_eq!(*state.wasm_binary.embedder_cache.clone().unwrap(), "compiled");
    assert!(state.exports_method(&WasmMethod::Query("read".to_string())));
    assert!(!state.exports_method(&WasmMethod::Update("read".to_string())));
    assert_memory(&state.wasm_memory, 6, &[66], 2);
    assert!(state.stable_memory.page_map.is_empty());
    assert_eq!(state.stable_memory.size, NumWasmPages(0));
    assert_eq!(state.exported_globals, vec![Global::F64(1)]);
    assert!(state.metadata.contains_section(&"name".to_string()));
}

#[test]
fn the_first_message_on_a_new_canister_needs_no_compilation() {
    let mut executor = executor();
    let pending = pending_pages(&mut executor).applied(BTreeMap::new(), vec![]);
    let instance = InitialInstance { exported_globals: vec![], heap_size: NumWasmPages(1) };
    let (_, state) = pending.created(Ok(instance)).ok().unwrap();
    match executor.process(input(ModificationTracking::Track, state)) {
        ExecutorStep::NewInstance(_, _, pending) => {
            assert_eq!(*pending.embedder_cache, "compiled");
            assert_eq!(pending.wasm_memory.size, NumWasmPages(1));
        }
        _ => panic!("compiled again"),
    }
    assert_eq!(executor.compile_count_for_testing(), 1);
}

#[test]
fn a_new_canister_that_cannot_be_decoded_is_not_made() {
    let executor = executor();
    let pending = executor.create_execution_state(vec![], PathBuf::new(), 7);
    let decoded = executor.module_decoded(pending, Err(HypervisorError::Engine("empty")));
    assert!(matches!(decoded, Err(HypervisorError::Engine("empty"))));
    assert_eq!(executor.compile_count_for_testing(), 0);
}

#[test]
fn a_new_canister_that_cannot_be_compiled_is_not_made() {
    let mut executor = executor();
    let pending = executor.create_execution_state(vec![], PathBuf::new(), 7);
    let decoded = Ok(BinaryEncodedWasm { bytes: vec![] });
    let pending = executor.module_decoded(pending, decoded).ok().unwrap();
    let failure = Err(HypervisorError::Engine("invalid"));
    let compiled = executor.module_compiled(pending, Duration::from_millis(1), failure);
    assert!(matches!(compiled, Err(HypervisorError::Engine("invalid"))));
    assert_eq!(executor.compile_count_for_testing(), 1);
}

#[test]
fn a_new_canister_without_an_instance_is_not_made() {
    let mut executor = executor();
    let pending = pending_pages(&mut executor).applied(BTreeMap::new(), vec![]);
    let created = pending.created(Err(HypervisorError::Engine("link error")));
    assert!(matches!(created, Err(HypervisorError::Engine("link error"))));
}

#[test]
fn the_initial_pages_stay_applied_without_an_instance() {
    let pending = get_initial_globals_and_memory::<Replica>(
        compilation_output().instrumentation_output,
        Arc::new("compiled".to_string()),
        BTreeMap::new(),
        7,
    );
    let pending = pending.applied(BTreeMap::from([(6, vec![66])]), vec![PageIndex(6)]);
    let (page_map, result) = pending.created(Err(HypervisorError::Engine("link error")));
    assert_eq!(page_map, BTreeMap::from([(6, vec![66])]));
    assert!(matches!(result, Err(HypervisorError::Engine("link error"))));
}

// Metrics and logging.

#[test]
fn an_executor_keeps_its_embedder_and_its_log() {
    let executor = executor();
    assert_eq!(executor.wasm_embedder, "engine");
    assert_eq!(*executor.log, "log");
}

#[test]
fn an_executor_is_not_made_without_its_metrics() {
    let registry = Registry::new();
    let bad = HistogramOpts::new("bounds", "bounds").buckets(vec![2.0, 1.0]);
    let executor = WasmExecutor::<Replica>::new("engine", &registry, bad, "log");
    assert!(matches!(executor, Err(MetricsError::Definition(_))));
    let good = || HistogramOpts::new("bounds", "bounds").buckets(vec![1.0, 2.0]);
    let executor = WasmExecutor::<Replica>::new("engine", &registry, good(), "log");
    assert!(executor.is_ok());
    let executor = WasmExecutor::<Replica>::new("engine", &registry, good(), "log");
    assert!(matches!(executor, Err(MetricsError::Registration(_))));
}

#[test]
fn the_duration_of_each_compilation_is_recorded() {
    let registry = Registry::new();
    let bounds = HistogramOpts::new("bounds", "bounds").buckets(vec![0.5, 4.0]);
    let mut executor: WasmExecutor<Replica> =
        WasmExecutor::new("engine", &registry, bounds, "log").ok().unwrap();
    let mut binary = WasmBinary::<Replica>::new(vec![5]);
    let failure = Err(HypervisorError::Engine("invalid"));
    let failed = executor.embedder_compiled(&mut binary, Duration::from_millis(250), failure);
    assert!(failed.is_err());
    let compiled = Ok((Arc::new("compiled".to_string()), compilation_output()));
    let compiled = executor.embedder_compiled(&mut binary, Duration::from_secs(2), compiled);
    assert!(compiled.is_ok());
    let families = registry.gather();
    let family = families.iter().find(|f| f.get_name() == "execution_wasm_compile").unwrap();
    let histogram = family.get_metric()[0].get_histogram();
    assert_eq!(histogram.get_sample_sum(), 2.25);
    let buckets: Vec<(f64, u64)> = histogram
        .get_bucket()
        .iter()
        .map(|bucket| (bucket.get_upper_bound(), bucket.get_cumulative_count()))
        .collect();
    assert_eq!(buckets, vec![(0.5, 1), (4.0, 2)]);
}

#[test]
fn observed_imports_are_counted_but_are_no_compilations() {
    let registry = Registry::new();
    let bounds = HistogramOpts::new("bounds", "bounds").buckets(vec![0.0, 1.0]);
    let mut executor: WasmExecutor<Replica> =
        WasmExecutor::new("engine", &registry, bounds, "log").ok().unwrap();
    let details = WasmImportsDetails {
        imports_call_simple: false,
        imports_call_cycles_add: true,
        imports_canister_cycle_balance: false,
        imports_msg_cycles_available: false,
        imports_msg_cycles_refunded: false,
        imports_msg_cycles_accept: false,
        imports_mint_cycles: false,
    };
    executor.observe_metrics(&details);
    executor.observe_metrics(&details);
    let families = registry.gather();
    let family = families
        .iter()
        .find(|family| family.get_name() == "execution_wasm_imports_call_cycles_add")
        .unwrap();
    assert_eq!(family.get_metric()[0].get_counter().get_value(), 2.0);
    assert_eq!(executor.compile_count_for_testing(), 0);
}

#[test]
fn the_state_hashes_are_logged_in_decimal() {
    let executor = executor();
    let line = executor.emit_state_hashes_for_debugging(&Some((0, u64::MAX, 120)), "reply");
    assert_eq!(
        line.unwrap(),
        "Executed update call: result  => [reply], deltas hash => [ wasm memory delta => \
         18446744073709551615, stable memory delta => 0, globals => 120]"
    );
}

#[test]
fn each_state_hash_is_logged_under_its_own_label() {
    let wasm_changes = WasmStateChanges::new(vec![PageIndex(1)], vec![], vec![]);
    let stable_changes = WasmStateChanges::new(vec![], vec![PageIndex(1)], vec![]);
    let (no_change, wasm_hash, globals) = wasm_changes.calculate_hashes();
    let stable_hash = stable_changes.calculate_hashes().0;
    assert_eq!(wasm_hash, stable_hash);
    assert_ne!(wasm_hash, no_change);
    let hashes = Some(wasm_changes.calculate_hashes());
    let line = executor().emit_state_hashes_for_debugging(&hashes, "reply");
    assert_eq!(
        line.unwrap(),
        format!(
            "Executed update call: result  => [reply], deltas hash => [ wasm memory delta => {}, \
             stable memory delta => {}, globals => {}]",
            wasm_hash, no_change, globals
        )
    );
}

#[test]
fn without_state_hashes_nothing_is_logged() {
    assert_eq!(executor().emit_state_hashes_for_debugging(&None, "reply"), None);
}
