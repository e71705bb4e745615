//! The executor: it keeps modules compiled, executes messages on them and makes the state that a
//! new canister begins with.
//!
//! Decoding, compiling and running Wasm is the work of an engine. The executor decides which of
//! it is to be done and what follows on each answer: every function returns the next request, and
//! the answer to the request goes to the function that the request names.
use crate::decimal::append_decimal;
use crate::execution_state::{
    get_wasm_reserved_pages, ExecutionState, Memory, WasmBinary,
};
use crate::initial_state::{
    get_initial_globals_and_memory, InitialInstance, InstrumentationOutput, PendingInitialInstance,
    PendingInitialPages,
};
use crate::metrics::{MetricsError, WasmExecutorMetrics, WasmImportsDetails};
use crate::module_info::{ExportedFunctions, WasmMetadata};
use crate::platform::{HypervisorError, HypervisorResult, Platform};
use crate::process::{
    process, ApiType, ExecutionParameters, MemoryUpdate, OutOfInstructionsHandler, PendingInstance,
    PendingResult, PendingRun, PendingUpdate, ProcessOutcome, ProcessStep, RunReport,
    SandboxSafeSystemState, SystemApiRequest, TakenResult, WasmExecutionOutput,
};
use crate::state_changes::Global;
use crate::units::{NumBytes, PageIndex};
use core::time::Duration;
use std::path::PathBuf;
use std::sync::Arc;
use vstd::prelude::*;
use vstd::string::*;

verus! {

/// Whether something is switched on.
#[derive(Clone, Copy, Debug, PartialEq, Eq, Structural)]
pub enum FlagStatus {
    Enabled,
    Disabled,
}

/// Switches the logging of checksums of execution results on. For debugging only: it produces a
/// lot of data.
pub const EMIT_STATE_HASHES_FOR_DEBUGGING: FlagStatus = FlagStatus::Disabled;

/// The result of an execution that may be done in several slices: finished, with what came of it
/// and the changes of the system state, or paused.
pub enum WasmExecutionResult<X: Platform> {
    Finished(WasmExecutionOutput<X>, X::SystemStateChanges),
    Paused(X::PausedExecution),
}

/// A paused Wasm execution that can be resumed or aborted.
pub trait PausedWasmExecution<X: Platform>: core::fmt::Debug {
    /// Resumes the paused execution. It takes the execution state before this execution has
    /// started and the current subnet available memory. If the execution finishes, it returns the
    /// new execution state and the result of the execution. Otherwise it returns the original
    /// execution state and the paused execution.
    fn resume(
        self: Box<Self>,
        execution_state: ExecutionState<X>,
        subnet_available_memory: X::SubnetAvailableMemory,
    ) -> (resumed: (ExecutionState<X>, WasmExecutionResult<X>))
        ensures
            resumed.1 is Paused ==> resumed.0 == execution_state,
    ;

    /// Aborts the paused execution.
    fn abort(self: Box<Self>);
}

/// A Wasm module in the binary format, uncompressed.
pub struct BinaryEncodedWasm {
    pub bytes: Vec<u8>,
}

/// What the validation of a module finds out.
pub struct WasmValidationDetails {
    pub wasm_metadata: WasmMetadata,
}

/// All that the compilation of a module gives, besides the compiled module.
pub struct FullCompilationOutput<X: Platform> {
    pub compilation_result: X::CompilationResult,
    pub instrumentation_output: InstrumentationOutput,
    pub validation_details: WasmValidationDetails,
}

/// The engine's answer to the request to compile a module.
pub type Compiled<X> = HypervisorResult<
    X,
    (Arc<<X as Platform>::EmbedderCache>, FullCompilationOutput<X>),
>;

/// What is needed to get the compiled module of a binary.
pub enum CacheStep<X: Platform> {
    /// Nothing: the module is compiled.
    Cached(Arc<X::EmbedderCache>),
    /// The binary has to be decoded first.
    Decode,
    /// The decoded module has to be compiled. It was not instrumented, and it may have been
    /// validated by an older validator: the compilation instruments and validates it.
    Compile(BinaryEncodedWasm),
}

/// What is needed to get the compiled module of a binary, of which the decoded module may be at
/// hand.
pub open spec fn cache_step<X: Platform>(
    decoded_wasm: Option<BinaryEncodedWasm>,
    wasm_binary: WasmBinary<X>,
) -> CacheStep<X> {
    match (wasm_binary.embedder_cache, decoded_wasm) {
        (Some(embedder_cache), _) => CacheStep::Cached(embedder_cache),
        (None, Some(wasm)) => CacheStep::Compile(wasm),
        (None, None) => CacheStep::Decode,
    }
}

/// The binary after the engine has answered the request to compile it: it keeps what was
/// compiled.
pub open spec fn compiled_binary<X: Platform>(
    wasm_binary: WasmBinary<X>,
    compiled: Compiled<X>,
) -> WasmBinary<X> {
    match compiled {
        Ok((embedder_cache, _)) => WasmBinary {
            binary: wasm_binary.binary,
            embedder_cache: Some(embedder_cache),
        },
        Err(_) => wasm_binary,
    }
}

/// A message to execute and the canister to execute it on.
pub struct WasmExecutionInput<X: Platform> {
    pub api_type: ApiType<X>,
    pub sandbox_safe_system_state: SandboxSafeSystemState<X>,
    pub canister_current_memory_usage: NumBytes,
    pub execution_parameters: ExecutionParameters<X>,
    pub func_ref: X::FuncRef,
    pub execution_state: ExecutionState<X>,
}

/// The module that a message is executed on, while its memories and globals are in use.
pub struct LoadedModule<X: Platform> {
    pub compilation_result: Option<X::CompilationResult>,
    pub canister_root: PathBuf,
    pub wasm_binary: WasmBinary<X>,
    pub exports: ExportedFunctions,
    pub metadata: WasmMetadata,
}

/// A message whose module waits to be compiled.
pub struct PendingCompilation<X: Platform> {
    pub decoded_wasm: BinaryEncodedWasm,
    pub input: WasmExecutionInput<X>,
}

/// A message whose execution is over and that waits for the changes of the system state.
pub struct PendingSystemStateChanges<X: Platform> {
    pub compilation_result: Option<X::CompilationResult>,
    pub execution_state: ExecutionState<X>,
    pub output: WasmExecutionOutput<X>,
    /// The hashes of the changes of the Wasm state, where they are to be logged.
    pub state_hashes: Option<(u64, u64, u64)>,
    /// Whether the changes are those of the instance. Otherwise they are those of the system API
    /// that the engine has handed back.
    pub instance_created: bool,
}

/// What is to be done next for a message.
pub enum ExecutorStep<X: Platform> {
    /// The binary is to be decoded: [`WasmExecutor::process_decoded`].
    Decode(WasmExecutionInput<X>),
    /// The module is to be compiled: [`WasmExecutor::process_compiled`].
    Compile(PendingCompilation<X>),
    /// An instance is to be made: [`LoadedModule::created`].
    NewInstance(SystemApiRequest<X>, LoadedModule<X>, PendingInstance<X>),
    /// The instance is to run: [`LoadedModule::completed`].
    Run(LoadedModule<X>, PendingRun<X>),
    /// The result is to be taken from the system API: [`LoadedModule::result_taken`].
    TakeResult(LoadedModule<X>, PendingResult<X>),
    /// The memories are to be updated: [`LoadedModule::applied`].
    UpdateMemories(LoadedModule<X>, PendingUpdate<X>),
    /// The changes of the system state are to be taken: [`PendingSystemStateChanges::taken`].
    TakeSystemStateChanges(PendingSystemStateChanges<X>),
    /// Nothing.
    Finished(Option<X::CompilationResult>, ExecutionState<X>, WasmExecutionResult<X>),
}

/// The end of a message whose module could not be compiled.
pub open spec fn not_compiled<X: Platform>(
    input: WasmExecutionInput<X>,
    error: HypervisorError<X>,
) -> ExecutorStep<X> {
    ExecutorStep::Finished(
        None,
        input.execution_state,
        WasmExecutionResult::Finished(
            crate::process::failed_output(error),
            input.sandbox_safe_system_state.system_state_changes,
        ),
    )
}

/// The first request for a message whose module is compiled. The system API logs where the
/// executor does, and handles the end of the instructions by default.
pub open spec fn instance_request<X: Platform>(
    input: WasmExecutionInput<X>,
    embedder_cache: Arc<X::EmbedderCache>,
    compilation_result: Option<X::CompilationResult>,
    log: Arc<X::Logger>,
) -> ExecutorStep<X> {
    let state = input.execution_state;
    ExecutorStep::NewInstance(
        SystemApiRequest {
            api_type: input.api_type,
            sandbox_safe_system_state: input.sandbox_safe_system_state,
            canister_current_memory_usage: input.canister_current_memory_usage,
            execution_parameters: input.execution_parameters,
            out_of_instructions_handler: OutOfInstructionsHandler::Default,
            logger: log,
        },
        LoadedModule {
            compilation_result,
            canister_root: state.canister_root,
            wasm_binary: state.wasm_binary,
            exports: state.exports,
            metadata: state.metadata,
        },
        PendingInstance {
            func_ref: input.func_ref,
            embedder_cache,
            globals: state.exported_globals,
            wasm_memory: state.wasm_memory,
            stable_memory: state.stable_memory,
            modification_tracking: input.api_type.modification_tracking,
            instruction_limit: input.execution_parameters.slice_instruction_limit,
            wasm_heap_limit: crate::process::heap_limit(
                crate::execution_state::reserved_pages(state),
            ),
        },
    )
}

/// What follows on the lookup of the compiled module.
pub open spec fn after_lookup<X: Platform>(
    input: WasmExecutionInput<X>,
    step: CacheStep<X>,
    log: Arc<X::Logger>,
) -> ExecutorStep<X> {
    match step {
        CacheStep::Cached(embedder_cache) => instance_request(input, embedder_cache, None, log),
        CacheStep::Decode => ExecutorStep::Decode(input),
        CacheStep::Compile(decoded_wasm) => ExecutorStep::Compile(
            PendingCompilation { decoded_wasm, input },
        ),
    }
}

/// What follows on the engine's answer to the request to decode the module.
pub open spec fn after_decoding<X: Platform>(
    input: WasmExecutionInput<X>,
    decoded_wasm: HypervisorResult<X, BinaryEncodedWasm>,
    log: Arc<X::Logger>,
) -> ExecutorStep<X> {
    match decoded_wasm {
        Ok(wasm) => after_lookup(
            input,
            cache_step(Some(wasm), input.execution_state.wasm_binary),
            log,
        ),
        Err(error) => not_compiled(input, error),
    }
}

/// The message with the compiled module kept in its execution state.
pub open spec fn with_binary<X: Platform>(
    input: WasmExecutionInput<X>,
    wasm_binary: WasmBinary<X>,
) -> WasmExecutionInput<X> {
    WasmExecutionInput {
        execution_state: ExecutionState { wasm_binary, ..input.execution_state },
        ..input
    }
}

/// What follows on the engine's answer to the request to compile the module.
pub open spec fn after_compilation<X: Platform>(
    pending: PendingCompilation<X>,
    compiled: Compiled<X>,
    log: Arc<X::Logger>,
) -> ExecutorStep<X> {
    let input = with_binary(
        pending.input,
        compiled_binary(pending.input.execution_state.wasm_binary, compiled),
    );
    match compiled {
        Ok((embedder_cache, output)) => instance_request(
            input,
            embedder_cache,
            Some(output.compilation_result),
            log,
        ),
        Err(error) => not_compiled(input, error),
    }
}

/// The hashes to log for an outcome.
pub open spec fn logged_hashes<X: Platform>(outcome: ProcessOutcome<X>) -> Option<(u64, u64, u64)> {
    match outcome.wasm_state_changes {
        Some(changes) if EMIT_STATE_HASHES_FOR_DEBUGGING is Enabled => Some(
            crate::state_changes::state_hashes(changes),
        ),
        _ => None,
    }
}

/// The globals after an execution.
pub open spec fn globals_after<X: Platform>(outcome: ProcessOutcome<X>) -> Vec<Global> {
    match outcome.wasm_state_changes {
        Some(changes) => changes.globals,
        None => outcome.globals,
    }
}

/// What follows on the outcome of an execution: the memories and the globals go back into the
/// execution state.
pub open spec fn after_outcome<X: Platform>(
    module: LoadedModule<X>,
    outcome: ProcessOutcome<X>,
) -> PendingSystemStateChanges<X> {
    PendingSystemStateChanges {
        compilation_result: module.compilation_result,
        execution_state: ExecutionState {
            canister_root: module.canister_root,
            wasm_binary: module.wasm_binary,
            exports: module.exports,
            wasm_memory: outcome.wasm_memory,
            stable_memory: outcome.stable_memory,
            exported_globals: globals_after(outcome),
            metadata: module.metadata,
        },
        output: outcome.output,
        state_hashes: logged_hashes(outcome),
        instance_created: outcome.instance_created,
    }
}

/// The next request for a message, given the next request for its execution.
pub open spec fn executor_step<X: Platform>(
    module: LoadedModule<X>,
    step: ProcessStep<X>,
) -> ExecutorStep<X> {
    match step {
        ProcessStep::Run(pending) => ExecutorStep::Run(module, pending),
        ProcessStep::TakeResult(pending) => ExecutorStep::TakeResult(module, pending),
        ProcessStep::UpdateMemories(pending) => ExecutorStep::UpdateMemories(module, pending),
        ProcessStep::Done(outcome) => ExecutorStep::TakeSystemStateChanges(
            after_outcome(module, outcome),
        ),
    }
}

impl<X: Platform> LoadedModule<X> {
    /// The engine has made the instance, or has handed the system API back with an error.
    pub fn created(
        self,
        pending: PendingInstance<X>,
        instance: HypervisorResult<X, ()>,
    ) -> (step: ExecutorStep<X>)
        ensures
            step == executor_step(self, crate::process::after_instance(pending, instance)),
    {
        self.next(pending.created(instance))
    }

    /// The instance has run.
    pub fn completed(self, pending: PendingRun<X>, report: RunReport<X>) -> (step: ExecutorStep<X>)
        ensures
            step == executor_step(self, crate::process::after_run(pending, report)),
    {
        self.next(pending.completed(report))
    }

    /// The result is taken from the system API.
    pub fn result_taken(self, pending: PendingResult<X>, taken: TakenResult<X>) -> (step:
        ExecutorStep<X>)
        ensures
            step == executor_step(self, crate::process::after_result(pending, taken)),
    {
        self.next(pending.taken(taken))
    }

    /// The memories are updated.
    pub fn applied(self, pending: PendingUpdate<X>, update: MemoryUpdate<X>) -> (step: ExecutorStep<
        X,
    >)
        ensures
            step == executor_step(
                self,
                ProcessStep::Done(crate::process::after_update(pending, update)),
            ),
    {
        self.next(ProcessStep::Done(pending.applied(update)))
    }

    fn next(self, step: ProcessStep<X>) -> (next: ExecutorStep<X>)
        ensures
            next == executor_step(self, step),
    {
        match step {
            ProcessStep::Run(pending) => ExecutorStep::Run(self, pending),
            ProcessStep::TakeResult(pending) => ExecutorStep::TakeResult(self, pending),
            ProcessStep::UpdateMemories(pending) => ExecutorStep::UpdateMemories(self, pending),
            ProcessStep::Done(outcome) => ExecutorStep::TakeSystemStateChanges(
                self.conclude(outcome),
            ),
        }
    }

    fn conclude(self, outcome: ProcessOutcome<X>) -> (pending: PendingSystemStateChanges<X>)
        ensures
            pending == after_outcome(self, outcome),
    {
        let mut state_hashes: Option<(u64, u64, u64)> = None;
        let mut exported_globals = outcome.globals;
        if let Some(wasm_state_changes) = outcome.wasm_state_changes {
            if EMIT_STATE_HASHES_FOR_DEBUGGING == FlagStatus::Enabled {
                state_hashes = Some(wasm_state_changes.calculate_hashes());
            }
            exported_globals = wasm_state_changes.globals;
        }
        PendingSystemStateChanges {
            compilation_result: self.compilation_result,
            execution_state: ExecutionState::new(
                self.canister_root,
                self.wasm_binary,
                self.exports,
                outcome.wasm_memory,
                outcome.stable_memory,
                exported_globals,
                self.metadata,
            ),
            output: outcome.output,
            state_hashes,
            instance_created: outcome.instance_created,
        }
    }
}

/// The end of a message whose execution is over.
pub open spec fn after_taking<X: Platform>(
    pending: PendingSystemStateChanges<X>,
    system_state_changes: X::SystemStateChanges,
) -> ExecutorStep<X> {
    ExecutorStep::Finished(
        pending.compilation_result,
        pending.execution_state,
        WasmExecutionResult::Finished(pending.output, system_state_changes),
    )
}

impl<X: Platform> PendingSystemStateChanges<X> {
    /// The changes of the system state are at hand, and the message is done.
    pub fn taken(self, system_state_changes: X::SystemStateChanges) -> (step: ExecutorStep<X>)
        ensures
            step == after_taking(self, system_state_changes),
    {
        ExecutorStep::Finished(
            self.compilation_result,
            self.execution_state,
            WasmExecutionResult::Finished(self.output, system_state_changes),
        )
    }
}

/// A new canister whose binary waits to be decoded.
pub struct PendingModuleDecoding<X: Platform> {
    pub wasm_source: Vec<u8>,
    pub canister_root: PathBuf,
    pub canister_id: X::CanisterId,
}

/// A new canister whose module waits to be compiled.
pub struct PendingModuleCompilation<X: Platform> {
    pub decoded_wasm: BinaryEncodedWasm,
    pub wasm_binary: WasmBinary<X>,
    pub canister_root: PathBuf,
    pub canister_id: X::CanisterId,
}

/// A new canister whose page map waits for the initial pages.
pub struct PendingModulePages<X: Platform> {
    pub compilation_result: X::CompilationResult,
    pub wasm_binary: WasmBinary<X>,
    pub canister_root: PathBuf,
    pub wasm_metadata: WasmMetadata,
    pub initial: PendingInitialPages<X>,
}

/// A new canister that waits for an instance to read its globals and its memory size from.
pub struct PendingModuleInstance<X: Platform> {
    pub compilation_result: X::CompilationResult,
    pub wasm_binary: WasmBinary<X>,
    pub canister_root: PathBuf,
    pub wasm_metadata: WasmMetadata,
    pub initial: PendingInitialInstance<X>,
}

/// What follows on the engine's answer to the request to decode the binary of a new canister: a
/// newly made binary has to be compiled.
pub open spec fn after_module_decoding<X: Platform>(
    pending: PendingModuleDecoding<X>,
    decoded_wasm: HypervisorResult<X, BinaryEncodedWasm>,
) -> HypervisorResult<X, PendingModuleCompilation<X>> {
    match decoded_wasm {
        Ok(decoded_wasm) => Ok(
            PendingModuleCompilation {
                decoded_wasm,
                wasm_binary: WasmBinary::<X> { binary: pending.wasm_source, embedder_cache: None },
                canister_root: pending.canister_root,
                canister_id: pending.canister_id,
            },
        ),
        Err(error) => Err(error),
    }
}

/// Whether this is the new canister after its module was compiled: the binary keeps the compiled
/// module, and the pages of the data segments are to be applied to an empty page map.
pub open spec fn awaits_initial_pages<X: Platform>(
    next: PendingModulePages<X>,
    pending: PendingModuleCompilation<X>,
    embedder_cache: Arc<X::EmbedderCache>,
    output: FullCompilationOutput<X>,
) -> bool {
    let instrumentation = output.instrumentation_output;
    &&& next.compilation_result == output.compilation_result
    &&& next.wasm_binary == compiled_binary(pending.wasm_binary, Ok((embedder_cache, output)))
    &&& next.canister_root == pending.canister_root
    &&& next.wasm_metadata == output.validation_details.wasm_metadata
    &&& next.initial.exported_functions == instrumentation.exported_functions
    &&& next.initial.wasm_memory_pages == instrumentation.data_pages
    &&& call_ensures(<X::PageMap as Default>::default, (), next.initial.wasm_page_map)
    &&& next.initial.embedder_cache == embedder_cache
    &&& next.initial.canister_id == pending.canister_id
}

/// Whether this is the new canister after its initial pages were applied: the instance is made
/// without globals, with no memory of its own yet and without tracking.
pub open spec fn awaits_initial_instance<X: Platform>(
    next: PendingModuleInstance<X>,
    pending: PendingModulePages<X>,
    wasm_page_map: X::PageMap,
    wasm_memory_delta: Vec<PageIndex>,
) -> bool {
    &&& next.compilation_result == pending.compilation_result
    &&& next.wasm_binary == pending.wasm_binary
    &&& next.canister_root == pending.canister_root
    &&& next.wasm_metadata == pending.wasm_metadata
    &&& crate::initial_state::is_instance_request(
        next.initial,
        pending.initial,
        wasm_page_map,
        wasm_memory_delta,
    )
}

impl<X: Platform> PendingModulePages<X> {
    /// The initial pages are applied.
    pub fn applied(
        self,
        wasm_page_map: X::PageMap,
        wasm_memory_delta: Vec<PageIndex>,
    ) -> (pending: PendingModuleInstance<X>)
        ensures
            awaits_initial_instance(pending, self, wasm_page_map, wasm_memory_delta),
    {
        PendingModuleInstance {
            compilation_result: self.compilation_result,
            wasm_binary: self.wasm_binary,
            canister_root: self.canister_root,
            wasm_metadata: self.wasm_metadata,
            initial: self.initial.applied(wasm_page_map, wasm_memory_delta),
        }
    }
}

/// Whether this is the execution state that the new canister begins with, given what was read
/// from its instance.
pub open spec fn is_initial_state<X: Platform>(
    state: ExecutionState<X>,
    pending: PendingModuleInstance<X>,
    instance: InitialInstance,
) -> bool {
    &&& state.canister_root == pending.canister_root
    &&& state.wasm_binary == pending.wasm_binary
    &&& state.exports@ == crate::module_info::method_set(pending.initial.exported_functions@)
    &&& state.wasm_memory == (Memory::<X> {
        page_map: pending.initial.wasm_page_map,
        size: instance.heap_size,
    })
    &&& call_ensures(<X::PageMap as Default>::default, (), state.stable_memory.page_map)
    &&& state.stable_memory.size.0 == 0
    &&& state.exported_globals == instance.exported_globals
    &&& state.metadata == pending.wasm_metadata
}

impl<X: Platform> PendingModuleInstance<X> {
    /// The engine has made the instance, or has failed to. The new canister begins with an empty
    /// stable memory.
    pub fn created(self, instance: HypervisorResult<X, InitialInstance>) -> (created:
        HypervisorResult<X, (X::CompilationResult, ExecutionState<X>)>)
        ensures
            match instance {
                Ok(initial) => {
                    &&& created is Ok
                    &&& created->Ok_0.0 == self.compilation_result
                    &&& is_initial_state(created->Ok_0.1, self, initial)
                },
                Err(error) => created == Err::<(X::CompilationResult, ExecutionState<X>), _>(error),
            },
    {
        let (wasm_page_map, result) = self.initial.created(instance);
        match result {
            Ok(initial) => {
                let stable_memory = Memory::default();
                let execution_state = ExecutionState::new(
                    self.canister_root,
                    self.wasm_binary,
                    ExportedFunctions::new(initial.exported_functions),
                    Memory::new(wasm_page_map, initial.wasm_memory_size),
                    stable_memory,
                    initial.globals,
                    self.wasm_metadata,
                );
                Ok((self.compilation_result, execution_state))
            },
            Err(error) => Err(error),
        }
    }
}

/// The line that is logged for an executed update call. The hashes are those of the changes of the
/// stable memory, of the Wasm memory and of the globals, in this order; the line begins with that
/// of the Wasm memory.
pub open spec fn state_hashes_line(output: Seq<char>, hashes: (u64, u64, u64)) -> Seq<char> {
    "Executed update call: result  => ["@ + output
        + "], deltas hash => [ wasm memory delta => "@ + crate::decimal::decimal(hashes.1 as nat)
        + ", stable memory delta => "@ + crate::decimal::decimal(hashes.0 as nat)
        + ", globals => "@ + crate::decimal::decimal(hashes.2 as nat) + "]"@
}

/// An executor that can process any message (query or not).
pub struct WasmExecutor<X: Platform> {
    pub wasm_embedder: X::WasmEmbedder,
    pub metrics: WasmExecutorMetrics,
    pub log: Arc<X::Logger>,
}

impl<X: Platform> WasmExecutor<X> {
    /// Whether nothing but the values of the metrics differs.
    pub open spec fn differs_in_metrics_only(&self, other: &Self) -> bool {
        &&& self.wasm_embedder == other.wasm_embedder
        &&& self.log == other.log
        &&& self.metrics@.set_up_like(other.metrics@)
    }

    /// An executor whose metrics are registered and stand at zero. The bounds of the buckets of
    /// the compilation histogram are those of the given options. If they cannot be the bounds of a
    /// histogram, nothing is registered; otherwise only the registry can refuse a metric.
    pub fn new(
        wasm_embedder: X::WasmEmbedder,
        metrics_registry: &prometheus::Registry,
        compile_bounds: prometheus::HistogramOpts,
        log: X::Logger,
    ) -> (executor: Result<Self, MetricsError>)
        ensures
            crate::metrics::is_undefined(executor) <==> !crate::metrics::takes_bounds(
                compile_bounds,
            ),
            executor is Ok ==> {
                &&& executor->Ok_0.wasm_embedder == wasm_embedder
                &&& *executor->Ok_0.log == log
                &&& executor->Ok_0.metrics@ == crate::metrics::initial_metrics(
                    *metrics_registry,
                    compile_bounds,
                )
                &&& executor->Ok_0.metrics@.registered_in(*metrics_registry)
            },
            crate::metrics::is_refused_by(
                executor,
                *metrics_registry,
                crate::metrics::metric_descriptions(),
            ),
    {
        match WasmExecutorMetrics::new(metrics_registry, compile_bounds) {
            Ok(metrics) => Ok(Self { wasm_embedder, metrics, log: Arc::new(log) }),
            Err(error) => Err(error),
        }
    }

    /// Counts a module under each function that it imports.
    pub fn observe_metrics(&mut self, imports_details: &WasmImportsDetails)
        ensures
            final(self).metrics@ == old(self).metrics@.observe(*imports_details),
            final(self).differs_in_metrics_only(old(self)),
    {
        self.metrics.observe_imports(imports_details);
    }

    /// Says what is needed to get the compiled module of a binary. If the module is to be
    /// compiled, the answer of the engine goes to [`Self::embedder_compiled`].
    pub fn get_embedder_cache(
        &self,
        decoded_wasm: Option<BinaryEncodedWasm>,
        wasm_binary: &WasmBinary<X>,
    ) -> (step: CacheStep<X>)
        ensures
            step == cache_step(decoded_wasm, *wasm_binary),
    {
        match &wasm_binary.embedder_cache {
            Some(embedder_cache) => CacheStep::Cached(Arc::clone(embedder_cache)),
            None => match decoded_wasm {
                Some(wasm) => CacheStep::Compile(wasm),
                None => CacheStep::Decode,
            },
        }
    }

    /// The engine has compiled the module, or has failed to, in the given time. The binary, which
    /// was not compiled yet, keeps what was compiled.
    pub fn embedder_compiled(
        &mut self,
        wasm_binary: &mut WasmBinary<X>,
        elapsed: Duration,
        compiled: Compiled<X>,
    ) -> (result: HypervisorResult<X, (Arc<X::EmbedderCache>, Option<FullCompilationOutput<X>>)>)
        requires
            old(wasm_binary).embedder_cache is None,
        ensures
            final(self).metrics@ == old(self).metrics@.compile(elapsed),
            final(self).differs_in_metrics_only(old(self)),
            *final(wasm_binary) == compiled_binary(*old(wasm_binary), compiled),
            result == match compiled {
                Ok((embedder_cache, output)) => Ok((embedder_cache, Some(output))),
                Err(error) => Err(error),
            },
    {
        self.metrics.observe_compilation(elapsed);
        match compiled {
            Ok((embedder_cache, compilation_output)) => {
                wasm_binary.embedder_cache = Some(Arc::clone(&embedder_cache));
                Ok((embedder_cache, Some(compilation_output)))
            },
            Err(error) => Err(error),
        }
    }

    /// Begins to process a message. Executions are not sliced, so both instruction limits have to
    /// be the same.
    pub fn process(&self, input: WasmExecutionInput<X>) -> (step: ExecutorStep<X>)
        requires
            input.execution_parameters.total_instruction_limit
                == input.execution_parameters.slice_instruction_limit,
        ensures
            step == after_lookup(
                input,
                cache_step(None, input.execution_state.wasm_binary),
                self.log,
            ),
    {
        let cache = self.get_embedder_cache(None, &input.execution_state.wasm_binary);
        self.looked_up(input, cache)
    }

    /// The engine has decoded the binary, or has failed to.
    pub fn process_decoded(
        &self,
        input: WasmExecutionInput<X>,
        decoded_wasm: HypervisorResult<X, BinaryEncodedWasm>,
    ) -> (step: ExecutorStep<X>)
        ensures
            step == after_decoding(input, decoded_wasm, self.log),
    {
        match decoded_wasm {
            Ok(wasm) => {
                let cache = self.get_embedder_cache(
                    Some(wasm),
                    &input.execution_state.wasm_binary,
                );
                self.looked_up(input, cache)
            },
            Err(error) => Self::compilation_failed(input, error),
        }
    }

    /// The engine has compiled the module, or has failed to, in the given time.
    pub fn process_compiled(
        &mut self,
        pending: PendingCompilation<X>,
        elapsed: Duration,
        compiled: Compiled<X>,
    ) -> (step: ExecutorStep<X>)
        requires
            pending.input.execution_state.wasm_binary.embedder_cache is None,
        ensures
            final(self).metrics@ == old(self).metrics@.compile(elapsed),
            final(self).differs_in_metrics_only(old(self)),
            step == after_compilation(pending, compiled, old(self).log),
    {
        let mut input = pending.input;
        match self.embedder_compiled(&mut input.execution_state.wasm_binary, elapsed, compiled) {
            Ok((embedder_cache, compilation_output)) => {
                let compilation_result = match compilation_output {
                    Some(output) => Some(output.compilation_result),
                    None => None,
                };
                self.compilation_ensured(input, embedder_cache, compilation_result)
            },
            Err(error) => Self::compilation_failed(input, error),
        }
    }

    fn looked_up(&self, input: WasmExecutionInput<X>, cache: CacheStep<X>) -> (step: ExecutorStep<
        X,
    >)
        ensures
            step == after_lookup(input, cache, self.log),
    {
        match cache {
            CacheStep::Cached(embedder_cache) => self.compilation_ensured(
                input,
                embedder_cache,
                None,
            ),
            CacheStep::Decode => ExecutorStep::Decode(input),
            CacheStep::Compile(decoded_wasm) => ExecutorStep::Compile(
                PendingCompilation { decoded_wasm, input },
            ),
        }
    }

    fn compilation_failed(input: WasmExecutionInput<X>, error: HypervisorError<X>) -> (step:
        ExecutorStep<X>)
        ensures
            step == not_compiled(input, error),
    {
        ExecutorStep::Finished(
            None,
            input.execution_state,
            WasmExecutionResult::Finished(
                WasmExecutionOutput::failed(error),
                input.sandbox_safe_system_state.system_state_changes,
            ),
        )
    }

    fn compilation_ensured(
        &self,
        input: WasmExecutionInput<X>,
        embedder_cache: Arc<X::EmbedderCache>,
        compilation_result: Option<X::CompilationResult>,
    ) -> (step: ExecutorStep<X>)
        ensures
            step == instance_request(input, embedder_cache, compilation_result, self.log),
    {
        let wasm_reserved_pages = get_wasm_reserved_pages(&input.execution_state);
        let execution_state = input.execution_state;
        let (request, pending) = process(
            input.func_ref,
            input.api_type,
            input.canister_current_memory_usage,
            input.execution_parameters,
            input.sandbox_safe_system_state,
            embedder_cache,
            execution_state.wasm_memory,
            execution_state.stable_memory,
            execution_state.exported_globals,
            Arc::clone(&self.log),
            wasm_reserved_pages,
            OutOfInstructionsHandler::Default,
        );
        let module = LoadedModule {
            compilation_result,
            canister_root: execution_state.canister_root,
            wasm_binary: execution_state.wasm_binary,
            exports: execution_state.exports,
            metadata: execution_state.metadata,
        };
        ExecutorStep::NewInstance(request, module, pending)
    }

    /// Begins to make the execution state of a new canister: its binary is to be decoded.
    pub fn create_execution_state(
        &self,
        wasm_source: Vec<u8>,
        canister_root: PathBuf,
        canister_id: X::CanisterId,
    ) -> (pending: PendingModuleDecoding<X>)
        ensures
            pending == (PendingModuleDecoding::<X> { wasm_source, canister_root, canister_id }),
    {
        PendingModuleDecoding { wasm_source, canister_root, canister_id }
    }

    /// The engine has decoded the binary of a new canister, or has failed to. A newly made binary
    /// has to be compiled.
    pub fn module_decoded(
        &self,
        pending: PendingModuleDecoding<X>,
        decoded_wasm: HypervisorResult<X, BinaryEncodedWasm>,
    ) -> (next: HypervisorResult<X, PendingModuleCompilation<X>>)
        ensures
            next == after_module_decoding(pending, decoded_wasm),
    {
        let wasm_binary = WasmBinary::new(pending.wasm_source);
        match decoded_wasm {
            Ok(wasm) => match self.get_embedder_cache(Some(wasm), &wasm_binary) {
                CacheStep::Compile(decoded_wasm) => Ok(
                    PendingModuleCompilation {
                        decoded_wasm,
                        wasm_binary,
                        canister_root: pending.canister_root,
                        canister_id: pending.canister_id,
                    },
                ),
                _ => vstd::pervasive::unreached(),
            },
            Err(error) => Err(error),
        }
    }

    /// The engine has compiled the module of a new canister, or has failed to, in the given time.
    /// The initial pages are to be applied to an empty page map.
    pub fn module_compiled(
        &mut self,
        pending: PendingModuleCompilation<X>,
        elapsed: Duration,
        compiled: Compiled<X>,
    ) -> (next: HypervisorResult<X, PendingModulePages<X>>)
        requires
            pending.wasm_binary.embedder_cache is None,
        ensures
            final(self).metrics@ == old(self).metrics@.compile(elapsed),
            final(self).differs_in_metrics_only(old(self)),
            match compiled {
                Ok((embedder_cache, output)) => next is Ok && awaits_initial_pages(
                    next->Ok_0,
                    pending,
                    embedder_cache,
                    output,
                ),
                Err(error) => next == Err::<PendingModulePages<X>, _>(error),
            },
    {
        let mut wasm_binary = pending.wasm_binary;
        match self.embedder_compiled(&mut wasm_binary, elapsed, compiled) {
            Ok((embedder_cache, Some(compilation_output))) => {
                let wasm_page_map = <X::PageMap as Default>::default();
                Ok(
                    PendingModulePages {
                        compilation_result: compilation_output.compilation_result,
                        wasm_binary,
                        canister_root: pending.canister_root,
                        wasm_metadata: compilation_output.validation_details.wasm_metadata,
                        initial: get_initial_globals_and_memory(
                            compilation_output.instrumentation_output,
                            embedder_cache,
                            wasm_page_map,
                            pending.canister_id,
                        ),
                    },
                )
            },
            Ok((_, None)) => vstd::pervasive::unreached(),
            Err(error) => Err(error),
        }
    }

    /// How many compilations the executor has asked for.
    pub fn compile_count_for_testing(&self) -> (count: u64)
        ensures
            count == self.metrics@.compilations(),
    {
        self.metrics.compilation_count()
    }

    /// The line to log for an execution, given its output as text and the hashes of the changes of
    /// the stable memory, of the Wasm memory and of the globals. There is none if no hashes are
    /// to be logged, as for queries, which change nothing.
    pub fn emit_state_hashes_for_debugging(
        &self,
        state_hashes: &Option<(u64, u64, u64)>,
        wasm_execution_output: &str,
    ) -> (line: Option<String>)
        ensures
            line is Some <==> state_hashes is Some,
            line is Some ==> line->Some_0@ == state_hashes_line(
                wasm_execution_output@,
                state_hashes->Some_0,
            ),
    {
        match state_hashes {
            Some(hashes) => {
                let mut line = "Executed update call: result  => [".to_owned();
                line.append(wasm_execution_output);
                line.append("], deltas hash => [ wasm memory delta => ");
                append_decimal(&mut line, hashes.1);
                line.append(", stable memory delta => ");
                append_decimal(&mut line, hashes.0);
                line.append(", globals => ");
                append_decimal(&mut line, hashes.2);
                line.append("]");
                Some(line)
            },
            None => None,
        }
    }
}

} // verus!
