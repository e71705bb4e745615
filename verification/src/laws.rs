//! What holds of the executor as a whole.
use crate::execution_state::{ExecutionState, WasmBinary};
use crate::executor::{
    BinaryEncodedWasm, CacheStep, Compiled, ExecutorStep, FullCompilationOutput, LoadedModule,
    PendingCompilation, PendingModuleCompilation, PendingModuleDecoding, PendingModuleInstance,
    PendingModulePages, PendingSystemStateChanges, WasmExecutionInput, WasmExecutionResult,
};
use crate::initial_state::InitialInstance;
use crate::metrics::{MetricsView, WasmImportsDetails};
use crate::platform::{HypervisorError, HypervisorResult, Platform};
use crate::process::{
    MemoryUpdate, PendingInstance, ProcessOutcome, ProcessStep, RunReport, TakenResult,
    WasmExecutionOutput,
};
use crate::state_changes::{DirtyPageIndices, WasmStateChanges};
use crate::units::{NumWasmPages, PageIndex};
use core::time::Duration;
use std::sync::Arc;
use vstd::prelude::*;

verus! {

/// A module is compiled once: whoever asks for a binary after it was compiled gets what was
/// compiled, and nothing is decoded or compiled again.
pub proof fn law_compiled_module_is_reused<X: Platform>(
    wasm_binary: WasmBinary<X>,
    compiled: Compiled<X>,
    decoded_wasm: Option<BinaryEncodedWasm>,
)
    requires
        compiled is Ok,
    ensures
        crate::executor::cache_step(
            decoded_wasm,
            crate::executor::compiled_binary(wasm_binary, compiled),
        ) == CacheStep::<X>::Cached(compiled->Ok_0.0),
{
}

/// A failed compilation leaves the binary as it was: the next request for an uncompiled binary
/// asks for a compilation again.
pub proof fn law_failed_compilation_is_repeated<X: Platform>(
    wasm_binary: WasmBinary<X>,
    compiled: Compiled<X>,
    decoded_wasm: BinaryEncodedWasm,
)
    requires
        wasm_binary.embedder_cache is None,
        compiled is Err,
    ensures
        crate::executor::compiled_binary(wasm_binary, compiled) == wasm_binary,
        crate::executor::cache_step(
            Some(decoded_wasm),
            crate::executor::compiled_binary(wasm_binary, compiled),
        ) == CacheStep::<X>::Compile(decoded_wasm),
{
}

/// What comes of an execution, given everything that the engine answers.
pub open spec fn process_outcome<X: Platform>(
    pending: PendingInstance<X>,
    instance: HypervisorResult<X, ()>,
    report: RunReport<X>,
    taken: TakenResult<X>,
    update: MemoryUpdate<X>,
) -> ProcessOutcome<X> {
    let changes_state = changes_wasm_state(pending, instance, report);
    ProcessOutcome {
        output: match instance {
            Ok(()) => WasmExecutionOutput {
                wasm_result: if taken.heap_size.0 > pending.wasm_heap_limit.0 {
                    Err(HypervisorError::WasmReservedPages)
                } else {
                    taken.wasm_result
                },
                num_instructions_left: report.num_instructions_left,
                instance_stats: report.instance_stats,
            },
            Err(error) => crate::process::failed_output(error),
        },
        wasm_state_changes: if changes_state {
            Some(
                WasmStateChanges {
                    dirty_page_indices: DirtyPageIndices {
                        wasm_memory_delta: update.wasm_memory_delta,
                        stable_memory_delta: update.stable_memory_delta,
                    },
                    globals: report.run_result->Ok_0.exported_globals,
                },
            )
        } else {
            None
        },
        wasm_memory: if changes_state {
            crate::execution_state::Memory {
                page_map: update.wasm_page_map,
                size: taken.heap_size,
            }
        } else {
            pending.wasm_memory
        },
        stable_memory: if changes_state {
            crate::execution_state::Memory {
                page_map: update.stable_page_map,
                size: report.run_result->Ok_0.stable_memory_size,
            }
        } else {
            pending.stable_memory
        },
        globals: pending.globals,
        instance_created: instance is Ok,
    }
}

/// Whether an execution changes the Wasm state: its writes are tracked and it came to its end.
pub open spec fn changes_wasm_state<X: Platform>(
    pending: PendingInstance<X>,
    instance: HypervisorResult<X, ()>,
    report: RunReport<X>,
) -> bool {
    instance is Ok && report.run_result is Ok && pending.modification_tracking is Track
}

/// Answer by answer, an execution comes to one outcome: it is asked to run exactly if there is an
/// instance, its result is taken after every run, with the error that ended the run, and it is
/// asked to update its memories exactly if it changes the Wasm state.
pub proof fn law_process_comes_to_its_outcome<X: Platform>(
    pending: PendingInstance<X>,
    instance: HypervisorResult<X, ()>,
    report: RunReport<X>,
    taken: TakenResult<X>,
    update: MemoryUpdate<X>,
)
    ensures
        match crate::process::after_instance(pending, instance) {
            ProcessStep::Done(outcome) => {
                &&& instance is Err
                &&& outcome == process_outcome(pending, instance, report, taken, update)
            },
            ProcessStep::Run(run) => {
                &&& instance is Ok
                &&& run.func_ref == pending.func_ref
                &&& run.instruction_limit == pending.instruction_limit
                &&& crate::process::after_run(run, report) matches ProcessStep::TakeResult(result)
                &&& crate::process::told_error(result.report) is Some <==> report.run_result is Err
                &&& report.run_result matches Err(error) ==> crate::process::told_error(
                    result.report,
                ) == Some(error)
                &&& match crate::process::after_result(result, taken) {
                    ProcessStep::Done(outcome) => {
                        &&& !changes_wasm_state(pending, instance, report)
                        &&& outcome == process_outcome(pending, instance, report, taken, update)
                    },
                    ProcessStep::UpdateMemories(updating) => {
                        &&& changes_wasm_state(pending, instance, report)
                        &&& updating.dirty_pages == report.run_result->Ok_0.dirty_pages
                        &&& updating.wasm_memory == pending.wasm_memory
                        &&& updating.stable_memory == pending.stable_memory
                        &&& crate::process::after_update(updating, update) == process_outcome(
                            pending,
                            instance,
                            report,
                            taken,
                            update,
                        )
                    },
                    _ => false,
                }
            },
            _ => false,
        },
{
}

/// Where a message stands once its execution is over, given its instance request and everything
/// that the engine answers.
pub open spec fn message_outcome<X: Platform>(
    module: LoadedModule<X>,
    pending: PendingInstance<X>,
    instance: HypervisorResult<X, ()>,
    report: RunReport<X>,
    taken: TakenResult<X>,
    update: MemoryUpdate<X>,
) -> PendingSystemStateChanges<X> {
    crate::executor::after_outcome(
        module,
        process_outcome(pending, instance, report, taken, update),
    )
}

/// A message comes, answer by answer, to the point where only the changes of its system state are
/// missing, and it stands there as its execution's outcome says.
pub proof fn law_message_comes_to_its_outcome<X: Platform>(
    module: LoadedModule<X>,
    pending: PendingInstance<X>,
    instance: HypervisorResult<X, ()>,
    report: RunReport<X>,
    taken: TakenResult<X>,
    update: MemoryUpdate<X>,
)
    ensures
        ({
            let end = ExecutorStep::TakeSystemStateChanges(
                message_outcome(module, pending, instance, report, taken, update),
            );
            let created = crate::process::after_instance(pending, instance);
            let first = crate::executor::executor_step(module, created);
            match first {
                ExecutorStep::Run(loaded, run) => {
                    let completed = crate::process::after_run(run, report);
                    let second = crate::executor::executor_step(loaded, completed);
                    &&& second matches ExecutorStep::TakeResult(loaded, result)
                    &&& {
                        let given = crate::process::after_result(result, taken);
                        let third = crate::executor::executor_step(loaded, given);
                        match third {
                            ExecutorStep::UpdateMemories(
                                loaded,
                                updating,
                            ) => crate::executor::executor_step(
                                loaded,
                                ProcessStep::Done(crate::process::after_update(updating, update)),
                            ) == end,
                            _ => third == end,
                        }
                    }
                },
                _ => first == end,
            }
        }),
{
    law_process_comes_to_its_outcome(pending, instance, report, taken, update);
}

/// A message leaves the execution state exactly as it was unless its writes are tracked and its
/// run comes to its end. So a query changes nothing, nor does a message that traps.
pub proof fn law_untracked_or_failed_message_changes_nothing<X: Platform>(
    input: WasmExecutionInput<X>,
    embedder_cache: Arc<X::EmbedderCache>,
    compilation_result: Option<X::CompilationResult>,
    log: Arc<X::Logger>,
    instance: HypervisorResult<X, ()>,
    report: RunReport<X>,
    taken: TakenResult<X>,
    update: MemoryUpdate<X>,
)
    requires
        input.api_type.modification_tracking is Ignore || instance is Err
            || report.run_result is Err,
    ensures
        crate::executor::instance_request(
            input,
            embedder_cache,
            compilation_result,
            log,
        ) matches ExecutorStep::NewInstance(_, module, pending) && message_outcome(
            module,
            pending,
            instance,
            report,
            taken,
            update,
        ).execution_state == input.execution_state,
{
}

/// Whatever a message does, the canister keeps its directory, its module, its exports and its
/// metadata.
pub proof fn law_message_keeps_the_module<X: Platform>(
    input: WasmExecutionInput<X>,
    embedder_cache: Arc<X::EmbedderCache>,
    compilation_result: Option<X::CompilationResult>,
    log: Arc<X::Logger>,
    instance: HypervisorResult<X, ()>,
    report: RunReport<X>,
    taken: TakenResult<X>,
    update: MemoryUpdate<X>,
)
    ensures
        crate::executor::instance_request(
            input,
            embedder_cache,
            compilation_result,
            log,
        ) matches ExecutorStep::NewInstance(_, module, pending) && {
            let after = message_outcome(module, pending, instance, report, taken, update);
            &&& after.execution_state.canister_root == input.execution_state.canister_root
            &&& after.execution_state.wasm_binary == input.execution_state.wasm_binary
            &&& after.execution_state.exports == input.execution_state.exports
            &&& after.execution_state.metadata == input.execution_state.metadata
            &&& after.compilation_result == compilation_result
        },
{
}

/// A message that has run fails for the reserved pages exactly if its heap ends up within the
/// last 16 pages of the address space and the canister was compiled by an old Motoko compiler, or
/// beyond the address space; otherwise its result is the one that the system API has given.
pub proof fn law_reserved_pages_fail_the_message<X: Platform>(
    input: WasmExecutionInput<X>,
    embedder_cache: Arc<X::EmbedderCache>,
    compilation_result: Option<X::CompilationResult>,
    log: Arc<X::Logger>,
    report: RunReport<X>,
    taken: TakenResult<X>,
    update: MemoryUpdate<X>,
)
    ensures
        crate::executor::instance_request(
            input,
            embedder_cache,
            compilation_result,
            log,
        ) matches ExecutorStep::NewInstance(_, module, pending) && {
            let output = message_outcome(module, pending, Ok(()), report, taken, update).output;
            let uses_reserved_pages = if crate::execution_state::compiled_by_old_motoko(
                input.execution_state,
            ) {
                taken.heap_size.0 > 65536 - 16
            } else {
                taken.heap_size.0 > 65536
            };
            output.wasm_result == if uses_reserved_pages {
                Err(HypervisorError::WasmReservedPages)
            } else {
                taken.wasm_result
            }
        },
{
}

/// The instance runs within the limit of the whole message: an execution is never sliced.
pub proof fn law_run_has_the_total_limit<X: Platform>(
    input: WasmExecutionInput<X>,
    embedder_cache: Arc<X::EmbedderCache>,
    compilation_result: Option<X::CompilationResult>,
    log: Arc<X::Logger>,
)
    requires
        input.execution_parameters.total_instruction_limit
            == input.execution_parameters.slice_instruction_limit,
    ensures
        crate::executor::instance_request(
            input,
            embedder_cache,
            compilation_result,
            log,
        ) matches ExecutorStep::NewInstance(_, _, pending) && match crate::process::after_instance(
            pending,
            Ok(()),
        ) {
            ProcessStep::Run(run) => run.instruction_limit
                == input.execution_parameters.total_instruction_limit,
            _ => false,
        },
{
}

/// Whether a step ends a message with a paused execution.
pub open spec fn pauses<X: Platform>(step: ExecutorStep<X>) -> bool {
    step matches ExecutorStep::Finished(_, _, result) && result is Paused
}

/// No message is ever paused, whatever the engine answers.
pub proof fn law_messages_are_never_paused<X: Platform>(
    input: WasmExecutionInput<X>,
    decoded_wasm: HypervisorResult<X, BinaryEncodedWasm>,
    pending: PendingCompilation<X>,
    compiled: Compiled<X>,
    module: LoadedModule<X>,
    step: ProcessStep<X>,
    cache: CacheStep<X>,
    concluded: PendingSystemStateChanges<X>,
    system_state_changes: X::SystemStateChanges,
    log: Arc<X::Logger>,
)
    ensures
        !pauses(crate::executor::after_lookup(input, cache, log)),
        !pauses(crate::executor::after_decoding(input, decoded_wasm, log)),
        !pauses(crate::executor::after_compilation(pending, compiled, log)),
        !pauses(crate::executor::executor_step(module, step)),
        !pauses(crate::executor::after_taking(concluded, system_state_changes)),
{
}

/// A message whose module is not compiled has its binary decoded, then the decoded module
/// compiled, and nothing of the message is changed on the way.
pub proof fn law_uncompiled_message_is_decoded_and_compiled<X: Platform>(
    input: WasmExecutionInput<X>,
    decoded_wasm: BinaryEncodedWasm,
    log: Arc<X::Logger>,
)
    requires
        input.execution_state.wasm_binary.embedder_cache is None,
    ensures
        crate::executor::after_lookup(
            input,
            crate::executor::cache_step(None, input.execution_state.wasm_binary),
            log,
        ) == ExecutorStep::Decode(input),
        crate::executor::after_decoding(input, Ok(decoded_wasm), log) == ExecutorStep::Compile(
            PendingCompilation { decoded_wasm, input },
        ),
{
}

/// A message whose module cannot be decoded or compiled fails with the engine's error, has no
/// instructions left, touches no page, and leaves the execution state and the system state as it
/// found them.
pub proof fn law_uncompiled_message_fails<X: Platform>(
    pending: PendingCompilation<X>,
    error: HypervisorError<X>,
    log: Arc<X::Logger>,
)
    ensures
        crate::executor::after_decoding(pending.input, Err(error), log)
            == crate::executor::after_compilation(pending, Err(error), log),
        crate::executor::after_compilation(pending, Err(error), log) matches ExecutorStep::Finished(
            compilation_result,
            execution_state,
            WasmExecutionResult::Finished(output, changes),
        ) && {
            &&& compilation_result is None
            &&& execution_state == pending.input.execution_state
            &&& output.wasm_result == Err::<Option<X::WasmResult>, _>(error)
            &&& output.num_instructions_left.0 == 0
            &&& output.instance_stats.accessed_pages == 0
            &&& output.instance_stats.dirty_pages == 0
            &&& changes == pending.input.sandbox_safe_system_state.system_state_changes
        },
{
}

/// A message reports a compilation exactly if its module was compiled for it.
pub proof fn law_compilation_is_reported_when_it_happens<X: Platform>(
    input: WasmExecutionInput<X>,
    embedder_cache: Arc<X::EmbedderCache>,
    pending: PendingCompilation<X>,
    compiled: Compiled<X>,
    log: Arc<X::Logger>,
)
    requires
        compiled is Ok,
    ensures
        crate::executor::after_lookup(
            input,
            CacheStep::Cached(embedder_cache),
            log,
        ) matches ExecutorStep::NewInstance(_, module, _) && module.compilation_result is None,
        crate::executor::after_compilation(
            pending,
            compiled,
            log,
        ) matches ExecutorStep::NewInstance(_, module, _) && module.compilation_result == Some(
            compiled->Ok_0.1.compilation_result,
        ),
{
}

/// After a message has compiled its module, the next message on the resulting execution state is
/// asked for an instance at once.
pub proof fn law_next_message_needs_no_compilation<X: Platform>(
    pending: PendingCompilation<X>,
    compiled: Compiled<X>,
    instance: HypervisorResult<X, ()>,
    report: RunReport<X>,
    taken: TakenResult<X>,
    update: MemoryUpdate<X>,
    next: WasmExecutionInput<X>,
    log: Arc<X::Logger>,
)
    requires
        compiled is Ok,
        crate::executor::after_compilation(
            pending,
            compiled,
            log,
        ) matches ExecutorStep::NewInstance(_, module, instance_request)
            && next.execution_state == message_outcome(
            module,
            instance_request,
            instance,
            report,
            taken,
            update,
        ).execution_state,
    ensures
        crate::executor::after_lookup(
            next,
            crate::executor::cache_step(None, next.execution_state.wasm_binary),
            log,
        ) == crate::executor::instance_request(next, compiled->Ok_0.0, None, log),
{
}

/// A new canister begins with the module it was made of, compiled, with the exports, the metadata
/// and the globals of that module, with the initial pages in its memory and with an empty stable
/// memory.
pub proof fn law_new_canister_begins_with_its_module<X: Platform>(
    source: PendingModuleDecoding<X>,
    decoded_wasm: BinaryEncodedWasm,
    compilation: PendingModuleCompilation<X>,
    embedder_cache: Arc<X::EmbedderCache>,
    output: FullCompilationOutput<X>,
    pages: PendingModulePages<X>,
    wasm_page_map: X::PageMap,
    wasm_memory_delta: Vec<PageIndex>,
    pending: PendingModuleInstance<X>,
    instance: InitialInstance,
    state: ExecutionState<X>,
)
    requires
        crate::executor::after_module_decoding(source, Ok(decoded_wasm)) == Ok::<
            PendingModuleCompilation<X>,
            HypervisorError<X>,
        >(compilation),
        crate::executor::awaits_initial_pages(pages, compilation, embedder_cache, output),
        crate::executor::awaits_initial_instance(pending, pages, wasm_page_map, wasm_memory_delta),
        crate::executor::is_initial_state(state, pending, instance),
    ensures
        compilation.decoded_wasm == decoded_wasm,
        pending.compilation_result == output.compilation_result,
        state.canister_root == source.canister_root,
        state.wasm_binary.binary == source.wasm_source,
        state.wasm_binary.embedder_cache == Some(embedder_cache),
        state.exports@ == crate::module_info::method_set(
            output.instrumentation_output.exported_functions@,
        ),
        state.metadata == output.validation_details.wasm_metadata,
        state.exported_globals == instance.exported_globals,
        state.wasm_memory.page_map == wasm_page_map,
        state.wasm_memory.size == instance.heap_size,
        state.stable_memory.size == NumWasmPages(0),
        call_ensures(<X::PageMap as Default>::default, (), state.stable_memory.page_map),
{
}

/// The first message on a new canister is asked for an instance at once: the module was compiled
/// when the canister was made.
pub proof fn law_first_message_needs_no_compilation<X: Platform>(
    compilation: PendingModuleCompilation<X>,
    embedder_cache: Arc<X::EmbedderCache>,
    output: FullCompilationOutput<X>,
    pages: PendingModulePages<X>,
    wasm_page_map: X::PageMap,
    wasm_memory_delta: Vec<PageIndex>,
    pending: PendingModuleInstance<X>,
    instance: InitialInstance,
    first: WasmExecutionInput<X>,
    log: Arc<X::Logger>,
)
    requires
        crate::executor::awaits_initial_pages(pages, compilation, embedder_cache, output),
        crate::executor::awaits_initial_instance(pending, pages, wasm_page_map, wasm_memory_delta),
        crate::executor::is_initial_state(first.execution_state, pending, instance),
    ensures
        crate::executor::after_lookup(
            first,
            crate::executor::cache_step(None, first.execution_state.wasm_binary),
            log,
        ) == crate::executor::instance_request(first, embedder_cache, None, log),
{
}

/// Seeing the imports of a module does not count as a compilation, a compilation is not counted
/// under any import, and neither of them changes how the metrics were set up.
pub proof fn law_metrics_do_not_mix(
    metrics: MetricsView,
    imports: WasmImportsDetails,
    elapsed: Duration,
)
    ensures
        metrics.observe(imports).durations == metrics.durations,
        metrics.observe(imports).set_up_like(metrics),
        metrics.compile(elapsed).observe(imports) == metrics.observe(imports).compile(elapsed),
        metrics.compile(elapsed) == (MetricsView {
            durations: metrics.compile(elapsed).durations,
            ..metrics
        }),
        metrics.compile(elapsed).set_up_like(metrics),
{
}

/// The metrics after compilations that took so long each.
pub open spec fn after_compilations(metrics: MetricsView, durations: Seq<Duration>) -> MetricsView
    decreases durations.len(),
{
    if durations.len() == 0 {
        metrics
    } else {
        after_compilations(metrics, durations.drop_last()).compile(durations.last())
    }
}

/// A fresh executor records how long each of its compilations took, and its compilation count is
/// their number.
pub proof fn law_compilations_are_counted(
    registry: prometheus::Registry,
    bounds: prometheus::HistogramOpts,
    durations: Seq<Duration>,
)
    requires
        durations.len() < 0x8000_0000_0000_0000,
    ensures
        ({
            let metrics = crate::metrics::initial_metrics(registry, bounds);
            &&& after_compilations(metrics, durations).durations == durations
            &&& after_compilations(metrics, durations).compilations() == durations.len()
        }),
    decreases durations.len(),
{
    if durations.len() > 0 {
        law_compilations_are_counted(registry, bounds, durations.drop_last());
        assert(durations.drop_last().push(durations.last()) =~= durations);
    } else {
        assert(durations =~= Seq::empty());
    }
}

/// The metrics after modules with these imports were seen.
pub open spec fn after_modules(
    metrics: MetricsView,
    modules: Seq<WasmImportsDetails>,
) -> MetricsView
    decreases modules.len(),
{
    if modules.len() == 0 {
        metrics
    } else {
        after_modules(metrics, modules.drop_last()).observe(modules.last())
    }
}

/// How many of the modules have an import.
pub open spec fn importers(
    modules: Seq<WasmImportsDetails>,
    imports: spec_fn(WasmImportsDetails) -> bool,
) -> nat {
    modules.filter(imports).len()
}

proof fn lemma_importers(
    modules: Seq<WasmImportsDetails>,
    imports: spec_fn(WasmImportsDetails) -> bool,
)
    ensures
        importers(modules, imports) <= modules.len(),
        modules.len() == 0 ==> importers(modules, imports) == 0,
        modules.len() > 0 ==> importers(modules, imports) == importers(modules.drop_last(), imports)
            + if imports(modules.last()) {
            1nat
        } else {
            0nat
        },
{
    broadcast use vstd::seq_lib::group_filter_ensures;

    reveal(Seq::filter);
}

/// On a fresh executor that has seen some modules, each import counter stands at the number of
/// those modules that import its function, as long as the number of modules fits the counter.
pub proof fn law_importing_modules_are_counted(
    registry: prometheus::Registry,
    bounds: prometheus::HistogramOpts,
    modules: Seq<WasmImportsDetails>,
)
    requires
        modules.len() <= u64::MAX,
    ensures
        ({
            let metrics = after_modules(crate::metrics::initial_metrics(registry, bounds), modules);
            &&& metrics.imports_call_simple == importers(
                modules,
                |m: WasmImportsDetails| m.imports_call_simple,
            )
            &&& metrics.imports_call_cycles_add == importers(
                modules,
                |m: WasmImportsDetails| m.imports_call_cycles_add,
            )
            &&& metrics.imports_canister_cycle_balance == importers(
                modules,
                |m: WasmImportsDetails| m.imports_canister_cycle_balance,
            )
            &&& metrics.imports_msg_cycles_available == importers(
                modules,
                |m: WasmImportsDetails| m.imports_msg_cycles_available,
            )
            &&& metrics.imports_msg_cycles_refunded == importers(
                modules,
                |m: WasmImportsDetails| m.imports_msg_cycles_refunded,
            )
            &&& metrics.imports_msg_cycles_accept == importers(
                modules,
                |m: WasmImportsDetails| m.imports_msg_cycles_accept,
            )
            &&& metrics.imports_mint_cycles == importers(
                modules,
                |m: WasmImportsDetails| m.imports_mint_cycles,
            )
        }),
    decreases modules.len(),
{
    lemma_importers(modules, |m: WasmImportsDetails| m.imports_call_simple);
    lemma_importers(modules, |m: WasmImportsDetails| m.imports_call_cycles_add);
    lemma_importers(modules, |m: WasmImportsDetails| m.imports_canister_cycle_balance);
    lemma_importers(modules, |m: WasmImportsDetails| m.imports_msg_cycles_available);
    lemma_importers(modules, |m: WasmImportsDetails| m.imports_msg_cycles_refunded);
    lemma_importers(modules, |m: WasmImportsDetails| m.imports_msg_cycles_accept);
    lemma_importers(modules, |m: WasmImportsDetails| m.imports_mint_cycles);
    if modules.len() > 0 {
        law_importing_modules_are_counted(registry, bounds, modules.drop_last());
    }
}

/// A page delta holds whole pages, and the same bytes wherever it holds the same page.
pub proof fn law_page_delta_holds_whole_pages(
    delta: Seq<(PageIndex, &[u8])>,
    heap: Seq<u8>,
    dirty_pages: Seq<PageIndex>,
)
    requires
        crate::page_delta::pages_in_heap(dirty_pages, heap.len()),
        crate::page_delta::is_page_delta(delta, heap, dirty_pages),
    ensures
        forall|i: int|
            0 <= i < delta.len() ==> (#[trigger] delta[i]).1@.len() == crate::units::PAGE_SIZE,
        forall|i: int, j: int|
            0 <= i < delta.len() && 0 <= j < delta.len() && (#[trigger] delta[i]).0 == (
            #[trigger] delta[j]).0 ==> delta[i].1@ == delta[j].1@,
{
    assert forall|i: int| 0 <= i < delta.len() implies (#[trigger] delta[i]).1@.len()
        == crate::units::PAGE_SIZE by {
        assert(crate::page_delta::page_in_heap(dirty_pages[i], heap.len()));
    }
}

/// The hashes of two changes are the same if the changes list the same pages and globals.
pub proof fn law_equal_changes_have_equal_hashes(a: WasmStateChanges, b: WasmStateChanges)
    requires
        a.dirty_page_indices.wasm_memory_delta@ == b.dirty_page_indices.wasm_memory_delta@,
        a.dirty_page_indices.stable_memory_delta@ == b.dirty_page_indices.stable_memory_delta@,
        a.globals@ == b.globals@,
    ensures
        crate::state_changes::state_hashes(a) == crate::state_changes::state_hashes(b),
{
}

/// What is hashed of a page list tells the list: different deltas are fed to the hasher
/// differently.
pub proof fn law_page_writes_tell_the_pages(a: Seq<PageIndex>, b: Seq<PageIndex>)
    requires
        crate::state_changes::page_writes(a) == crate::state_changes::page_writes(b),
    ensures
        a == b,
{
    let writes_a = crate::state_changes::page_writes(a);
    let writes_b = crate::state_changes::page_writes(b);
    assert(writes_a.len() == a.len() + 1);
    assert(writes_b.len() == b.len() + 1);
    vstd::bytes::lemma_auto_spec_u64_to_from_le_bytes();
    assert forall|i: int| 0 <= i < a.len() implies a[i] == b[i] by {
        assert(writes_a[i + 1] == crate::state_changes::word(a[i].0));
        assert(writes_b[i + 1] == crate::state_changes::word(b[i].0));
        assert(vstd::bytes::spec_u64_from_le_bytes(crate::state_changes::word(a[i].0)) == a[i].0);
        assert(vstd::bytes::spec_u64_from_le_bytes(crate::state_changes::word(b[i].0)) == b[i].0);
    }
    assert(a =~= b);
}

} // verus!
