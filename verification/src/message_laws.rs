//! What holds of a message from its input to its end.
//!
//! Every law speaks of calls: of what a function returns for its arguments, or of how the results
//! of several calls relate. It also says that the calls may be made.
use crate::execution_state::{Memory, WasmBinary};
use crate::executor::{
    BinaryEncodedWasm, CacheStep, Compiled, ExecutorStep, FullCompilationOutput, LoadedModule,
    PendingCompilation, PendingSystemStateChanges, WasmExecutionInput, WasmExecutionResult,
    WasmExecutor,
};
use crate::module_info::MethodName;
use crate::platform::{HypervisorError, HypervisorResult, Platform};
use crate::process::{
    process, ApiType, ExecutionParameters, MemoryUpdate, OutOfInstructionsHandler, PendingInstance,
    PendingResult, PendingRun, PendingUpdate, ProcessOutcome, ProcessStep, RunReport,
    SandboxSafeSystemState, SystemApiRequest, TakenResult, WasmExecutionOutput,
};
use crate::state_changes::Global;
use crate::units::{NumBytes, NumWasmPages};
use core::time::Duration;
use std::sync::Arc;
use vstd::prelude::*;

verus! {

/// Whether the step is what the executor answers to the message, to the decoded module or to the
/// compiled module of the message.
pub open spec fn answers_message<X: Platform>(
    step: ExecutorStep<X>,
    executor: &mut WasmExecutor<X>,
    input: WasmExecutionInput<X>,
    decoding: HypervisorResult<X, BinaryEncodedWasm>,
    decoded_wasm: BinaryEncodedWasm,
    elapsed: Duration,
    compiled: Compiled<X>,
) -> bool {
    ||| call_ensures(WasmExecutor::<X>::process, (&*executor, input), step)
    ||| call_ensures(WasmExecutor::<X>::process_decoded, (&*executor, input, decoding), step)
    ||| call_ensures(
        WasmExecutor::<X>::process_compiled,
        (executor, PendingCompilation { decoded_wasm, input }, elapsed, compiled),
        step,
    )
}

/// However its module came to be compiled, a message gets its instance on the canister's memories
/// and globals as they are, with the tracking and the limits of the message. The system API is made
/// of the message, logs where the executor does and handles the end of the instructions by default.
/// The heap may fill the address space but for the last 16 pages of a canister that exports the
/// Motoko marker and does not name its compiler.
pub proof fn law_instance_is_made_of_the_message<X: Platform>(
    executor: &mut WasmExecutor<X>,
    input: WasmExecutionInput<X>,
    decoding: HypervisorResult<X, BinaryEncodedWasm>,
    decoded_wasm: BinaryEncodedWasm,
    elapsed: Duration,
    compiled: Compiled<X>,
    step: ExecutorStep<X>,
)
    requires
        answers_message(step, executor, input, decoding, decoded_wasm, elapsed, compiled),
    ensures
        step matches ExecutorStep::NewInstance(request, module, pending) ==> {
            let state = input.execution_state;
            &&& request.api_type == input.api_type
            &&& request.sandbox_safe_system_state == input.sandbox_safe_system_state
            &&& request.canister_current_memory_usage == input.canister_current_memory_usage
            &&& request.execution_parameters == input.execution_parameters
            &&& request.out_of_instructions_handler is Default
            &&& request.logger == old(executor).log
            &&& module.canister_root == state.canister_root
            &&& module.wasm_binary.binary == state.wasm_binary.binary
            &&& module.wasm_binary.embedder_cache == Some(pending.embedder_cache)
            &&& module.exports == state.exports
            &&& module.metadata == state.metadata
            &&& pending.func_ref == input.func_ref
            &&& pending.globals == state.exported_globals
            &&& pending.wasm_memory == state.wasm_memory
            &&& pending.stable_memory == state.stable_memory
            &&& pending.modification_tracking == input.api_type.modification_tracking
            &&& pending.instruction_limit == input.execution_parameters.slice_instruction_limit
            &&& pending.wasm_heap_limit.0 == if state.exports@.contains(
                MethodName::Update("__motoko_async_helper"@),
            ) && !state.metadata@.dom().contains("motoko:compiler"@) {
                65536 - 16
            } else {
                65536int
            }
        },
{
}

/// A message is asked for an instance at once exactly if its module is compiled, and otherwise its
/// binary is to be decoded; nothing of the message changes. It may be processed whenever its
/// instruction limits are the same.
pub proof fn law_message_begins_with_the_lookup<X: Platform>(
    executor: WasmExecutor<X>,
    input: WasmExecutionInput<X>,
    step: ExecutorStep<X>,
)
    requires
        call_ensures(WasmExecutor::<X>::process, (&executor, input), step),
    ensures
        input.execution_parameters.total_instruction_limit
            == input.execution_parameters.slice_instruction_limit ==> call_requires(
            WasmExecutor::<X>::process,
            (&executor, input),
        ),
        match input.execution_state.wasm_binary.embedder_cache {
            Some(embedder_cache) => step matches ExecutorStep::NewInstance(_, module, pending)
                && pending.embedder_cache == embedder_cache && module.compilation_result is None,
            None => step == ExecutorStep::Decode(input),
        },
{
}

/// Once its binary is decoded, a message is asked for an instance if its module is compiled, and
/// otherwise the decoded module is to be compiled. If the binary cannot be decoded, the message
/// fails with the engine's error and everything stays as it was.
pub proof fn law_decoded_message_is_compiled<X: Platform>(
    executor: WasmExecutor<X>,
    input: WasmExecutionInput<X>,
    decoding: HypervisorResult<X, BinaryEncodedWasm>,
    step: ExecutorStep<X>,
)
    requires
        call_ensures(WasmExecutor::<X>::process_decoded, (&executor, input, decoding), step),
    ensures
        call_requires(WasmExecutor::<X>::process_decoded, (&executor, input, decoding)),
        match (decoding, input.execution_state.wasm_binary.embedder_cache) {
            (Err(error), _) => ends_with_error(step, input, error),
            (Ok(_), Some(embedder_cache)) => step matches ExecutorStep::NewInstance(
                _,
                module,
                pending,
            ) && pending.embedder_cache == embedder_cache && module.compilation_result is None,
            (Ok(decoded_wasm), None) => step matches ExecutorStep::Compile(pending)
                && pending.decoded_wasm == decoded_wasm && pending.input == input,
        },
{
}

/// Whether the message is over with the error: nothing ran, and the canister and the system state
/// are as they were.
pub open spec fn ends_with_error<X: Platform>(
    step: ExecutorStep<X>,
    input: WasmExecutionInput<X>,
    error: HypervisorError<X>,
) -> bool {
    &&& step matches ExecutorStep::Finished(
        compilation_result,
        execution_state,
        WasmExecutionResult::Finished(output, changes),
    )
    &&& compilation_result is None
    &&& execution_state == input.execution_state
    &&& output.wasm_result == Err::<Option<X::WasmResult>, _>(error)
    &&& output.num_instructions_left.0 == 0
    &&& output.instance_stats.accessed_pages == 0
    &&& output.instance_stats.dirty_pages == 0
    &&& changes == input.sandbox_safe_system_state.system_state_changes
}

/// Once its module is compiled, a message is asked for an instance of it and reports the
/// compilation. If the module cannot be compiled, the message fails with the engine's error and
/// everything stays as it was. Either way exactly one compilation is recorded, with its duration.
pub proof fn law_compiled_message_gets_its_instance<X: Platform>(
    executor: &mut WasmExecutor<X>,
    pending: PendingCompilation<X>,
    elapsed: Duration,
    compiled: Compiled<X>,
    step: ExecutorStep<X>,
)
    requires
        pending.input.execution_state.wasm_binary.embedder_cache is None,
        call_ensures(
            WasmExecutor::<X>::process_compiled,
            (executor, pending, elapsed, compiled),
            step,
        ),
    ensures
        call_requires(
            WasmExecutor::<X>::process_compiled,
            (executor, pending, elapsed, compiled),
        ),
        match compiled {
            Ok((embedder_cache, output)) => step matches ExecutorStep::NewInstance(
                _,
                module,
                instance,
            ) && instance.embedder_cache == embedder_cache && module.compilation_result == Some(
                output.compilation_result,
            ),
            Err(error) => ends_with_error(step, pending.input, error),
        },
        records_compilation(*old(executor), *final(executor), elapsed),
{
}

/// Whether the executors differ by one recorded compilation that took so long, and by nothing else.
pub open spec fn records_compilation<X: Platform>(
    before: WasmExecutor<X>,
    after: WasmExecutor<X>,
    elapsed: Duration,
) -> bool {
    &&& after.wasm_embedder == before.wasm_embedder
    &&& after.log == before.log
    &&& after.metrics@.durations == before.metrics@.durations.push(elapsed)
    &&& after.metrics@.imports_call_simple == before.metrics@.imports_call_simple
    &&& after.metrics@.imports_call_cycles_add == before.metrics@.imports_call_cycles_add
    &&& after.metrics@.imports_canister_cycle_balance
        == before.metrics@.imports_canister_cycle_balance
    &&& after.metrics@.imports_msg_cycles_available == before.metrics@.imports_msg_cycles_available
    &&& after.metrics@.imports_msg_cycles_refunded == before.metrics@.imports_msg_cycles_refunded
    &&& after.metrics@.imports_msg_cycles_accept == before.metrics@.imports_msg_cycles_accept
    &&& after.metrics@.imports_mint_cycles == before.metrics@.imports_mint_cycles
    &&& after.metrics@.descriptions == before.metrics@.descriptions
    &&& after.metrics@.registries == before.metrics@.registries
    &&& after.metrics@.bounds == before.metrics@.bounds
}

/// To compile a module on demand or beforehand makes no difference to the message: the two are
/// asked for the same instance on the same module, except that the first one reports the
/// compilation.
pub proof fn law_compilation_on_demand_changes_nothing_else<X: Platform>(
    executor: &mut WasmExecutor<X>,
    pending: PendingCompilation<X>,
    elapsed: Duration,
    compiled: Compiled<X>,
    step: ExecutorStep<X>,
    compiled_before: WasmExecutionInput<X>,
    step_of_compiled: ExecutorStep<X>,
)
    requires
        compiled is Ok,
        call_ensures(
            WasmExecutor::<X>::process_compiled,
            (executor, pending, elapsed, compiled),
            step,
        ),
        compiled_before.api_type == pending.input.api_type,
        compiled_before.sandbox_safe_system_state == pending.input.sandbox_safe_system_state,
        compiled_before.canister_current_memory_usage
            == pending.input.canister_current_memory_usage,
        compiled_before.execution_parameters == pending.input.execution_parameters,
        compiled_before.func_ref == pending.input.func_ref,
        compiled_before.execution_state.canister_root
            == pending.input.execution_state.canister_root,
        compiled_before.execution_state.wasm_binary.binary
            == pending.input.execution_state.wasm_binary.binary,
        compiled_before.execution_state.wasm_binary.embedder_cache == Some(compiled->Ok_0.0),
        compiled_before.execution_state.exports == pending.input.execution_state.exports,
        compiled_before.execution_state.wasm_memory == pending.input.execution_state.wasm_memory,
        compiled_before.execution_state.stable_memory
            == pending.input.execution_state.stable_memory,
        compiled_before.execution_state.exported_globals
            == pending.input.execution_state.exported_globals,
        compiled_before.execution_state.metadata == pending.input.execution_state.metadata,
        call_ensures(
            WasmExecutor::<X>::process,
            (&*old(executor), compiled_before),
            step_of_compiled,
        ),
    ensures
        step matches ExecutorStep::NewInstance(request, module, instance) && step_of_compiled
            == ExecutorStep::NewInstance(
            request,
            LoadedModule { compilation_result: None, ..module },
            instance,
        ),
{
}

/// A compiled module is kept with its binary, whose bytes stay the same, and is what the binary's
/// next users get: no second compilation is asked for. A failed compilation leaves the binary as
/// it was.
pub proof fn law_compiled_module_stays_with_its_binary<X: Platform>(
    executor: &mut WasmExecutor<X>,
    wasm_binary: &mut WasmBinary<X>,
    elapsed: Duration,
    compiled: Compiled<X>,
    result: HypervisorResult<X, (Arc<X::EmbedderCache>, Option<FullCompilationOutput<X>>)>,
    user: WasmExecutor<X>,
    decoded_wasm: Option<BinaryEncodedWasm>,
    next: CacheStep<X>,
)
    requires
        old(wasm_binary).embedder_cache is None,
        call_ensures(
            WasmExecutor::<X>::embedder_compiled,
            (executor, wasm_binary, elapsed, compiled),
            result,
        ),
        call_ensures(
            WasmExecutor::<X>::get_embedder_cache,
            (&user, decoded_wasm, &*final(wasm_binary)),
            next,
        ),
    ensures
        call_requires(
            WasmExecutor::<X>::get_embedder_cache,
            (&user, decoded_wasm, &*final(wasm_binary)),
        ),
        call_requires(
            WasmExecutor::<X>::embedder_compiled,
            (executor, wasm_binary, elapsed, compiled),
        ),
        final(wasm_binary).binary == old(wasm_binary).binary,
        match compiled {
            Ok((embedder_cache, output)) => {
                &&& final(wasm_binary).embedder_cache == Some(embedder_cache)
                &&& next == CacheStep::<X>::Cached(embedder_cache)
                &&& result is Ok
                &&& result->Ok_0.0 == embedder_cache
                &&& result->Ok_0.1 == Some(output)
            },
            Err(error) => {
                &&& final(wasm_binary).embedder_cache is None
                &&& next == match decoded_wasm {
                    Some(decoded_wasm) => CacheStep::<X>::Compile(decoded_wasm),
                    None => CacheStep::<X>::Decode,
                }
                &&& result is Err
                &&& result->Err_0 == error
            },
        },
        records_compilation(*old(executor), *final(executor), elapsed),
{
}

/// What a binary needs: nothing if it is compiled, to be compiled if it is decoded, and otherwise
/// to be decoded.
pub proof fn law_binary_is_compiled_at_most_once<X: Platform>(
    executor: WasmExecutor<X>,
    decoded_wasm: Option<BinaryEncodedWasm>,
    wasm_binary: WasmBinary<X>,
    step: CacheStep<X>,
)
    requires
        call_ensures(
            WasmExecutor::<X>::get_embedder_cache,
            (&executor, decoded_wasm, &wasm_binary),
            step,
        ),
    ensures
        call_requires(
            WasmExecutor::<X>::get_embedder_cache,
            (&executor, decoded_wasm, &wasm_binary),
        ),
        wasm_binary.embedder_cache matches Some(embedder_cache) ==> step == CacheStep::<X>::Cached(
            embedder_cache,
        ),
        wasm_binary.embedder_cache is None ==> match decoded_wasm {
            Some(decoded_wasm) => step == CacheStep::<X>::Compile(decoded_wasm),
            None => step is Decode,
        },
{
}

/// The execution of a message hands everything on as it was given; the heap may have the pages of
/// the address space that are not reserved, whatever number of them is reserved.
pub proof fn law_execution_is_asked_for_as_given<X: Platform>(
    func_ref: X::FuncRef,
    api_type: ApiType<X>,
    canister_current_memory_usage: NumBytes,
    execution_parameters: ExecutionParameters<X>,
    sandbox_safe_system_state: SandboxSafeSystemState<X>,
    embedder_cache: Arc<X::EmbedderCache>,
    wasm_memory: Memory<X>,
    stable_memory: Memory<X>,
    globals: Vec<Global>,
    logger: Arc<X::Logger>,
    wasm_reserved_pages: NumWasmPages,
    out_of_instructions_handler: OutOfInstructionsHandler<X>,
    request: (SystemApiRequest<X>, PendingInstance<X>),
)
    requires
        wasm_reserved_pages.0 <= 65536,
        call_ensures(
            process::<X>,
            (
                func_ref,
                api_type,
                canister_current_memory_usage,
                execution_parameters,
                sandbox_safe_system_state,
                embedder_cache,
                wasm_memory,
                stable_memory,
                globals,
                logger,
                wasm_reserved_pages,
                out_of_instructions_handler,
            ),
            request,
        ),
    ensures
        call_requires(
            process::<X>,
            (
                func_ref,
                api_type,
                canister_current_memory_usage,
                execution_parameters,
                sandbox_safe_system_state,
                embedder_cache,
                wasm_memory,
                stable_memory,
                globals,
                logger,
                wasm_reserved_pages,
                out_of_instructions_handler,
            ),
        ),
        request.0.api_type == api_type,
        request.0.sandbox_safe_system_state == sandbox_safe_system_state,
        request.0.canister_current_memory_usage == canister_current_memory_usage,
        request.0.execution_parameters == execution_parameters,
        request.0.out_of_instructions_handler == out_of_instructions_handler,
        request.0.logger == logger,
        request.1.func_ref == func_ref,
        request.1.embedder_cache == embedder_cache,
        request.1.globals == globals,
        request.1.wasm_memory == wasm_memory,
        request.1.stable_memory == stable_memory,
        request.1.modification_tracking == api_type.modification_tracking,
        request.1.instruction_limit == execution_parameters.slice_instruction_limit,
        request.1.wasm_heap_limit.0 + wasm_reserved_pages.0 == 65536,
{
}

/// With an instance, an execution runs its function within its limit; without one it is over with
/// the engine's error, and its memories and globals are as they were.
pub proof fn law_instance_is_run<X: Platform>(
    pending: PendingInstance<X>,
    instance: HypervisorResult<X, ()>,
    step: ProcessStep<X>,
)
    requires
        call_ensures(PendingInstance::<X>::created, (pending, instance), step),
    ensures
        call_requires(PendingInstance::<X>::created, (pending, instance)),
        match instance {
            Ok(()) => {
                &&& step matches ProcessStep::Run(run)
                &&& run.func_ref == pending.func_ref
                &&& run.instruction_limit == pending.instruction_limit
                &&& run.globals == pending.globals
                &&& run.wasm_memory == pending.wasm_memory
                &&& run.stable_memory == pending.stable_memory
                &&& run.modification_tracking == pending.modification_tracking
                &&& run.wasm_heap_limit == pending.wasm_heap_limit
            },
            Err(error) => {
                &&& step matches ProcessStep::Done(outcome)
                &&& outcome.output.wasm_result == Err::<Option<X::WasmResult>, _>(error)
                &&& outcome.output.num_instructions_left.0 == 0
                &&& outcome.output.instance_stats.accessed_pages == 0
                &&& outcome.output.instance_stats.dirty_pages == 0
                &&& outcome.wasm_state_changes is None
                &&& outcome.wasm_memory == pending.wasm_memory
                &&& outcome.stable_memory == pending.stable_memory
                &&& outcome.globals == pending.globals
                &&& !outcome.instance_created
            },
        },
{
}

/// After every run the result is taken from the system API, which is told of the run's error
/// exactly if there was one. What was reported and what the execution began with stays the same.
pub proof fn law_system_api_is_told_how_the_run_ended<X: Platform>(
    pending: PendingRun<X>,
    report: RunReport<X>,
    step: ProcessStep<X>,
    error: Option<&HypervisorError<X>>,
)
    requires
        call_ensures(PendingRun::<X>::completed, (pending, report), step),
        step matches ProcessStep::TakeResult(result) ==> call_ensures(
            PendingResult::<X>::execution_error,
            (&result,),
            error,
        ),
    ensures
        call_requires(PendingRun::<X>::completed, (pending, report)),
        step matches ProcessStep::TakeResult(result) && result.run == pending && result.report
            == report,
        match report.run_result {
            Ok(_) => error is None,
            Err(run_error) => error is Some && *error->Some_0 == run_error,
        },
{
}

/// Once the result is taken, an execution updates its memories exactly if its run came to its end
/// and its writes are tracked; otherwise it is over and its memories and globals are as they were.
/// Its result is the one that was taken unless the heap is larger than its limit.
pub proof fn law_memories_are_updated_after_a_tracked_run<X: Platform>(
    pending: PendingResult<X>,
    taken: TakenResult<X>,
    step: ProcessStep<X>,
)
    requires
        call_ensures(PendingResult::<X>::taken, (pending, taken), step),
    ensures
        call_requires(PendingResult::<X>::taken, (pending, taken)),
        ({
            let output = match step {
                ProcessStep::UpdateMemories(updating) => updating.output,
                ProcessStep::Done(outcome) => outcome.output,
                _ => arbitrary(),
            };
            &&& step is UpdateMemories || step is Done
            &&& output.wasm_result == if taken.heap_size.0 > pending.run.wasm_heap_limit.0 {
                Err(HypervisorError::WasmReservedPages)
            } else {
                taken.wasm_result
            }
            &&& output.num_instructions_left == pending.report.num_instructions_left
            &&& output.instance_stats == pending.report.instance_stats
        }),
        pending.report.run_result is Ok && pending.run.modification_tracking is Track ==> {
            let run_result = pending.report.run_result->Ok_0;
            &&& step matches ProcessStep::UpdateMemories(updating)
            &&& updating.dirty_pages == run_result.dirty_pages
            &&& updating.wasm_memory == pending.run.wasm_memory
            &&& updating.stable_memory == pending.run.stable_memory
            &&& updating.wasm_memory_size == taken.heap_size
            &&& updating.stable_memory_size == run_result.stable_memory_size
            &&& updating.exported_globals == run_result.exported_globals
            &&& updating.globals == pending.run.globals
        },
        pending.report.run_result is Err || pending.run.modification_tracking is Ignore ==> {
            &&& step matches ProcessStep::Done(outcome)
            &&& outcome.wasm_state_changes is None
            &&& outcome.wasm_memory == pending.run.wasm_memory
            &&& outcome.stable_memory == pending.run.stable_memory
            &&& outcome.globals == pending.run.globals
            &&& outcome.instance_created
        },
{
}

/// An update of the memories leaves each memory with its own page map and its own size, and tells
/// which pages of which memory have changed.
pub proof fn law_updated_memories_are_kept<X: Platform>(
    pending: PendingUpdate<X>,
    update: MemoryUpdate<X>,
    outcome: ProcessOutcome<X>,
)
    requires
        call_ensures(PendingUpdate::<X>::applied, (pending, update), outcome),
    ensures
        call_requires(PendingUpdate::<X>::applied, (pending, update)),
        outcome.output == pending.output,
        outcome.wasm_memory.page_map == update.wasm_page_map,
        outcome.wasm_memory.size == pending.wasm_memory_size,
        outcome.stable_memory.page_map == update.stable_page_map,
        outcome.stable_memory.size == pending.stable_memory_size,
        outcome.globals == pending.globals,
        outcome.instance_created,
        outcome.wasm_state_changes matches Some(changes) && {
            &&& changes.dirty_page_indices.wasm_memory_delta == update.wasm_memory_delta
            &&& changes.dirty_page_indices.stable_memory_delta == update.stable_memory_delta
            &&& changes.globals == pending.exported_globals
        },
{
}

/// Whether a message does what its execution does: it goes on as its execution goes on, on the
/// same module, and when its execution is over, the memories and the globals that the execution
/// has left are those of the canister, whose module is unchanged. No hashes are logged.
pub open spec fn follows_execution<X: Platform>(
    module: LoadedModule<X>,
    execution: ProcessStep<X>,
    step: ExecutorStep<X>,
) -> bool {
    match execution {
        ProcessStep::Run(pending) => step == ExecutorStep::Run(module, pending),
        ProcessStep::TakeResult(pending) => step == ExecutorStep::TakeResult(module, pending),
        ProcessStep::UpdateMemories(pending) => step == ExecutorStep::UpdateMemories(
            module,
            pending,
        ),
        ProcessStep::Done(outcome) => {
            &&& step matches ExecutorStep::TakeSystemStateChanges(pending)
            &&& pending.compilation_result == module.compilation_result
            &&& pending.execution_state.canister_root == module.canister_root
            &&& pending.execution_state.wasm_binary == module.wasm_binary
            &&& pending.execution_state.exports == module.exports
            &&& pending.execution_state.metadata == module.metadata
            &&& pending.execution_state.wasm_memory == outcome.wasm_memory
            &&& pending.execution_state.stable_memory == outcome.stable_memory
            &&& pending.execution_state.exported_globals == match outcome.wasm_state_changes {
                Some(changes) => changes.globals,
                None => outcome.globals,
            }
            &&& pending.output == outcome.output
            &&& pending.state_hashes is None
            &&& pending.instance_created == outcome.instance_created
        },
    }
}

/// A message follows its execution after each answer of the engine.
pub proof fn law_message_follows_its_execution<X: Platform>(
    module: LoadedModule<X>,
    to_create: PendingInstance<X>,
    instance: HypervisorResult<X, ()>,
    to_run: PendingRun<X>,
    report: RunReport<X>,
    to_take: PendingResult<X>,
    taken: TakenResult<X>,
    to_update: PendingUpdate<X>,
    update: MemoryUpdate<X>,
    execution: ProcessStep<X>,
    outcome: ProcessOutcome<X>,
    step: ExecutorStep<X>,
)
    ensures
        call_requires(LoadedModule::<X>::created, (module, to_create, instance)),
        call_requires(LoadedModule::<X>::completed, (module, to_run, report)),
        call_requires(LoadedModule::<X>::result_taken, (module, to_take, taken)),
        call_requires(LoadedModule::<X>::applied, (module, to_update, update)),
        call_requires(PendingResult::<X>::execution_error, (&to_take,)),
        call_ensures(PendingInstance::<X>::created, (to_create, instance), execution)
            && call_ensures(LoadedModule::<X>::created, (module, to_create, instance), step)
            ==> follows_execution(module, execution, step),
        call_ensures(PendingRun::<X>::completed, (to_run, report), execution) && call_ensures(
            LoadedModule::<X>::completed,
            (module, to_run, report),
            step,
        ) ==> follows_execution(module, execution, step),
        call_ensures(PendingResult::<X>::taken, (to_take, taken), execution) && call_ensures(
            LoadedModule::<X>::result_taken,
            (module, to_take, taken),
            step,
        ) ==> follows_execution(module, execution, step),
        call_ensures(PendingUpdate::<X>::applied, (to_update, update), outcome) && call_ensures(
            LoadedModule::<X>::applied,
            (module, to_update, update),
            step,
        ) ==> follows_execution(module, ProcessStep::Done(outcome), step),
{
    if call_ensures(PendingUpdate::<X>::applied, (to_update, update), outcome) {
        law_updated_memories_are_kept(to_update, update, outcome);
    }
}

/// With the changes of its system state a message is over: it is finished, not paused, with what
/// its execution has left.
pub proof fn law_message_ends_with_its_system_state_changes<X: Platform>(
    pending: PendingSystemStateChanges<X>,
    system_state_changes: X::SystemStateChanges,
    step: ExecutorStep<X>,
)
    requires
        call_ensures(PendingSystemStateChanges::<X>::taken, (pending, system_state_changes), step),
    ensures
        call_requires(PendingSystemStateChanges::<X>::taken, (pending, system_state_changes)),
        step == ExecutorStep::Finished(
            pending.compilation_result,
            pending.execution_state,
            WasmExecutionResult::Finished(pending.output, system_state_changes),
        ),
{
}

/// An execution that failed before it ran has used up its instructions and has touched no page.
pub proof fn law_failed_execution_has_touched_nothing<X: Platform>(
    error: HypervisorError<X>,
    output: WasmExecutionOutput<X>,
)
    requires
        call_ensures(WasmExecutionOutput::<X>::failed, (error,), output),
    ensures
        call_requires(WasmExecutionOutput::<X>::failed, (error,)),
        output.wasm_result == Err::<Option<X::WasmResult>, _>(error),
        output.num_instructions_left.0 == 0,
        output.instance_stats.accessed_pages == 0,
        output.instance_stats.dirty_pages == 0,
{
}

/// The steps of a message from its instance on, each of them the answer to the one before.
pub struct MessageRun<X: Platform> {
    pub request: SystemApiRequest<X>,
    pub module: LoadedModule<X>,
    pub pending: PendingInstance<X>,
    pub created: ExecutorStep<X>,
    pub completed: ExecutorStep<X>,
    pub taken: ExecutorStep<X>,
    pub applied: ExecutorStep<X>,
    pub concluded: PendingSystemStateChanges<X>,
}

impl<X: Platform> MessageRun<X> {
    /// Whether these are the steps that the calls return for the engine's answers.
    pub open spec fn is_run(
        self,
        instance: HypervisorResult<X, ()>,
        report: RunReport<X>,
        taken: TakenResult<X>,
        update: MemoryUpdate<X>,
    ) -> bool {
        &&& call_ensures(
            LoadedModule::<X>::created,
            (self.module, self.pending, instance),
            self.created,
        )
        &&& match self.created {
            ExecutorStep::Run(module, run) => {
                &&& call_ensures(
                    LoadedModule::<X>::completed,
                    (module, run, report),
                    self.completed,
                )
                &&& self.completed matches ExecutorStep::TakeResult(module, result)
                &&& call_ensures(
                    LoadedModule::<X>::result_taken,
                    (module, result, taken),
                    self.taken,
                )
                &&& match self.taken {
                    ExecutorStep::UpdateMemories(module, updating) => {
                        &&& call_ensures(
                            LoadedModule::<X>::applied,
                            (module, updating, update),
                            self.applied,
                        )
                        &&& self.applied == ExecutorStep::TakeSystemStateChanges(self.concluded)
                    },
                    _ => self.taken == ExecutorStep::TakeSystemStateChanges(self.concluded),
                }
            },
            _ => self.created == ExecutorStep::TakeSystemStateChanges(self.concluded),
        }
    }
}

/// A message whose writes are tracked and whose run comes to its end leaves the canister with the
/// updated pages, with the heap size after the run, with the stable memory size and the globals
/// that the run has left, and with its module as it was, now compiled.
pub proof fn law_update_keeps_its_writes<X: Platform>(
    executor: &mut WasmExecutor<X>,
    input: WasmExecutionInput<X>,
    decoding: HypervisorResult<X, BinaryEncodedWasm>,
    decoded_wasm: BinaryEncodedWasm,
    elapsed: Duration,
    compiled: Compiled<X>,
    message: MessageRun<X>,
    report: RunReport<X>,
    taken: TakenResult<X>,
    update: MemoryUpdate<X>,
)
    requires
        answers_message(
            ExecutorStep::NewInstance(message.request, message.module, message.pending),
            executor,
            input,
            decoding,
            decoded_wasm,
            elapsed,
            compiled,
        ),
        message.is_run(Ok(()), report, taken, update),
        input.api_type.modification_tracking is Track,
        report.run_result is Ok,
    ensures
        ({
            let before = input.execution_state;
            let after = message.concluded.execution_state;
            let run_result = report.run_result->Ok_0;
            &&& message.taken is UpdateMemories
            &&& after.wasm_memory.page_map == update.wasm_page_map
            &&& after.wasm_memory.size == taken.heap_size
            &&& after.stable_memory.page_map == update.stable_page_map
            &&& after.stable_memory.size == run_result.stable_memory_size
            &&& after.exported_globals == run_result.exported_globals
            &&& after.canister_root == before.canister_root
            &&& after.wasm_binary.binary == before.wasm_binary.binary
            &&& after.wasm_binary.embedder_cache == Some(message.pending.embedder_cache)
            &&& after.exports == before.exports
            &&& after.metadata == before.metadata
        }),
        message.taken matches ExecutorStep::UpdateMemories(_, updating) && {
            &&& updating.dirty_pages == report.run_result->Ok_0.dirty_pages
            &&& updating.wasm_memory == input.execution_state.wasm_memory
            &&& updating.stable_memory == input.execution_state.stable_memory
        },
        message.concluded.instance_created,
{
}

/// A message without an instance, without tracked writes or with a run that did not come to its
/// end leaves the canister's memories and globals exactly as they were.
pub proof fn law_query_or_trap_keeps_the_state<X: Platform>(
    executor: &mut WasmExecutor<X>,
    input: WasmExecutionInput<X>,
    decoding: HypervisorResult<X, BinaryEncodedWasm>,
    decoded_wasm: BinaryEncodedWasm,
    elapsed: Duration,
    compiled: Compiled<X>,
    message: MessageRun<X>,
    instance: HypervisorResult<X, ()>,
    report: RunReport<X>,
    taken: TakenResult<X>,
    update: MemoryUpdate<X>,
)
    requires
        answers_message(
            ExecutorStep::NewInstance(message.request, message.module, message.pending),
            executor,
            input,
            decoding,
            decoded_wasm,
            elapsed,
            compiled,
        ),
        message.is_run(instance, report, taken, update),
        input.api_type.modification_tracking is Ignore || instance is Err
            || report.run_result is Err,
    ensures
        ({
            let before = input.execution_state;
            let after = message.concluded.execution_state;
            &&& after.wasm_memory == before.wasm_memory
            &&& after.stable_memory == before.stable_memory
            &&& after.exported_globals == before.exported_globals
            &&& after.canister_root == before.canister_root
            &&& after.wasm_binary.binary == before.wasm_binary.binary
            &&& after.wasm_binary.embedder_cache == Some(message.pending.embedder_cache)
            &&& after.exports == before.exports
            &&& after.metadata == before.metadata
        }),
        message.concluded.instance_created == (instance is Ok),
{
}

/// A message that got no instance has the engine's error for its result. A message that has run
/// has the result of its system API, unless its heap ends up beyond the address space or, on a
/// canister that exports the Motoko marker and does not name its compiler, within its last 16
/// pages: then it fails for the reserved pages.
pub proof fn law_message_has_its_result<X: Platform>(
    executor: &mut WasmExecutor<X>,
    input: WasmExecutionInput<X>,
    decoding: HypervisorResult<X, BinaryEncodedWasm>,
    decoded_wasm: BinaryEncodedWasm,
    elapsed: Duration,
    compiled: Compiled<X>,
    message: MessageRun<X>,
    instance: HypervisorResult<X, ()>,
    report: RunReport<X>,
    taken: TakenResult<X>,
    update: MemoryUpdate<X>,
)
    requires
        answers_message(
            ExecutorStep::NewInstance(message.request, message.module, message.pending),
            executor,
            input,
            decoding,
            decoded_wasm,
            elapsed,
            compiled,
        ),
        message.is_run(instance, report, taken, update),
    ensures
        ({
            let output = message.concluded.output;
            let state = input.execution_state;
            let may_use_last_pages = state.metadata@.dom().contains("motoko:compiler"@)
                || !state.exports@.contains(MethodName::Update("__motoko_async_helper"@));
            match instance {
                Ok(()) => {
                    &&& output.wasm_result == if taken.heap_size.0 > 65536 || (taken.heap_size.0
                        > 65520 && !may_use_last_pages) {
                        Err(HypervisorError::WasmReservedPages)
                    } else {
                        taken.wasm_result
                    }
                    &&& output.num_instructions_left == report.num_instructions_left
                    &&& output.instance_stats == report.instance_stats
                },
                Err(error) => {
                    &&& output.wasm_result == Err::<Option<X::WasmResult>, _>(error)
                    &&& output.num_instructions_left.0 == 0
                    &&& output.instance_stats.accessed_pages == 0
                    &&& output.instance_stats.dirty_pages == 0
                },
            }
        }),
{
}

} // verus!
