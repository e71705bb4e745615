//! The execution of one message on a compiled module.
//!
//! The engine does the work; this module decides what is asked of it and what its answers mean.
//! [`process`] says what the instance is to be made of. The answer of the engine goes to
//! [`PendingInstance::created`], the report of the run to [`PendingRun::completed`], the result
//! that the system API then gives to [`PendingResult::taken`] and, where the memories are to be
//! updated, the updated memories to [`PendingUpdate::applied`]. Each of them returns what is to be
//! done next.
use crate::execution_state::Memory;
use crate::page_delta::{compute_page_delta, list_pages, PageMapUpdate};
use crate::platform::{HypervisorError, HypervisorResult, Platform};
use crate::state_changes::{DirtyPageIndices, Global, WasmStateChanges};
use crate::units::{
    wasm32_max_pages_limit, NumBytes, NumInstructions, NumWasmPages, PageIndex,
};
use std::sync::Arc;
use vstd::prelude::*;

verus! {

/// Whether the writes of an execution are to be kept.
#[derive(Clone, Copy, Debug, PartialEq, Eq, Structural)]
pub enum ModificationTracking {
    Track,
    Ignore,
}

/// What is being called, and whether its writes are to be kept.
pub struct ApiType<X: Platform> {
    pub modification_tracking: ModificationTracking,
    pub call: X::ApiCall,
}

/// The limits and settings of an execution.
pub struct ExecutionParameters<X: Platform> {
    pub total_instruction_limit: NumInstructions,
    pub slice_instruction_limit: NumInstructions,
    pub settings: X::ExecutionSettings,
}

/// The system state that an execution may see, with the changes made to it so far.
pub struct SandboxSafeSystemState<X: Platform> {
    pub canister_id: X::CanisterId,
    pub system_state_changes: X::SystemStateChanges,
    pub details: X::SystemState,
}

/// How many pages an execution touched.
#[derive(Clone, Copy, Debug, PartialEq, Eq, Structural)]
pub struct InstanceStats {
    pub accessed_pages: usize,
    pub dirty_pages: usize,
}

/// What came of an execution.
pub struct WasmExecutionOutput<X: Platform> {
    pub wasm_result: HypervisorResult<X, Option<X::WasmResult>>,
    pub num_instructions_left: NumInstructions,
    pub instance_stats: InstanceStats,
}

/// The output of an execution that failed before it ran.
pub open spec fn failed_output<X: Platform>(error: HypervisorError<X>) -> WasmExecutionOutput<X> {
    WasmExecutionOutput {
        wasm_result: Err(error),
        num_instructions_left: NumInstructions(0),
        instance_stats: InstanceStats { accessed_pages: 0, dirty_pages: 0 },
    }
}

impl<X: Platform> WasmExecutionOutput<X> {
    /// The output of an execution that failed before it ran.
    pub fn failed(error: HypervisorError<X>) -> (output: Self)
        ensures
            output == failed_output(error),
    {
        Self {
            wasm_result: Err(error),
            num_instructions_left: NumInstructions(0),
            instance_stats: InstanceStats { accessed_pages: 0, dirty_pages: 0 },
        }
    }
}

/// Who decides what happens when a message runs out of instructions.
pub enum OutOfInstructionsHandler<X: Platform> {
    /// The handler that the system API has by default.
    Default,
    /// A handler of the platform's own.
    Other(X::OutOfInstructionsHandler),
}

/// What the system API of an instance is made of, besides the stable memory.
pub struct SystemApiRequest<X: Platform> {
    pub api_type: ApiType<X>,
    pub sandbox_safe_system_state: SandboxSafeSystemState<X>,
    pub canister_current_memory_usage: NumBytes,
    pub execution_parameters: ExecutionParameters<X>,
    pub out_of_instructions_handler: OutOfInstructionsHandler<X>,
    pub logger: Arc<X::Logger>,
}

/// An execution that waits for an instance of the module. The instance is made of the compiled
/// module, the globals, the size and the pages of the Wasm memory, and the tracking.
pub struct PendingInstance<X: Platform> {
    pub func_ref: X::FuncRef,
    pub embedder_cache: Arc<X::EmbedderCache>,
    pub globals: Vec<Global>,
    pub wasm_memory: Memory<X>,
    pub stable_memory: Memory<X>,
    pub modification_tracking: ModificationTracking,
    pub instruction_limit: NumInstructions,
    pub wasm_heap_limit: NumWasmPages,
}

/// An execution that waits for its instance to run the function within the instruction limit.
pub struct PendingRun<X: Platform> {
    pub func_ref: X::FuncRef,
    pub instruction_limit: NumInstructions,
    pub globals: Vec<Global>,
    pub wasm_memory: Memory<X>,
    pub stable_memory: Memory<X>,
    pub modification_tracking: ModificationTracking,
    pub wasm_heap_limit: NumWasmPages,
}

/// What a run leaves behind if it comes to its end.
pub struct InstanceRunResult {
    pub dirty_pages: Vec<PageIndex>,
    pub stable_memory_size: NumWasmPages,
    pub exported_globals: Vec<Global>,
}

/// What the engine says of a run.
pub struct RunReport<X: Platform> {
    pub run_result: HypervisorResult<X, InstanceRunResult>,
    pub num_instructions_left: NumInstructions,
    pub instance_stats: InstanceStats,
}

/// An execution that has run and whose result waits to be taken from the system API. The system
/// API is told of the error that ended the run, if there was one: a failed message gets its memory
/// deallocated and the cycles of a request that was not sent returned.
pub struct PendingResult<X: Platform> {
    pub run: PendingRun<X>,
    pub report: RunReport<X>,
}

/// What the engine says once the result was taken.
pub struct TakenResult<X: Platform> {
    /// The result that the system API has given.
    pub wasm_result: HypervisorResult<X, Option<X::WasmResult>>,
    /// The size of the Wasm heap.
    pub heap_size: NumWasmPages,
}

/// An execution that waits for its memories to be updated: the Wasm memory with the dirty pages
/// of the heap, the stable memory with the dirty pages of the system API.
pub struct PendingUpdate<X: Platform> {
    pub dirty_pages: Vec<PageIndex>,
    pub output: WasmExecutionOutput<X>,
    pub wasm_memory: Memory<X>,
    pub stable_memory: Memory<X>,
    pub wasm_memory_size: NumWasmPages,
    pub stable_memory_size: NumWasmPages,
    pub exported_globals: Vec<Global>,
    pub globals: Vec<Global>,
}

/// The page maps after an update, and which of their pages it has changed.
pub struct MemoryUpdate<X: Platform> {
    pub wasm_page_map: X::PageMap,
    pub wasm_memory_delta: Vec<PageIndex>,
    pub stable_page_map: X::PageMap,
    pub stable_memory_delta: Vec<PageIndex>,
}

/// An execution that is over.
pub struct ProcessOutcome<X: Platform> {
    pub output: WasmExecutionOutput<X>,
    pub wasm_state_changes: Option<WasmStateChanges>,
    pub wasm_memory: Memory<X>,
    pub stable_memory: Memory<X>,
    /// The globals that the execution began with.
    pub globals: Vec<Global>,
    /// Whether there is an instance to take the system API from. Otherwise the engine has handed
    /// the system API back.
    pub instance_created: bool,
}

/// What is to be done next for an execution.
pub enum ProcessStep<X: Platform> {
    Run(PendingRun<X>),
    TakeResult(PendingResult<X>),
    UpdateMemories(PendingUpdate<X>),
    Done(ProcessOutcome<X>),
}

/// How many pages the Wasm heap may have.
pub open spec fn heap_limit(wasm_reserved_pages: NumWasmPages) -> NumWasmPages {
    NumWasmPages((crate::units::wasm32_max_pages() - wasm_reserved_pages.0) as usize)
}

/// The result of a message whose run is over: it fails if the heap has grown into the reserved
/// pages, whatever the system API has given.
pub open spec fn checked_result<X: Platform>(
    taken: TakenResult<X>,
    wasm_heap_limit: NumWasmPages,
) -> HypervisorResult<X, Option<X::WasmResult>> {
    if taken.heap_size.0 > wasm_heap_limit.0 {
        Err(HypervisorError::WasmReservedPages)
    } else {
        taken.wasm_result
    }
}

/// The output of a message whose run is over.
pub open spec fn run_output<X: Platform>(
    report: RunReport<X>,
    taken: TakenResult<X>,
    wasm_heap_limit: NumWasmPages,
) -> WasmExecutionOutput<X> {
    WasmExecutionOutput {
        wasm_result: checked_result(taken, wasm_heap_limit),
        num_instructions_left: report.num_instructions_left,
        instance_stats: report.instance_stats,
    }
}

/// The outcome of an execution that leaves the Wasm state as it was.
pub open spec fn unchanged_outcome<X: Platform>(
    output: WasmExecutionOutput<X>,
    wasm_memory: Memory<X>,
    stable_memory: Memory<X>,
    globals: Vec<Global>,
    instance_created: bool,
) -> ProcessOutcome<X> {
    ProcessOutcome {
        output,
        wasm_state_changes: None,
        wasm_memory,
        stable_memory,
        globals,
        instance_created,
    }
}

/// What follows on the engine's answer to the request for an instance.
pub open spec fn after_instance<X: Platform>(
    pending: PendingInstance<X>,
    instance: HypervisorResult<X, ()>,
) -> ProcessStep<X> {
    match instance {
        Ok(()) => ProcessStep::Run(
            PendingRun {
                func_ref: pending.func_ref,
                instruction_limit: pending.instruction_limit,
                globals: pending.globals,
                wasm_memory: pending.wasm_memory,
                stable_memory: pending.stable_memory,
                modification_tracking: pending.modification_tracking,
                wasm_heap_limit: pending.wasm_heap_limit,
            },
        ),
        Err(error) => ProcessStep::Done(
            unchanged_outcome(
                failed_output(error),
                pending.wasm_memory,
                pending.stable_memory,
                pending.globals,
                false,
            ),
        ),
    }
}

/// The error that the system API is told of when the result is taken: the one that ended the run.
pub open spec fn told_error<X: Platform>(report: RunReport<X>) -> Option<HypervisorError<X>> {
    match report.run_result {
        Ok(_) => None,
        Err(error) => Some(error),
    }
}

/// What follows on a run: its result is taken, however the run ended.
pub open spec fn after_run<X: Platform>(
    pending: PendingRun<X>,
    report: RunReport<X>,
) -> ProcessStep<X> {
    ProcessStep::TakeResult(PendingResult { run: pending, report })
}

/// What follows once the result was taken: only a run that came to its end and whose writes are
/// tracked changes the memories.
pub open spec fn after_result<X: Platform>(
    pending: PendingResult<X>,
    taken: TakenResult<X>,
) -> ProcessStep<X> {
    let run = pending.run;
    let output = run_output(pending.report, taken, run.wasm_heap_limit);
    if pending.report.run_result is Ok && run.modification_tracking is Track {
        let result = pending.report.run_result->Ok_0;
        ProcessStep::UpdateMemories(
            PendingUpdate {
                dirty_pages: result.dirty_pages,
                output,
                wasm_memory: run.wasm_memory,
                stable_memory: run.stable_memory,
                wasm_memory_size: taken.heap_size,
                stable_memory_size: result.stable_memory_size,
                exported_globals: result.exported_globals,
                globals: run.globals,
            },
        )
    } else {
        ProcessStep::Done(
            unchanged_outcome(output, run.wasm_memory, run.stable_memory, run.globals, true),
        )
    }
}

/// What follows on the update of the memories.
pub open spec fn after_update<X: Platform>(
    pending: PendingUpdate<X>,
    update: MemoryUpdate<X>,
) -> ProcessOutcome<X> {
    ProcessOutcome {
        output: pending.output,
        wasm_state_changes: Some(
            WasmStateChanges {
                dirty_page_indices: DirtyPageIndices {
                    wasm_memory_delta: update.wasm_memory_delta,
                    stable_memory_delta: update.stable_memory_delta,
                },
                globals: pending.exported_globals,
            },
        ),
        wasm_memory: Memory { page_map: update.wasm_page_map, size: pending.wasm_memory_size },
        stable_memory: Memory {
            page_map: update.stable_page_map,
            size: pending.stable_memory_size,
        },
        globals: pending.globals,
        instance_created: true,
    }
}

/// Begins the execution of a message: says what the system API and the instance are to be made
/// of.
pub fn process<X: Platform>(
    func_ref: X::FuncRef,
    api_type: ApiType<X>,
    canister_current_memory_usage: NumBytes,
    execution_parameters: ExecutionParameters<X>,
    sandbox_safe_system_state: SandboxSafeSystemState<X>,
    embedder_cache: Arc<X::EmbedderCache>,
    wasm_memory: Memory<X>,
    stable_memory: Memory<X>,
    globals: Vec<Global>,
    logger: Arc<X::Logger>,
    wasm_reserved_pages: NumWasmPages,
    out_of_instructions_handler: OutOfInstructionsHandler<X>,
) -> (request: (SystemApiRequest<X>, PendingInstance<X>))
    requires
        wasm_reserved_pages.0 <= crate::units::wasm32_max_pages(),
    ensures
        request.0 == (SystemApiRequest {
            api_type,
            sandbox_safe_system_state,
            canister_current_memory_usage,
            execution_parameters,
            out_of_instructions_handler,
            logger,
        }),
        request.1 == (PendingInstance {
            func_ref,
            embedder_cache,
            globals,
            wasm_memory,
            stable_memory,
            modification_tracking: api_type.modification_tracking,
            instruction_limit: execution_parameters.slice_instruction_limit,
            wasm_heap_limit: heap_limit(wasm_reserved_pages),
        }),
{
    let instruction_limit = execution_parameters.slice_instruction_limit;
    let modification_tracking = api_type.modification_tracking;
    let max_pages: usize = wasm32_max_pages_limit() as usize;
    let wasm_heap_limit = NumWasmPages(max_pages - wasm_reserved_pages.0);
    (
        SystemApiRequest {
            api_type,
            sandbox_safe_system_state,
            canister_current_memory_usage,
            execution_parameters,
            out_of_instructions_handler,
            logger,
        },
        PendingInstance {
            func_ref,
            embedder_cache,
            globals,
            wasm_memory,
            stable_memory,
            modification_tracking,
            instruction_limit,
            wasm_heap_limit,
        },
    )
}

impl<X: Platform> PendingInstance<X> {
    /// The engine has made the instance, or has handed the system API back with an error.
    pub fn created(self, instance: HypervisorResult<X, ()>) -> (step: ProcessStep<X>)
        ensures
            step == after_instance(self, instance),
    {
        match instance {
            Ok(()) => ProcessStep::Run(
                PendingRun {
                    func_ref: self.func_ref,
                    instruction_limit: self.instruction_limit,
                    globals: self.globals,
                    wasm_memory: self.wasm_memory,
                    stable_memory: self.stable_memory,
                    modification_tracking: self.modification_tracking,
                    wasm_heap_limit: self.wasm_heap_limit,
                },
            ),
            Err(error) => ProcessStep::Done(
                ProcessOutcome {
                    output: WasmExecutionOutput::failed(error),
                    wasm_state_changes: None,
                    wasm_memory: self.wasm_memory,
                    stable_memory: self.stable_memory,
                    globals: self.globals,
                    instance_created: false,
                },
            ),
        }
    }
}

impl<X: Platform> PendingRun<X> {
    /// The run is over.
    pub fn completed(self, report: RunReport<X>) -> (step: ProcessStep<X>)
        ensures
            step == after_run(self, report),
    {
        ProcessStep::TakeResult(PendingResult { run: self, report })
    }
}

impl<X: Platform> PendingResult<X> {
    /// What the system API is told when the result is taken: the error that ended the run.
    pub fn execution_error(&self) -> (error: Option<&HypervisorError<X>>)
        ensures
            error is Some <==> told_error(self.report) is Some,
            error is Some ==> *error->Some_0 == told_error(self.report)->Some_0,
    {
        match &self.report.run_result {
            Ok(_) => None,
            Err(error) => Some(error),
        }
    }

    /// The result is taken.
    pub fn taken(self, taken: TakenResult<X>) -> (step: ProcessStep<X>)
        ensures
            step == after_result(self, taken),
    {
        let run = self.run;
        let mut wasm_result = taken.wasm_result;
        if taken.heap_size.0 > run.wasm_heap_limit.0 {
            wasm_result = Err(HypervisorError::WasmReservedPages);
        }
        let output = WasmExecutionOutput {
            wasm_result,
            num_instructions_left: self.report.num_instructions_left,
            instance_stats: self.report.instance_stats,
        };
        match (self.report.run_result, run.modification_tracking) {
            (Ok(result), ModificationTracking::Track) => ProcessStep::UpdateMemories(
                PendingUpdate {
                    dirty_pages: result.dirty_pages,
                    output,
                    wasm_memory: run.wasm_memory,
                    stable_memory: run.stable_memory,
                    wasm_memory_size: taken.heap_size,
                    stable_memory_size: result.stable_memory_size,
                    exported_globals: result.exported_globals,
                    globals: run.globals,
                },
            ),
            _ => ProcessStep::Done(
                ProcessOutcome {
                    output,
                    wasm_state_changes: None,
                    wasm_memory: run.wasm_memory,
                    stable_memory: run.stable_memory,
                    globals: run.globals,
                    instance_created: true,
                },
            ),
        }
    }
}

impl<X: Platform> PendingUpdate<X> {
    /// What is to be written to the Wasm memory: the dirty pages of the heap.
    pub fn wasm_memory_update<'a>(&'a self, heap: &'a [u8]) -> (update: PageMapUpdate<'a, X>)
        requires
            crate::page_delta::pages_in_heap(self.dirty_pages@, heap@.len()),
        ensures
            *update.page_map == self.wasm_memory.page_map,
            crate::page_delta::is_page_delta(update.pages@, heap@, self.dirty_pages@),
    {
        PageMapUpdate {
            page_map: &self.wasm_memory.page_map,
            pages: compute_page_delta(heap, self.dirty_pages.as_slice()),
        }
    }

    /// What is to be written to the stable memory: the dirty pages of the system API.
    pub fn stable_memory_update<'a>(&'a self, dirty_pages: &'a [(PageIndex, Vec<u8>)]) -> (update:
        PageMapUpdate<'a, X>)
        ensures
            *update.page_map == self.stable_memory.page_map,
            crate::page_delta::lists_pages(update.pages@, dirty_pages@),
    {
        PageMapUpdate {
            page_map: &self.stable_memory.page_map,
            pages: list_pages(dirty_pages),
        }
    }

    /// The memories are updated.
    pub fn applied(self, update: MemoryUpdate<X>) -> (outcome: ProcessOutcome<X>)
        ensures
            outcome == after_update(self, update),
    {
        ProcessOutcome {
            output: self.output,
            wasm_state_changes: Some(
                WasmStateChanges::new(
                    update.wasm_memory_delta,
                    update.stable_memory_delta,
                    self.exported_globals,
                ),
            ),
            wasm_memory: Memory::new(update.wasm_page_map, self.wasm_memory_size),
            stable_memory: Memory::new(update.stable_page_map, self.stable_memory_size),
            globals: self.globals,
            instance_created: true,
        }
    }
}

} // verus!
