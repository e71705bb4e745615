//! What holds of a new canister, from its Wasm source to the state that it begins with.
//!
//! Every law speaks of calls: of what a function returns for its arguments, or of how the results
//! of several calls relate. It also says that the calls may be made.
use crate::execution_state::{ExecutionState, Memory, WasmBinary};
use crate::executor::{
    BinaryEncodedWasm, Compiled, ExecutorStep, FullCompilationOutput, PendingModuleCompilation,
    PendingModuleDecoding, PendingModuleInstance, PendingModulePages, WasmExecutionInput,
    WasmExecutor,
};
use crate::initial_state::{
    get_initial_globals_and_memory, InitialGlobalsAndMemory, InitialInstance,
    InstrumentationOutput, PendingInitialInstance, PendingInitialPages,
};
use crate::module_info::{ExportedFunctions, WasmMetadata, WasmMethod};
use crate::page_delta::PageMapUpdate;
use crate::platform::{HypervisorResult, Platform};
use crate::state_changes::Global;
use crate::units::{NumWasmPages, PageIndex};
use core::time::Duration;
use std::path::PathBuf;
use std::sync::Arc;
use vstd::prelude::*;

verus! {

/// The source of a new canister is what is to be decoded, and its directory and its id stay with
/// it.
pub proof fn law_new_canister_is_made_of_its_source<X: Platform>(
    executor: WasmExecutor<X>,
    wasm_source: Vec<u8>,
    canister_root: PathBuf,
    canister_id: X::CanisterId,
    pending: PendingModuleDecoding<X>,
)
    requires
        call_ensures(
            WasmExecutor::<X>::create_execution_state,
            (&executor, wasm_source, canister_root, canister_id),
            pending,
        ),
    ensures
        call_requires(
            WasmExecutor::<X>::create_execution_state,
            (&executor, wasm_source, canister_root, canister_id),
        ),
        pending.wasm_source == wasm_source,
        pending.canister_root == canister_root,
        pending.canister_id == canister_id,
{
}

/// The decoded module of a new canister is always to be compiled: its binary holds the source and
/// nothing compiled. If the source cannot be decoded, there is no canister, only the error.
pub proof fn law_new_module_is_compiled<X: Platform>(
    executor: WasmExecutor<X>,
    pending: PendingModuleDecoding<X>,
    decoding: HypervisorResult<X, BinaryEncodedWasm>,
    next: HypervisorResult<X, PendingModuleCompilation<X>>,
)
    requires
        call_ensures(WasmExecutor::<X>::module_decoded, (&executor, pending, decoding), next),
    ensures
        call_requires(WasmExecutor::<X>::module_decoded, (&executor, pending, decoding)),
        match decoding {
            Ok(decoded_wasm) => next matches Ok(compilation) && {
                &&& compilation.decoded_wasm == decoded_wasm
                &&& compilation.wasm_binary.binary == pending.wasm_source
                &&& compilation.wasm_binary.embedder_cache is None
                &&& compilation.canister_root == pending.canister_root
                &&& compilation.canister_id == pending.canister_id
            },
            Err(error) => next matches Err(failure) && failure == error,
        },
{
}

/// The pages of a compiled module's data segments, all of them, are to be written to an empty page
/// map, and the binary keeps what was compiled. If the module cannot be compiled, there is no
/// canister, only the error. Either way exactly one compilation is recorded, with its duration.
pub proof fn law_compiled_module_begins_with_its_data<X: Platform>(
    executor: &mut WasmExecutor<X>,
    pending: PendingModuleCompilation<X>,
    elapsed: Duration,
    compiled: Compiled<X>,
    next: HypervisorResult<X, PendingModulePages<X>>,
)
    requires
        pending.wasm_binary.embedder_cache is None,
        call_ensures(
            WasmExecutor::<X>::module_compiled,
            (executor, pending, elapsed, compiled),
            next,
        ),
    ensures
        call_requires(WasmExecutor::<X>::module_compiled, (executor, pending, elapsed, compiled)),
        match compiled {
            Ok((embedder_cache, output)) => next matches Ok(pages) && {
                &&& pages.initial.wasm_memory_pages@ == output.instrumentation_output.data_pages@
                &&& pages.initial.exported_functions@
                    == output.instrumentation_output.exported_functions@
                &&& call_ensures(
                    <X::PageMap as Default>::default,
                    (),
                    pages.initial.wasm_page_map,
                )
                &&& pages.initial.embedder_cache == embedder_cache
                &&& pages.initial.canister_id == pending.canister_id
                &&& pages.compilation_result == output.compilation_result
                &&& pages.wasm_binary.binary == pending.wasm_binary.binary
                &&& pages.wasm_binary.embedder_cache == Some(embedder_cache)
                &&& pages.canister_root == pending.canister_root
                &&& pages.wasm_metadata == output.validation_details.wasm_metadata
            },
            Err(error) => next matches Err(failure) && failure == error,
        },
        crate::message_laws::records_compilation(*old(executor), *final(executor), elapsed),
{
}

/// The initial pages are handed out one by one, with their places and their bytes, together with
/// the page map that they are for.
pub proof fn law_initial_pages_are_handed_out<'a, X: Platform>(
    pending: &'a PendingInitialPages<X>,
    update: PageMapUpdate<'a, X>,
)
    requires
        call_ensures(PendingInitialPages::<X>::page_update, (pending,), update),
    ensures
        call_requires(PendingInitialPages::<X>::page_update, (pending,)),
        *update.page_map == pending.wasm_page_map,
        update.pages@.len() == pending.wasm_memory_pages@.len(),
        forall|i: int|
            #![trigger update.pages@[i]]
            #![trigger pending.wasm_memory_pages@[i]]
            0 <= i < pending.wasm_memory_pages@.len() ==> {
                &&& update.pages@[i].0 == pending.wasm_memory_pages@[i].0
                &&& update.pages@[i].1@ == pending.wasm_memory_pages@[i].1@
            },
{
    assert forall|i: int|
        #![trigger pending.wasm_memory_pages@[i]]
        0 <= i < pending.wasm_memory_pages@.len() implies {
        &&& update.pages@[i].0 == pending.wasm_memory_pages@[i].0
        &&& update.pages@[i].1@ == pending.wasm_memory_pages@[i].1@
    } by {
        let page = update.pages@[i];
    }
}

/// A module's initial globals and memory begin with what the instrumentation found and with the
/// page map that was given.
pub proof fn law_initial_pages_are_those_of_the_module<X: Platform>(
    instrumentation_output: InstrumentationOutput,
    embedder_cache: Arc<X::EmbedderCache>,
    wasm_page_map: X::PageMap,
    canister_id: X::CanisterId,
    pending: PendingInitialPages<X>,
)
    requires
        call_ensures(
            get_initial_globals_and_memory::<X>,
            (instrumentation_output, embedder_cache, wasm_page_map, canister_id),
            pending,
        ),
    ensures
        call_requires(
            get_initial_globals_and_memory::<X>,
            (instrumentation_output, embedder_cache, wasm_page_map, canister_id),
        ),
        pending.exported_functions@ == instrumentation_output.exported_functions@,
        pending.wasm_memory_pages@ == instrumentation_output.data_pages@,
        pending.wasm_page_map == wasm_page_map,
        pending.embedder_cache == embedder_cache,
        pending.canister_id == canister_id,
{
}

/// The first instance is made on the updated page map, without globals, with no memory of its own
/// and without tracking.
pub proof fn law_first_instance_has_only_its_pages<X: Platform>(
    pages: PendingInitialPages<X>,
    wasm_page_map: X::PageMap,
    wasm_memory_delta: Vec<PageIndex>,
    pending: PendingInitialInstance<X>,
)
    requires
        call_ensures(
            PendingInitialPages::<X>::applied,
            (pages, wasm_page_map, wasm_memory_delta),
            pending,
        ),
    ensures
        call_requires(PendingInitialPages::<X>::applied, (pages, wasm_page_map, wasm_memory_delta)),
        pending.wasm_page_map == wasm_page_map,
        pending.wasm_memory_delta == wasm_memory_delta,
        pending.exported_functions@ == pages.exported_functions@,
        pending.canister_id == pages.canister_id,
        pending.embedder_cache == pages.embedder_cache,
        pending.globals@.len() == 0,
        pending.wasm_memory_size.0 == 0,
        pending.modification_tracking is Ignore,
{
}

/// What a module begins with is read from its first instance. The page map keeps the initial pages
/// with or without an instance.
pub proof fn law_initial_globals_are_read_from_the_instance<X: Platform>(
    pending: PendingInitialInstance<X>,
    instance: HypervisorResult<X, InitialInstance>,
    outcome: (X::PageMap, HypervisorResult<X, InitialGlobalsAndMemory>),
)
    requires
        call_ensures(PendingInitialInstance::<X>::created, (pending, instance), outcome),
    ensures
        call_requires(PendingInitialInstance::<X>::created, (pending, instance)),
        outcome.0 == pending.wasm_page_map,
        match instance {
            Ok(read) => outcome.1 matches Ok(initial) && {
                &&& initial.exported_functions@ == pending.exported_functions@
                &&& initial.globals == read.exported_globals
                &&& initial.wasm_memory_delta == pending.wasm_memory_delta
                &&& initial.wasm_memory_size == read.heap_size
            },
            Err(error) => outcome.1 matches Err(failure) && failure == error,
        },
{
}

/// Applying its initial pages changes nothing of a new canister but what its first instance is
/// made of.
pub proof fn law_initial_pages_are_applied<X: Platform>(
    pages: PendingModulePages<X>,
    wasm_page_map: X::PageMap,
    wasm_memory_delta: Vec<PageIndex>,
    pending: PendingModuleInstance<X>,
)
    requires
        call_ensures(
            PendingModulePages::<X>::applied,
            (pages, wasm_page_map, wasm_memory_delta),
            pending,
        ),
    ensures
        call_requires(PendingModulePages::<X>::applied, (pages, wasm_page_map, wasm_memory_delta)),
        pending.compilation_result == pages.compilation_result,
        pending.wasm_binary == pages.wasm_binary,
        pending.canister_root == pages.canister_root,
        pending.wasm_metadata == pages.wasm_metadata,
        pending.initial.wasm_page_map == wasm_page_map,
        pending.initial.wasm_memory_delta == wasm_memory_delta,
        pending.initial.exported_functions@ == pages.initial.exported_functions@,
        pending.initial.canister_id == pages.initial.canister_id,
        pending.initial.embedder_cache == pages.initial.embedder_cache,
        pending.initial.globals@.len() == 0,
        pending.initial.wasm_memory_size.0 == 0,
        pending.initial.modification_tracking is Ignore,
{
}

/// A new canister begins with the directory, the binary, the metadata and the compiled module that
/// it was made of, with the page map that holds its initial pages, with the memory size and the
/// globals of its first instance, and with an empty stable memory. It exports a method exactly if
/// its module does. Without an instance there is no canister, only the error.
pub proof fn law_new_canister_begins_with_what_was_read<X: Platform>(
    pending: PendingModuleInstance<X>,
    instance: HypervisorResult<X, InitialInstance>,
    created: HypervisorResult<X, (X::CompilationResult, ExecutionState<X>)>,
    method: WasmMethod,
    exported: bool,
)
    requires
        call_ensures(PendingModuleInstance::<X>::created, (pending, instance), created),
        created matches Ok((_, state)) ==> call_ensures(
            ExecutionState::<X>::exports_method,
            (&state, &method),
            exported,
        ),
    ensures
        call_requires(PendingModuleInstance::<X>::created, (pending, instance)),
        match instance {
            Ok(read) => created matches Ok((compilation_result, state)) && {
                &&& compilation_result == pending.compilation_result
                &&& state.canister_root == pending.canister_root
                &&& state.wasm_binary == pending.wasm_binary
                &&& state.metadata == pending.wasm_metadata
                &&& state.wasm_memory.page_map == pending.initial.wasm_page_map
                &&& state.wasm_memory.size == read.heap_size
                &&& state.exported_globals == read.exported_globals
                &&& state.stable_memory.size.0 == 0
                &&& call_ensures(
                    <X::PageMap as Default>::default,
                    (),
                    state.stable_memory.page_map,
                )
                &&& exported <==> exists|i: int|
                    {
                        &&& 0 <= i < pending.initial.exported_functions@.len()
                        &&& crate::data_laws::same_method(
                            #[trigger] pending.initial.exported_functions@[i],
                            method,
                        )
                    }
            },
            Err(error) => created matches Err(failure) && failure == error,
        },
{
    crate::data_laws::lemma_listed_method(pending.initial.exported_functions@, method);
}

/// The calls that make a new canister, each on the result of the one before.
pub struct Creation<X: Platform> {
    pub decoding: PendingModuleDecoding<X>,
    pub compilation: PendingModuleCompilation<X>,
    pub pages: PendingModulePages<X>,
    pub instance: PendingModuleInstance<X>,
    pub compilation_result: X::CompilationResult,
    pub state: ExecutionState<X>,
}

/// From its source on, a new canister gets all the pages of its module's data segments and begins
/// with its module, compiled, with the updated page map, with the globals and the memory size of
/// its first instance, with an empty stable memory and with the exports and the metadata of the
/// module. Its first message finds the module compiled.
pub proof fn law_new_canister_from_its_source<X: Platform>(
    executor: &mut WasmExecutor<X>,
    wasm_source: Vec<u8>,
    canister_root: PathBuf,
    canister_id: X::CanisterId,
    decoded_wasm: BinaryEncodedWasm,
    elapsed: Duration,
    embedder_cache: Arc<X::EmbedderCache>,
    output: FullCompilationOutput<X>,
    wasm_page_map: X::PageMap,
    wasm_memory_delta: Vec<PageIndex>,
    read: InitialInstance,
    creation: Creation<X>,
    method: WasmMethod,
    exported: bool,
    first: WasmExecutionInput<X>,
    step: ExecutorStep<X>,
)
    requires
        call_ensures(
            WasmExecutor::<X>::create_execution_state,
            (&*old(executor), wasm_source, canister_root, canister_id),
            creation.decoding,
        ),
        call_ensures(
            WasmExecutor::<X>::module_decoded,
            (&*old(executor), creation.decoding, Ok(decoded_wasm)),
            Ok(creation.compilation),
        ),
        call_ensures(
            WasmExecutor::<X>::module_compiled,
            (executor, creation.compilation, elapsed, Ok((embedder_cache, output))),
            Ok(creation.pages),
        ),
        call_ensures(
            PendingModulePages::<X>::applied,
            (creation.pages, wasm_page_map, wasm_memory_delta),
            creation.instance,
        ),
        call_ensures(
            PendingModuleInstance::<X>::created,
            (creation.instance, Ok(read)),
            Ok((creation.compilation_result, creation.state)),
        ),
        call_ensures(
            ExecutionState::<X>::exports_method,
            (&creation.state, &method),
            exported,
        ),
        first.execution_state == creation.state,
        call_ensures(WasmExecutor::<X>::process, (&*final(executor), first), step),
    ensures
        call_requires(
            WasmExecutor::<X>::create_execution_state,
            (&*old(executor), wasm_source, canister_root, canister_id),
        ),
        call_requires(
            WasmExecutor::<X>::module_decoded,
            (&*old(executor), creation.decoding, Ok(decoded_wasm)),
        ),
        call_requires(
            WasmExecutor::<X>::module_compiled,
            (executor, creation.compilation, elapsed, Ok((embedder_cache, output))),
        ),
        call_requires(
            PendingModulePages::<X>::applied,
            (creation.pages, wasm_page_map, wasm_memory_delta),
        ),
        call_requires(PendingModuleInstance::<X>::created, (creation.instance, Ok(read))),
        call_requires(ExecutionState::<X>::exports_method, (&creation.state, &method)),
        creation.compilation.decoded_wasm == decoded_wasm,
        creation.pages.initial.wasm_memory_pages@ == output.instrumentation_output.data_pages@,
        call_ensures(
            <X::PageMap as Default>::default,
            (),
            creation.pages.initial.wasm_page_map,
        ),
        creation.instance.initial.canister_id == canister_id,
        creation.instance.initial.embedder_cache == embedder_cache,
        creation.compilation_result == output.compilation_result,
        creation.state.canister_root == canister_root,
        creation.state.wasm_binary.binary == wasm_source,
        creation.state.wasm_binary.embedder_cache == Some(embedder_cache),
        creation.state.metadata == output.validation_details.wasm_metadata,
        creation.state.wasm_memory.page_map == wasm_page_map,
        creation.state.wasm_memory.size == read.heap_size,
        creation.state.exported_globals == read.exported_globals,
        creation.state.stable_memory.size.0 == 0,
        call_ensures(
            <X::PageMap as Default>::default,
            (),
            creation.state.stable_memory.page_map,
        ),
        exported <==> exists|i: int|
            {
                &&& 0 <= i < output.instrumentation_output.exported_functions@.len()
                &&& crate::data_laws::same_method(
                    #[trigger] output.instrumentation_output.exported_functions@[i],
                    method,
                )
            },
        step matches ExecutorStep::NewInstance(_, module, pending) && {
            &&& pending.embedder_cache == embedder_cache
            &&& module.compilation_result is None
        },
{
    law_new_canister_begins_with_what_was_read(
        creation.instance,
        Ok(read),
        Ok((creation.compilation_result, creation.state)),
        method,
        exported,
    );
}

/// A memory is made of its page map and its size; an empty one has the default page map and no
/// page. A new binary holds its bytes and nothing compiled.
pub proof fn law_new_memories_and_binaries<X: Platform>(
    page_map: X::PageMap,
    size: NumWasmPages,
    memory: Memory<X>,
    empty: Memory<X>,
    binary: Vec<u8>,
    wasm_binary: WasmBinary<X>,
)
    requires
        call_ensures(Memory::<X>::new, (page_map, size), memory),
        call_ensures(<Memory<X> as Default>::default, (), empty),
        call_ensures(WasmBinary::<X>::new, (binary,), wasm_binary),
    ensures
        call_requires(Memory::<X>::new, (page_map, size)),
        call_requires(<Memory<X> as Default>::default, ()),
        call_requires(WasmBinary::<X>::new, (binary,)),
        memory.page_map == page_map,
        memory.size == size,
        call_ensures(<X::PageMap as Default>::default, (), empty.page_map),
        empty.size.0 == 0,
        wasm_binary.binary == binary,
        wasm_binary.embedder_cache is None,
{
}

/// An execution state holds each of the parts that it is made of in its place.
pub proof fn law_execution_state_holds_its_parts<X: Platform>(
    canister_root: PathBuf,
    wasm_binary: WasmBinary<X>,
    exports: ExportedFunctions,
    wasm_memory: Memory<X>,
    stable_memory: Memory<X>,
    exported_globals: Vec<Global>,
    metadata: WasmMetadata,
    state: ExecutionState<X>,
)
    requires
        call_ensures(
            ExecutionState::<X>::new,
            (
                canister_root,
                wasm_binary,
                exports,
                wasm_memory,
                stable_memory,
                exported_globals,
                metadata,
            ),
            state,
        ),
    ensures
        state.canister_root == canister_root,
        state.wasm_binary == wasm_binary,
        state.exports == exports,
        state.wasm_memory == wasm_memory,
        state.stable_memory == stable_memory,
        state.exported_globals == exported_globals,
        state.metadata == metadata,
{
}

} // verus!
