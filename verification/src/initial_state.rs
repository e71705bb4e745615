//! The globals and the memory that a module begins with.
//!
//! [`get_initial_globals_and_memory`] says which pages are to be applied to the page map, and
//! [`PendingInitialPages::page_update`] hands them out. The page map after that goes to
//! [`PendingInitialPages::applied`], which says what an instance is to be made of, and what the
//! engine reads from the instance goes to [`PendingInitialInstance::created`].
use crate::module_info::WasmMethod;
use crate::page_delta::{list_pages, PageMapUpdate};
use crate::platform::{HypervisorResult, Platform};
use crate::process::ModificationTracking;
use crate::state_changes::Global;
use crate::units::{NumWasmPages, PageIndex};
use std::sync::Arc;
use vstd::prelude::*;

verus! {

/// What the instrumentation of a module gives, besides the instrumented module.
pub struct InstrumentationOutput {
    /// The methods that the module exports.
    pub exported_functions: Vec<WasmMethod>,
    /// The pages that the data segments of the module fill.
    pub data_pages: Vec<(PageIndex, Vec<u8>)>,
}

/// A module whose page map waits for its initial pages.
pub struct PendingInitialPages<X: Platform> {
    pub exported_functions: Vec<WasmMethod>,
    pub wasm_memory_pages: Vec<(PageIndex, Vec<u8>)>,
    pub wasm_page_map: X::PageMap,
    pub embedder_cache: Arc<X::EmbedderCache>,
    pub canister_id: X::CanisterId,
}

/// A module that waits for an instance, from which its globals and its memory size are read. No
/// system API is needed: the only Wasm code that runs is the evaluation of the globals.
pub struct PendingInitialInstance<X: Platform> {
    pub exported_functions: Vec<WasmMethod>,
    pub wasm_memory_delta: Vec<PageIndex>,
    pub canister_id: X::CanisterId,
    pub embedder_cache: Arc<X::EmbedderCache>,
    pub globals: Vec<Global>,
    pub wasm_memory_size: NumWasmPages,
    pub wasm_page_map: X::PageMap,
    pub modification_tracking: ModificationTracking,
}

/// What is read from an instance that has run nothing.
pub struct InitialInstance {
    pub exported_globals: Vec<Global>,
    pub heap_size: NumWasmPages,
}

/// What a module exports and begins with.
pub struct InitialGlobalsAndMemory {
    pub exported_functions: Vec<WasmMethod>,
    pub globals: Vec<Global>,
    pub wasm_memory_delta: Vec<PageIndex>,
    pub wasm_memory_size: NumWasmPages,
}

/// Takes a validated and instrumented module and says which pages its page map begins with.
pub fn get_initial_globals_and_memory<X: Platform>(
    instrumentation_output: InstrumentationOutput,
    embedder_cache: Arc<X::EmbedderCache>,
    wasm_page_map: X::PageMap,
    canister_id: X::CanisterId,
) -> (pending: PendingInitialPages<X>)
    ensures
        pending == (PendingInitialPages::<X> {
            exported_functions: instrumentation_output.exported_functions,
            wasm_memory_pages: instrumentation_output.data_pages,
            wasm_page_map,
            embedder_cache,
            canister_id,
        }),
{
    PendingInitialPages {
        exported_functions: instrumentation_output.exported_functions,
        wasm_memory_pages: instrumentation_output.data_pages,
        wasm_page_map,
        embedder_cache,
        canister_id,
    }
}

/// Whether this asks for an instance on the updated page map, without globals, with no memory of
/// its own yet and without tracking.
pub open spec fn is_instance_request<X: Platform>(
    next: PendingInitialInstance<X>,
    pending: PendingInitialPages<X>,
    wasm_page_map: X::PageMap,
    wasm_memory_delta: Vec<PageIndex>,
) -> bool {
    &&& next.exported_functions == pending.exported_functions
    &&& next.wasm_memory_delta == wasm_memory_delta
    &&& next.canister_id == pending.canister_id
    &&& next.embedder_cache == pending.embedder_cache
    &&& next.globals@ == Seq::<Global>::empty()
    &&& next.wasm_memory_size.0 == 0
    &&& next.wasm_page_map == wasm_page_map
    &&& next.modification_tracking is Ignore
}

impl<X: Platform> PendingInitialPages<X> {
    /// What is to be written to the page map: the pages of the data segments.
    pub fn page_update<'a>(&'a self) -> (update: PageMapUpdate<'a, X>)
        ensures
            *update.page_map == self.wasm_page_map,
            crate::page_delta::lists_pages(update.pages@, self.wasm_memory_pages@),
    {
        PageMapUpdate {
            page_map: &self.wasm_page_map,
            pages: list_pages(self.wasm_memory_pages.as_slice()),
        }
    }

    /// The pages are applied, and an instance is to be made on the updated page map.
    pub fn applied(
        self,
        wasm_page_map: X::PageMap,
        wasm_memory_delta: Vec<PageIndex>,
    ) -> (pending: PendingInitialInstance<X>)
        ensures
            is_instance_request(pending, self, wasm_page_map, wasm_memory_delta),
    {
        PendingInitialInstance {
            exported_functions: self.exported_functions,
            wasm_memory_delta,
            canister_id: self.canister_id,
            embedder_cache: self.embedder_cache,
            globals: Vec::new(),
            wasm_memory_size: NumWasmPages(0),
            wasm_page_map,
            modification_tracking: ModificationTracking::Ignore,
        }
    }
}

/// What follows on the engine's answer to the request for an instance.
pub open spec fn after_initial_instance<X: Platform>(
    pending: PendingInitialInstance<X>,
    instance: HypervisorResult<X, InitialInstance>,
) -> HypervisorResult<X, InitialGlobalsAndMemory> {
    match instance {
        Ok(initial) => Ok(
            InitialGlobalsAndMemory {
                exported_functions: pending.exported_functions,
                globals: initial.exported_globals,
                wasm_memory_delta: pending.wasm_memory_delta,
                wasm_memory_size: initial.heap_size,
            },
        ),
        Err(error) => Err(error),
    }
}

impl<X: Platform> PendingInitialInstance<X> {
    /// The engine has made the instance, or has failed to. The page map keeps the initial pages
    /// either way.
    pub fn created(self, instance: HypervisorResult<X, InitialInstance>) -> (outcome: (
        X::PageMap,
        HypervisorResult<X, InitialGlobalsAndMemory>,
    ))
        ensures
            outcome.0 == self.wasm_page_map,
            outcome.1 == after_initial_instance(self, instance),
    {
        let result = match instance {
            Ok(initial) => Ok(
                InitialGlobalsAndMemory {
                    exported_functions: self.exported_functions,
                    globals: initial.exported_globals,
                    wasm_memory_delta: self.wasm_memory_delta,
                    wasm_memory_size: initial.heap_size,
                },
            ),
            Err(error) => Err(error),
        };
        (self.wasm_page_map, result)
    }
}

} // verus!
