//! The state of a canister's Wasm module between executions.
use crate::module_info::{ExportedFunctions, MethodName, WasmMetadata, WasmMethod};
use crate::platform::Platform;
use crate::state_changes::Global;
use crate::units::NumWasmPages;
use std::path::PathBuf;
use std::sync::Arc;
use vstd::prelude::*;

verus! {

/// A path in the file system, which is only carried along.
#[verifier::external_type_specification]
#[verifier::external_body]
pub struct ExPathBuf(PathBuf);

/// A memory: its pages and how large it is.
pub struct Memory<X: Platform> {
    pub page_map: X::PageMap,
    pub size: NumWasmPages,
}

impl<X: Platform> Memory<X> {
    pub fn new(page_map: X::PageMap, size: NumWasmPages) -> (memory: Self)
        ensures
            memory.page_map == page_map,
            memory.size == size,
    {
        Self { page_map, size }
    }
}

impl<X: Platform> Default for Memory<X> {
    /// An empty memory.
    fn default() -> (memory: Self)
        ensures
            call_ensures(<X::PageMap as Default>::default, (), memory.page_map),
            memory.size == NumWasmPages(0),
    {
        Self { page_map: <X::PageMap as Default>::default(), size: NumWasmPages(0) }
    }
}

/// The bytes of a module as it was installed, and the compiled module once there is one.
pub struct WasmBinary<X: Platform> {
    pub binary: Vec<u8>,
    pub embedder_cache: Option<Arc<X::EmbedderCache>>,
}

impl<X: Platform> WasmBinary<X> {
    /// A binary that was not compiled yet.
    pub fn new(binary: Vec<u8>) -> (wasm_binary: Self)
        ensures
            wasm_binary.binary == binary,
            wasm_binary.embedder_cache is None,
    {
        Self { binary, embedder_cache: None }
    }
}

/// What a canister's module is and what its memories and globals hold.
pub struct ExecutionState<X: Platform> {
    pub canister_root: PathBuf,
    pub wasm_binary: WasmBinary<X>,
    pub exports: ExportedFunctions,
    pub wasm_memory: Memory<X>,
    pub stable_memory: Memory<X>,
    pub exported_globals: Vec<Global>,
    pub metadata: WasmMetadata,
}

impl<X: Platform> ExecutionState<X> {
    pub fn new(
        canister_root: PathBuf,
        wasm_binary: WasmBinary<X>,
        exports: ExportedFunctions,
        wasm_memory: Memory<X>,
        stable_memory: Memory<X>,
        exported_globals: Vec<Global>,
        metadata: WasmMetadata,
    ) -> (state: Self)
        ensures
            state == (Self {
                canister_root,
                wasm_binary,
                exports,
                wasm_memory,
                stable_memory,
                exported_globals,
                metadata,
            }),
    {
        Self {
            canister_root,
            wasm_binary,
            exports,
            wasm_memory,
            stable_memory,
            exported_globals,
            metadata,
        }
    }

    /// Whether the canister exports the method.
    pub fn exports_method(&self, method: &WasmMethod) -> (exported: bool)
        ensures
            exported == self.exports@.contains(method@),
    {
        self.exports.has_method(method)
    }
}

/// The method that every canister compiled from Motoko exports.
pub open spec fn motoko_marker() -> MethodName {
    MethodName::Update("__motoko_async_helper"@)
}

/// The custom section that Motoko compilers after 0.6.20 emit.
pub open spec fn motoko_compiler_section() -> Seq<char> {
    "motoko:compiler"@
}

/// Whether the canister was compiled from Motoko by a compiler of version 0.6.20 or older.
pub open spec fn compiled_by_old_motoko<X: Platform>(state: ExecutionState<X>) -> bool {
    &&& state.exports@.contains(motoko_marker())
    &&& !state.metadata@.dom().contains(motoko_compiler_section())
}

/// How many pages are reserved at the end of the canister's address space.
pub open spec fn reserved_pages<X: Platform>(state: ExecutionState<X>) -> NumWasmPages {
    if compiled_by_old_motoko(state) {
        NumWasmPages(16)
    } else {
        NumWasmPages(0)
    }
}

/// Returns the number of guard pages reserved at the end of the 4 GiB Wasm address space.
/// Message execution fails if it uses the reserved pages. They are reserved only for canisters
/// compiled with a Motoko compiler of version 0.6.20 or older.
pub fn get_wasm_reserved_pages<X: Platform>(execution_state: &ExecutionState<X>) -> (pages:
    NumWasmPages)
    ensures
        pages == reserved_pages(*execution_state),
{
    let motoko_marker = WasmMethod::Update("__motoko_async_helper".to_owned());
    let motoko_compiler = "motoko:compiler".to_owned();
    let is_motoko_canister = execution_state.exports_method(&motoko_marker);
    let is_recent_motoko_compiler = execution_state.metadata.contains_section(&motoko_compiler);
    if is_motoko_canister && !is_recent_motoko_compiler {
        return NumWasmPages(16);
    }
    NumWasmPages(0)
}

} // verus!
