//! The changes that an execution makes to the Wasm state.
use crate::units::PageIndex;
use std::collections::hash_map::DefaultHasher;
use std::hash::Hasher;
use vstd::bytes::{u32_to_le_bytes, u64_to_le_bytes};
use vstd::prelude::*;

verus! {

/// The value of an exported Wasm global. Floating-point values are held as their bit patterns.
#[derive(Clone, Copy, Debug, PartialEq, Eq, Structural)]
pub enum Global {
    I32(i32),
    I64(i64),
    F32(u32),
    F64(u64),
}

/// The pages that an execution has written, by memory.
pub struct DirtyPageIndices {
    pub wasm_memory_delta: Vec<PageIndex>,
    pub stable_memory_delta: Vec<PageIndex>,
}

/// The changes of the Wasm state that result from an execution.
pub struct WasmStateChanges {
    pub dirty_page_indices: DirtyPageIndices,
    pub globals: Vec<Global>,
}

/// The eight bytes of a number, the lowest first.
pub open spec fn word(x: u64) -> Seq<u8> {
    vstd::bytes::spec_u64_to_le_bytes(x)
}

/// What a hasher is fed for a list of pages: the length of the list, then each page.
pub open spec fn page_writes(pages: Seq<PageIndex>) -> Seq<Seq<u8>> {
    seq![word(pages.len() as u64)] + pages.map_values(|page: PageIndex| word(page.0))
}

/// The bytes of a global's value, the lowest first.
pub open spec fn global_bytes(global: Global) -> Seq<u8> {
    match global {
        Global::I32(value) => vstd::bytes::spec_u32_to_le_bytes(value as u32),
        Global::I64(value) => word(value as u64),
        Global::F32(bits) => vstd::bytes::spec_u32_to_le_bytes(bits),
        Global::F64(bits) => word(bits),
    }
}

/// What a hasher is fed for the globals one after the other: for each the number of its bytes,
/// then the bytes.
pub open spec fn global_value_writes(globals: Seq<Global>) -> Seq<Seq<u8>>
    decreases globals.len(),
{
    if globals.len() == 0 {
        Seq::empty()
    } else {
        let bytes = global_bytes(globals.last());
        global_value_writes(globals.drop_last()).push(word(bytes.len() as u64)).push(bytes)
    }
}

/// What a hasher is fed for a list of globals: the length of the list, then each global.
pub open spec fn global_writes(globals: Seq<Global>) -> Seq<Seq<u8>> {
    seq![word(globals.len() as u64)] + global_value_writes(globals)
}

/// The hash that a fresh [`DefaultHasher`] gives after these writes.
pub open spec fn hash_of(writes: Seq<Seq<u8>>) -> u64 {
    <DefaultHasher as vstd::std_specs::hash::DefaultHasherAdditionalSpecFns>::spec_finish(writes)
}

fn hash_pages(pages: &Vec<PageIndex>) -> (hash: u64)
    ensures
        hash == hash_of(page_writes(pages@)),
{
    let mut hasher = DefaultHasher::new();
    let length = u64_to_le_bytes(pages.len() as u64);
    hasher.write(length.as_slice());
    let mut i: usize = 0;
    while i < pages.len()
        invariant
            i <= pages@.len(),
            hasher@ == seq![word(pages@.len() as u64)] + pages@.take(i as int).map_values(
                |page: PageIndex| word(page.0),
            ),
        decreases pages@.len() - i,
    {
        let bytes = u64_to_le_bytes(pages[i].0);
        hasher.write(bytes.as_slice());
        proof {
            assert(pages@.take(i + 1) =~= pages@.take(i as int).push(pages@[i as int]));
            assert(hasher@ =~= seq![word(pages@.len() as u64)] + pages@.take(i + 1).map_values(
                |page: PageIndex| word(page.0),
            ));
        }
        i += 1;
    }
    assert(pages@.take(i as int) =~= pages@);
    hasher.finish()
}

impl Global {
    fn to_bytes(&self) -> (bytes: Vec<u8>)
        ensures
            bytes@ == global_bytes(*self),
    {
        match *self {
            Global::I32(value) => u32_to_le_bytes(value as u32),
            Global::I64(value) => u64_to_le_bytes(value as u64),
            Global::F32(bits) => u32_to_le_bytes(bits),
            Global::F64(bits) => u64_to_le_bytes(bits),
        }
    }
}

fn hash_globals(globals: &Vec<Global>) -> (hash: u64)
    ensures
        hash == hash_of(global_writes(globals@)),
{
    let mut hasher = DefaultHasher::new();
    let length = u64_to_le_bytes(globals.len() as u64);
    hasher.write(length.as_slice());
    let mut i: usize = 0;
    while i < globals.len()
        invariant
            i <= globals@.len(),
            hasher@ == seq![word(globals@.len() as u64)] + global_value_writes(
                globals@.take(i as int),
            ),
        decreases globals@.len() - i,
    {
        let bytes = globals[i].to_bytes();
        let byte_count = u64_to_le_bytes(bytes.len() as u64);
        hasher.write(byte_count.as_slice());
        hasher.write(bytes.as_slice());
        proof {
            assert(globals@.take(i + 1).drop_last() =~= globals@.take(i as int));
            assert(hasher@ =~= seq![word(globals@.len() as u64)] + global_value_writes(
                globals@.take(i + 1),
            ));
        }
        i += 1;
    }
    assert(globals@.take(i as int) =~= globals@);
    hasher.finish()
}

/// The hashes of the stable memory delta, of the Wasm memory delta and of the globals, in this
/// order.
pub open spec fn state_hashes(changes: WasmStateChanges) -> (u64, u64, u64) {
    (
        hash_of(page_writes(changes.dirty_page_indices.stable_memory_delta@)),
        hash_of(page_writes(changes.dirty_page_indices.wasm_memory_delta@)),
        hash_of(global_writes(changes.globals@)),
    )
}

impl WasmStateChanges {
    pub fn new(
        wasm_memory_delta: Vec<PageIndex>,
        stable_memory_delta: Vec<PageIndex>,
        globals: Vec<Global>,
    ) -> (changes: Self)
        ensures
            changes.dirty_page_indices.wasm_memory_delta == wasm_memory_delta,
            changes.dirty_page_indices.stable_memory_delta == stable_memory_delta,
            changes.globals == globals,
    {
        Self {
            dirty_page_indices: DirtyPageIndices { wasm_memory_delta, stable_memory_delta },
            globals,
        }
    }

    /// Hashes the stable memory delta, the Wasm memory delta and the globals, in this order.
    pub fn calculate_hashes(&self) -> (hashes: (u64, u64, u64))
        ensures
            hashes == state_hashes(*self),
    {
        (
            hash_pages(&self.dirty_page_indices.stable_memory_delta),
            hash_pages(&self.dirty_page_indices.wasm_memory_delta),
            hash_globals(&self.globals),
        )
    }
}

} // verus!
