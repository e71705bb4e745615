//! Counted quantities.
use vstd::prelude::*;

verus! {

/// A number of 64 KiB Wasm pages.
#[derive(Clone, Copy, Debug, PartialEq, Eq, Structural)]
pub struct NumWasmPages(pub usize);

/// A number of Wasm instructions.
#[derive(Clone, Copy, Debug, PartialEq, Eq, Structural)]
pub struct NumInstructions(pub u64);

/// A number of bytes.
#[derive(Clone, Copy, Debug, PartialEq, Eq, Structural)]
pub struct NumBytes(pub u64);

/// The place of a page of [`PAGE_SIZE`] bytes in a memory.
#[derive(Clone, Copy, Debug, PartialEq, Eq, Structural)]
pub struct PageIndex(pub u64);

/// The number of bytes in a page of a page map.
pub const PAGE_SIZE: usize = 4096;

/// The number of pages in the address space of a 32-bit Wasm memory.
pub open spec fn wasm32_max_pages() -> int {
    65536
}

/// Reads [`wasmtime_environ::WASM32_MAX_PAGES`], which is 2 to the 16.
#[verifier::external_body]
pub(crate) fn wasm32_max_pages_limit() -> (pages: u64)
    ensures
        pages == wasm32_max_pages(),
{
    wasmtime_environ::WASM32_MAX_PAGES
}

} // verus!
