use std::collections::hash_map::DefaultHasher;
use std::hash::{Hash, Hasher};

use wasm_executor::page_delta::compute_page_delta;
use wasm_executor::state_changes::{Global, WasmStateChanges};
use wasm_executor::units::{PageIndex, PAGE_SIZE};

fn hash<T: Hash>(values: &[T]) -> u64 {
    let mut hasher = DefaultHasher::new();
    values.hash(&mut hasher);
    hasher.finish()
}

fn pages(indices: &[u64]) -> Vec<PageIndex> {
    indices.iter().map(|index| PageIndex(*index)).collect()
}

#[test]
fn changes_keep_what_they_are_made_of() {
    let changes = WasmStateChanges::new(pages(&[1, 2]), pages(&[3]), vec![Global::I32(-1)]);
    assert_eq!(changes.dirty_page_indices.wasm_memory_delta, pages(&[1, 2]));
    assert_eq!(changes.dirty_page_indices.stable_memory_delta, pages(&[3]));
    assert_eq!(changes.globals, vec![Global::I32(-1)]);
}

#[test]
fn hashes_are_those_of_the_stable_delta_the_wasm_delta_and_the_globals() {
    let globals = vec![
        Global::I32(-1),
        Global::I64(i64::MIN),
        Global::F32(1.5f32.to_bits()),
        Global::F64(0x8000_0000_0000_0001),
    ];
    let changes = WasmStateChanges::new(pages(&[7, 0, u64::MAX]), pages(&[2]), globals);
    let (stable, wasm, of_globals) = changes.calculate_hashes();
    assert_eq!(stable, hash(&[2u64]));
    assert_eq!(wasm, hash(&[7u64, 0, u64::MAX]));
    let bytes: Vec<Vec<u8>> = vec![
        (-1i32).to_le_bytes().to_vec(),
        i64::MIN.to_le_bytes().to_vec(),
        1.5f32.to_le_bytes().to_vec(),
        0x8000_0000_0000_0001u64.to_le_bytes().to_vec(),
    ];
    assert_eq!(of_globals, hash(&bytes));
}

#[test]
fn no_changes_hash_as_empty_lists() {
    let changes = WasmStateChanges::new(vec![], vec![], vec![]);
    let empty = hash::<u64>(&[]);
    assert_eq!(changes.calculate_hashes(), (empty, empty, empty));
}

#[test]
fn equal_changes_have_equal_hashes() {
    let a = WasmStateChanges::new(pages(&[1]), pages(&[2, 3]), vec![Global::I64(4)]);
    let b = WasmStateChanges::new(pages(&[1]), pages(&[2, 3]), vec![Global::I64(4)]);
    assert_eq!(a.calculate_hashes(), b.calculate_hashes());
    let c = WasmStateChanges::new(pages(&[2, 3]), pages(&[1]), vec![Global::I64(4)]);
    assert_ne!(a.calculate_hashes(), c.calculate_hashes());
}

#[test]
fn a_page_delta_pairs_dirty_pages_with_their_bytes() {
    let heap: Vec<u8> = (0..3 * PAGE_SIZE).map(|i| (i / PAGE_SIZE * 10 + i % 7) as u8).collect();
    let delta = compute_page_delta(&heap, &pages(&[2, 0, 2]));
    assert_eq!(delta.len(), 3);
    assert_eq!(delta[0], (PageIndex(2), &heap[2 * PAGE_SIZE..3 * PAGE_SIZE]));
    assert_eq!(delta[1], (PageIndex(0), &heap[..PAGE_SIZE]));
    assert_eq!(delta[2], delta[0]);
    assert_eq!(delta[0].1.len(), 4096);
    assert_ne!(delta[0].1, delta[1].1);
}

#[test]
fn a_page_delta_of_no_pages_is_empty() {
    assert_eq!(compute_page_delta(&[], &[]), vec![]);
}
