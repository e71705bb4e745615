//! What holds of the data that the executor works on: pages, exports, custom sections, hashes,
//! numbers as text, and metrics.
//!
//! Every law speaks of calls: of what a function returns for its arguments, or of how the results
//! of several calls relate. It also says that the calls may be made.
use crate::bitcoin_adapter_client::Options;
use crate::decimal::append_decimal;
use crate::execution_state::{get_wasm_reserved_pages, ExecutionState};
use crate::executor::WasmExecutor;
use crate::metrics::{
    registered, MetricsError, MetricsView, Refusal, WasmExecutorMetrics, WasmImportsDetails,
};
use crate::module_info::{
    CustomSection, ExportedFunctions, MethodName, WasmMetadata, WasmMethod,
};
use crate::page_delta::{compute_page_delta, list_pages, PageMapUpdate};
use crate::platform::Platform;
use crate::process::PendingUpdate;
use crate::state_changes::{Global, WasmStateChanges};
use crate::units::{NumWasmPages, PageIndex};
use core::time::Duration;
use std::collections::hash_map::DefaultHasher;
use vstd::prelude::*;
use vstd::std_specs::hash::DefaultHasherAdditionalSpecFns;

verus! {

/// Whether every page lies within the heap: its last byte, too.
pub open spec fn are_mapped(pages: Seq<PageIndex>, heap: Seq<u8>) -> bool {
    forall|k: int| 0 <= k < pages.len() ==> (#[trigger] pages[k]).0 * 4096 + 4096 <= heap.len()
}

proof fn lemma_mapped(pages: Seq<PageIndex>, heap: Seq<u8>)
    requires
        are_mapped(pages, heap),
    ensures
        crate::page_delta::pages_in_heap(pages, heap.len()),
{
    assert forall|k: int| 0 <= k < pages.len() implies crate::page_delta::page_in_heap(
        #[trigger] pages[k],
        heap.len(),
    ) by {
        assert(pages[k].0 * 4096 + 4096 <= heap.len());
    }
}

/// Whether the list pairs each page, in its order, with its bytes: byte `j` of page `p` is byte
/// `4096 * p + j` of the heap.
pub open spec fn holds_heap_bytes(
    list: Seq<(PageIndex, &[u8])>,
    pages: Seq<PageIndex>,
    heap: Seq<u8>,
) -> bool {
    &&& list.len() == pages.len()
    &&& forall|k: int|
        #![trigger list[k]]
        0 <= k < list.len() ==> list[k].0 == pages[k] && list[k].1@.len() == 4096
    &&& forall|k: int, j: int|
        0 <= k < list.len() && 0 <= j < 4096 ==> #[trigger] list[k].1@[j] == heap[pages[k].0 * 4096
            + j]
}

/// A page delta holds each dirty page with exactly the bytes that the heap has at its place, for
/// all pages that are mapped.
pub proof fn law_page_delta_is_read_from_the_heap<'a>(
    heap: &'a [u8],
    dirty_pages: &[PageIndex],
    delta: Vec<(PageIndex, &'a [u8])>,
)
    requires
        are_mapped(dirty_pages@, heap@),
        call_ensures(compute_page_delta, (heap, dirty_pages), delta),
    ensures
        call_requires(compute_page_delta, (heap, dirty_pages)),
        holds_heap_bytes(delta@, dirty_pages@, heap@),
{
    lemma_mapped(dirty_pages@, heap@);
    lemma_delta_bytes(delta@, dirty_pages@, heap@);
}

proof fn lemma_delta_bytes(
    delta: Seq<(PageIndex, &[u8])>,
    dirty_pages: Seq<PageIndex>,
    heap: Seq<u8>,
)
    requires
        are_mapped(dirty_pages, heap),
        crate::page_delta::is_page_delta(delta, heap, dirty_pages),
    ensures
        holds_heap_bytes(delta, dirty_pages, heap),
{
    assert forall|k: int| #![trigger delta[k]] 0 <= k < delta.len() implies delta[k].0
        == dirty_pages[k] && delta[k].1@.len() == 4096 by {
        assert(dirty_pages[k].0 * 4096 + 4096 <= heap.len());
    }
    assert forall|k: int, j: int| 0 <= k < delta.len() && 0 <= j < 4096 implies #[trigger] delta[
    k].1@[j] == heap[dirty_pages[k].0 * 4096 + j] by {
        assert(delta[k].0 == dirty_pages[k]);
        assert(dirty_pages[k].0 * 4096 + 4096 <= heap.len());
    }
}

/// The Wasm memory is updated with the dirty pages of the heap, each with the bytes that the heap
/// has at its place, on its own page map.
pub proof fn law_wasm_memory_gets_the_heap_pages<'a, X: Platform>(
    pending: &'a PendingUpdate<X>,
    heap: &'a [u8],
    update: PageMapUpdate<'a, X>,
)
    requires
        are_mapped(pending.dirty_pages@, heap@),
        call_ensures(PendingUpdate::<X>::wasm_memory_update, (pending, heap), update),
    ensures
        call_requires(PendingUpdate::<X>::wasm_memory_update, (pending, heap)),
        *update.page_map == pending.wasm_memory.page_map,
        holds_heap_bytes(update.pages@, pending.dirty_pages@, heap@),
{
    lemma_mapped(pending.dirty_pages@, heap@);
    lemma_delta_bytes(update.pages@, pending.dirty_pages@, heap@);
}

/// Whether the list holds all of the pages in their order, with their bytes.
pub open spec fn holds_pages(
    list: Seq<(PageIndex, &[u8])>,
    pages: Seq<(PageIndex, Vec<u8>)>,
) -> bool {
    &&& list.len() == pages.len()
    &&& forall|k: int|
        #![trigger list[k]]
        0 <= k < list.len() ==> list[k].0 == pages[k].0 && list[k].1@ == pages[k].1@
}

/// The stable memory is updated with all of its dirty pages, each with its bytes, on its own page
/// map.
pub proof fn law_stable_memory_gets_its_pages<'a, X: Platform>(
    pending: &'a PendingUpdate<X>,
    dirty_pages: &'a [(PageIndex, Vec<u8>)],
    update: PageMapUpdate<'a, X>,
)
    requires
        call_ensures(PendingUpdate::<X>::stable_memory_update, (pending, dirty_pages), update),
    ensures
        call_requires(PendingUpdate::<X>::stable_memory_update, (pending, dirty_pages)),
        *update.page_map == pending.stable_memory.page_map,
        holds_pages(update.pages@, dirty_pages@),
{
}

/// A list of pages holds all of the pages, each with its bytes.
pub proof fn law_page_list_is_complete<'a>(
    pages: &'a [(PageIndex, Vec<u8>)],
    list: Vec<(PageIndex, &'a [u8])>,
)
    requires
        call_ensures(list_pages, (pages,), list),
    ensures
        call_requires(list_pages, (pages,)),
        holds_pages(list@, pages@),
{
}

/// Whether the two are the same method: of the same kind, with the same name.
pub open spec fn same_method(a: WasmMethod, b: WasmMethod) -> bool {
    match (a, b) {
        (WasmMethod::Update(a), WasmMethod::Update(b)) => a@ == b@,
        (WasmMethod::Query(a), WasmMethod::Query(b)) => a@ == b@,
        (WasmMethod::System(a), WasmMethod::System(b)) => a@ == b@,
        _ => false,
    }
}

proof fn lemma_method_set(methods: Seq<WasmMethod>, name: MethodName)
    ensures
        crate::module_info::method_set(methods).contains(name) <==> exists|i: int|
            0 <= i < methods.len() && #[trigger] methods[i]@ == name,
{
    let names = methods.map_values(|m: WasmMethod| m@);
    if names.contains(name) {
        let i = choose|i: int| 0 <= i < names.len() && names[i] == name;
        assert(methods[i]@ == name);
    }
    if exists|i: int| 0 <= i < methods.len() && #[trigger] methods[i]@ == name {
        let i = choose|i: int| 0 <= i < methods.len() && #[trigger] methods[i]@ == name;
        assert(names[i] == name);
    }
}

pub(crate) proof fn lemma_listed_method(methods: Seq<WasmMethod>, method: WasmMethod)
    ensures
        crate::module_info::method_set(methods).contains(method@) <==> exists|i: int|
            0 <= i < methods.len() && same_method(#[trigger] methods[i], method),
{
    lemma_method_set(methods, method@);
    if exists|i: int| 0 <= i < methods.len() && #[trigger] methods[i]@ == method@ {
        let i = choose|i: int| 0 <= i < methods.len() && #[trigger] methods[i]@ == method@;
        assert(same_method(methods[i], method));
    }
    if exists|i: int| 0 <= i < methods.len() && same_method(#[trigger] methods[i], method) {
        let i = choose|i: int|
            0 <= i < methods.len() && same_method(#[trigger] methods[i], method);
        assert(methods[i]@ == method@);
    }
}

/// Methods are told apart by their kind and by their name, and by nothing else.
pub proof fn law_methods_are_the_same_by_kind_and_name(a: WasmMethod, b: WasmMethod, same: bool)
    requires
        call_ensures(WasmMethod::is_same, (&a, &b), same),
    ensures
        call_requires(WasmMethod::is_same, (&a, &b)),
        same == same_method(a, b),
{
}

/// Exports made of a list have a method exactly if it is in the list, however often and wherever.
pub proof fn law_exports_are_those_listed(
    methods: Vec<WasmMethod>,
    exports: ExportedFunctions,
    method: WasmMethod,
    exported: bool,
)
    requires
        call_ensures(ExportedFunctions::new, (methods,), exports),
        call_ensures(ExportedFunctions::has_method, (&exports, &method), exported),
    ensures
        call_requires(ExportedFunctions::new, (methods,)),
        call_requires(ExportedFunctions::has_method, (&exports, &method)),
        exported <==> exists|i: int|
            0 <= i < methods@.len() && same_method(#[trigger] methods@[i], method),
{
    lemma_listed_method(methods@, method);
}

/// A canister exports what its exports have.
pub proof fn law_canister_exports_its_exports<X: Platform>(
    state: ExecutionState<X>,
    method: WasmMethod,
    exported: bool,
    found: bool,
)
    requires
        call_ensures(ExecutionState::<X>::exports_method, (&state, &method), exported),
        call_ensures(ExportedFunctions::has_method, (&state.exports, &method), found),
    ensures
        call_requires(ExecutionState::<X>::exports_method, (&state, &method)),
        call_requires(ExportedFunctions::has_method, (&state.exports, &method)),
        exported == found,
{
}

proof fn lemma_section_map(sections: Seq<CustomSection>, name: Seq<char>)
    ensures
        crate::module_info::section_map(sections).dom().contains(name) <==> exists|i: int|
            0 <= i < sections.len() && (#[trigger] sections[i]).name@ == name,
    decreases sections.len(),
{
    if sections.len() > 0 {
        let shorter = sections.drop_last();
        lemma_section_map(shorter, name);
        if sections.last().name@ == name {
            assert(sections[sections.len() - 1].name@ == name);
        }
        if exists|i: int| 0 <= i < shorter.len() && (#[trigger] shorter[i]).name@ == name {
            let i = choose|i: int| 0 <= i < shorter.len() && (#[trigger] shorter[i]).name@ == name;
            assert(sections[i].name@ == name);
        }
        if exists|i: int| 0 <= i < sections.len() && (#[trigger] sections[i]).name@ == name {
            let i = choose|i: int|
                0 <= i < sections.len() && (#[trigger] sections[i]).name@ == name;
            if i < shorter.len() {
                assert(shorter[i].name@ == name);
            }
        }
    }
}

proof fn lemma_last_section(sections: Seq<CustomSection>, last: int)
    requires
        0 <= last < sections.len(),
        forall|j: int|
            last < j < sections.len() ==> (#[trigger] sections[j]).name@ != sections[last].name@,
    ensures
        crate::module_info::section_map(sections)[sections[last].name@] == sections[last],
    decreases sections.len(),
{
    if last < sections.len() - 1 {
        let shorter = sections.drop_last();
        assert(sections[sections.len() - 1].name@ != sections[last].name@);
        assert forall|j: int| last < j < shorter.len() implies (#[trigger] shorter[j]).name@
            != shorter[last].name@ by {
            assert(sections[j].name@ != sections[last].name@);
        }
        lemma_last_section(shorter, last);
    }
}

/// Metadata made of a list has a section exactly if one of that name is in the list, and of the
/// sections of one name it holds the last.
pub proof fn law_sections_are_those_listed(
    sections: Vec<CustomSection>,
    metadata: WasmMetadata,
    name: String,
    found: bool,
    last: int,
)
    requires
        call_ensures(WasmMetadata::new, (sections,), metadata),
        call_ensures(WasmMetadata::contains_section, (&metadata, &name), found),
    ensures
        call_requires(WasmMetadata::new, (sections,)),
        call_requires(WasmMetadata::contains_section, (&metadata, &name)),
        found <==> exists|i: int|
            0 <= i < sections@.len() && (#[trigger] sections@[i]).name@ == name@,
        0 <= last < sections@.len() && (forall|j: int|
            last < j < sections@.len() ==> (#[trigger] sections@[j]).name@
                != sections@[last].name@) ==> metadata@[sections@[last].name@] == sections@[last],
{
    lemma_section_map(sections@, name@);
    if 0 <= last < sections@.len() && (forall|j: int|
        last < j < sections@.len() ==> (#[trigger] sections@[j]).name@ != sections@[last].name@) {
        lemma_last_section(sections@, last);
    }
}

/// No page is reserved for a canister that names its compiler, whatever other sections it has, nor
/// for one that does not export the Motoko marker, whatever else it exports. For all others 16
/// pages are reserved.
pub proof fn law_pages_are_reserved_for_old_motoko<X: Platform>(
    state: ExecutionState<X>,
    pages: NumWasmPages,
)
    requires
        call_ensures(get_wasm_reserved_pages::<X>, (&state,), pages),
    ensures
        call_requires(get_wasm_reserved_pages::<X>, (&state,)),
        state.metadata@.dom().contains("motoko:compiler"@) ==> pages.0 == 0,
        !state.exports@.contains(MethodName::Update("__motoko_async_helper"@)) ==> pages.0 == 0,
        state.exports@.contains(MethodName::Update("__motoko_async_helper"@))
            && !state.metadata@.dom().contains("motoko:compiler"@) ==> pages.0 == 16,
{
}

/// The same, told from the lists that a module's exports and sections were made of.
pub proof fn law_reserved_pages_depend_on_two_names<X: Platform>(
    methods: Vec<WasmMethod>,
    sections: Vec<CustomSection>,
    state: ExecutionState<X>,
    pages: NumWasmPages,
)
    requires
        call_ensures(ExportedFunctions::new, (methods,), state.exports),
        call_ensures(WasmMetadata::new, (sections,), state.metadata),
        call_ensures(get_wasm_reserved_pages::<X>, (&state,), pages),
    ensures
        call_requires(ExportedFunctions::new, (methods,)),
        call_requires(WasmMetadata::new, (sections,)),
        call_requires(get_wasm_reserved_pages::<X>, (&state,)),
        ({
            let exports_marker = exists|i: int|
                0 <= i < methods@.len() && (#[trigger] methods@[i] matches WasmMethod::Update(name)
                    && name@ == "__motoko_async_helper"@);
            let names_compiler = exists|i: int|
                0 <= i < sections@.len() && (#[trigger] sections@[i]).name@ == "motoko:compiler"@;
            pages.0 == if exports_marker && !names_compiler {
                16int
            } else {
                0int
            }
        }),
{
    let marker = MethodName::Update("__motoko_async_helper"@);
    lemma_method_set(methods@, marker);
    lemma_section_map(sections@, "motoko:compiler"@);
    if exists|i: int| 0 <= i < methods@.len() && #[trigger] methods@[i]@ == marker {
        let i = choose|i: int| 0 <= i < methods@.len() && #[trigger] methods@[i]@ == marker;
        assert(methods@[i] matches WasmMethod::Update(name) && name@ == "__motoko_async_helper"@);
    }
    if exists|i: int|
        0 <= i < methods@.len() && (#[trigger] methods@[i] matches WasmMethod::Update(name) && name@
            == "__motoko_async_helper"@) {
        let i = choose|i: int|
            0 <= i < methods@.len() && (#[trigger] methods@[i] matches WasmMethod::Update(name)
                && name@ == "__motoko_async_helper"@);
        assert(methods@[i]@ == marker);
    }
}

/// Whether these writes feed a hasher the length of the list and then each of its pages, as
/// eight bytes each, the lowest first.
pub open spec fn feeds_pages(writes: Seq<Seq<u8>>, pages: Seq<PageIndex>) -> bool {
    &&& writes.len() == pages.len() + 1
    &&& writes[0] == vstd::bytes::spec_u64_to_le_bytes(pages.len() as u64)
    &&& forall|i: int|
        0 <= i < pages.len() ==> writes[i + 1] == vstd::bytes::spec_u64_to_le_bytes(
            (#[trigger] pages[i]).0,
        )
}

/// Whether these bytes are the value of the global, the lowest byte first: four bytes of a 32-bit
/// value, eight bytes of a 64-bit value.
pub open spec fn are_bytes_of(bytes: Seq<u8>, global: Global) -> bool {
    match global {
        Global::I32(value) => bytes == vstd::bytes::spec_u32_to_le_bytes(value as u32),
        Global::I64(value) => bytes == vstd::bytes::spec_u64_to_le_bytes(value as u64),
        Global::F32(bits) => bytes == vstd::bytes::spec_u32_to_le_bytes(bits),
        Global::F64(bits) => bytes == vstd::bytes::spec_u64_to_le_bytes(bits),
    }
}

/// Whether these writes feed a hasher the length of the list and then, for each of its globals,
/// the number of its bytes and the bytes.
pub open spec fn feeds_globals(writes: Seq<Seq<u8>>, globals: Seq<Global>) -> bool {
    &&& writes.len() == 2 * globals.len() + 1
    &&& writes[0] == vstd::bytes::spec_u64_to_le_bytes(globals.len() as u64)
    &&& forall|i: int|
        #![trigger globals[i]]
        0 <= i < globals.len() ==> {
            &&& writes[2 * i + 1] == vstd::bytes::spec_u64_to_le_bytes(
                writes[2 * i + 2].len() as u64,
            )
            &&& are_bytes_of(writes[2 * i + 2], globals[i])
        }
}

proof fn lemma_global_value_writes(globals: Seq<Global>, i: int)
    requires
        0 <= i < globals.len(),
    ensures
        ({
            let writes = crate::state_changes::global_value_writes(globals);
            &&& writes.len() == 2 * globals.len()
            &&& are_bytes_of(writes[2 * i + 1], globals[i])
            &&& writes[2 * i] == vstd::bytes::spec_u64_to_le_bytes(writes[2 * i + 1].len() as u64)
        }),
    decreases globals.len(),
{
    let shorter = globals.drop_last();
    lemma_global_value_count(shorter);
    if i < shorter.len() {
        lemma_global_value_writes(shorter, i);
    }
}

proof fn lemma_global_value_count(globals: Seq<Global>)
    ensures
        crate::state_changes::global_value_writes(globals).len() == 2 * globals.len(),
    decreases globals.len(),
{
    if globals.len() > 0 {
        lemma_global_value_count(globals.drop_last());
    }
}

/// The first hash is that of the stable memory's changed pages, the second that of the Wasm
/// memory's, the third that of the globals: of the whole lists, in their order.
pub proof fn law_hashes_are_those_of_the_changes(
    changes: WasmStateChanges,
    hashes: (u64, u64, u64),
    stable_writes: Seq<Seq<u8>>,
    wasm_writes: Seq<Seq<u8>>,
    global_writes: Seq<Seq<u8>>,
)
    requires
        call_ensures(WasmStateChanges::calculate_hashes, (&changes,), hashes),
        feeds_pages(stable_writes, changes.dirty_page_indices.stable_memory_delta@),
        feeds_pages(wasm_writes, changes.dirty_page_indices.wasm_memory_delta@),
        feeds_globals(global_writes, changes.globals@),
    ensures
        call_requires(WasmStateChanges::calculate_hashes, (&changes,)),
        hashes.0
            == <DefaultHasher as DefaultHasherAdditionalSpecFns>::spec_finish(
            stable_writes,
        ),
        hashes.1
            == <DefaultHasher as DefaultHasherAdditionalSpecFns>::spec_finish(
            wasm_writes,
        ),
        hashes.2
            == <DefaultHasher as DefaultHasherAdditionalSpecFns>::spec_finish(
            global_writes,
        ),
{
    lemma_page_writes(stable_writes, changes.dirty_page_indices.stable_memory_delta@);
    lemma_page_writes(wasm_writes, changes.dirty_page_indices.wasm_memory_delta@);
    let globals = changes.globals@;
    lemma_global_value_count(globals);
    let fed = crate::state_changes::global_writes(globals);
    let values = crate::state_changes::global_value_writes(globals);
    assert(fed.len() == global_writes.len());
    assert forall|k: int| 0 <= k < fed.len() implies fed[k] == global_writes[k] by {
        if k > 0 {
            let i = (k - 1) / 2;
            let global = globals[i];
            lemma_global_value_writes(globals, i);
            assert(fed[2 * i + 1] == values[2 * i]);
            assert(fed[2 * i + 2] == values[2 * i + 1]);
            assert(k == 2 * i + 1 || k == 2 * i + 2);
        }
    }
    assert(fed =~= global_writes);
}

proof fn lemma_page_writes(writes: Seq<Seq<u8>>, pages: Seq<PageIndex>)
    requires
        feeds_pages(writes, pages),
    ensures
        writes == crate::state_changes::page_writes(pages),
{
    let fed = crate::state_changes::page_writes(pages);
    assert(fed.len() == writes.len());
    assert forall|k: int| 0 <= k < fed.len() implies fed[k] == writes[k] by {
        if k > 0 {
            let page = pages[k - 1];
            assert(writes[(k - 1) + 1] == vstd::bytes::spec_u64_to_le_bytes(page.0));
        }
    }
    assert(fed =~= writes);
}

/// Changes hold the pages of each memory and the globals that they were made of.
pub proof fn law_changes_hold_what_they_are_made_of(
    wasm_memory_delta: Vec<PageIndex>,
    stable_memory_delta: Vec<PageIndex>,
    globals: Vec<Global>,
    changes: WasmStateChanges,
)
    requires
        call_ensures(
            WasmStateChanges::new,
            (wasm_memory_delta, stable_memory_delta, globals),
            changes,
        ),
    ensures
        call_requires(WasmStateChanges::new, (wasm_memory_delta, stable_memory_delta, globals)),
        changes.dirty_page_indices.wasm_memory_delta == wasm_memory_delta,
        changes.dirty_page_indices.stable_memory_delta == stable_memory_delta,
        changes.globals == globals,
{
}

/// The number that a row of decimal digits stands for.
pub open spec fn value_of(digits: Seq<char>) -> int
    decreases digits.len(),
{
    if digits.len() == 0 {
        0
    } else {
        10 * value_of(digits.drop_last()) + (digits.last() as int - '0' as int)
    }
}

/// Whether the text is the number in decimal, without leading zeros.
pub open spec fn is_numeral(text: Seq<char>, n: u64) -> bool {
    &&& text.len() > 0
    &&& forall|i: int| 0 <= i < text.len() ==> '0' <= #[trigger] text[i] <= '9'
    &&& text.len() > 1 ==> text[0] != '0'
    &&& value_of(text) == n
}

proof fn lemma_decimal(n: u64)
    ensures
        is_numeral(crate::decimal::decimal(n as nat), n),
        n > 0 ==> crate::decimal::decimal(n as nat)[0] != '0',
    decreases n,
{
    let text = crate::decimal::decimal(n as nat);
    reveal_with_fuel(value_of, 2);
    if n < 10 {
        assert(text.drop_last() =~= Seq::empty());
    } else {
        let head = crate::decimal::decimal((n / 10) as nat);
        lemma_decimal(n / 10);
        assert(text.drop_last() =~= head);
        assert(text[0] == head[0]);
        assert forall|i: int| 0 <= i < text.len() implies '0' <= #[trigger] text[i] <= '9' by {
            if i < head.len() {
                assert(text[i] == head[i]);
            }
        }
    }
}

/// A number is appended in decimal: what was there stays, and what follows reads back as the
/// number.
pub proof fn law_number_is_appended_in_decimal(text: &mut String, n: u64)
    requires
        call_ensures(append_decimal, (text, n), ()),
    ensures
        call_requires(append_decimal, (text, n)),
        final(text)@.len() > old(text)@.len(),
        final(text)@.take(old(text)@.len() as int) == old(text)@,
        is_numeral(final(text)@.skip(old(text)@.len() as int), n),
{
    lemma_decimal(n);
    let appended = crate::decimal::decimal(n as nat);
    assert(final(text)@.take(old(text)@.len() as int) =~= old(text)@);
    assert(final(text)@.skip(old(text)@.len() as int) =~= appended);
}

/// The logged line holds the output and each hash under its own label, in decimal. Without hashes
/// there is no line.
pub proof fn law_hashes_are_logged_under_their_labels<X: Platform>(
    executor: WasmExecutor<X>,
    hashes: Option<(u64, u64, u64)>,
    output: &str,
    line: Option<String>,
)
    requires
        call_ensures(
            WasmExecutor::<X>::emit_state_hashes_for_debugging,
            (&executor, &hashes, output),
            line,
        ),
    ensures
        call_requires(
            WasmExecutor::<X>::emit_state_hashes_for_debugging,
            (&executor, &hashes, output),
        ),
        hashes is None ==> line is None,
        hashes matches Some((stable_hash, wasm_hash, globals_hash)) ==> line is Some && exists|
            wasm: Seq<char>,
            stable: Seq<char>,
            globals: Seq<char>,
        |
            #![trigger
                is_numeral(wasm, wasm_hash),
                is_numeral(stable, stable_hash),
                is_numeral(globals, globals_hash)
            ]
            {
                &&& is_numeral(wasm, wasm_hash)
                &&& is_numeral(stable, stable_hash)
                &&& is_numeral(globals, globals_hash)
                &&& line->Some_0@ == "Executed update call: result  => ["@ + output@
                    + "], deltas hash => [ wasm memory delta => "@ + wasm
                    + ", stable memory delta => "@ + stable + ", globals => "@ + globals + "]"@
            },
{
    if let Some((stable_hash, wasm_hash, globals_hash)) = hashes {
        lemma_decimal(wasm_hash);
        lemma_decimal(stable_hash);
        lemma_decimal(globals_hash);
        let wasm = crate::decimal::decimal(wasm_hash as nat);
        let stable = crate::decimal::decimal(stable_hash as nat);
        let globals = crate::decimal::decimal(globals_hash as nat);
        assert(is_numeral(wasm, wasm_hash) && is_numeral(stable, stable_hash) && is_numeral(
            globals,
            globals_hash,
        ));
    }
}

/// Whether a counter has moved by one exactly if the function is imported. It has 64 bits.
pub open spec fn has_counted(before: u64, after: u64, imported: bool) -> bool {
    after == if imported {
        (before + 1) % 0x1_0000_0000_0000_0000
    } else {
        before as int
    }
}

/// Whether each import counter has counted its own function and nothing else has changed.
pub open spec fn has_observed(
    before: MetricsView,
    after: MetricsView,
    imports: WasmImportsDetails,
) -> bool {
    &&& has_counted(
        before.imports_call_simple,
        after.imports_call_simple,
        imports.imports_call_simple,
    )
    &&& has_counted(
        before.imports_call_cycles_add,
        after.imports_call_cycles_add,
        imports.imports_call_cycles_add,
    )
    &&& has_counted(
        before.imports_canister_cycle_balance,
        after.imports_canister_cycle_balance,
        imports.imports_canister_cycle_balance,
    )
    &&& has_counted(
        before.imports_msg_cycles_available,
        after.imports_msg_cycles_available,
        imports.imports_msg_cycles_available,
    )
    &&& has_counted(
        before.imports_msg_cycles_refunded,
        after.imports_msg_cycles_refunded,
        imports.imports_msg_cycles_refunded,
    )
    &&& has_counted(
        before.imports_msg_cycles_accept,
        after.imports_msg_cycles_accept,
        imports.imports_msg_cycles_accept,
    )
    &&& has_counted(
        before.imports_mint_cycles,
        after.imports_mint_cycles,
        imports.imports_mint_cycles,
    )
    &&& after.durations == before.durations
    &&& after.descriptions == before.descriptions
    &&& after.registries == before.registries
    &&& after.bounds == before.bounds
}

/// A module is counted under each function that it imports and under no other, and nothing else
/// of the metrics changes.
pub proof fn law_module_is_counted_under_its_imports(
    metrics: &mut WasmExecutorMetrics,
    imports: WasmImportsDetails,
)
    requires
        call_ensures(WasmExecutorMetrics::observe_imports, (metrics, &imports), ()),
    ensures
        call_requires(WasmExecutorMetrics::observe_imports, (metrics, &imports)),
        has_observed(old(metrics)@, final(metrics)@, imports),
{
}

/// An executor counts a module in its metrics and keeps everything else.
pub proof fn law_executor_counts_modules<X: Platform>(
    executor: &mut WasmExecutor<X>,
    imports: WasmImportsDetails,
)
    requires
        call_ensures(WasmExecutor::<X>::observe_metrics, (executor, &imports), ()),
    ensures
        call_requires(WasmExecutor::<X>::observe_metrics, (executor, &imports)),
        final(executor).wasm_embedder == old(executor).wasm_embedder,
        final(executor).log == old(executor).log,
        has_observed(old(executor).metrics@, final(executor).metrics@, imports),
{
}

/// A measured compilation is recorded with its duration, after those before it, and moves no import
/// counter.
pub proof fn law_compilation_is_recorded(metrics: &mut WasmExecutorMetrics, elapsed: Duration)
    requires
        call_ensures(WasmExecutorMetrics::observe_compilation, (metrics, elapsed), ()),
    ensures
        call_requires(WasmExecutorMetrics::observe_compilation, (metrics, elapsed)),
        final(metrics)@.durations.len() == old(metrics)@.durations.len() + 1,
        final(metrics)@.durations.last() == elapsed,
        final(metrics)@.durations.drop_last() == old(metrics)@.durations,
        final(metrics)@ == (MetricsView {
            durations: final(metrics)@.durations,
            ..old(metrics)@
        }),
{
    assert(final(metrics)@.durations.drop_last() =~= old(metrics)@.durations);
}

/// The number of compilations is the number of recorded durations; it has 63 bits.
pub proof fn law_compilation_count_is_the_number_of_durations<X: Platform>(
    executor: WasmExecutor<X>,
    count: u64,
    executor_count: u64,
)
    requires
        call_ensures(WasmExecutorMetrics::compilation_count, (&executor.metrics,), count),
        call_ensures(WasmExecutor::<X>::compile_count_for_testing, (&executor,), executor_count),
    ensures
        call_requires(WasmExecutorMetrics::compilation_count, (&executor.metrics,)),
        call_requires(WasmExecutor::<X>::compile_count_for_testing, (&executor,)),
        count == executor.metrics@.durations.len() % 0x8000_0000_0000_0000,
        executor_count == executor.metrics@.durations.len() % 0x8000_0000_0000_0000,
{
}

/// Whether the metrics have counted nothing yet, stand under their names in the registry and have
/// the bounds.
pub open spec fn are_new_metrics(
    metrics: MetricsView,
    registry: prometheus::Registry,
    bounds: prometheus::HistogramOpts,
) -> bool {
    &&& metrics.imports_call_simple == 0
    &&& metrics.imports_call_cycles_add == 0
    &&& metrics.imports_canister_cycle_balance == 0
    &&& metrics.imports_msg_cycles_available == 0
    &&& metrics.imports_msg_cycles_refunded == 0
    &&& metrics.imports_msg_cycles_accept == 0
    &&& metrics.imports_mint_cycles == 0
    &&& metrics.durations.len() == 0
    &&& metrics.bounds == bounds
    &&& metrics.registries.len() == 8
    &&& forall|i: int| 0 <= i < 8 ==> #[trigger] metrics.registries[i] == Some(registry)
    &&& metrics.descriptions.len() == 8
    &&& metrics.descriptions[0].name == "execution_wasm_imports_call_simple_total"@
    &&& metrics.descriptions[0].help == "The number of Wasm modules that import ic0.call_simple"@
    &&& metrics.descriptions[1].name == "execution_wasm_imports_call_cycles_add"@
    &&& metrics.descriptions[1].help
        == "The number of Wasm modules that import ic0.call_cycles_add"@
    &&& metrics.descriptions[2].name == "execution_wasm_imports_canister_cycle_balance"@
    &&& metrics.descriptions[2].help
        == "The number of Wasm modules that import ic0.canister_cycle_balance"@
    &&& metrics.descriptions[3].name == "execution_wasm_imports_msg_cycles_available"@
    &&& metrics.descriptions[3].help
        == "The number of Wasm modules that import ic0.msg_cycles_available"@
    &&& metrics.descriptions[4].name == "execution_wasm_imports_msg_cycles_refunded"@
    &&& metrics.descriptions[4].help
        == "The number of Wasm modules that import ic0.msg_cycles_refunded"@
    &&& metrics.descriptions[5].name == "execution_wasm_imports_msg_cycles_accept"@
    &&& metrics.descriptions[5].help
        == "The number of Wasm modules that import ic0.msg_cycles_accept"@
    &&& metrics.descriptions[6].name == "execution_wasm_imports_mint_cycles"@
    &&& metrics.descriptions[6].help == "The number of Wasm modules that import ic0.mint_cycles"@
    &&& metrics.descriptions[7].name == "execution_wasm_compile"@
    &&& metrics.descriptions[7].help
        == "The duration of Wasm module compilation including validation and instrumentation"@
}

/// The bounds of the compilation buckets, besides zero, begin at a ten-thousandth of a second and
/// end with the tens of seconds.
pub proof fn law_compile_buckets_span_six_powers_of_ten()
    ensures
        crate::metrics::COMPILE_BUCKETS_MIN_POWER == -4,
        crate::metrics::COMPILE_BUCKETS_MAX_POWER == 1,
{
}

/// New metrics stand at zero, under their names, in the registry that was given. They cannot be
/// made exactly if the bounds cannot be those of a histogram, and they are refused only by that
/// registry.
pub proof fn law_new_metrics_stand_at_zero(
    registry: prometheus::Registry,
    bounds: prometheus::HistogramOpts,
    metrics: Result<WasmExecutorMetrics, MetricsError>,
)
    requires
        call_ensures(WasmExecutorMetrics::new, (&registry, bounds), metrics),
    ensures
        call_requires(WasmExecutorMetrics::new, (&registry, bounds)),
        metrics matches Ok(metrics) ==> are_new_metrics(metrics@, registry, bounds),
        (metrics matches Err(error) && error is Definition) <==> !crate::metrics::takes_bounds(
            bounds,
        ),
        metrics matches Err(MetricsError::Registration(refusal)) ==> refusal.registry() == registry,
{
}

/// A new executor has its embedder, its log and new metrics. It cannot be made exactly if the
/// bounds cannot be those of a histogram, and its metrics are refused only by the registry that
/// was given.
pub proof fn law_new_executor_has_new_metrics<X: Platform>(
    wasm_embedder: X::WasmEmbedder,
    registry: prometheus::Registry,
    bounds: prometheus::HistogramOpts,
    log: X::Logger,
    executor: Result<WasmExecutor<X>, MetricsError>,
)
    requires
        call_ensures(WasmExecutor::<X>::new, (wasm_embedder, &registry, bounds, log), executor),
    ensures
        call_requires(WasmExecutor::<X>::new, (wasm_embedder, &registry, bounds, log)),
        executor matches Ok(executor) ==> {
            &&& executor.wasm_embedder == wasm_embedder
            &&& *executor.log == log
            &&& are_new_metrics(executor.metrics@, registry, bounds)
        },
        (executor matches Err(error) && error is Definition) <==> !crate::metrics::takes_bounds(
            bounds,
        ),
        executor matches Err(MetricsError::Registration(refusal)) ==> refusal.registry()
            == registry,
{
}

/// A metric that the registry has taken is kept; for one that it has refused, the refusal is.
pub proof fn law_taken_metric_is_kept<M>(
    metric: M,
    outcome: Result<(), Refusal>,
    kept: Result<M, MetricsError>,
)
    requires
        call_ensures(registered::<M>, (metric, outcome), kept),
    ensures
        call_requires(registered::<M>, (metric, outcome)),
        outcome is Ok ==> kept is Ok && kept->Ok_0 == metric,
        outcome matches Err(refusal) ==> kept is Err && kept->Err_0 == MetricsError::Registration(
            refusal,
        ),
{
}

/// A call to the Bitcoin adapter is given up after ten milliseconds unless something else is asked
/// for.
pub proof fn law_default_timeout_is_ten_milliseconds(options: Options, millis: u64, ten: Duration)
    requires
        call_ensures(<Options as Default>::default, (), options),
        millis == 10,
        call_ensures(Duration::from_millis, (millis,), ten),
    ensures
        call_requires(<Options as Default>::default, ()),
        call_requires(Duration::from_millis, (millis,)),
        options.timeout == Some(ten),
{
}

} // verus!
