//! The pages of a heap that an execution has written, and what page maps are updated with.
use crate::platform::Platform;
use crate::units::{PageIndex, PAGE_SIZE};
use vstd::prelude::*;
use vstd::slice::slice_subrange;

verus! {

/// Whether the page lies within a heap of so many bytes.
pub open spec fn page_in_heap(page: PageIndex, heap_len: nat) -> bool {
    (page.0 + 1) * PAGE_SIZE <= heap_len
}

/// The bytes of one page of the heap.
pub open spec fn page_bytes(heap: Seq<u8>, page: PageIndex) -> Seq<u8> {
    heap.subrange(page.0 * PAGE_SIZE, (page.0 + 1) * PAGE_SIZE)
}

/// Whether all of the pages lie within a heap of so many bytes.
pub open spec fn pages_in_heap(pages: Seq<PageIndex>, heap_len: nat) -> bool {
    forall|i: int| 0 <= i < pages.len() ==> page_in_heap(#[trigger] pages[i], heap_len)
}

/// Whether the list pairs each dirty page with its bytes in the heap, in the same order.
pub open spec fn is_page_delta(
    delta: Seq<(PageIndex, &[u8])>,
    heap: Seq<u8>,
    dirty_pages: Seq<PageIndex>,
) -> bool {
    &&& delta.len() == dirty_pages.len()
    &&& forall|i: int|
        #![trigger delta[i]]
        0 <= i < delta.len() ==> {
            &&& delta[i].0 == dirty_pages[i]
            &&& delta[i].1@ == page_bytes(heap, dirty_pages[i])
        }
}

/// Pairs each dirty page with its bytes in the heap, in the order given. Every dirty page has to
/// be mapped.
pub fn compute_page_delta<'a>(heap: &'a [u8], dirty_pages: &[PageIndex]) -> (pages: Vec<
    (PageIndex, &'a [u8]),
>)
    requires
        pages_in_heap(dirty_pages@, heap@.len()),
    ensures
        is_page_delta(pages@, heap@, dirty_pages@),
{
    // The length bounds every offset below by the range of `usize`.
    let heap_len: usize = heap.len();
    let mut pages: Vec<(PageIndex, &'a [u8])> = Vec::new();
    let mut i: usize = 0;
    while i < dirty_pages.len()
        invariant
            i <= dirty_pages@.len(),
            heap_len == heap@.len(),
            pages_in_heap(dirty_pages@, heap@.len()),
            is_page_delta(pages@, heap@, dirty_pages@.take(i as int)),
        decreases dirty_pages@.len() - i,
    {
        let page: PageIndex = dirty_pages[i];
        assert(page_in_heap(dirty_pages@[i as int], heap@.len()));
        let offset: usize = page.0 as usize * PAGE_SIZE;
        pages.push((page, slice_subrange(heap, offset, offset + PAGE_SIZE)));
        i += 1;
    }
    assert(dirty_pages@.take(i as int) =~= dirty_pages@);
    pages
}

/// A request to write pages to a page map.
pub struct PageMapUpdate<'a, X: Platform> {
    pub page_map: &'a X::PageMap,
    pub pages: Vec<(PageIndex, &'a [u8])>,
}

/// Whether the list holds the same pages with the same bytes, in the same order.
pub open spec fn lists_pages(
    list: Seq<(PageIndex, &[u8])>,
    pages: Seq<(PageIndex, Vec<u8>)>,
) -> bool {
    &&& list.len() == pages.len()
    &&& forall|i: int|
        #![trigger list[i]]
        0 <= i < list.len() ==> {
            &&& list[i].0 == pages[i].0
            &&& list[i].1@ == pages[i].1@
        }
}

/// Lists the pages without copying their bytes.
pub fn list_pages<'a>(pages: &'a [(PageIndex, Vec<u8>)]) -> (list: Vec<(PageIndex, &'a [u8])>)
    ensures
        lists_pages(list@, pages@),
{
    let mut list: Vec<(PageIndex, &'a [u8])> = Vec::new();
    let mut i: usize = 0;
    while i < pages.len()
        invariant
            i <= pages@.len(),
            lists_pages(list@, pages@.take(i as int)),
        decreases pages@.len() - i,
    {
        list.push((pages[i].0, pages[i].1.as_slice()));
        i += 1;
    }
    assert(pages@.take(i as int) =~= pages@);
    list
}

} // verus!
