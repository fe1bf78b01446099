use vstd::prelude::*;

use rustc_hash::{FxBuildHasher, FxHashMap};

use super::memory_core::MEMORY_CAPACITY;
use super::page_storage::{page_words, zero_page, Page, PageMemory, PageStorage, PAGE_SIZE, PAGE_WORDS};

verus! {

/// The hasher builder of `rustc_hash`, carried through as an opaque value.
#[verifier::external_type_specification]
#[verifier::external_body]
pub struct ExFxBuildHasher(FxBuildHasher);

/// A hash map from page id to page.
pub type FxPageMap = FxHashMap<u64, Page>;

/// The words of each page held by an `FxHashMap` from page id to page.
pub uninterp spec fn fx_pages(m: FxPageMap) -> Map<u64, Seq<u32>>;

/// `FxHashMap::with_capacity_and_hasher`: a new map holds no entry.
#[verifier::external_body]
fn fx_new_map(capacity: usize) -> (m: FxPageMap)
    ensures
        forall|id: u64| !#[trigger] fx_pages(m).contains_key(id),
{
    FxHashMap::with_capacity_and_hasher(capacity, FxBuildHasher)
}

/// `HashMap::get` on an `FxHashMap`: the page stored under `id`, if any.
#[verifier::external_body]
fn fx_get(m: &FxPageMap, id: u64) -> (r: Option<&Page>)
    ensures
        match r {
            Some(p) => fx_pages(*m).contains_key(id) && p.data@ == fx_pages(*m)[id],
            None => !fx_pages(*m).contains_key(id),
        },
{
    m.get(&id)
}

/// `HashMap::entry(id).or_insert_with(..)` on an `FxHashMap`: the page stored under `id`,
/// after storing `Page::new(position)` there when the map held none. Whatever the caller leaves
/// in the page is what the map holds under `id` afterwards; other entries are untouched.
#[verifier::external_body]
fn fx_page_or_create(m: &mut FxPageMap, id: u64, position: u64) -> (r: &mut Page)
    ensures
        r.data@ == (if fx_pages(*old(m)).contains_key(id) {
            fx_pages(*old(m))[id]
        } else {
            zero_page()
        }),
        fx_pages(*final(m)) == fx_pages(*old(m)).insert(id, final(r).data@),
{
    m.entry(id).or_insert_with(|| Page::new(position))
}

/// `HashMap::len` on an `FxHashMap`: the number of entries.
#[verifier::external_body]
fn fx_len(m: &FxPageMap) -> (r: usize)
    ensures
        r == fx_pages(*m).dom().len(),
{
    m.len()
}

/// Pages in a hash map from page id to page.
pub struct FxHashStorage {
    pub pages: FxPageMap,
}

impl PageStorage for FxHashStorage {
    open spec fn pages(&self) -> Map<u64, Seq<u32>> {
        fx_pages(self.pages)
    }

    open spec fn wf(&self) -> bool {
        forall|id: u64| #[trigger] fx_pages(self.pages).contains_key(id) ==> fx_pages(self.pages)[id].len() == PAGE_WORDS
    }

    open spec fn can_hold(page_id: u64) -> bool {
        true
    }

    open spec fn count(&self) -> nat {
        fx_pages(self.pages).dom().len()
    }

    fn new() -> (r: Self) {
        let r = FxHashStorage { pages: fx_new_map(MEMORY_CAPACITY) };
        assert(r.pages() =~= Map::<u64, Seq<u32>>::empty());
        r
    }

    fn get_page_id(&self, addr: u64) -> (r: u64) {
        addr / PAGE_SIZE
    }

    fn get_page(&self, page_id: u64) -> (r: Option<&Page>) {
        fx_get(&self.pages, page_id)
    }

    fn set_word(&mut self, page_id: u64, index: usize, value: u32) {
        let ghost before = self.pages();
        let page = fx_page_or_create(&mut self.pages, page_id, page_id * PAGE_SIZE);
        assert(page.data@ == page_words(before, page_id));
        page.data.set(index, value);
    }

    fn can_store(&self, page_id: u64) -> (r: bool) {
        true
    }

    fn len(&self) -> (r: usize) {
        fx_len(&self.pages)
    }
}

/// A paged memory whose pages live in a hash map.
pub type FxHashMemory = PageMemory<FxHashStorage>;

} // verus!
