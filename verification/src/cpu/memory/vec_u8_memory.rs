use vstd::prelude::*;

use rustc_hash::{FxBuildHasher, FxHashMap};

use super::page_storage::PAGE_SIZE;
use super::raw_page_storage::{raw_page_bytes, zero_bytes, Page, RawPageMemory, RawPageStorage, RAW_PAGE_BYTES};

verus! {

/// A hash map from page id to byte page.
pub type FxBytePageMap = FxHashMap<u64, Page>;

/// The bytes of each page held by an `FxHashMap` from page id to byte page.
pub uninterp spec fn fx_byte_pages(m: FxBytePageMap) -> Map<u64, Seq<u8>>;

/// `FxHashMap::with_capacity_and_hasher`: a new map holds no entry.
#[verifier::external_body]
fn fx_byte_new_map(capacity: usize) -> (m: FxBytePageMap)
    ensures
        forall|id: u64| !#[trigger] fx_byte_pages(m).contains_key(id),
{
    FxHashMap::with_capacity_and_hasher(capacity, FxBuildHasher)
}

/// `HashMap::get` on an `FxHashMap` of byte pages: the page stored under `id`, if any.
#[verifier::external_body]
fn fx_byte_get(m: &FxBytePageMap, id: u64) -> (r: Option<&Page>)
    ensures
        match r {
            Some(p) => fx_byte_pages(*m).contains_key(id) && p.data@ == fx_byte_pages(*m)[id],
            None => !fx_byte_pages(*m).contains_key(id),
        },
{
    m.get(&id)
}

/// `HashMap::entry(id).or_insert_with(..)` on an `FxHashMap` of byte pages: the page stored
/// under `id`, after storing `Page::new(position)` there when the map held none. Whatever the
/// caller leaves in the page is what the map holds under `id` afterwards; other entries are
/// untouched.
#[verifier::external_body]
fn fx_byte_page_or_create(m: &mut FxBytePageMap, id: u64, position: u64) -> (r: &mut Page)
    ensures
        r.data@ == (if fx_byte_pages(*old(m)).contains_key(id) {
            fx_byte_pages(*old(m))[id]
        } else {
            zero_bytes()
        }),
        fx_byte_pages(*final(m)) == fx_byte_pages(*old(m)).insert(id, final(r).data@),
{
    m.entry(id).or_insert_with(|| Page::new(position))
}

/// `HashMap::len` on an `FxHashMap` of byte pages: the number of entries.
#[verifier::external_body]
fn fx_byte_len(m: &FxBytePageMap) -> (r: usize)
    ensures
        r == fx_byte_pages(*m).dom().len(),
{
    m.len()
}

/// Byte pages in a hash map from page id to page.
pub struct FxBytePageStorage {
    pub pages: FxBytePageMap,
}

impl RawPageStorage for FxBytePageStorage {
    open spec fn pages(&self) -> Map<u64, Seq<u8>> {
        fx_byte_pages(self.pages)
    }

    open spec fn wf(&self) -> bool {
        forall|id: u64| #[trigger] fx_byte_pages(self.pages).contains_key(id) ==> fx_byte_pages(self.pages)[id].len() == RAW_PAGE_BYTES
    }

    open spec fn can_hold(page_id: u64) -> bool {
        true
    }

    open spec fn count(&self) -> nat {
        fx_byte_pages(self.pages).dom().len()
    }

    proof fn lemma_page_size(&self, page_id: u64) {
    }

    fn new() -> (r: Self) {
        let r = FxBytePageStorage { pages: fx_byte_new_map(1024) };
        assert(r.pages() =~= Map::<u64, Seq<u8>>::empty());
        r
    }

    fn get_page_id(&self, addr: u64) -> (r: u64) {
        addr / PAGE_SIZE
    }

    fn get_page(&self, page_id: u64) -> (r: Option<&Page>) {
        fx_byte_get(&self.pages, page_id)
    }

    fn set_byte(&mut self, page_id: u64, index: usize, value: u8) {
        let ghost before = self.pages();
        let page = fx_byte_page_or_create(&mut self.pages, page_id, page_id * PAGE_SIZE);
        assert(page.data@ == raw_page_bytes(before, page_id));
        page.data.set(index, value);
    }

    fn can_store(&self, page_id: u64) -> (r: bool) {
        true
    }

    fn len(&self) -> (r: usize) {
        fx_byte_len(&self.pages)
    }
}

/// A memory of byte pages held in a hash map; pages never written read as zeros.
pub type VecU8Memory = RawPageMemory<FxBytePageStorage>;

} // verus!
