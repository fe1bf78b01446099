use vstd::prelude::*;

use std::collections::BTreeMap;

use super::page_storage::{page_words, Page, PageStorage, PAGE_SIZE, PAGE_WORDS};

verus! {

/// Pages in an ordered map from page id to page.
pub struct BTreeStorage {
    pub pages: BTreeMap<u64, Page>,
}

impl PageStorage for BTreeStorage {
    open spec fn pages(&self) -> Map<u64, Seq<u32>> {
        self.pages@.map_values(|p: Page| p.data@)
    }

    open spec fn wf(&self) -> bool {
        forall|id: u64| #[trigger] self.pages@.contains_key(id) ==> self.pages@[id].data@.len() == PAGE_WORDS
    }

    open spec fn can_hold(page_id: u64) -> bool {
        true
    }

    open spec fn count(&self) -> nat {
        self.pages@.len()
    }

    fn new() -> (r: Self) {
        let r = BTreeStorage { pages: BTreeMap::new() };
        assert(r.pages() =~= Map::<u64, Seq<u32>>::empty());
        r
    }

    fn get_page_id(&self, addr: u64) -> (r: u64) {
        addr / PAGE_SIZE
    }

    fn get_page(&self, page_id: u64) -> (r: Option<&Page>) {
        self.pages.get(&page_id)
    }

    fn set_word(&mut self, page_id: u64, index: usize, value: u32) {
        let ghost before = self.pages();
        let mut page = match self.pages.remove(&page_id) {
            Some(p) => p,
            None => Page::new(page_id * PAGE_SIZE),
        };
        assert(page.data@ == page_words(before, page_id));
        page.data.set(index, value);
        self.pages.insert(page_id, page);
        assert(self.pages() =~= before.insert(page_id, page_words(before, page_id).update(index as int, value)));
    }

    fn can_store(&self, page_id: u64) -> (r: bool) {
        true
    }

    fn len(&self) -> (r: usize) {
        self.pages.len()
    }
}

} // verus!
