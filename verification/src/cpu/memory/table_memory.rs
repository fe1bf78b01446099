use vstd::prelude::*;

use super::page_storage::{page_words, Page, PageStorage, PAGE_SIZE, PAGE_WORDS};

verus! {

/// Number of page slots of a table: enough for the table-backed memory size.
pub const TABLE_PAGES: usize = 4;

/// Pages in a fixed table indexed by page id; only ids below the table size can be held.
pub struct TableMemoryPageStorage {
    pub pages: Vec<Option<Page>>,
}

impl PageStorage for TableMemoryPageStorage {
    open spec fn pages(&self) -> Map<u64, Seq<u32>> {
        Map::new(
            |id: u64| id < TABLE_PAGES && self.pages@[id as int] is Some,
            |id: u64| self.pages@[id as int]->0.data@,
        )
    }

    open spec fn wf(&self) -> bool {
        &&& self.pages@.len() == TABLE_PAGES
        &&& forall|i: int| 0 <= i < TABLE_PAGES && (#[trigger] self.pages@[i]) is Some ==> self.pages@[i]->0.data@.len() == PAGE_WORDS
    }

    open spec fn can_hold(page_id: u64) -> bool {
        page_id < TABLE_PAGES
    }

    open spec fn count(&self) -> nat {
        self.pages@.len()
    }

    fn new() -> (r: Self) {
        let mut pages: Vec<Option<Page>> = Vec::new();
        let mut i: usize = 0;
        while i < TABLE_PAGES
            invariant
                i <= TABLE_PAGES,
                pages@.len() == i,
                forall|k: int| 0 <= k < i ==> (#[trigger] pages@[k]) is None,
            decreases TABLE_PAGES - i,
        {
            pages.push(None);
            i = i + 1;
        }
        let r = TableMemoryPageStorage { pages };
        assert(r.pages() =~= Map::<u64, Seq<u32>>::empty());
        r
    }

    fn get_page_id(&self, addr: u64) -> (r: u64) {
        addr / PAGE_SIZE
    }

    fn get_page(&self, page_id: u64) -> (r: Option<&Page>) {
        if page_id >= TABLE_PAGES as u64 {
            return None;
        }
        match &self.pages[page_id as usize] {
            Some(p) => Some(p),
            None => None,
        }
    }

    fn set_word(&mut self, page_id: u64, index: usize, value: u32) {
        let ghost before = self.pages();
        let i = page_id as usize;
        let slot = self.pages.remove(i);
        let mut page = match slot {
            Some(p) => p,
            None => Page::new(page_id * PAGE_SIZE),
        };
        assert(page.data@ == page_words(before, page_id));
        page.data.set(index, value);
        self.pages.insert(i, Some(page));
        assert(self.pages() =~= before.insert(page_id, page_words(before, page_id).update(index as int, value)));
    }

    fn can_store(&self, page_id: u64) -> (r: bool) {
        page_id < TABLE_PAGES as u64
    }

    fn len(&self) -> (r: usize) {
        self.pages.len()
    }
}

} // verus!
