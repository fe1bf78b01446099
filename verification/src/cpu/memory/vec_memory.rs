use vstd::prelude::*;

use super::memory_core::MEMORY_CAPACITY;
use super::page_storage::{page_words, Page, PageStorage, PAGE_ID_LIMIT, PAGE_SIZE, PAGE_WORDS};

verus! {

/// Pages in a vector of (id, page) pairs, searched front to back.
pub struct VecPageStorage {
    pub pages: Vec<(u64, Page)>,
}

impl VecPageStorage {
    /// Some entry holds page `id`.
    pub open spec fn has(&self, id: u64) -> bool {
        exists|i: int| 0 <= i < self.pages@.len() && (#[trigger] self.pages@[i]).0 == id
    }

    /// Index of the entry of page `id`.
    pub open spec fn index_of(&self, id: u64) -> int {
        choose|i: int| 0 <= i < self.pages@.len() && (#[trigger] self.pages@[i]).0 == id
    }

    /// Position of the first entry with page `id`, if any.
    fn find(&self, id: u64) -> (r: Option<usize>)
        requires
            self.wf(),
        ensures
            match r {
                Some(i) => i < self.pages@.len() && self.pages@[i as int].0 == id && i == self.index_of(id),
                None => !self.has(id),
            },
    {
        let mut i: usize = 0;
        while i < self.pages.len()
            invariant
                self.wf(),
                i <= self.pages@.len(),
                forall|k: int| 0 <= k < i ==> (#[trigger] self.pages@[k]).0 != id,
            decreases self.pages@.len() - i,
        {
            if self.pages[i].0 == id {
                let ghost j = self.index_of(id);
                assert(self.has(id));
                assert(self.pages@[j].0 == id);
                assert(j == i);
                return Some(i);
            }
            i = i + 1;
        }
        None
    }
}

impl PageStorage for VecPageStorage {
    open spec fn pages(&self) -> Map<u64, Seq<u32>> {
        Map::new(|id: u64| self.has(id), |id: u64| self.pages@[self.index_of(id)].1.data@)
    }

    open spec fn wf(&self) -> bool {
        &&& forall|i: int, j: int|
            0 <= i < j < self.pages@.len() ==> (#[trigger] self.pages@[i]).0 != (#[trigger] self.pages@[j]).0
        &&& forall|i: int| 0 <= i < self.pages@.len() ==> (#[trigger] self.pages@[i]).1.data@.len() == PAGE_WORDS
    }

    open spec fn can_hold(page_id: u64) -> bool {
        true
    }

    open spec fn count(&self) -> nat {
        self.pages@.len()
    }

    fn new() -> (r: Self) {
        let r = VecPageStorage { pages: Vec::with_capacity(MEMORY_CAPACITY) };
        assert(r.pages() =~= Map::<u64, Seq<u32>>::empty());
        r
    }

    fn get_page_id(&self, addr: u64) -> (r: u64) {
        addr / PAGE_SIZE
    }

    fn get_page(&self, page_id: u64) -> (r: Option<&Page>) {
        match self.find(page_id) {
            Some(i) => Some(&self.pages[i].1),
            None => None,
        }
    }

    fn set_word(&mut self, page_id: u64, index: usize, value: u32) {
        let ghost before = self.pages();
        match self.find(page_id) {
            Some(i) => {
                let (id, mut page) = self.pages.remove(i);
                page.data.set(index, value);
                self.pages.insert(i, (id, page));
                proof {
                    assert forall|k: int| 0 <= k < self.pages@.len() implies (#[trigger] self.pages@[k]).0 == old(self).pages@[k].0 by {}
                    assert(self.pages() =~= before.insert(page_id, page_words(before, page_id).update(index as int, value))) by {
                        assert forall|x: u64| #[trigger] self.has(x) == old(self).has(x) by {
                            if old(self).has(x) {
                                let j = old(self).index_of(x);
                                assert(self.pages@[j].0 == x);
                            }
                            if self.has(x) {
                                let j = self.index_of(x);
                                assert(old(self).pages@[j].0 == x);
                            }
                        }
                        assert forall|x: u64| self.has(x) implies self.pages@[self.index_of(x)].1.data@ == #[trigger] before.insert(page_id, page_words(before, page_id).update(index as int, value))[x] by {
                            let j = self.index_of(x);
                            let oj = old(self).index_of(x);
                            assert(old(self).pages@[j].0 == x);
                            assert(oj == j);
                        }
                    }
                }
            },
            None => {
                let mut page = Page::new(page_id * PAGE_SIZE);
                page.data.set(index, value);
                let ghost n = self.pages@.len();
                self.pages.push((page_id, page));
                proof {
                    assert(self.pages@[n as int].0 == page_id);
                    assert(self.pages() =~= before.insert(page_id, page_words(before, page_id).update(index as int, value))) by {
                        assert forall|x: u64| #[trigger] self.has(x) == (old(self).has(x) || x == page_id) by {
                            if old(self).has(x) {
                                let j = old(self).index_of(x);
                                assert(self.pages@[j].0 == x);
                            }
                            if self.has(x) && x != page_id {
                                let j = self.index_of(x);
                                assert(j < n);
                                assert(old(self).pages@[j].0 == x);
                            }
                        }
                        assert forall|x: u64| self.has(x) implies self.pages@[self.index_of(x)].1.data@ == #[trigger] before.insert(page_id, page_words(before, page_id).update(index as int, value))[x] by {
                            let j = self.index_of(x);
                            if x == page_id {
                                assert(j == n);
                            } else {
                                let oj = old(self).index_of(x);
                                assert(j < n);
                                assert(old(self).pages@[j].0 == x);
                                assert(self.pages@[oj].0 == x);
                            }
                        }
                    }
                }
            },
        }
    }

    fn can_store(&self, page_id: u64) -> (r: bool) {
        true
    }

    fn len(&self) -> (r: usize) {
        self.pages.len()
    }
}

} // verus!
