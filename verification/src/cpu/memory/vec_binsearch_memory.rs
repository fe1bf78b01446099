use vstd::prelude::*;

use super::memory_core::MEMORY_CAPACITY;
use super::page_storage::{page_words, Page, PageMemory, PageStorage, PAGE_SIZE, PAGE_WORDS};

verus! {

/// Pages in a vector of (id, page) pairs kept in increasing id order, searched by bisection.
pub struct VecBSearchPageStorage {
    pub pages: Vec<(u64, Page)>,
}

impl VecBSearchPageStorage {
    /// Some entry holds page `id`.
    pub open spec fn has(&self, id: u64) -> bool {
        exists|i: int| 0 <= i < self.pages@.len() && (#[trigger] self.pages@[i]).0 == id
    }

    /// Index of the entry of page `id`.
    pub open spec fn index_of(&self, id: u64) -> int {
        choose|i: int| 0 <= i < self.pages@.len() && (#[trigger] self.pages@[i]).0 == id
    }

    /// An empty store.
    pub fn new() -> (r: Self)
        ensures
            r.wf(),
            r.pages() == Map::<u64, Seq<u32>>::empty(),
    {
        <VecBSearchPageStorage as PageStorage>::new()
    }

    /// The entry of page `id`, or where an entry for it belongs.
    fn search(&self, id: u64) -> (r: Result<usize, usize>)
        requires
            self.wf(),
        ensures
            match r {
                Ok(i) => i < self.pages@.len() && self.pages@[i as int].0 == id && i == self.index_of(id),
                Err(i) => {
                    &&& i <= self.pages@.len()
                    &&& !self.has(id)
                    &&& forall|k: int| 0 <= k < i ==> (#[trigger] self.pages@[k]).0 < id
                    &&& forall|k: int| i <= k < self.pages@.len() ==> (#[trigger] self.pages@[k]).0 > id
                },
            },
    {
        let mut lo: usize = 0;
        let mut hi: usize = self.pages.len();
        while lo < hi
            invariant
                self.wf(),
                lo <= hi <= self.pages@.len(),
                forall|k: int| 0 <= k < lo ==> (#[trigger] self.pages@[k]).0 < id,
                forall|k: int| hi <= k < self.pages@.len() ==> (#[trigger] self.pages@[k]).0 > id,
            decreases hi - lo,
        {
            let mid = lo + (hi - lo) / 2;
            let m = self.pages[mid].0;
            if m == id {
                proof {
                    let j = self.index_of(id);
                    assert(self.has(id));
                    assert(self.pages@[j].0 == id);
                    if j < mid {
                        assert(self.pages@[j].0 < self.pages@[mid as int].0);
                    } else if j > mid {
                        assert(self.pages@[mid as int].0 < self.pages@[j].0);
                    }
                }
                return Ok(mid);
            } else if m < id {
                proof {
                    assert forall|k: int| 0 <= k < mid + 1 implies (#[trigger] self.pages@[k]).0 < id by {
                        if k < mid {
                            assert(self.pages@[k].0 < self.pages@[mid as int].0);
                        }
                    }
                }
                lo = mid + 1;
            } else {
                proof {
                    assert forall|k: int| mid <= k < self.pages@.len() implies (#[trigger] self.pages@[k]).0 > id by {
                        if k > mid {
                            assert(self.pages@[mid as int].0 < self.pages@[k].0);
                        }
                    }
                }
                hi = mid;
            }
        }
        assert(!self.has(id)) by {
            if self.has(id) {
                let j = self.index_of(id);
                assert(self.pages@[j].0 == id);
            }
        }
        Err(lo)
    }
}

impl PageStorage for VecBSearchPageStorage {
    open spec fn pages(&self) -> Map<u64, Seq<u32>> {
        Map::new(|id: u64| self.has(id), |id: u64| self.pages@[self.index_of(id)].1.data@)
    }

    open spec fn wf(&self) -> bool {
        &&& forall|i: int, j: int|
            0 <= i < j < self.pages@.len() ==> (#[trigger] self.pages@[i]).0 < (#[trigger] self.pages@[j]).0
        &&& forall|i: int| 0 <= i < self.pages@.len() ==> (#[trigger] self.pages@[i]).1.data@.len() == PAGE_WORDS
    }

    open spec fn can_hold(page_id: u64) -> bool {
        true
    }

    open spec fn count(&self) -> nat {
        self.pages@.len()
    }

    fn new() -> (r: Self) {
        let r = VecBSearchPageStorage { pages: Vec::with_capacity(MEMORY_CAPACITY) };
        assert(r.pages() =~= Map::<u64, Seq<u32>>::empty());
        r
    }

    fn get_page_id(&self, addr: u64) -> (r: u64) {
        addr / PAGE_SIZE
    }

    fn get_page(&self, page_id: u64) -> (r: Option<&Page>) {
        match self.search(page_id) {
            Ok(i) => Some(&self.pages[i].1),
            Err(_) => None,
        }
    }

    fn set_word(&mut self, page_id: u64, index: usize, value: u32) {
        let ghost before = self.pages();
        let ghost target = before.insert(page_id, page_words(before, page_id).update(index as int, value));
        match self.search(page_id) {
            Ok(i) => {
                let (id, mut page) = self.pages.remove(i);
                page.data.set(index, value);
                self.pages.insert(i, (id, page));
                proof {
                    assert forall|k: int| 0 <= k < self.pages@.len() implies (#[trigger] self.pages@[k]).0 == old(self).pages@[k].0 by {}
                    assert(self.pages() =~= target) by {
                        assert forall|x: u64| #[trigger] self.has(x) == old(self).has(x) by {
                            if old(self).has(x) {
                                let j = old(self).index_of(x);
                                assert(self.pages@[j].0 == x);
                            }
                            if self.has(x) {
                                let j = self.index_of(x);
                                assert(old(self).pages@[j].0 == x);
                            }
                        }
                        assert forall|x: u64| self.has(x) implies self.pages@[self.index_of(x)].1.data@ == #[trigger] target[x] by {
                            let j = self.index_of(x);
                            let oj = old(self).index_of(x);
                            assert(old(self).pages@[j].0 == x);
                            if oj < j {
                                assert(old(self).pages@[oj].0 < old(self).pages@[j].0);
                            } else if j < oj {
                                assert(old(self).pages@[j].0 < old(self).pages@[oj].0);
                            }
                        }
                    }
                }
            },
            Err(i) => {
                let mut page = Page::new(page_id * PAGE_SIZE);
                page.data.set(index, value);
                self.pages.insert(i, (page_id, page));
                proof {
                    let n = old(self).pages@.len();
                    assert(self.pages@[i as int].0 == page_id);
                    assert forall|k: int| 0 <= k < i implies (#[trigger] self.pages@[k]) == old(self).pages@[k] by {}
                    assert forall|k: int| i < k <= n implies (#[trigger] self.pages@[k]) == old(self).pages@[k - 1] by {}
                    assert forall|a: int, b: int| 0 <= a < b < self.pages@.len() implies (#[trigger] self.pages@[a]).0 < (#[trigger] self.pages@[b]).0 by {
                        if b < i {
                            assert(old(self).pages@[a].0 < old(self).pages@[b].0);
                        } else if b == i {
                            assert(old(self).pages@[a].0 < page_id);
                        } else if a > i {
                            assert(old(self).pages@[a - 1].0 < old(self).pages@[b - 1].0);
                        } else if a == i {
                            assert(old(self).pages@[b - 1].0 > page_id);
                        } else {
                            assert(old(self).pages@[a].0 < page_id);
                            assert(old(self).pages@[b - 1].0 > page_id);
                        }
                    }
                    assert forall|k: int| 0 <= k < self.pages@.len() implies (#[trigger] self.pages@[k]).1.data@.len() == PAGE_WORDS by {
                        if k < i {
                            assert(self.pages@[k] == old(self).pages@[k]);
                        } else if k > i {
                            assert(self.pages@[k] == old(self).pages@[k - 1]);
                        }
                    }
                    assert(self.pages() =~= target) by {
                        assert forall|x: u64| #[trigger] self.has(x) == (old(self).has(x) || x == page_id) by {
                            if old(self).has(x) {
                                let j = old(self).index_of(x);
                                if j < i {
                                    assert(self.pages@[j].0 == x);
                                } else {
                                    assert(self.pages@[j + 1].0 == x);
                                }
                            }
                            if x == page_id {
                                assert(self.pages@[i as int].0 == x);
                            }
                            if self.has(x) && x != page_id {
                                let j = self.index_of(x);
                                if j < i {
                                    assert(old(self).pages@[j].0 == x);
                                } else {
                                    assert(j != i);
                                    assert(old(self).pages@[j - 1].0 == x);
                                }
                            }
                        }
                        assert forall|x: u64| self.has(x) implies self.pages@[self.index_of(x)].1.data@ == #[trigger] target[x] by {
                            let j = self.index_of(x);
                            if x == page_id {
                                if j < i {
                                    assert(self.pages@[j].0 < self.pages@[i as int].0);
                                } else if j > i {
                                    assert(self.pages@[i as int].0 < self.pages@[j].0);
                                }
                            } else {
                                let oj = old(self).index_of(x);
                                assert(old(self).has(x));
                                assert(old(self).pages@[oj].0 == x);
                                let nj = if oj < i { oj } else { oj + 1 };
                                assert(self.pages@[nj].0 == x);
                                if nj < j {
                                    assert(self.pages@[nj].0 < self.pages@[j].0);
                                } else if j < nj {
                                    assert(self.pages@[j].0 < self.pages@[nj].0);
                                }
                            }
                        }
                    }
                }
            },
        }
    }

    fn can_store(&self, page_id: u64) -> (r: bool) {
        true
    }

    fn len(&self) -> (r: usize) {
        self.pages.len()
    }
}

/// A paged memory whose pages live in a sorted vector.
pub type VecBsearchMemory = PageMemory<VecBSearchPageStorage>;

} // verus!
