use vstd::prelude::*;

verus! {

/// A ring of `size` slots holding at most `size - 1` items; pushing onto a full ring drops the
/// oldest item.
pub struct CircularBuffer<T> {
    pub buffer: Vec<T>,
    pub head: usize,
    pub tail: usize,
    pub size: usize,
}

impl<T: Default + Clone> CircularBuffer<T> {
    /// Slot `x` of the ring, for `x < 2 * size`.
    pub open spec fn wrap(&self, x: int) -> int {
        if x < self.size {
            x
        } else {
            x - self.size
        }
    }

    /// Consistency: one slot per place, and both ends inside the ring.
    pub open spec fn wf(&self) -> bool {
        &&& self.buffer@.len() == self.size
        &&& self.size == 0 ==> self.head == 0 && self.tail == 0
        &&& self.size > 0 ==> self.head < self.size && self.tail < self.size
    }

    /// The number of items held.
    pub open spec fn count(&self) -> int {
        if self.head >= self.tail {
            self.head - self.tail
        } else {
            self.head + self.size - self.tail
        }
    }

    /// The items held, oldest first.
    pub open spec fn items(&self) -> Seq<T> {
        Seq::new(self.count() as nat, |i: int| self.buffer@[self.wrap(self.tail + i)])
    }

    /// An empty ring of `size` slots.
    pub fn new(size: usize) -> (r: Self)
        ensures
            r.wf(),
            r.size == size,
            r.head == 0,
            r.tail == 0,
            r.items() == Seq::<T>::empty(),
    {
        let r = CircularBuffer { buffer: vec![T::default(); size], head: 0, tail: 0, size };
        assert(r.items() =~= Seq::<T>::empty());
        r
    }

    /// Adds `item` after the newest; on a full ring the oldest item is dropped.
    pub fn push(&mut self, item: T)
        requires
            old(self).wf(),
            old(self).size > 0,
        ensures
            final(self).wf(),
            final(self).size == old(self).size,
            final(self).items() == if old(self).items().len() + 1 == old(self).size {
                old(self).items().push(item).drop_first()
            } else {
                old(self).items().push(item)
            },
    {
        let ghost before = self.items();
        let ghost h = self.head as int;
        self.buffer.set(self.head, item);
        self.head = if self.head + 1 == self.size { 0 } else { self.head + 1 };
        if self.head == self.tail {
            self.tail = if self.tail + 1 == self.size { 0 } else { self.tail + 1 };
        }
        proof {
            let after = self.items();
            let full = before.len() + 1 == self.size;
            let expected = if full { before.push(item).drop_first() } else { before.push(item) };
            assert(after.len() == expected.len());
            assert forall|i: int| 0 <= i < after.len() implies after[i] == expected[i] by {
                if full {
                    assert(self.wrap(self.tail + i) == old(self).wrap(old(self).tail + i + 1));
                } else {
                    assert(self.tail == old(self).tail);
                }
                if i + (if full { 1int } else { 0int }) < before.len() {
                    assert(old(self).wrap(old(self).tail + i + (if full { 1int } else { 0int })) != h);
                } else {
                    assert(old(self).wrap(old(self).tail + i + (if full { 1int } else { 0int })) == h);
                }
            }
            assert(after =~= expected);
        }
    }

    /// Removes and hands back (a clone of) the oldest item, if any.
    pub fn pop(&mut self) -> (r: Option<T>)
        requires
            old(self).wf(),
        ensures
            final(self).wf(),
            final(self).size == old(self).size,
            old(self).items().len() == 0 ==> r is None && *final(self) == *old(self),
            old(self).items().len() > 0 ==> {
                &&& r is Some
                &&& cloned(old(self).items()[0], r->Some_0)
                &&& final(self).items() == old(self).items().drop_first()
            },
    {
        if self.tail != self.head {
            let item = self.buffer[self.tail].clone();
            let ghost before = self.items();
            assert(before[0] == self.buffer@[self.tail as int]);
            self.tail = if self.tail + 1 == self.size { 0 } else { self.tail + 1 };
            proof {
                assert forall|i: int| 0 <= i < self.items().len() implies self.items()[i] == before.drop_first()[i] by {
                    assert(self.wrap(self.tail + i) == old(self).wrap(old(self).tail + i + 1));
                }
                assert(self.items() =~= before.drop_first());
            }
            Some(item)
        } else {
            None
        }
    }
}

} // verus!
