use vstd::prelude::*;

use crate::error::EmuError;

use super::memory_core::Memory;
use super::raw_memory::{lemma_zeroed_block, ContinuousMemory};

verus! {

/// Size of the user stack region.
pub const STACK_SIZE: u64 = 0x10000;

/// Size of the user heap region.
pub const HEAP_SIZE: u64 = 0x1000000;

/// Addresses from here on belong to the stack region, below it to the heap region.
pub const CUTOFF_ADDR: u64 = 0x10000000;

/// The memory of a user-space process: a stack region and a heap region.
#[derive(Debug)]
pub struct UserMemory {
    stack: ContinuousMemory,
    heap: ContinuousMemory,
}

impl UserMemory {
    /// The stack region.
    pub closed spec fn stack_region(&self) -> ContinuousMemory {
        self.stack
    }

    /// The heap region.
    pub closed spec fn heap_region(&self) -> ContinuousMemory {
        self.heap
    }

    /// The region that serves address `addr`.
    pub open spec fn region(&self, addr: u64) -> ContinuousMemory {
        if addr >= CUTOFF_ADDR {
            self.stack_region()
        } else {
            self.heap_region()
        }
    }

    /// Every access goes to the region of its address: the stack at and above the cut-off
    /// address, the heap below it; a store leaves the other region as it was.
    pub proof fn lemma_routes_by_region(&self, addr: u64, w: nat, v: u64, after: Self)
        ensures
            self.load(addr, w) == self.region(addr).load(addr, w),
            self.store_ok(addr, w) == self.region(addr).store_ok(addr, w),
            self.load_bytes(addr, w) == self.region(addr).load_bytes(addr, w),
            self.store_bytes_ok(addr, w) == self.region(addr).store_bytes_ok(addr, w),
            addr >= CUTOFF_ADDR ==> (self.stored(addr, w, v, after) <==> after.heap_region() == self.heap_region()
                && self.stack_region().stored(addr, w, v, after.stack_region())),
            addr < CUTOFF_ADDR ==> (self.stored(addr, w, v, after) <==> after.stack_region() == self.stack_region()
                && self.heap_region().stored(addr, w, v, after.heap_region())),
    {
    }

    /// A memory whose regions are zeroed, as `new` makes it, reads zero wherever the first byte
    /// of a read lies in the region of its address and refuses every other read; it accepts
    /// exactly the stores that lie wholly inside the region of their address.
    pub proof fn lemma_zeroed_regions(&self, addr: u64, w: nat)
        requires
            self.stack_region().bytes() == Seq::new(self.stack_region().bytes().len(), |i: int| 0u8),
            self.heap_region().bytes() == Seq::new(self.heap_region().bytes().len(), |i: int| 0u8),
        ensures
            self.load(addr, w) == (if addr >= self.region(addr).base() && addr - self.region(addr).base()
                < self.region(addr).bytes().len() {
                Some(0u64)
            } else {
                None::<u64>
            }),
            self.store_ok(addr, w) <==> addr >= self.region(addr).base() && (addr - self.region(addr).base()) + w
                <= self.region(addr).bytes().len(),
    {
        lemma_zeroed_block(self.region(addr), addr, w);
    }

    /// Zeroed stack and heap regions at the given addresses and sizes.
    pub fn new(stack_addr: u64, heap_addr: u64, stack_size: u64, heap_size: u64) -> (r: Self)
        requires
            stack_size <= usize::MAX,
            heap_size <= usize::MAX,
        ensures
            r.wf(),
            r.stack_region().base() == stack_addr,
            r.stack_region().bytes() == Seq::new(stack_size as nat, |i: int| 0u8),
            r.heap_region().base() == heap_addr,
            r.heap_region().bytes() == Seq::new(heap_size as nat, |i: int| 0u8),
    {
        Self {
            stack: ContinuousMemory::new(stack_addr, stack_size),
            heap: ContinuousMemory::new(heap_addr, heap_size),
        }
    }
}

impl Memory for UserMemory {
    proof fn lemma_read_after_write(&self, addr: u64, width: nat, value: u64, after: Self) {
        if addr >= CUTOFF_ADDR {
            self.stack.lemma_read_after_write(addr, width, value, after.stack);
        } else {
            self.heap.lemma_read_after_write(addr, width, value, after.heap);
        }
    }

    proof fn lemma_write_frame(&self, addr: u64, width: nat, value: u64, after: Self, other: u64) {
        if addr >= CUTOFF_ADDR {
            self.stack.lemma_write_frame(addr, width, value, after.stack, other);
        } else {
            self.heap.lemma_write_frame(addr, width, value, after.heap, other);
        }
    }

    proof fn lemma_read_buf_after_write_buf(&self, addr: u64, bytes: Seq<u8>, after: Self) {
        if addr >= CUTOFF_ADDR {
            self.stack.lemma_read_buf_after_write_buf(addr, bytes, after.stack);
        } else {
            self.heap.lemma_read_buf_after_write_buf(addr, bytes, after.heap);
        }
    }

    closed spec fn wf(&self) -> bool {
        self.stack.wf() && self.heap.wf()
    }

    closed spec fn load(&self, addr: u64, width: nat) -> Option<u64> {
        self.region(addr).load(addr, width)
    }

    closed spec fn store_ok(&self, addr: u64, width: nat) -> bool {
        self.region(addr).store_ok(addr, width)
    }

    closed spec fn stored(&self, addr: u64, width: nat, value: u64, after: Self) -> bool {
        if addr >= CUTOFF_ADDR {
            after.heap == self.heap && self.stack.stored(addr, width, value, after.stack)
        } else {
            after.stack == self.stack && self.heap.stored(addr, width, value, after.heap)
        }
    }

    closed spec fn load_bytes(&self, addr: u64, len: nat) -> Option<Seq<u8>> {
        self.region(addr).load_bytes(addr, len)
    }

    closed spec fn store_bytes_ok(&self, addr: u64, len: nat) -> bool {
        self.region(addr).store_bytes_ok(addr, len)
    }

    closed spec fn stored_bytes(&self, addr: u64, bytes: Seq<u8>, after: Self) -> bool {
        if addr >= CUTOFF_ADDR {
            after.heap == self.heap && self.stack.stored_bytes(addr, bytes, after.stack)
        } else {
            after.stack == self.stack && self.heap.stored_bytes(addr, bytes, after.heap)
        }
    }

    fn read_mem_u8(&mut self, addr: u64) -> (r: Result<u8, EmuError>) {
        if addr >= CUTOFF_ADDR {
            self.stack.read_mem_u8(addr)
        } else {
            self.heap.read_mem_u8(addr)
        }
    }

    fn read_mem_u16(&mut self, addr: u64) -> (r: Result<u16, EmuError>) {
        if addr >= CUTOFF_ADDR {
            self.stack.read_mem_u16(addr)
        } else {
            self.heap.read_mem_u16(addr)
        }
    }

    fn read_mem_u32(&mut self, addr: u64) -> (r: Result<u32, EmuError>) {
        if addr >= CUTOFF_ADDR {
            self.stack.read_mem_u32(addr)
        } else {
            self.heap.read_mem_u32(addr)
        }
    }

    fn read_mem_u64(&mut self, addr: u64) -> (r: Result<u64, EmuError>) {
        if addr >= CUTOFF_ADDR {
            self.stack.read_mem_u64(addr)
        } else {
            self.heap.read_mem_u64(addr)
        }
    }

    fn write_mem_u8(&mut self, addr: u64, value: u8) -> (r: Result<(), EmuError>) {
        if addr >= CUTOFF_ADDR {
            self.stack.write_mem_u8(addr, value)
        } else {
            self.heap.write_mem_u8(addr, value)
        }
    }

    fn write_mem_u16(&mut self, addr: u64, value: u16) -> (r: Result<(), EmuError>) {
        if addr >= CUTOFF_ADDR {
            self.stack.write_mem_u16(addr, value)
        } else {
            self.heap.write_mem_u16(addr, value)
        }
    }

    fn write_mem_u32(&mut self, addr: u64, value: u32) -> (r: Result<(), EmuError>) {
        if addr >= CUTOFF_ADDR {
            self.stack.write_mem_u32(addr, value)
        } else {
            self.heap.write_mem_u32(addr, value)
        }
    }

    fn write_mem_u64(&mut self, addr: u64, value: u64) -> (r: Result<(), EmuError>) {
        if addr >= CUTOFF_ADDR {
            self.stack.write_mem_u64(addr, value)
        } else {
            self.heap.write_mem_u64(addr, value)
        }
    }

    fn read_buf(&mut self, addr: u64, buf: &mut [u8]) -> (r: Result<(), EmuError>) {
        if addr >= CUTOFF_ADDR {
            self.stack.read_buf(addr, buf)
        } else {
            self.heap.read_buf(addr, buf)
        }
    }

    fn write_buf(&mut self, addr: u64, buf: &[u8]) -> (r: Result<(), EmuError>) {
        if addr >= CUTOFF_ADDR {
            self.stack.write_buf(addr, buf)
        } else {
            self.heap.write_buf(addr, buf)
        }
    }
}

} // verus!
