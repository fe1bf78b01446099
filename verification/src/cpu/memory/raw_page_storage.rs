use vstd::prelude::*;

use crate::error::EmuError;

use super::memory_core::{le_byte, le_load, le_value, lemma_le_round_trip, spliced, Memory};
use super::page_storage::{PAGE_ID_LIMIT, PAGE_SIZE};

verus! {

/// Bytes per page, as an index bound.
pub const RAW_PAGE_BYTES: usize = 0x40000;

/// A page of memory as plain bytes, and the address of its first byte.
#[derive(Clone, Debug)]
pub struct Page {
    pub data: Vec<u8>,
    pub position: u64,
}

/// The bytes of a fresh page.
pub open spec fn zero_bytes() -> Seq<u8> {
    Seq::new(RAW_PAGE_BYTES as nat, |i: int| 0u8)
}

impl Page {
    /// A zeroed page whose first byte is at `position`.
    pub fn new(position: u64) -> (r: Page)
        ensures
            r.data@ == zero_bytes(),
            r.position == position,
    {
        let r = Page { data: vec![0u8; RAW_PAGE_BYTES], position };
        assert(r.data@ =~= zero_bytes());
        r
    }
}

/// The bytes of page `id` in `pages`: a fresh page when it was never written.
pub open spec fn raw_page_bytes(pages: Map<u64, Seq<u8>>, id: u64) -> Seq<u8> {
    if pages.contains_key(id) {
        pages[id]
    } else {
        zero_bytes()
    }
}

/// A store of byte pages, found by page id.
pub trait RawPageStorage: Sized {
    /// The pages written so far, by id.
    spec fn pages(&self) -> Map<u64, Seq<u8>>;

    /// Consistency of the store: every page has its full size.
    spec fn wf(&self) -> bool;

    /// Whether the store has room for page `id`.
    spec fn can_hold(page_id: u64) -> bool;

    /// The number `len` reports.
    spec fn count(&self) -> nat;

    /// In a consistent store every page has its full size.
    proof fn lemma_page_size(&self, page_id: u64)
        requires
            self.wf(),
            self.pages().contains_key(page_id),
        ensures
            self.pages()[page_id].len() == RAW_PAGE_BYTES,
    ;

    /// An empty store.
    fn new() -> (r: Self)
        ensures
            r.wf(),
            r.pages() == Map::<u64, Seq<u8>>::empty(),
    ;

    /// The page that holds `addr`.
    fn get_page_id(&self, addr: u64) -> (r: u64)
        ensures
            r == addr / PAGE_SIZE,
    ;

    /// Page `page_id`, when it was written.
    fn get_page(&self, page_id: u64) -> (r: Option<&Page>)
        requires
            self.wf(),
        ensures
            match r {
                Some(p) => self.pages().contains_key(page_id) && p.data@ == self.pages()[page_id]
                    && p.data@.len() == RAW_PAGE_BYTES,
                None => !self.pages().contains_key(page_id),
            },
    ;

    /// Sets byte `index` of page `page_id`, creating the page when it is missing.
    fn set_byte(&mut self, page_id: u64, index: usize, value: u8)
        requires
            old(self).wf(),
            index < RAW_PAGE_BYTES,
            page_id < PAGE_ID_LIMIT,
            Self::can_hold(page_id),
        ensures
            final(self).wf(),
            final(self).pages() == old(self).pages().insert(
                page_id,
                raw_page_bytes(old(self).pages(), page_id).update(index as int, value),
            ),
    ;

    /// Whether the store has room for page `page_id`.
    fn can_store(&self, page_id: u64) -> (r: bool)
        ensures
            r == Self::can_hold(page_id),
    ;

    /// The size the store reports.
    fn len(&self) -> (r: usize)
        ensures
            r == self.count(),
    ;

    /// Whether the store reports no pages.
    fn is_empty(&self) -> (r: bool)
        ensures
            r == (self.count() == 0),
    {
        self.len() == 0
    }
}

/// A memory made of byte pages held by a page store; pages never written read as zeros.
pub struct RawPageMemory<T: RawPageStorage> {
    pub storage: T,
}

/// The byte at `a` of a memory with byte pages `pages`.
pub open spec fn raw_byte_in(pages: Map<u64, Seq<u8>>, a: u64) -> u8 {
    raw_page_bytes(pages, a / PAGE_SIZE)[(a % PAGE_SIZE) as int]
}

impl<T: RawPageStorage> RawPageMemory<T> {
    /// The byte at address `a`.
    pub open spec fn byte(&self, a: u64) -> u8 {
        raw_byte_in(self.storage.pages(), a)
    }

    /// The `n` bytes from `addr` on.
    pub open spec fn bytes_from(&self, addr: u64, n: nat) -> Seq<u8> {
        Seq::new(n, |i: int| self.byte((addr + i) as u64))
    }

    /// Every page of the `n` bytes from `addr` on can be stored.
    pub open spec fn range_holdable(addr: u64, n: nat) -> bool {
        forall|i: int| 0 <= i < n ==> #[trigger] T::can_hold(((addr + i) as u64) / PAGE_SIZE)
    }

    /// `after` holds the bytes of this memory, with `bytes` at `addr` on.
    pub open spec fn holds_with(&self, addr: u64, bytes: Seq<u8>, after: Self) -> bool {
        &&& after.storage.wf()
        &&& forall|a: u64| #[trigger] after.byte(a) == if addr <= a < addr + bytes.len() {
            bytes[a - addr]
        } else {
            self.byte(a)
        }
    }

    /// An empty memory.
    pub fn new() -> (r: Self)
        ensures
            r.storage.wf(),
            r.storage.pages() == Map::<u64, Seq<u8>>::empty(),
            forall|a: u64| #[trigger] r.byte(a) == 0,
    {
        RawPageMemory { storage: T::new() }
    }

    /// The byte at `a`.
    fn read_byte(&self, a: u64) -> (r: u8)
        requires
            self.storage.wf(),
        ensures
            r == self.byte(a),
    {
        let id = self.storage.get_page_id(a);
        match self.storage.get_page(id) {
            Some(p) => p.data[(a % PAGE_SIZE) as usize],
            None => 0,
        }
    }

    /// Sets the byte at `a`.
    fn write_byte(&mut self, a: u64, b: u8)
        requires
            old(self).storage.wf(),
            T::can_hold(a / PAGE_SIZE),
        ensures
            final(self).storage.wf(),
            forall|x: u64| #[trigger] final(self).byte(x) == if x == a { b } else { old(self).byte(x) },
    {
        let id = self.storage.get_page_id(a);
        let k = (a % PAGE_SIZE) as usize;
        proof {
            if old(self).storage.pages().contains_key(id) {
                old(self).storage.lemma_page_size(id);
            }
        }
        self.storage.set_byte(id, k, b);
        proof {
            assert forall|x: u64| #[trigger] self.byte(x) == if x == a { b } else { old(self).byte(x) } by {
                if x / PAGE_SIZE == id && x % PAGE_SIZE == a % PAGE_SIZE {
                    assert(x == (x / PAGE_SIZE) * PAGE_SIZE + x % PAGE_SIZE);
                    assert(a == (a / PAGE_SIZE) * PAGE_SIZE + a % PAGE_SIZE);
                }
            }
        }
    }

    /// The `w` bytes from `addr` on, as a little-endian value; refused past the end of the
    /// address space.
    fn read_le_bytes(&self, addr: u64, w: usize) -> (r: Result<u64, EmuError>)
        requires
            self.storage.wf(),
            1 <= w <= 8,
        ensures
            r is Ok <==> addr + w <= 0x1_0000_0000_0000_0000,
            r is Ok ==> r->Ok_0 == le_value(self.bytes_from(addr, w as nat), 0, w as nat),
    {
        if addr > u64::MAX - (w as u64 - 1) {
            return Err(EmuError::OutOfBounds(addr));
        }
        let mut v: Vec<u8> = Vec::new();
        let mut i: usize = 0;
        while i < w
            invariant
                self.storage.wf(),
                i <= w <= 8,
                addr + w <= 0x1_0000_0000_0000_0000,
                v@ == self.bytes_from(addr, i as nat),
            decreases w - i,
        {
            let b = self.read_byte(addr + i as u64);
            v.push(b);
            i = i + 1;
            assert(v@ =~= self.bytes_from(addr, i as nat));
        }
        Ok(le_load(v.as_slice(), 0, w))
    }

    /// Whether every page of the `n` bytes from `addr` on can be stored.
    fn holdable(&self, addr: u64, n: u64) -> (r: bool)
        requires
            addr + n <= 0x1_0000_0000_0000_0000,
        ensures
            r == Self::range_holdable(addr, n as nat),
    {
        let mut i: u64 = 0;
        while i < n
            invariant
                i <= n,
                addr + n <= 0x1_0000_0000_0000_0000,
                forall|k: int| 0 <= k < i ==> #[trigger] T::can_hold(((addr + k) as u64) / PAGE_SIZE),
            decreases n - i,
        {
            if !self.storage.can_store((addr + i) / PAGE_SIZE) {
                return false;
            }
            i = i + 1;
        }
        true
    }

    /// Writes `bytes` from `addr` on; refused past the end of the address space or where the
    /// store has no room, and then nothing changes.
    fn write_bytes(&mut self, addr: u64, bytes: &[u8]) -> (r: Result<(), EmuError>)
        requires
            old(self).storage.wf(),
        ensures
            final(self).storage.wf(),
            r is Ok <==> addr + bytes@.len() <= 0x1_0000_0000_0000_0000 && Self::range_holdable(addr, bytes@.len()),
            r is Ok ==> old(self).holds_with(addr, bytes@, *final(self)),
            r is Err ==> *final(self) == *old(self),
    {
        let n = bytes.len();
        if n as u64 > 0 && addr > u64::MAX - (n as u64 - 1) {
            return Err(EmuError::OutOfBounds(addr));
        }
        if !self.holdable(addr, n as u64) {
            return Err(EmuError::OutOfBounds(addr));
        }
        let mut i: usize = 0;
        while i < n
            invariant
                self.storage.wf(),
                n == bytes@.len(),
                i <= n,
                addr + n <= 0x1_0000_0000_0000_0000,
                Self::range_holdable(addr, n as nat),
                forall|x: u64| #[trigger] self.byte(x) == if addr <= x < addr + i {
                    bytes@[x - addr]
                } else {
                    old(self).byte(x)
                },
            decreases n - i,
        {
            let a = addr + i as u64;
            assert(T::can_hold(((addr + i) as u64) / PAGE_SIZE));
            self.write_byte(a, bytes[i]);
            i = i + 1;
        }
        Ok(())
    }

    /// The `w` little-endian bytes of `v`.
    fn le_bytes_of(v: u64, w: usize) -> (r: Vec<u8>)
        requires
            w <= 8,
        ensures
            r@ == Seq::new(w as nat, |i: int| le_byte(v, i as nat)),
    {
        let mut out: Vec<u8> = Vec::new();
        let mut i: usize = 0;
        while i < w
            invariant
                i <= w <= 8,
                out@ == Seq::new(i as nat, |k: int| le_byte(v, k as nat)),
            decreases w - i,
        {
            out.push(((v >> (8 * (i as u64))) & 0xff) as u8);
            i = i + 1;
            assert(out@ =~= Seq::new(i as nat, |k: int| le_byte(v, k as nat)));
        }
        out
    }
}

impl<T: RawPageStorage> Memory for RawPageMemory<T> {
    proof fn lemma_read_after_write(&self, addr: u64, width: nat, value: u64, after: Self) {
        let s = self.bytes_from(addr, width);
        assert(after.bytes_from(addr, width) =~= spliced(s, 0, value, width));
        lemma_le_round_trip(s, 0, value, width);
    }

    proof fn lemma_write_frame(&self, addr: u64, width: nat, value: u64, after: Self, other: u64) {
        reveal_with_fuel(le_value, 2);
        assert(after.bytes_from(other, 1) =~= self.bytes_from(other, 1));
    }

    proof fn lemma_read_buf_after_write_buf(&self, addr: u64, bytes: Seq<u8>, after: Self) {
        assert(after.bytes_from(addr, bytes.len()) =~= bytes);
    }

    open spec fn wf(&self) -> bool {
        self.storage.wf()
    }

    open spec fn load(&self, addr: u64, width: nat) -> Option<u64> {
        if addr + width <= 0x1_0000_0000_0000_0000 {
            Some(le_value(self.bytes_from(addr, width), 0, width) as u64)
        } else {
            None
        }
    }

    open spec fn store_ok(&self, addr: u64, width: nat) -> bool {
        addr + width <= 0x1_0000_0000_0000_0000 && Self::range_holdable(addr, width)
    }

    open spec fn stored(&self, addr: u64, width: nat, value: u64, after: Self) -> bool {
        self.holds_with(addr, Seq::new(width, |i: int| le_byte(value, i as nat)), after)
    }

    open spec fn load_bytes(&self, addr: u64, len: nat) -> Option<Seq<u8>> {
        if addr + len <= 0x1_0000_0000_0000_0000 {
            Some(self.bytes_from(addr, len))
        } else {
            None
        }
    }

    open spec fn store_bytes_ok(&self, addr: u64, len: nat) -> bool {
        addr + len <= 0x1_0000_0000_0000_0000 && Self::range_holdable(addr, len)
    }

    open spec fn stored_bytes(&self, addr: u64, bytes: Seq<u8>, after: Self) -> bool {
        self.holds_with(addr, bytes, after)
    }

    fn read_mem_u8(&mut self, addr: u64) -> (r: Result<u8, EmuError>) {
        let v = self.read_le_bytes(addr, 1)?;
        proof {
            crate::cpu::memory::memory_core::lemma_le_value_bound(self.bytes_from(addr, 1), 0, 1);
            vstd::arithmetic::power2::lemma2_to64();
        }
        Ok(v as u8)
    }

    fn read_mem_u16(&mut self, addr: u64) -> (r: Result<u16, EmuError>) {
        let v = self.read_le_bytes(addr, 2)?;
        proof {
            crate::cpu::memory::memory_core::lemma_le_value_bound(self.bytes_from(addr, 2), 0, 2);
            vstd::arithmetic::power2::lemma2_to64();
        }
        Ok(v as u16)
    }

    fn read_mem_u32(&mut self, addr: u64) -> (r: Result<u32, EmuError>) {
        let v = self.read_le_bytes(addr, 4)?;
        proof {
            crate::cpu::memory::memory_core::lemma_le_value_bound(self.bytes_from(addr, 4), 0, 4);
            vstd::arithmetic::power2::lemma2_to64();
        }
        Ok(v as u32)
    }

    fn read_mem_u64(&mut self, addr: u64) -> (r: Result<u64, EmuError>) {
        self.read_le_bytes(addr, 8)
    }

    fn write_mem_u8(&mut self, addr: u64, value: u8) -> (r: Result<(), EmuError>) {
        let b = Self::le_bytes_of(value as u64, 1);
        self.write_bytes(addr, b.as_slice())
    }

    fn write_mem_u16(&mut self, addr: u64, value: u16) -> (r: Result<(), EmuError>) {
        let b = Self::le_bytes_of(value as u64, 2);
        self.write_bytes(addr, b.as_slice())
    }

    fn write_mem_u32(&mut self, addr: u64, value: u32) -> (r: Result<(), EmuError>) {
        let b = Self::le_bytes_of(value as u64, 4);
        self.write_bytes(addr, b.as_slice())
    }

    fn write_mem_u64(&mut self, addr: u64, value: u64) -> (r: Result<(), EmuError>) {
        let b = Self::le_bytes_of(value, 8);
        self.write_bytes(addr, b.as_slice())
    }

    fn read_buf(&mut self, addr: u64, buf: &mut [u8]) -> (r: Result<(), EmuError>) {
        let n = buf.len();
        let mut i: usize = 0;
        while i < n
            invariant
                self.storage.wf(),
                n == buf@.len(),
                n == old(buf)@.len(),
                i <= n,
                addr + n <= u64::MAX,
                forall|k: int| 0 <= k < i ==> buf@[k] == self.byte((addr + k) as u64),
            decreases n - i,
        {
            let b = self.read_byte(addr + i as u64);
            buf[i] = b;
            i = i + 1;
        }
        assert(buf@ =~= self.bytes_from(addr, n as nat));
        Ok(())
    }

    fn write_buf(&mut self, addr: u64, buf: &[u8]) -> (r: Result<(), EmuError>) {
        self.write_bytes(addr, buf)
    }
}

} // verus!
