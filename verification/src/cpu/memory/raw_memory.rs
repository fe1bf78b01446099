use vstd::prelude::*;

use crate::error::EmuError;

use super::memory_core::{
    le_load, is_width, le_byte, le_value, lemma_le_round_trip, lemma_le_value_bound, low_bytes, overwritten, spliced, Memory,
};
use vstd::arithmetic::power2::{lemma2_to64, lemma_pow2_adds, lemma_pow2_strictly_increases, pow2};

verus! {

/// A value of `n` bytes fits in `w` bytes when `n <= w`.
proof fn lemma_pow2_le_width(n: nat, w: nat)
    requires
        n <= w,
    ensures
        pow2(8 * n) <= pow2(8 * w),
{
    if n < w {
        lemma_pow2_strictly_increases(8 * n, 8 * w);
    }
}

/// Bytes that are all zero have the little-endian value zero.
proof fn lemma_le_value_zero(s: Seq<u8>, off: int, n: nat)
    requires
        forall|j: int| off <= j < off + n ==> s[j] == 0,
    ensures
        le_value(s, off, n) == 0,
    decreases n,
{
    if n > 0 {
        lemma_le_value_zero(s, off + 1, (n - 1) as nat);
    }
}

/// A zeroed block reads zero at every address whose first byte lies in it and refuses reads
/// elsewhere; it accepts exactly the stores that lie wholly inside it.
pub proof fn lemma_zeroed_block(m: ContinuousMemory, a: u64, w: nat)
    requires
        m.bytes() == Seq::new(m.bytes().len(), |i: int| 0u8),
    ensures
        m.load(a, w) == (if a >= m.base() && a - m.base() < m.bytes().len() { Some(0u64) } else { None::<u64> }),
        m.store_ok(a, w) <==> a >= m.base() && (a - m.base()) + w <= m.bytes().len(),
{
    if a >= m.base() && a - m.base() < m.bytes().len() {
        let off = a - m.base();
        let avail = m.bytes().len() - off;
        let n: nat = if w < avail { w } else { avail as nat };
        lemma_le_value_zero(m.data@, off, n);
    }
}

/// A contiguous block of memory of fixed size, mapped at a base address.
#[derive(Clone, Debug)]
pub struct ContinuousMemory {
    pub data: Vec<u8>,
    pub addr: u64,
}

impl ContinuousMemory {
    /// The bytes of the block.
    pub open spec fn bytes(&self) -> Seq<u8> {
        self.data@
    }

    /// The address of the first byte.
    pub open spec fn base(&self) -> u64 {
        self.addr
    }

    /// A zeroed block of `size` bytes mapped at `addr`.
    pub fn new(addr: u64, size: u64) -> (r: Self)
        requires
            size <= usize::MAX,
        ensures
            r.wf(),
            r.base() == addr,
            r.bytes() == Seq::new(size as nat, |i: int| 0u8),
    {
        let r = Self { data: vec![0u8; size as usize], addr };
        assert(r.bytes() =~= Seq::new(size as nat, |i: int| 0u8));
        r
    }

    /// Refuses an access of `size` bytes at offset `addr` that leaves the block.
    fn check_bounds(&self, addr: u64, size: u64) -> (r: Result<(), EmuError>)
        ensures
            r is Ok <==> addr + size <= self.data@.len(),
            r is Err ==> r == Err::<(), EmuError>(EmuError::OutOfBounds(addr)),
    {
        let len = self.data.len();
        assert(len as int <= u64::MAX);
        if addr > u64::MAX - size || addr + size > len as u64 {
            Err(EmuError::OutOfBounds(addr))
        } else {
            Ok(())
        }
    }

    /// The little-endian value of `width` bytes at offset `off`.
    fn load_le(&self, off: usize, width: usize) -> (v: u64)
        requires
            off + width <= self.data.len(),
            width <= 8,
        ensures
            v == le_value(self.data@, off as int, width as nat),
    {
        le_load(self.data.as_slice(), off, width)
    }

    /// Writes the `width` low bytes of `value` little-endian at offset `off`.
    fn store_le(&mut self, off: usize, width: usize, value: u64)
        requires
            off + width <= old(self).data.len(),
            width <= 8,
        ensures
            final(self).addr == old(self).addr,
            final(self).data@ == spliced(old(self).data@, off as int, value, width as nat),
    {
        let mut k: usize = 0;
        while k < width
            invariant
                off + width <= self.data.len(),
                width <= 8,
                k <= width,
                self.addr == old(self).addr,
                self.data@.len() == old(self).data@.len(),
                forall|j: int|
                    0 <= j < self.data@.len() ==> self.data@[j] == (if off <= j < off + k {
                        le_byte(value, (j - off) as nat)
                    } else {
                        old(self).data@[j]
                    }),
            decreases width - k,
        {
            let shift: u64 = 8 * (k as u64);
            let b: u8 = ((value >> shift) & 0xff) as u8;
            self.data.set(off + k, b);
            k = k + 1;
        }
        assert(self.data@ =~= spliced(old(self).data@, off as int, value, width as nat));
    }

    /// Reads `width` bytes little-endian at `addr` when the first of them lies in the block;
    /// bytes past the end of the block read as zero.
    fn read_scalar(&mut self, addr: u64, width: u64) -> (r: Result<u64, EmuError>)
        requires
            width <= 8,
        ensures
            *final(self) == *old(self),
            r matches Ok(v) ==> old(self).load(addr, width as nat) == Some(v),
            r is Err ==> old(self).load(addr, width as nat) is None,
    {
        if addr < self.addr {
            return Err(EmuError::OutOfBounds(addr));
        }
        let off = addr - self.addr;
        let len = self.data.len();
        if off >= len as u64 {
            return Err(EmuError::OutOfBounds(addr));
        }
        let avail = (len as u64) - off;
        let n = if width < avail { width } else { avail };
        Ok(self.load_le(off as usize, n as usize))
    }

    pub fn read_le(&mut self, addr: u64, width: u64) -> (r: Result<u64, EmuError>)
        requires
            width <= 8,
        ensures
            *final(self) == *old(self),
            match r {
                Ok(v) => addr >= old(self).addr && (addr - old(self).addr) + width <= old(self).data@.len() && v == le_value(
                    old(self).data@,
                    addr - old(self).addr,
                    width as nat,
                ),
                Err(_) => !(addr >= old(self).addr && (addr - old(self).addr) + width <= old(self).data@.len()),
            },
    {
        if addr < self.addr {
            return Err(EmuError::OutOfBounds(addr));
        }
        let addr = addr - self.addr;
        match self.check_bounds(addr, width) {
            Err(e) => Err(e),
            Ok(()) => {
                assert(addr + width <= self.data.len());
                Ok(self.load_le(addr as usize, width as usize))
            },
        }
    }

    pub fn write_le(&mut self, addr: u64, width: u64, value: u64) -> (r: Result<(), EmuError>)
        requires
            width <= 8,
        ensures
            r is Ok <==> addr >= old(self).addr && (addr - old(self).addr) + width <= old(self).data@.len(),
            r is Ok ==> final(self).addr == old(self).addr && final(self).data@ == spliced(
                old(self).data@,
                addr - old(self).addr,
                value,
                width as nat,
            ),
            r is Err ==> *final(self) == *old(self),
    {
        if addr < self.addr {
            return Err(EmuError::OutOfBounds(addr));
        }
        let addr = addr - self.addr;
        match self.check_bounds(addr, width) {
            Err(e) => Err(e),
            Ok(()) => {
                assert(addr + width <= self.data.len());
                self.store_le(addr as usize, width as usize, value);
                Ok(())
            },
        }
    }
}

impl Memory for ContinuousMemory {
    proof fn lemma_read_after_write(&self, addr: u64, width: nat, value: u64, after: Self) {
        lemma_le_round_trip(self.data@, addr - self.addr, value, width);
    }

    proof fn lemma_write_frame(&self, addr: u64, width: nat, value: u64, after: Self, other: u64) {
        reveal_with_fuel(le_value, 2);
    }

    proof fn lemma_read_buf_after_write_buf(&self, addr: u64, bytes: Seq<u8>, after: Self) {
        let off = addr - self.addr;
        assert(after.data@.subrange(off, off + bytes.len()) =~= bytes);
    }

    open spec fn wf(&self) -> bool {
        true
    }

    /// A read whose first byte lies in the block; the bytes past its end read as zero.
    open spec fn load(&self, addr: u64, width: nat) -> Option<u64> {
        let off = addr - self.addr;
        let avail = self.data@.len() - off;
        if addr >= self.addr && off < self.data@.len() {
            Some(le_value(self.data@, off, if width < avail { width } else { avail as nat }) as u64)
        } else {
            None
        }
    }

    open spec fn store_ok(&self, addr: u64, width: nat) -> bool {
        addr >= self.addr && (addr - self.addr) + width <= self.data@.len()
    }

    open spec fn stored(&self, addr: u64, width: nat, value: u64, after: Self) -> bool {
        after.addr == self.addr && after.data@ == spliced(
            self.data@,
            addr - self.addr,
            value,
            width,
        )
    }

    open spec fn load_bytes(&self, addr: u64, len: nat) -> Option<Seq<u8>> {
        let off = addr - self.addr;
        if addr >= self.addr && off + len <= self.data@.len() {
            Some(self.data@.subrange(off, off + len))
        } else {
            None
        }
    }

    open spec fn store_bytes_ok(&self, addr: u64, len: nat) -> bool {
        addr >= self.addr && (addr - self.addr) + len <= self.data@.len()
    }

    open spec fn stored_bytes(&self, addr: u64, bytes: Seq<u8>, after: Self) -> bool {
        after.addr == self.addr && after.data@ == overwritten(self.data@, addr - self.addr, bytes)
    }

    fn read_mem_u8(&mut self, addr: u64) -> (r: Result<u8, EmuError>) {
        match self.read_scalar(addr, 1) {
            Err(e) => Err(e),
            Ok(v) => {
                proof {
                    let off = addr - old(self).addr;
                    let avail = old(self).data@.len() - off;
                    lemma_le_value_bound(old(self).data@, off, if 1 < avail { 1 } else { avail as nat });
                    lemma_pow2_le_width(if 1 < avail { 1 } else { avail as nat }, 1);
                    lemma2_to64();
                }
                Ok(v as u8)
            },
        }
    }

    fn read_mem_u16(&mut self, addr: u64) -> (r: Result<u16, EmuError>) {
        match self.read_scalar(addr, 2) {
            Err(e) => Err(e),
            Ok(v) => {
                proof {
                    let off = addr - old(self).addr;
                    let avail = old(self).data@.len() - off;
                    lemma_le_value_bound(old(self).data@, off, if 2 < avail { 2 } else { avail as nat });
                    lemma_pow2_le_width(if 2 < avail { 2 } else { avail as nat }, 2);
                    lemma2_to64();
                }
                Ok(v as u16)
            },
        }
    }

    fn read_mem_u32(&mut self, addr: u64) -> (r: Result<u32, EmuError>) {
        match self.read_scalar(addr, 4) {
            Err(e) => Err(e),
            Ok(v) => {
                proof {
                    let off = addr - old(self).addr;
                    let avail = old(self).data@.len() - off;
                    lemma_le_value_bound(old(self).data@, off, if 4 < avail { 4 } else { avail as nat });
                    lemma_pow2_le_width(if 4 < avail { 4 } else { avail as nat }, 4);
                    lemma2_to64();
                }
                Ok(v as u32)
            },
        }
    }

    fn read_mem_u64(&mut self, addr: u64) -> (r: Result<u64, EmuError>) {
        self.read_scalar(addr, 8)
    }

    fn write_mem_u8(&mut self, addr: u64, value: u8) -> (r: Result<(), EmuError>) {
        self.write_le(addr, 1, value as u64)
    }

    fn write_mem_u16(&mut self, addr: u64, value: u16) -> (r: Result<(), EmuError>) {
        self.write_le(addr, 2, value as u64)
    }

    fn write_mem_u32(&mut self, addr: u64, value: u32) -> (r: Result<(), EmuError>) {
        self.write_le(addr, 4, value as u64)
    }

    fn write_mem_u64(&mut self, addr: u64, value: u64) -> (r: Result<(), EmuError>) {
        self.write_le(addr, 8, value)
    }

    fn read_buf(&mut self, addr: u64, buf: &mut [u8]) -> (r: Result<(), EmuError>) {
        if addr < self.addr {
            return Err(EmuError::OutOfBounds(addr));
        }
        let addr = addr - self.addr;
        let len = buf.len();
        match self.check_bounds(addr, len as u64) {
            Err(e) => Err(e),
            Ok(()) => {
                assert(addr + len <= self.data.len());
                let start = addr as usize;
                let mut i: usize = 0;
                while i < len
                    invariant
                        start + len <= self.data.len(),
                        len == buf@.len(),
                        i <= len,
                        buf@.len() == old(buf)@.len(),
                        forall|j: int| 0 <= j < i ==> buf@[j] == self.data@[start + j],
                    decreases len - i,
                {
                    buf[i] = self.data[start + i];
                    i = i + 1;
                }
                assert(buf@ =~= self.data@.subrange(start as int, start + len));
                Ok(())
            },
        }
    }

    fn write_buf(&mut self, addr: u64, buf: &[u8]) -> (r: Result<(), EmuError>) {
        if addr < self.addr {
            return Err(EmuError::OutOfBounds(addr));
        }
        let addr = addr - self.addr;
        let len = buf.len();
        match self.check_bounds(addr, len as u64) {
            Err(e) => Err(e),
            Ok(()) => {
                assert(addr + len <= self.data.len());
                let start = addr as usize;
                let mut i: usize = 0;
                while i < len
                    invariant
                        start + len <= self.data.len(),
                        len == buf@.len(),
                        i <= len,
                        self.addr == old(self).addr,
                        self.data@.len() == old(self).data@.len(),
                        forall|j: int|
                            0 <= j < self.data@.len() ==> self.data@[j] == (if start <= j < start + i {
                                buf@[j - start]
                            } else {
                                old(self).data@[j]
                            }),
                    decreases len - i,
                {
                    self.data.set(start + i, buf[i]);
                    i = i + 1;
                }
                assert(self.data@ =~= overwritten(old(self).data@, start as int, buf@));
                Ok(())
            },
        }
    }
}

} // verus!
