use vstd::prelude::*;

use crate::error::EmuError;
use vstd::arithmetic::power2::{lemma2_to64, lemma_pow2_adds, pow2};

verus! {

/// Size of the table-backed memory.
pub const MEMORY_SIZE: u64 = 0x100000;

/// Number of pages a vector-backed store reserves room for.
pub const MEMORY_CAPACITY: usize = 48;

/// The little-endian number formed by `w` bytes of `s` starting at `off`.
pub open spec fn le_value(s: Seq<u8>, off: int, w: nat) -> nat
    decreases w,
{
    if w == 0 {
        0
    } else {
        s[off] as nat + 256 * le_value(s, off + 1, (w - 1) as nat)
    }
}

/// Byte `i` (little-endian) of `v`.
pub open spec fn le_byte(v: u64, i: nat) -> u8 {
    ((v >> ((8 * i) as u64)) & 0xff) as u8
}

/// `s` with the `w` low bytes of `v` written little-endian from `off` on.
pub open spec fn spliced(s: Seq<u8>, off: int, v: u64, w: nat) -> Seq<u8> {
    Seq::new(s.len(), |j: int| if off <= j < off + w { le_byte(v, (j - off) as nat) } else { s[j] })
}

/// `s` with `bytes` copied over it from `off` on.
pub open spec fn overwritten(s: Seq<u8>, off: int, bytes: Seq<u8>) -> Seq<u8> {
    Seq::new(s.len(), |j: int| if off <= j < off + bytes.len() { bytes[j - off] } else { s[j] })
}

/// The value of the `w` low bytes of `v`.
pub open spec fn low_bytes(v: u64, w: nat) -> u64 {
    if w == 1 {
        v & 0xff
    } else if w == 2 {
        v & 0xffff
    } else if w == 4 {
        v & 0xffff_ffff
    } else {
        v
    }
}

/// Widths of the scalar accesses.
pub open spec fn is_width(w: nat) -> bool {
    w == 1 || w == 2 || w == 4 || w == 8
}

/// The little-endian value of `width` bytes of `data` from offset `off` on.
pub fn le_load(data: &[u8], off: usize, width: usize) -> (v: u64)
    requires
        off + width <= data.len(),
        width <= 8,
    ensures
        v == le_value(data@, off as int, width as nat),
{
    let mut v: u64 = 0;
    let mut k: usize = width;
    proof {
        lemma2_to64();
    }
    while k > 0
        invariant
            off + width <= data.len(),
            width <= 8,
            k <= width,
            v == le_value(data@, (off + k) as int, (width - k) as nat),
            v < pow2((8 * (width - k)) as nat),
        decreases k,
    {
        k = k - 1;
        let b = data[off + k];
        proof {
            let n = (width - k - 1) as nat;
            lemma2_to64();
            vstd::arithmetic::power2::lemma2_to64_rest();
            lemma_pow2_adds(8 * n, 8);
            assert(le_value(data@, (off + k) as int, (n + 1) as nat) == b as nat + 256
                * le_value(data@, (off + k + 1) as int, n));
            let p = pow2(8 * n);
            if n < 7 {
                vstd::arithmetic::power2::lemma_pow2_strictly_increases(8 * n, 56);
            }
            assert(b + 256 * v < 256 * p) by (nonlinear_arith)
                requires
                    v < p,
                    b < 256,
            ;
            assert(v < 0x100_0000_0000_0000);
            assert(8 * n + 8 == 8 * (width - k) as nat);
        }
        v = v * 256 + b as u64;
    }
    v
}


/// A byte-addressed memory of the emulated machine.
pub trait Memory: Sized {
    /// Internal consistency of the backing store.
    spec fn wf(&self) -> bool;

    /// The value a read of `width` bytes at `addr` gives, or `None` when it is refused.
    spec fn load(&self, addr: u64, width: nat) -> Option<u64>;

    /// Whether a write of `width` bytes at `addr` is accepted.
    spec fn store_ok(&self, addr: u64, width: nat) -> bool;

    /// Whether `after` is this memory with the `width` low bytes of `value` written at `addr`.
    spec fn stored(&self, addr: u64, width: nat, value: u64, after: Self) -> bool;

    /// The `len` bytes from `addr` on, or `None` when the block read is refused.
    spec fn load_bytes(&self, addr: u64, len: nat) -> Option<Seq<u8>>;

    /// Whether a block write of `len` bytes at `addr` is accepted.
    spec fn store_bytes_ok(&self, addr: u64, len: nat) -> bool;

    /// Whether `after` is this memory with `bytes` written from `addr` on.
    spec fn stored_bytes(&self, addr: u64, bytes: Seq<u8>, after: Self) -> bool;

    /// A scalar write is read back as the low bytes of the written value.
    proof fn lemma_read_after_write(&self, addr: u64, width: nat, value: u64, after: Self)
        requires
            self.wf(),
            is_width(width),
            self.store_ok(addr, width),
            self.stored(addr, width, value, after),
        ensures
            after.load(addr, width) == Some(low_bytes(value, width)),
    ;

    /// A scalar write leaves each byte outside the written range as it was.
    proof fn lemma_write_frame(&self, addr: u64, width: nat, value: u64, after: Self, other: u64)
        requires
            self.wf(),
            self.store_ok(addr, width),
            self.stored(addr, width, value, after),
            other < addr || other >= addr + width,
        ensures
            after.load(other, 1) == self.load(other, 1),
    ;

    /// A block write is read back as the written bytes.
    proof fn lemma_read_buf_after_write_buf(&self, addr: u64, bytes: Seq<u8>, after: Self)
        requires
            self.wf(),
            self.store_bytes_ok(addr, bytes.len()),
            self.stored_bytes(addr, bytes, after),
        ensures
            after.load_bytes(addr, bytes.len()) == Some(bytes),
    ;

    fn read_mem_u8(&mut self, addr: u64) -> (r: Result<u8, EmuError>)
        requires
            old(self).wf(),
        ensures
            *final(self) == *old(self),
            match r {
                Ok(v) => old(self).load(addr, 1) == Some(v as u64),
                Err(_) => old(self).load(addr, 1) is None,
            },
    ;

    fn read_mem_u16(&mut self, addr: u64) -> (r: Result<u16, EmuError>)
        requires
            old(self).wf(),
        ensures
            *final(self) == *old(self),
            match r {
                Ok(v) => old(self).load(addr, 2) == Some(v as u64),
                Err(_) => old(self).load(addr, 2) is None,
            },
    ;

    fn read_mem_u32(&mut self, addr: u64) -> (r: Result<u32, EmuError>)
        requires
            old(self).wf(),
        ensures
            *final(self) == *old(self),
            match r {
                Ok(v) => old(self).load(addr, 4) == Some(v as u64),
                Err(_) => old(self).load(addr, 4) is None,
            },
    ;

    fn read_mem_u64(&mut self, addr: u64) -> (r: Result<u64, EmuError>)
        requires
            old(self).wf(),
        ensures
            *final(self) == *old(self),
            match r {
                Ok(v) => old(self).load(addr, 8) == Some(v),
                Err(_) => old(self).load(addr, 8) is None,
            },
    ;

    fn write_mem_u8(&mut self, addr: u64, value: u8) -> (r: Result<(), EmuError>)
        requires
            old(self).wf(),
        ensures
            final(self).wf(),
            r is Ok <==> old(self).store_ok(addr, 1),
            r is Ok ==> old(self).stored(addr, 1, value as u64, *final(self)),
            r is Err ==> *final(self) == *old(self),
    ;

    fn write_mem_u16(&mut self, addr: u64, value: u16) -> (r: Result<(), EmuError>)
        requires
            old(self).wf(),
        ensures
            final(self).wf(),
            r is Ok <==> old(self).store_ok(addr, 2),
            r is Ok ==> old(self).stored(addr, 2, value as u64, *final(self)),
            r is Err ==> *final(self) == *old(self),
    ;

    fn write_mem_u32(&mut self, addr: u64, value: u32) -> (r: Result<(), EmuError>)
        requires
            old(self).wf(),
        ensures
            final(self).wf(),
            r is Ok <==> old(self).store_ok(addr, 4),
            r is Ok ==> old(self).stored(addr, 4, value as u64, *final(self)),
            r is Err ==> *final(self) == *old(self),
    ;

    fn write_mem_u64(&mut self, addr: u64, value: u64) -> (r: Result<(), EmuError>)
        requires
            old(self).wf(),
        ensures
            final(self).wf(),
            r is Ok <==> old(self).store_ok(addr, 8),
            r is Ok ==> old(self).stored(addr, 8, value, *final(self)),
            r is Err ==> *final(self) == *old(self),
    ;

    fn read_buf(&mut self, addr: u64, buf: &mut [u8]) -> (r: Result<(), EmuError>)
        requires
            old(self).wf(),
            addr + old(buf)@.len() <= u64::MAX,
        ensures
            *final(self) == *old(self),
            final(buf)@.len() == old(buf)@.len(),
            r is Ok <==> old(self).load_bytes(addr, old(buf)@.len()) is Some,
            r is Ok ==> old(self).load_bytes(addr, old(buf)@.len()) == Some(final(buf)@),
    ;

    fn write_buf(&mut self, addr: u64, buf: &[u8]) -> (r: Result<(), EmuError>)
        requires
            old(self).wf(),
            addr + buf@.len() <= u64::MAX,
        ensures
            final(self).wf(),
            r is Ok <==> old(self).store_bytes_ok(addr, buf@.len()),
            r is Ok ==> old(self).stored_bytes(addr, buf@, *final(self)),
            r is Err ==> *final(self) == *old(self),
    ;
}

/// The little-endian bytes of `v` as numbers.
proof fn lemma_le_bytes_of(v: u64)
    ensures
        le_byte(v, 0) as u64 == v & 0xff,
        le_byte(v, 1) as u64 == (v >> 8) & 0xff,
        le_byte(v, 2) as u64 == (v >> 16) & 0xff,
        le_byte(v, 3) as u64 == (v >> 24) & 0xff,
        le_byte(v, 4) as u64 == (v >> 32) & 0xff,
        le_byte(v, 5) as u64 == (v >> 40) & 0xff,
        le_byte(v, 6) as u64 == (v >> 48) & 0xff,
        le_byte(v, 7) as u64 == (v >> 56) & 0xff,
{
    assert(((((v >> 0u64) & 0xff) as u8) as u64) == v & 0xff && ((((v >> 8u64) & 0xff) as u8) as u64)
        == (v >> 8u64) & 0xff && ((((v >> 16u64) & 0xff) as u8) as u64) == (v >> 16u64) & 0xff
        && ((((v >> 24u64) & 0xff) as u8) as u64) == (v >> 24u64) & 0xff && ((((v >> 32u64) & 0xff)
        as u8) as u64) == (v >> 32u64) & 0xff && ((((v >> 40u64) & 0xff) as u8) as u64) == (v
        >> 40u64) & 0xff && ((((v >> 48u64) & 0xff) as u8) as u64) == (v >> 48u64) & 0xff
        && ((((v >> 56u64) & 0xff) as u8) as u64) == (v >> 56u64) & 0xff) by (bit_vector);
}

/// Reading back the bytes of `v` written little-endian gives the low bytes of `v`.
pub proof fn lemma_le_round_trip(s: Seq<u8>, off: int, v: u64, w: nat)
    requires
        is_width(w),
        0 <= off,
        off + w <= s.len(),
    ensures
        le_value(spliced(s, off, v, w), off, w) == low_bytes(v, w),
{
    let t = spliced(s, off, v, w);
    reveal_with_fuel(le_value, 9);
    lemma_le_bytes_of(v);
    let b0 = le_byte(v, 0) as u64;
    let b1 = le_byte(v, 1) as u64;
    let b2 = le_byte(v, 2) as u64;
    let b3 = le_byte(v, 3) as u64;
    let b4 = le_byte(v, 4) as u64;
    let b5 = le_byte(v, 5) as u64;
    let b6 = le_byte(v, 6) as u64;
    let b7 = le_byte(v, 7) as u64;
    if w == 1 {
        assert(t[off] == le_byte(v, 0));
    } else if w == 2 {
        assert(t[off] == le_byte(v, 0) && t[off + 1] == le_byte(v, 1));
        assert(b0 + 256 * b1 == v & 0xffff) by (bit_vector)
            requires
                b0 == v & 0xff,
                b1 == (v >> 8) & 0xff,
        ;
    } else if w == 4 {
        assert(t[off] == le_byte(v, 0) && t[off + 1] == le_byte(v, 1) && t[off + 2] == le_byte(v, 2)
            && t[off + 3] == le_byte(v, 3));
        assert(b0 + 256 * (b1 + 256 * (b2 + 256 * b3)) == v & 0xffff_ffff) by (bit_vector)
            requires
                b0 == v & 0xff,
                b1 == (v >> 8) & 0xff,
                b2 == (v >> 16) & 0xff,
                b3 == (v >> 24) & 0xff,
        ;
    } else {
        assert(t[off] == le_byte(v, 0) && t[off + 1] == le_byte(v, 1) && t[off + 2] == le_byte(v, 2)
            && t[off + 3] == le_byte(v, 3) && t[off + 4] == le_byte(v, 4) && t[off + 5] == le_byte(v, 5)
            && t[off + 6] == le_byte(v, 6) && t[off + 7] == le_byte(v, 7));
        assert(b0 + 256 * (b1 + 256 * (b2 + 256 * (b3 + 256 * (b4 + 256 * (b5 + 256 * (b6 + 256
            * b7)))))) == v) by (bit_vector)
            requires
                b0 == v & 0xff,
                b1 == (v >> 8) & 0xff,
                b2 == (v >> 16) & 0xff,
                b3 == (v >> 24) & 0xff,
                b4 == (v >> 32) & 0xff,
                b5 == (v >> 40) & 0xff,
                b6 == (v >> 48) & 0xff,
                b7 == (v >> 56) & 0xff,
        ;
    }
}

/// The value of `w` bytes is below `2^(8w)`.
pub proof fn lemma_le_value_bound(s: Seq<u8>, off: int, w: nat)
    ensures
        le_value(s, off, w) < vstd::arithmetic::power2::pow2(8 * w),
    decreases w,
{
    vstd::arithmetic::power2::lemma2_to64();
    if w > 0 {
        lemma_le_value_bound(s, off + 1, (w - 1) as nat);
        vstd::arithmetic::power2::lemma_pow2_adds(8 * (w - 1) as nat, 8);
        let p = vstd::arithmetic::power2::pow2(8 * (w - 1) as nat);
        let rest = le_value(s, off + 1, (w - 1) as nat);
        assert(s[off] as nat + 256 * rest < 256 * p) by (nonlinear_arith)
            requires
                rest < p,
                s[off] < 256,
        ;
        assert(8 * (w - 1) as nat + 8 == 8 * w);
    }
}

} // verus!
