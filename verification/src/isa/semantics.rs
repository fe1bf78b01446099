use vstd::prelude::*;

use crate::cpu::cpu_core::{wx32, wx64, Cpu};
use crate::cpu::memory::memory_core::Memory;
use crate::types::field;

verus! {

/// Destination register field of an instruction word.
pub open spec fn rd_of(w: u32) -> u8 {
    field(w, 7, 0x1f) as u8
}

/// First source register field of an instruction word.
pub open spec fn rs1_of(w: u32) -> u8 {
    field(w, 15, 0x1f) as u8
}

/// Second source register field of an instruction word.
pub open spec fn rs2_of(w: u32) -> u8 {
    field(w, 20, 0x1f) as u8
}

/// The 12-bit immediate field of an I-type word.
pub open spec fn imm_i_of(w: u32) -> u16 {
    field(w, 20, 0xfff) as u16
}

/// `after` is `before` with 32-bit register `rd` set to `v`; the program counter and
/// everything else are unchanged.
pub open spec fn writes_x32<M: Memory>(before: Cpu<M>, after: Cpu<M>, rd: u8, v: u32) -> bool {
    before.regs_set(&after, wx32(before.x32(), rd, v), before.x64(), before.pc())
}

/// `after` is `before` with 64-bit register `rd` set to `v`; the program counter and
/// everything else are unchanged.
pub open spec fn writes_x64<M: Memory>(before: Cpu<M>, after: Cpu<M>, rd: u8, v: u64) -> bool {
    before.regs_set(&after, before.x32(), wx64(before.x64(), rd, v), before.pc())
}

/// A single-precision bit pattern held in a 64-bit floating-point register: the upper half
/// is all ones.
pub open spec fn nan_boxed(v: u32) -> u64 {
    0xffff_ffff_0000_0000u64 | (v as u64)
}

/// `after` is `before` with floating-point register `rd` set to the bit pattern `v`; nothing
/// else changes.
pub open spec fn writes_f<M: Memory>(before: Cpu<M>, after: Cpu<M>, rd: u8, v: u64) -> bool {
    &&& after.f_regs() == before.f_regs().update(rd as int, v)
    &&& after == (Cpu { reg_f: after.reg_f, ..before })
}

/// `after` is `before` with nothing changed.
pub open spec fn no_effect<M: Memory>(before: Cpu<M>, after: Cpu<M>) -> bool {
    before.regs_set(&after, before.x32(), before.x64(), before.pc())
}

/// The register fields of a word name registers, and the immediate field has 12 bits.
pub proof fn lemma_fields_in_range(w: u32)
    ensures
        rd_of(w) < 32,
        rs1_of(w) < 32,
        rs2_of(w) < 32,
        imm_i_of(w) < 4096,
{
    assert((w >> 7u32) & 0x1f < 32 && (w >> 15u32) & 0x1f < 32 && (w >> 20u32) & 0x1f < 32 && (w
        >> 20u32) & 0xfff < 4096) by (bit_vector);
}

/// The absolute value of `a`.
pub open spec fn abs_int(a: int) -> int {
    if a < 0 { -a } else { a }
}

/// The quotient of `a / b` rounded toward zero, as Rust's signed division computes it.
pub open spec fn tdiv(a: int, b: int) -> int {
    let q = abs_int(a) / abs_int(b);
    if (a < 0) == (b < 0) { q } else { -q }
}

/// The remainder of `a / b` rounded toward zero: it takes the sign of `a`.
pub open spec fn trem(a: int, b: int) -> int {
    a - b * tdiv(a, b)
}

/// Signed division rounded toward zero.
pub fn div_trunc(a: i64, b: i64) -> (q: i64)
    requires
        b != 0,
        !(a == i64::MIN && b == -1),
    ensures
        q == tdiv(a as int, b as int),
{
    let la = a as i128;
    let lb = b as i128;
    let ma: u128 = if la < 0 { (-la) as u128 } else { la as u128 };
    let mb: u128 = if lb < 0 { (-lb) as u128 } else { lb as u128 };
    let m = ma / mb;
    assert(m <= ma) by (nonlinear_arith)
        requires
            mb >= 1,
            m == ma / mb,
    ;
    if (la < 0) == (lb < 0) {
        if a == i64::MIN {
            assert(mb >= 2);
            assert(m <= ma / 2) by (nonlinear_arith)
                requires
                    mb >= 2,
                    m == ma / mb,
            ;
        }
        m as i64
    } else {
        -(m as i128) as i64
    }
}

/// Signed remainder of the division rounded toward zero.
pub fn rem_trunc(a: i64, b: i64) -> (r: i64)
    requires
        b != 0,
        !(a == i64::MIN && b == -1),
    ensures
        r == trem(a as int, b as int),
{
    let q = div_trunc(a, b);
    assert(-0x8000_0000_0000_0000_0000_0000_0000_0000 < (b as int) * (q as int) < 0x7fff_ffff_ffff_ffff_ffff_ffff_ffff_ffff) by (nonlinear_arith)
        requires
            -0x8000_0000_0000_0000 <= b <= 0x7fff_ffff_ffff_ffff,
            -0x8000_0000_0000_0000 <= q <= 0x7fff_ffff_ffff_ffff,
    ;
    let p: i128 = (b as i128) * (q as i128);
    assert(abs_int(a - p) < abs_int(b as int)) by (nonlinear_arith)
        requires
            q == tdiv(a as int, b as int),
            p == b * q,
            b != 0,
    {
        let ma = abs_int(a as int);
        let mb = abs_int(b as int);
        assert(ma == mb * (ma / mb) + ma % mb);
    }
    ((a as i128) - p) as i64
}

} // verus!
