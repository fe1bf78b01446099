use vstd::prelude::*;

use crate::cpu::cpu_core::Cpu;
use crate::cpu::memory::memory_core::Memory;
use crate::cpu::memory::mmu::spec_walk_sv39;
use crate::isa::rv32i::control_transfer::{branch_taken, rv32_relative_target, rv32i_uj_done};
use crate::isa::rv32m::muldiv_reg_reg::rv32m_value;
use crate::isa::rv32_zicsr::zicsr::csr32_new_value;
use crate::isa::rv64m::muldiv_reg_reg::rv64m_value;
use crate::isa::rv64_zicsr::zicsr::csr_new_value;
use crate::isa::rv64a::amo::{amo_loaded, amo_result};
use crate::isa::semantics::{abs_int, rs1_of, rs2_of, tdiv, trem};
use crate::types::{sb_bits, sext, Op};

verus! {

/// Facts of two's-complement arithmetic and of the bitwise operators, one bit at a time.
proof fn lemma_bit_facts()
    by (bit_vector)
    ensures
        forall|x: u64, y: u64, i: u64|
            #![trigger (x & y) >> i]
            i < 64 ==> ((((x & y) >> i) & 1 == 1) == (((x >> i) & 1 == 1) && ((y >> i) & 1 == 1))),
        forall|x: u64, y: u64, i: u64|
            #![trigger (x | y) >> i]
            i < 64 ==> ((((x | y) >> i) & 1 == 1) == (((x >> i) & 1 == 1) || ((y >> i) & 1 == 1))),
        forall|x: u64, y: u64, i: u64|
            #![trigger (x ^ y) >> i]
            i < 64 ==> ((((x ^ y) >> i) & 1 == 1) == (((x >> i) & 1 == 1) != ((y >> i) & 1 == 1))),
        forall|x: u64, y: u64, i: u64|
            #![trigger (x & !y) >> i]
            i < 64 ==> ((((x & !y) >> i) & 1 == 1) == (((x >> i) & 1 == 1) && !((y >> i) & 1 == 1))),
        forall|a: u32| #![trigger (a as i32)] (a as i32) < 0 <==> a >= 0x8000_0000,
        forall|a: u32|
            #![trigger (a as i32)]
            (a < 0x8000_0000 ==> (a as i32) as int == a as int) && (a >= 0x8000_0000 ==> (a as i32) as int
                == a as int - 0x1_0000_0000),
        forall|t: i32| #![trigger (t as u32)] ((t as u32) as i32) == t,
        forall|t: u64, o: u64|
            #![trigger (((t >> 10u64) & 0xfff_ffff_ffff) << 12u64) | (o & 0xfff)]
            ((((t >> 10u64) & 0xfff_ffff_ffff) << 12u64) | (o & 0xfff)) % 4096 == o % 4096 && ((((t >> 10u64)
                & 0xfff_ffff_ffff) << 12u64) | (o & 0xfff)) / 4096 == (t / 1024) % 0x1000_0000_0000,
        forall|x: u64| #![trigger x & 1] (x & 1 == 1) == (x % 2 == 1),
        forall|x: u64, y: u64, i: u64|
            #![trigger ((x as u32) & (y as u32)) as u64 >> i]
            i < 32 ==> (((((x as u32) & (y as u32)) as u64 >> i) & 1 == 1) == (((x >> i) & 1 == 1) && ((y >> i)
                & 1 == 1))),
        forall|x: u64, y: u64, i: u64|
            #![trigger ((x as u32) | (y as u32)) as u64 >> i]
            i < 32 ==> (((((x as u32) | (y as u32)) as u64 >> i) & 1 == 1) == (((x >> i) & 1 == 1) || ((y >> i)
                & 1 == 1))),
        forall|x: u64, y: u64, i: u64|
            #![trigger ((x as u32) ^ (y as u32)) as u64 >> i]
            i < 32 ==> (((((x as u32) ^ (y as u32)) as u64 >> i) & 1 == 1) == (((x >> i) & 1 == 1) != ((y >> i)
                & 1 == 1))),
        forall|x: u32| #![trigger (x as u64)] (x as u64) < 0x1_0000_0000,
        forall|v: u64|
            #![trigger (v as i64)]
            (v < 0x8000_0000_0000_0000 ==> (v as i64) as int == v as int) && (v >= 0x8000_0000_0000_0000 ==> (v
                as i64) as int == v as int - 0x1_0000_0000_0000_0000),
        forall|t: i64|
            #![trigger (t as u64)]
            (t >= 0 ==> (t as u64) as int == t as int) && (t < 0 ==> (t as u64) as int == t as int
                + 0x1_0000_0000_0000_0000),
        forall|t: i32|
            #![trigger (t as u32)]
            (t >= 0 ==> (t as u32) as int == t as int) && (t < 0 ==> (t as u32) as int == t as int + 0x1_0000_0000),
        forall|x: u64| #![trigger (x as u32)] (x as u32) as int == x as int % 0x1_0000_0000,
        forall|z: u64| #![trigger z >> 32u64] z >> 32u64 == z / 0x1_0000_0000,
        forall|x: u32, y: u32, i: u32|
            #![trigger (x | y) >> i]
            i < 32 ==> ((((x | y) >> i) & 1 == 1) == (((x >> i) & 1 == 1) || ((y >> i) & 1 == 1))),
        forall|x: u32, y: u32, i: u32|
            #![trigger (x & !y) >> i]
            i < 32 ==> ((((x & !y) >> i) & 1 == 1) == (((x >> i) & 1 == 1) && !((y >> i) & 1 == 1))),
{
}

/// Bit `i` of `x` is set.
pub open spec fn bit(x: u64, i: u64) -> bool {
    (x >> i) & 1 == 1
}

/// The two's-complement value of a 32-bit word.
pub open spec fn signed32(a: u32) -> int {
    if a < 0x8000_0000 { a as int } else { a as int - 0x1_0000_0000 }
}

/// Sv39 translation keeps the whole page offset: the physical address has the offset of the
/// virtual one within its 4 KiB page, and its page number is the physical page number of a
/// valid page-table entry held in memory.
pub proof fn law_sv39_keeps_page_offset<M: Memory>(mem: M, va: u64, satp: u64)
    ensures
        spec_walk_sv39(mem, va, satp) matches Ok(pa) ==> {
            &&& pa % 4096 == va % 4096
            &&& exists|a: u64, leaf: u64|
                #![trigger mem.load(a, 8), leaf / 1024]
                mem.load(a, 8) == Some(leaf) && leaf % 2 == 1 && pa / 4096 == (leaf / 1024) % 0x1000_0000_0000
        },
{
    lemma_bit_facts();
    if let Ok(pa) = spec_walk_sv39(mem, va, satp) {
        let (a, leaf) = walk_leaf(mem, va, satp);
        assert(mem.load(a, 8) == Some(leaf) && leaf % 2 == 1 && pa / 4096 == (leaf / 1024) % 0x1000_0000_0000);
    }
}

/// The last step of a successful walk: the level-0 entry it reads and the address it gives.
proof fn walk_leaf<M: Memory>(mem: M, va: u64, satp: u64) -> (r: (u64, u64))
    requires
        spec_walk_sv39(mem, va, satp) is Ok,
    ensures
        mem.load(r.0, 8) == Some(r.1),
        r.1 & 1 == 1,
        spec_walk_sv39(mem, va, satp) == Ok::<u64, crate::error::EmuError>(
            (((r.1 >> 10u64) & 0xfff_ffff_ffff) << 12u64) | (va & 0xfff),
        ),
{
    let pa = spec_walk_sv39(mem, va, satp)->Ok_0;
    let l2_addr = (crate::cpu::memory::mmu::spec_root_page_table(satp) + crate::cpu::memory::mmu::vpn(va, 2) * 8) as u64;
    assert(mem.load(l2_addr, 8) is Some);
    let l2 = mem.load(l2_addr, 8)->0;
    assert(crate::cpu::memory::mmu::pte_valid(l2) && !crate::cpu::memory::mmu::pte_leaf(l2));
    let l1_addr = (crate::cpu::memory::mmu::pte_target(l2) + crate::cpu::memory::mmu::vpn(va, 1) * 8) as u64;
    assert(mem.load(l1_addr, 8) is Some);
    let l1 = mem.load(l1_addr, 8)->0;
    assert(crate::cpu::memory::mmu::pte_valid(l1) && !crate::cpu::memory::mmu::pte_leaf(l1));
    let l0_addr = (crate::cpu::memory::mmu::pte_target(l1) + crate::cpu::memory::mmu::vpn(va, 0) * 8) as u64;
    assert(mem.load(l0_addr, 8) is Some);
    let l0 = mem.load(l0_addr, 8)->0;
    assert(mem.load(l0_addr, 8) == Some(l0));
    assert(crate::cpu::memory::mmu::pte_valid(l0));
    assert(pa == crate::cpu::memory::mmu::pte_target(l0) | (va & 0xfff));
    assert(l0 / 1024 == l0 / 1024);
    assert(spec_walk_sv39(mem, va, satp) == Ok::<u64, crate::error::EmuError>(
        (((l0 >> 10u64) & 0xfff_ffff_ffff) << 12u64) | (va & 0xfff),
    ));
    assert(l0 & 1 == 1);
    (l0_addr, l0)
}

/// The atomic memory operations combine the loaded value `v` with the source `src` as their
/// names say: swap stores the source, AND, OR and XOR act bit by bit, and the word forms act
/// on the low 32 bits and store a value that fits 32 bits. The doubleword forms hand the
/// loaded value to `rd` unchanged.
pub proof fn law_amo_results(v: u64, src: u64)
    ensures
        amo_result(Op::AmoswapD, v, src) == src,
        amo_loaded(Op::AmoswapD, v) == v,
        amo_loaded(Op::AmoandD, v) == v,
        amo_loaded(Op::AmoorD, v) == v,
        amo_loaded(Op::AmoxorD, v) == v,
        amo_loaded(Op::AmoaddD, v) == v,
        forall|i: u64|
            i < 64 ==> (#[trigger] bit(amo_result(Op::AmoandD, v, src), i) == (bit(v, i) && bit(src, i))),
        forall|i: u64|
            i < 64 ==> (#[trigger] bit(amo_result(Op::AmoorD, v, src), i) == (bit(v, i) || bit(src, i))),
        forall|i: u64|
            i < 64 ==> (#[trigger] bit(amo_result(Op::AmoxorD, v, src), i) == (bit(v, i) != bit(src, i))),
        forall|i: u64|
            i < 32 ==> (#[trigger] bit(amo_result(Op::AmoandW, v, src), i) == (bit(v, i) && bit(src, i))),
        forall|i: u64|
            i < 32 ==> (#[trigger] bit(amo_result(Op::AmoorW, v, src), i) == (bit(v, i) || bit(src, i))),
        forall|i: u64|
            i < 32 ==> (#[trigger] bit(amo_result(Op::AmoxorW, v, src), i) == (bit(v, i) != bit(src, i))),
        amo_result(Op::AmoandW, v, src) < 0x1_0000_0000,
        amo_result(Op::AmoorW, v, src) < 0x1_0000_0000,
        amo_result(Op::AmoxorW, v, src) < 0x1_0000_0000,
{
    lemma_bit_facts();
}

/// The new value of a control register: CSRRW and CSRRWI replace it with the source, CSRRS
/// and CSRRSI only set the bits set in the source (every bit set before stays set), and CSRRC
/// and CSRRCI only clear them (every bit clear before stays clear). The source is register
/// `rs1` for the plain forms and the 5-bit field itself for the immediate forms.
pub proof fn law_csr_new_value(old: u64, w: u32, x: Seq<u64>)
    ensures
        csr_new_value(Op::C64Csrrw, old, w, x) == x[rs1_of(w) as int],
        csr_new_value(Op::C64Csrrwi, old, w, x) == rs1_of(w) as u64,
        forall|i: u64|
            i < 64 ==> (#[trigger] bit(csr_new_value(Op::C64Csrrs, old, w, x), i) == (bit(old, i) || bit(
                x[rs1_of(w) as int],
                i,
            ))),
        forall|i: u64|
            i < 64 ==> (#[trigger] bit(csr_new_value(Op::C64Csrrsi, old, w, x), i) == (bit(old, i) || bit(
                rs1_of(w) as u64,
                i,
            ))),
        forall|i: u64|
            i < 64 ==> (#[trigger] bit(csr_new_value(Op::C64Csrrc, old, w, x), i) == (bit(old, i) && !bit(
                x[rs1_of(w) as int],
                i,
            ))),
        forall|i: u64|
            i < 64 ==> (#[trigger] bit(csr_new_value(Op::C64Csrrci, old, w, x), i) == (bit(old, i) && !bit(
                rs1_of(w) as u64,
                i,
            ))),
{
    lemma_bit_facts();
}

/// Conditional branches compare their operands as RISC-V says for `BEQ`, `BNE`, `BLT` and
/// `BGEU`: equality, inequality, signed less-than (two's complement) and unsigned
/// greater-or-equal. `BGE` and `BLTU` keep this emulator's comparisons: signed greater-than
/// and unsigned less-or-equal.
pub proof fn law_branch_conditions(a: u32, b: u32)
    ensures
        branch_taken(Op::Beq, a, b) == (a == b),
        branch_taken(Op::Bne, a, b) == (a != b),
        branch_taken(Op::Blt, a, b) == (signed32(a) < signed32(b)),
        branch_taken(Op::Bge, a, b) == (signed32(a) > signed32(b)),
        branch_taken(Op::Bltu, a, b) == (a <= b),
        branch_taken(Op::Bgeu, a, b) == (a >= b),
        a >= 0x8000_0000 && b < 0x8000_0000 ==> branch_taken(Op::Blt, a, b),
{
    lemma_bit_facts();
    assert((a as i32) as int == signed32(a));
    assert((b as i32) as int == signed32(b));
}

/// A conditional branch moves the program counter to its target relative to the current
/// instruction exactly when its condition holds over the two source registers (signed for
/// `BLT`), and leaves the registers as they were.
pub proof fn law_branch_moves_pc<M: Memory>(before: Cpu<M>, after: Cpu<M>, op: Op, w: u32)
    requires
        op == Op::Beq || op == Op::Bne || op == Op::Blt || op == Op::Bge || op == Op::Bltu || op == Op::Bgeu,
        rv32i_uj_done(before, after, op, w),
    ensures
        ({
            let a = before.x32()[rs1_of(w) as int];
            let b = before.x32()[rs2_of(w) as int];
            let target = rv32_relative_target(before.current_instruction_pc_64, sext(sb_bits(w), 13));
            &&& op == Op::Blt ==> after.pc() == (if signed32(a) < signed32(b) { target } else { before.pc() })
            &&& op == Op::Beq ==> after.pc() == (if a == b { target } else { before.pc() })
            &&& op == Op::Bne ==> after.pc() == (if a != b { target } else { before.pc() })
            &&& after.x32() == before.x32()
        }),
{
    let a = before.x32()[rs1_of(w) as int];
    let b = before.x32()[rs2_of(w) as int];
    law_branch_conditions(a, b);
}

/// Unsigned division and remainder: for a nonzero divisor the quotient `q` is the largest with
/// `q * b <= a`, and quotient and remainder rebuild the dividend with a remainder below the
/// divisor; dividing by zero gives all ones and leaves the dividend as the remainder.
pub proof fn law_rv32_unsigned_division(w: u32, x: Seq<u32>)
    ensures
        ({
            let a = x[rs1_of(w) as int];
            let b = x[rs2_of(w) as int];
            let q = rv32m_value(Op::M32Divu, w, x);
            let r = rv32m_value(Op::M32Remu, w, x);
            &&& b != 0 ==> q * b <= a < (q + 1) * b
            &&& b != 0 ==> a == q * b + r && r < b
            &&& b == 0 ==> q == 0xffff_ffff && r == a
        }),
{
    let a = x[rs1_of(w) as int];
    let b = x[rs2_of(w) as int];
    if b != 0 {
        let q = a / b;
        let r = a % b;
        assert(a == q * b + r && r < b) by (nonlinear_arith)
            requires
                b > 0,
                q == a / b,
                r == a % b,
        ;
        assert(q * b <= a < (q + 1) * b) by (nonlinear_arith)
            requires
                a == q * b + r,
                0 <= r < b,
        ;
    }
}

/// Truncating division of integers: the quotient rebuilds the dividend with a remainder that
/// is smaller than the divisor in magnitude and has the sign of the dividend (or is zero), and
/// the quotient is no larger than the dividend in magnitude.
proof fn lemma_tdiv(a: int, b: int)
    requires
        b != 0,
    ensures
        a == b * tdiv(a, b) + trem(a, b),
        abs_int(trem(a, b)) < abs_int(b),
        trem(a, b) == 0 || (trem(a, b) < 0) == (a < 0),
        abs_int(tdiv(a, b)) <= abs_int(a),
{
    let aa = abs_int(a);
    let bb = abs_int(b);
    let q = aa / bb;
    let r0 = aa % bb;
    assert(aa == q * bb + r0 && 0 <= r0 < bb && 0 <= q <= aa) by (nonlinear_arith)
        requires
            bb > 0,
            aa >= 0,
            q == aa / bb,
            r0 == aa % bb,
    ;
    let t = tdiv(a, b);
    assert(t == (if (a < 0) == (b < 0) { q } else { -q }));
    assert(trem(a, b) == (if a < 0 { -r0 } else { r0 })) by (nonlinear_arith)
        requires
            aa == q * bb + r0,
            aa == (if a < 0 { -a } else { a }),
            bb == (if b < 0 { -b } else { b }),
            t == (if (a < 0) == (b < 0) { q } else { -q }),
            trem(a, b) == a - b * t,
    ;
}

/// Signed division and remainder of 32-bit words (two's complement): for a nonzero divisor,
/// outside the one overflowing case, quotient and remainder rebuild the dividend, the
/// remainder is smaller than the divisor in magnitude and takes the sign of the dividend;
/// dividing by zero gives all ones and leaves the dividend as the remainder, and the
/// overflowing case gives the most negative value.
pub proof fn law_rv32_signed_division(w: u32, x: Seq<u32>)
    ensures
        ({
            let sa = signed32(x[rs1_of(w) as int]);
            let sb = signed32(x[rs2_of(w) as int]);
            let q = signed32(rv32m_value(Op::M32Div, w, x));
            let r = signed32(rv32m_value(Op::M32Rem, w, x));
            &&& sb != 0 && !(sa == -0x8000_0000 && sb == -1) ==> sa == q * sb + r && abs_int(r) < abs_int(sb) && (r == 0
                || (r < 0) == (sa < 0))
            &&& sb == 0 ==> rv32m_value(Op::M32Div, w, x) == 0xffff_ffff && rv32m_value(Op::M32Rem, w, x)
                == x[rs1_of(w) as int]
            &&& sa == -0x8000_0000 && sb == -1 ==> rv32m_value(Op::M32Div, w, x) == 0x8000_0000
        }),
{
    lemma_bit_facts();
    let a = x[rs1_of(w) as int];
    let b = x[rs2_of(w) as int];
    let sa = (a as i32) as int;
    let sb = (b as i32) as int;
    assert(sa == signed32(a) && sb == signed32(b));
    if sb != 0 && !(sa == -0x8000_0000 && sb == -1) {
        lemma_tdiv(sa, sb);
        let t = tdiv(sa, sb);
        let tr = trem(sa, sb);
        assert(-0x8000_0000 <= t < 0x8000_0000) by {
            if t >= 0x8000_0000 {
                assert(false) by (nonlinear_arith)
                    requires
                        sa == sb * t + tr,
                        sb > 0 ==> -sb < tr < sb,
                        sb < 0 ==> sb < tr < -sb,
                        -0x8000_0000 <= sa < 0x8000_0000,
                        -0x8000_0000 <= sb < 0x8000_0000,
                        t <= 0x8000_0000,
                        t >= 0x8000_0000,
                        sb != 0,
                        !(sa == -0x8000_0000 && sb == -1),
                ;
            }
        }
        assert(-0x8000_0000 <= tr < 0x8000_0000);
        let ti = t as i32;
        let ri = tr as i32;
        assert(ti as int == t && ri as int == tr);
        assert(((ti as u32) as i32) == ti && ((ri as u32) as i32) == ri);
        assert(signed32(ti as u32) == t);
        assert(signed32(ri as u32) == tr);
        assert(rv32m_value(Op::M32Div, w, x) == ti as u32);
        assert(rv32m_value(Op::M32Rem, w, x) == ri as u32);
        assert(sa == t * sb + tr) by (nonlinear_arith)
            requires
                sa == sb * t + tr,
        ;
    }
}

/// Bit `i` of the 32-bit word `x` is set.
pub open spec fn bit32(x: u32, i: u32) -> bool {
    (x >> i) & 1 == 1
}

/// The new value of a 32-bit control register: CSRRW and CSRRWI replace it with the source,
/// CSRRS and CSRRSI only set the bits set in the source, CSRRC and CSRRCI only clear them.
pub proof fn law_csr32_new_value(old: u32, w: u32, x: Seq<u32>)
    ensures
        csr32_new_value(Op::C32Csrrw, old, w, x) == x[rs1_of(w) as int],
        csr32_new_value(Op::C32Csrrwi, old, w, x) == rs1_of(w) as u32,
        forall|i: u32|
            i < 32 ==> (#[trigger] bit32(csr32_new_value(Op::C32Csrrs, old, w, x), i) == (bit32(old, i) || bit32(
                x[rs1_of(w) as int],
                i,
            ))),
        forall|i: u32|
            i < 32 ==> (#[trigger] bit32(csr32_new_value(Op::C32Csrrsi, old, w, x), i) == (bit32(old, i) || bit32(
                rs1_of(w) as u32,
                i,
            ))),
        forall|i: u32|
            i < 32 ==> (#[trigger] bit32(csr32_new_value(Op::C32Csrrc, old, w, x), i) == (bit32(old, i) && !bit32(
                x[rs1_of(w) as int],
                i,
            ))),
        forall|i: u32|
            i < 32 ==> (#[trigger] bit32(csr32_new_value(Op::C32Csrrci, old, w, x), i) == (bit32(old, i) && !bit32(
                rs1_of(w) as u32,
                i,
            ))),
{
    lemma_bit_facts();
}

/// Unsigned 64-bit division and remainder: for a nonzero divisor the quotient `q` satisfies
/// `q * b <= a < (q + 1) * b` and quotient and remainder rebuild the dividend; dividing by zero
/// gives all ones and leaves the dividend as the remainder.
pub proof fn law_rv64_unsigned_division(w: u32, x: Seq<u64>)
    ensures
        ({
            let a = x[rs1_of(w) as int];
            let b = x[rs2_of(w) as int];
            let q = rv64m_value(Op::M64Divu, w, x);
            let r = rv64m_value(Op::M64Remu, w, x);
            &&& b != 0 ==> q * b <= a < (q + 1) * b
            &&& b != 0 ==> a == q * b + r && r < b
            &&& b == 0 ==> q == u64::MAX && r == a
        }),
{
    let a = x[rs1_of(w) as int];
    let b = x[rs2_of(w) as int];
    if b != 0 {
        let q = a / b;
        let r = a % b;
        assert(a == q * b + r && r < b) by (nonlinear_arith)
            requires
                b > 0,
                q == a / b,
                r == a % b,
        ;
        assert(q * b <= a < (q + 1) * b) by (nonlinear_arith)
            requires
                a == q * b + r,
                0 <= r < b,
        ;
    }
}

/// The atomic adds store the sum of the loaded value and the source, wrapping around: modulo
/// 2^64 for the doubleword form, and of the low 32 bits modulo 2^32 for the word form.
pub proof fn law_amo_add(v: u64, src: u64)
    ensures
        amo_result(Op::AmoaddD, v, src) as int == (v as int + src as int) % 0x1_0000_0000_0000_0000,
        amo_result(Op::AmoaddW, v, src) as int == (v as int % 0x1_0000_0000 + src as int % 0x1_0000_0000)
            % 0x1_0000_0000,
        amo_result(Op::AmoswapW, v, src) as int == src as int % 0x1_0000_0000,
{
    lemma_bit_facts();
    let sv = (v as i64) as int;
    let ss = (src as i64) as int;
    let d = v as u32;
    let s = src as u32;
    let sd = (d as i32) as int;
    let s2 = (s as i32) as int;
    assert(d as int == v as int % 0x1_0000_0000);
    assert(s as int == src as int % 0x1_0000_0000);
}

/// `MULHU` gives the high 32 bits of the full unsigned product.
pub proof fn law_rv32_mulhu(w: u32, x: Seq<u32>)
    ensures
        rv32m_value(Op::M32Mulhu, w, x) as int == (x[rs1_of(w) as int] as int * x[rs2_of(w) as int] as int)
            / 0x1_0000_0000,
{
    lemma_bit_facts();
    let a = x[rs1_of(w) as int];
    let b = x[rs2_of(w) as int];
    assert((a as u64) * (b as u64) <= 0xffff_fffe_0000_0001) by (nonlinear_arith)
        requires
            a <= 0xffff_ffff,
            b <= 0xffff_ffff,
    ;
    let z = ((a as u64) * (b as u64)) as u64;
    assert(z as int == a as int * b as int);
    assert(z / 0x1_0000_0000 < 0x1_0000_0000);
}

} // verus!
