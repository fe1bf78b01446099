use vstd::prelude::*;

use crate::cpu::cpu_core::Cpu;
use crate::cpu::memory::memory_core::Memory;
use crate::error::EmuError;
use crate::isa::semantics::{
    div_trunc, lemma_fields_in_range, rd_of, rem_trunc, rs1_of, rs2_of, tdiv, trem, writes_x64,
};
use crate::types::{parse_instruction_r, Instruction, InstructionType, Op, Word};

verus! {

/// The instructions of this set, in the order the decoder tries them.
pub open spec fn spec_rv64m_set_r() -> Seq<Instruction> {
    seq![
        Instruction { mask: 0xfe00707f, bits: 0x2000033, name: "MUL", instruction_type: InstructionType::R, op: Op::M64Mul },
        Instruction { mask: 0xfe00707f, bits: 0x200003b, name: "MULW", instruction_type: InstructionType::R, op: Op::MulW },
        Instruction { mask: 0xfe00707f, bits: 0x2001033, name: "MULH", instruction_type: InstructionType::R, op: Op::M64Mulh },
        Instruction { mask: 0xfe00707f, bits: 0x2002033, name: "MULHSU", instruction_type: InstructionType::R, op: Op::M64Mulhsu },
        Instruction { mask: 0xfe00707f, bits: 0x2003033, name: "MULHU", instruction_type: InstructionType::R, op: Op::M64Mulhu },
        Instruction { mask: 0xfe00707f, bits: 0x2004033, name: "DIV", instruction_type: InstructionType::R, op: Op::M64Div },
        Instruction { mask: 0xfe00707f, bits: 0x200403b, name: "DIVW", instruction_type: InstructionType::R, op: Op::DivW },
        Instruction { mask: 0xfe00707f, bits: 0x2005033, name: "DIVU", instruction_type: InstructionType::R, op: Op::M64Divu },
        Instruction { mask: 0xfe00707f, bits: 0x200503b, name: "DIVUW", instruction_type: InstructionType::R, op: Op::DivuW },
        Instruction { mask: 0xfe00707f, bits: 0x2006033, name: "REM", instruction_type: InstructionType::R, op: Op::M64Rem },
        Instruction { mask: 0xfe00707f, bits: 0x200603b, name: "REMW", instruction_type: InstructionType::R, op: Op::RemW },
        Instruction { mask: 0xfe00707f, bits: 0x2007033, name: "REMU", instruction_type: InstructionType::R, op: Op::M64Remu },
        Instruction { mask: 0xfe00707f, bits: 0x200703b, name: "REMUW", instruction_type: InstructionType::R, op: Op::RemuW },
    ]
}

/// The instructions of this set, in the order the decoder tries them.
pub fn rv64m_set_r() -> (v: Vec<Instruction>)
    ensures
        v@ == spec_rv64m_set_r(),
{
    let mut v: Vec<Instruction> = Vec::new();
    v.push(Instruction { mask: 0xfe00707f, bits: 0x2000033, name: "MUL", instruction_type: InstructionType::R, op: Op::M64Mul });
    v.push(Instruction { mask: 0xfe00707f, bits: 0x200003b, name: "MULW", instruction_type: InstructionType::R, op: Op::MulW });
    v.push(Instruction { mask: 0xfe00707f, bits: 0x2001033, name: "MULH", instruction_type: InstructionType::R, op: Op::M64Mulh });
    v.push(Instruction { mask: 0xfe00707f, bits: 0x2002033, name: "MULHSU", instruction_type: InstructionType::R, op: Op::M64Mulhsu });
    v.push(Instruction { mask: 0xfe00707f, bits: 0x2003033, name: "MULHU", instruction_type: InstructionType::R, op: Op::M64Mulhu });
    v.push(Instruction { mask: 0xfe00707f, bits: 0x2004033, name: "DIV", instruction_type: InstructionType::R, op: Op::M64Div });
    v.push(Instruction { mask: 0xfe00707f, bits: 0x200403b, name: "DIVW", instruction_type: InstructionType::R, op: Op::DivW });
    v.push(Instruction { mask: 0xfe00707f, bits: 0x2005033, name: "DIVU", instruction_type: InstructionType::R, op: Op::M64Divu });
    v.push(Instruction { mask: 0xfe00707f, bits: 0x200503b, name: "DIVUW", instruction_type: InstructionType::R, op: Op::DivuW });
    v.push(Instruction { mask: 0xfe00707f, bits: 0x2006033, name: "REM", instruction_type: InstructionType::R, op: Op::M64Rem });
    v.push(Instruction { mask: 0xfe00707f, bits: 0x200603b, name: "REMW", instruction_type: InstructionType::R, op: Op::RemW });
    v.push(Instruction { mask: 0xfe00707f, bits: 0x2007033, name: "REMU", instruction_type: InstructionType::R, op: Op::M64Remu });
    v.push(Instruction { mask: 0xfe00707f, bits: 0x200703b, name: "REMUW", instruction_type: InstructionType::R, op: Op::RemuW });
    assert(v@ =~= spec_rv64m_set_r());
    v
}

/// The operations of this set.
pub open spec fn in_rv64m_set_r(op: Op) -> bool {
    match op {
        Op::M64Mul | Op::MulW | Op::M64Mulh | Op::M64Mulhsu | Op::M64Mulhu | Op::M64Div | Op::DivW
        | Op::M64Divu | Op::DivuW | Op::M64Rem | Op::RemW | Op::M64Remu | Op::RemuW => true,
        _ => false,
    }
}

/// A signed remainder of the most negative value by -1: Rust aborts on it.
pub open spec fn rv64m_overflows(op: Op, w: u32, x: Seq<u64>) -> bool {
    let a = x[rs1_of(w) as int];
    let b = x[rs2_of(w) as int];
    ||| op == Op::M64Rem && a as i64 == i64::MIN && b as i64 == -1
    ||| op == Op::RemW && a as i32 == i32::MIN && b as i32 == -1
}

/// The value a 64-bit multiply or divide instruction writes. The word forms work on the low
/// 32 bits and sign-extend; `DIVW` of the most negative word by -1 gives the most negative
/// doubleword.
pub open spec fn rv64m_value(op: Op, w: u32, x: Seq<u64>) -> u64 {
    let a = x[rs1_of(w) as int];
    let b = x[rs2_of(w) as int];
    let sa = (a as i64) as int;
    let sb = (b as i64) as int;
    let wa = (a as i32) as int;
    let wb = (b as i32) as int;
    let ua = a as u32;
    let ub = b as u32;
    match op {
        Op::M64Mul => ((sa * sb) as i64) as u64,
        Op::MulW => (((wa * wb) as i32) as i64) as u64,
        Op::M64Mulh => ((((sa * sb) as i128) >> 64u64) as i64) as u64,
        Op::M64Mulhsu => ((((sa * b) as i128) >> 64u64) as u64),
        Op::M64Mulhu => ((((a as u128) * (b as u128)) as u128 >> 64u64) as u64),
        Op::M64Div => if sb == 0 {
            u64::MAX
        } else if sa == i64::MIN && sb == -1 {
            0x8000_0000_0000_0000
        } else {
            (tdiv(sa, sb) as i64) as u64
        },
        Op::DivW => if wb == 0 {
            u64::MAX
        } else if wa == i32::MIN && wb == -1 {
            0x8000_0000_0000_0000
        } else {
            ((tdiv(wa, wb) as i32) as i64) as u64
        },
        Op::M64Divu => if b == 0 { u64::MAX } else { a / b },
        Op::DivuW => if ub == 0 { u64::MAX } else { (((ua / ub) as i32) as i64) as u64 },
        Op::M64Rem => if sb == 0 { a } else { (trem(sa, sb) as i64) as u64 },
        Op::RemW => if wb == 0 { (wa as i64) as u64 } else { ((trem(wa, wb) as i32) as i64) as u64 },
        Op::M64Remu => if b == 0 { a } else { a % b },
        _ => if ub == 0 { ((ua as i32) as i64) as u64 } else { (((ua % ub) as i32) as i64) as u64 },
    }
}

/// The outcome of a 64-bit multiply or divide instruction.
pub open spec fn rv64m_done<M: Memory>(before: Cpu<M>, after: Cpu<M>, op: Op, w: u32, r: Result<(), EmuError>) -> bool {
    &&& r is Err <==> rv64m_overflows(op, w, before.x64())
    &&& r is Err ==> after == before
    &&& r is Ok ==> writes_x64(before, after, rd_of(w), rv64m_value(op, w, before.x64()))
}

/// Executes a multiply or divide instruction on the 64-bit registers.
pub fn execute_rv64m_set_r<M: Memory>(cpu: &mut Cpu<M>, op: Op, word: &Word) -> (r: Result<(), EmuError>)
    requires
        old(cpu).wf(),
        in_rv64m_set_r(op),
    ensures
        final(cpu).wf(),
        rv64m_done(*old(cpu), *final(cpu), op, word.0, r),
{
    proof {
        lemma_fields_in_range(word.0);
    }
    let ins = parse_instruction_r(word);
    let a = cpu.read_x_u64(ins.rs1.0);
    let b = cpu.read_x_u64(ins.rs2.0);
    let sa = a as i64;
    let sb = b as i64;
    let wa = a as i32;
    let wb = b as i32;
    let ua = a as u32;
    let ub = b as u32;
    let v: u64 = match op {
        Op::M64Mul => {
            assert(-0x4000_0000_0000_0000_0000_0000_0000_0000 <= (sa as int) * (sb as int) <= 0x4000_0000_0000_0000_0000_0000_0000_0000) by (nonlinear_arith)
                requires
                    -0x8000_0000_0000_0000 <= sa <= 0x7fff_ffff_ffff_ffff,
                    -0x8000_0000_0000_0000 <= sb <= 0x7fff_ffff_ffff_ffff,
            ;
            let p = (sa as i128) * (sb as i128);
            (p as i64) as u64
        },
        Op::MulW => {
            assert(-0x4000_0000_0000_0000 <= (wa as int) * (wb as int) <= 0x4000_0000_0000_0000) by (nonlinear_arith)
                requires
                    -0x8000_0000 <= wa <= 0x7fff_ffff,
                    -0x8000_0000 <= wb <= 0x7fff_ffff,
            ;
            let p = (wa as i64) * (wb as i64);
            ((p as i32) as i64) as u64
        },
        Op::M64Mulh => {
            assert(-0x4000_0000_0000_0000_0000_0000_0000_0000 <= (sa as int) * (sb as int) <= 0x4000_0000_0000_0000_0000_0000_0000_0000) by (nonlinear_arith)
                requires
                    -0x8000_0000_0000_0000 <= sa <= 0x7fff_ffff_ffff_ffff,
                    -0x8000_0000_0000_0000 <= sb <= 0x7fff_ffff_ffff_ffff,
            ;
            let p = (sa as i128) * (sb as i128);
            ((p >> 64u64) as i64) as u64
        },
        Op::M64Mulhsu => {
            assert(-0x8000_0000_0000_0000_0000_0000_0000_0000 <= (sa as int) * (b as int) <= 0x7fff_ffff_ffff_ffff_0000_0000_0000_0000) by (nonlinear_arith)
                requires
                    -0x8000_0000_0000_0000 <= sa <= 0x7fff_ffff_ffff_ffff,
                    0 <= b <= 0xffff_ffff_ffff_ffff,
            ;
            let p = (sa as i128) * (b as i128);
            (p >> 64u64) as u64
        },
        Op::M64Mulhu => {
            assert((a as int) * (b as int) <= 0xffff_ffff_ffff_fffe_0000_0000_0000_0001) by (nonlinear_arith)
                requires
                    a <= 0xffff_ffff_ffff_ffff,
                    b <= 0xffff_ffff_ffff_ffff,
            ;
            let p = (a as u128) * (b as u128);
            (p >> 64u64) as u64
        },
        Op::M64Div => if sb == 0 {
            u64::MAX
        } else if sa == i64::MIN && sb == -1 {
            0x8000_0000_0000_0000
        } else {
            div_trunc(sa, sb) as u64
        },
        Op::DivW => if wb == 0 {
            u64::MAX
        } else if wa == i32::MIN && wb == -1 {
            0x8000_0000_0000_0000
        } else {
            ((div_trunc(wa as i64, wb as i64) as i32) as i64) as u64
        },
        Op::M64Divu => if b == 0 { u64::MAX } else { a / b },
        Op::DivuW => if ub == 0 { u64::MAX } else { (((ua / ub) as i32) as i64) as u64 },
        Op::M64Rem => if sb == 0 {
            a
        } else if sa == i64::MIN && sb == -1 {
            return Err(EmuError::ArithmeticOverflow);
        } else {
            rem_trunc(sa, sb) as u64
        },
        Op::RemW => if wb == 0 {
            (wa as i64) as u64
        } else if wa == i32::MIN && wb == -1 {
            return Err(EmuError::ArithmeticOverflow);
        } else {
            ((rem_trunc(wa as i64, wb as i64) as i32) as i64) as u64
        },
        Op::M64Remu => if b == 0 { a } else { a % b },
        _ => if ub == 0 { ((ua as i32) as i64) as u64 } else { (((ua % ub) as i32) as i64) as u64 },
    };
    cpu.write_x_u64(ins.rd.0, v);
    Ok(())
}

} // verus!
