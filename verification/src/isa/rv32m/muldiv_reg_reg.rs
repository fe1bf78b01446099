use vstd::prelude::*;

use crate::cpu::cpu_core::Cpu;
use crate::cpu::memory::memory_core::Memory;
use crate::error::EmuError;
use crate::isa::semantics::{
    div_trunc, lemma_fields_in_range, rd_of, rem_trunc, rs1_of, rs2_of, tdiv, trem, writes_x32,
};
use crate::types::{parse_instruction_r, Instruction, InstructionType, Op, Word};

verus! {

/// The instructions of this set, in the order the decoder tries them.
pub open spec fn spec_rv32m_set_r() -> Seq<Instruction> {
    seq![
        Instruction { mask: 0xfe00707f, bits: 0x2000033, name: "MUL", instruction_type: InstructionType::R, op: Op::M32Mul },
        Instruction { mask: 0xfe00707f, bits: 0x2001033, name: "MULH", instruction_type: InstructionType::R, op: Op::M32Mulh },
        Instruction { mask: 0xfe00707f, bits: 0x2002033, name: "MULHSU", instruction_type: InstructionType::R, op: Op::M32Mulhsu },
        Instruction { mask: 0xfe00707f, bits: 0x2003033, name: "MULHU", instruction_type: InstructionType::R, op: Op::M32Mulhu },
        Instruction { mask: 0xfe00707f, bits: 0x2004033, name: "DIV", instruction_type: InstructionType::R, op: Op::M32Div },
        Instruction { mask: 0xfe00707f, bits: 0x2005033, name: "DIVU", instruction_type: InstructionType::R, op: Op::M32Divu },
        Instruction { mask: 0xfe00707f, bits: 0x2006033, name: "REM", instruction_type: InstructionType::R, op: Op::M32Rem },
        Instruction { mask: 0xfe00707f, bits: 0x2007033, name: "REMU", instruction_type: InstructionType::R, op: Op::M32Remu },
    ]
}

/// The instructions of this set, in the order the decoder tries them.
pub fn rv32m_set_r() -> (v: Vec<Instruction>)
    ensures
        v@ == spec_rv32m_set_r(),
{
    let mut v: Vec<Instruction> = Vec::new();
    v.push(Instruction { mask: 0xfe00707f, bits: 0x2000033, name: "MUL", instruction_type: InstructionType::R, op: Op::M32Mul });
    v.push(Instruction { mask: 0xfe00707f, bits: 0x2001033, name: "MULH", instruction_type: InstructionType::R, op: Op::M32Mulh });
    v.push(Instruction { mask: 0xfe00707f, bits: 0x2002033, name: "MULHSU", instruction_type: InstructionType::R, op: Op::M32Mulhsu });
    v.push(Instruction { mask: 0xfe00707f, bits: 0x2003033, name: "MULHU", instruction_type: InstructionType::R, op: Op::M32Mulhu });
    v.push(Instruction { mask: 0xfe00707f, bits: 0x2004033, name: "DIV", instruction_type: InstructionType::R, op: Op::M32Div });
    v.push(Instruction { mask: 0xfe00707f, bits: 0x2005033, name: "DIVU", instruction_type: InstructionType::R, op: Op::M32Divu });
    v.push(Instruction { mask: 0xfe00707f, bits: 0x2006033, name: "REM", instruction_type: InstructionType::R, op: Op::M32Rem });
    v.push(Instruction { mask: 0xfe00707f, bits: 0x2007033, name: "REMU", instruction_type: InstructionType::R, op: Op::M32Remu });
    assert(v@ =~= spec_rv32m_set_r());
    v
}

/// The operations of this set.
pub open spec fn in_rv32m_set_r(op: Op) -> bool {
    match op {
        Op::M32Mul | Op::M32Mulh | Op::M32Mulhsu | Op::M32Mulhu | Op::M32Div | Op::M32Divu
        | Op::M32Rem | Op::M32Remu => true,
        _ => false,
    }
}

/// A signed remainder of the most negative value by -1: Rust aborts on it.
pub open spec fn rv32m_overflows(op: Op, w: u32, x: Seq<u32>) -> bool {
    op == Op::M32Rem && x[rs1_of(w) as int] as i32 == i32::MIN && x[rs2_of(w) as int] as i32 == -1
}

/// The value a multiply or divide instruction writes, given the 32-bit registers: products
/// are exact before truncation, and division by zero gives all ones (quotient) or the dividend
/// (remainder).
pub open spec fn rv32m_value(op: Op, w: u32, x: Seq<u32>) -> u32 {
    let a = x[rs1_of(w) as int];
    let b = x[rs2_of(w) as int];
    let sa = (a as i32) as int;
    let sb = (b as i32) as int;
    match op {
        Op::M32Mul => ((sa * sb) as i32) as u32,
        Op::M32Mulh => (((sa * sb) as i64 >> 32u64) as i32) as u32,
        Op::M32Mulhsu => (((sa * b) as i64 >> 32u64) as u32),
        Op::M32Mulhu => ((((a as u64) * (b as u64)) as u64 >> 32u64) as u32),
        Op::M32Div => if sb == 0 {
            0xffff_ffff
        } else if sa == i32::MIN && sb == -1 {
            0x8000_0000
        } else {
            (tdiv(sa, sb) as i32) as u32
        },
        Op::M32Divu => if b == 0 { 0xffff_ffff } else { a / b },
        Op::M32Rem => if sb == 0 { a } else { (trem(sa, sb) as i32) as u32 },
        _ => if b == 0 { a } else { a % b },
    }
}

/// The outcome of a 32-bit multiply or divide instruction.
pub open spec fn rv32m_done<M: Memory>(before: Cpu<M>, after: Cpu<M>, op: Op, w: u32, r: Result<(), EmuError>) -> bool {
    &&& r is Err <==> rv32m_overflows(op, w, before.x32())
    &&& r is Err ==> after == before
    &&& r is Ok ==> writes_x32(before, after, rd_of(w), rv32m_value(op, w, before.x32()))
}

/// Executes a multiply or divide instruction on the 32-bit registers.
pub fn execute_rv32m_set_r<M: Memory>(cpu: &mut Cpu<M>, op: Op, word: &Word) -> (r: Result<(), EmuError>)
    requires
        old(cpu).wf(),
        in_rv32m_set_r(op),
    ensures
        final(cpu).wf(),
        rv32m_done(*old(cpu), *final(cpu), op, word.0, r),
{
    proof {
        lemma_fields_in_range(word.0);
    }
    let ins = parse_instruction_r(word);
    let a = cpu.read_x_u32(ins.rs1.0);
    let b = cpu.read_x_u32(ins.rs2.0);
    let sa = (a as i32) as i64;
    let sb = (b as i32) as i64;
    let v: u32 = match op {
        Op::M32Mul => {
            assert(-0x4000_0000_0000_0000 <= sa * sb <= 0x4000_0000_0000_0000) by (nonlinear_arith)
                requires
                    -0x8000_0000 <= sa <= 0x7fff_ffff,
                    -0x8000_0000 <= sb <= 0x7fff_ffff,
            ;
            ((sa * sb) as i32) as u32
        },
        Op::M32Mulh => {
            assert(-0x4000_0000_0000_0000 <= sa * sb <= 0x4000_0000_0000_0000) by (nonlinear_arith)
                requires
                    -0x8000_0000 <= sa <= 0x7fff_ffff,
                    -0x8000_0000 <= sb <= 0x7fff_ffff,
            ;
            (((sa * sb) >> 32u64) as i32) as u32
        },
        Op::M32Mulhsu => {
            let ub = b as i64;
            assert(-0x8000_0000_0000_0000 <= sa * ub <= 0x7fff_ffff_0000_0000) by (nonlinear_arith)
                requires
                    -0x8000_0000 <= sa <= 0x7fff_ffff,
                    0 <= ub <= 0xffff_ffff,
            ;
            ((sa * ub) >> 32u64) as u32
        },
        Op::M32Mulhu => {
            let ua = a as u64;
            let ub = b as u64;
            assert(ua * ub <= 0xffff_fffe_0000_0001) by (nonlinear_arith)
                requires
                    ua <= 0xffff_ffff,
                    ub <= 0xffff_ffff,
            ;
            ((ua * ub) >> 32u64) as u32
        },
        Op::M32Div => if sb == 0 {
            0xffff_ffff
        } else if sa == i32::MIN as i64 && sb == -1 {
            0x8000_0000
        } else {
            (div_trunc(sa, sb) as i32) as u32
        },
        Op::M32Divu => if b == 0 { 0xffff_ffff } else { a / b },
        Op::M32Rem => if sb == 0 {
            a
        } else if sa == i32::MIN as i64 && sb == -1 {
            return Err(EmuError::ArithmeticOverflow);
        } else {
            (rem_trunc(sa, sb) as i32) as u32
        },
        _ => if b == 0 { a } else { a % b },
    };
    cpu.write_x_u32(ins.rd.0, v);
    Ok(())
}

} // verus!
