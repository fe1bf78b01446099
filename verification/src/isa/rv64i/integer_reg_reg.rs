use vstd::prelude::*;

use crate::cpu::cpu_core::Cpu;
use crate::cpu::memory::memory_core::Memory;
use crate::error::EmuError;
use crate::isa::semantics::{lemma_fields_in_range, rd_of, rs1_of, rs2_of, writes_x64};
use crate::types::{parse_instruction_r, Instruction, InstructionType, Op, Word};

verus! {

/// The instructions of this set, in the order the decoder tries them.
pub open spec fn spec_rv64i_set_r() -> Seq<Instruction> {
    seq![
        Instruction { mask: 0xfe00707f, bits: 0x33, name: "ADD", instruction_type: InstructionType::R, op: Op::R64Add },
        Instruction { mask: 0xfe00707f, bits: 0x40000033, name: "SUB", instruction_type: InstructionType::R, op: Op::R64Sub },
        Instruction { mask: 0xfe00707f, bits: 0x1033, name: "SLL", instruction_type: InstructionType::R, op: Op::R64Sll },
        Instruction { mask: 0xfe00707f, bits: 0x2033, name: "SLT", instruction_type: InstructionType::R, op: Op::R64Slt },
        Instruction { mask: 0xfe00707f, bits: 0x3033, name: "SLTU", instruction_type: InstructionType::R, op: Op::R64Sltu },
        Instruction { mask: 0xfe00707f, bits: 0x4033, name: "XOR", instruction_type: InstructionType::R, op: Op::R64Xor },
        Instruction { mask: 0xfe00707f, bits: 0x5033, name: "SRL", instruction_type: InstructionType::R, op: Op::R64Srl },
        Instruction { mask: 0xfe00707f, bits: 0x40005033, name: "SRA", instruction_type: InstructionType::R, op: Op::R64Sra },
        Instruction { mask: 0xfe00707f, bits: 0x6033, name: "OR", instruction_type: InstructionType::R, op: Op::R64Or },
        Instruction { mask: 0xfe00707f, bits: 0x7033, name: "AND", instruction_type: InstructionType::R, op: Op::R64And },
    ]
}

/// The instructions of this set, in the order the decoder tries them.
pub fn rv64i_set_r() -> (v: Vec<Instruction>)
    ensures
        v@ == spec_rv64i_set_r(),
{
    let mut v: Vec<Instruction> = Vec::new();
    v.push(Instruction { mask: 0xfe00707f, bits: 0x33, name: "ADD", instruction_type: InstructionType::R, op: Op::R64Add });
    v.push(Instruction { mask: 0xfe00707f, bits: 0x40000033, name: "SUB", instruction_type: InstructionType::R, op: Op::R64Sub });
    v.push(Instruction { mask: 0xfe00707f, bits: 0x1033, name: "SLL", instruction_type: InstructionType::R, op: Op::R64Sll });
    v.push(Instruction { mask: 0xfe00707f, bits: 0x2033, name: "SLT", instruction_type: InstructionType::R, op: Op::R64Slt });
    v.push(Instruction { mask: 0xfe00707f, bits: 0x3033, name: "SLTU", instruction_type: InstructionType::R, op: Op::R64Sltu });
    v.push(Instruction { mask: 0xfe00707f, bits: 0x4033, name: "XOR", instruction_type: InstructionType::R, op: Op::R64Xor });
    v.push(Instruction { mask: 0xfe00707f, bits: 0x5033, name: "SRL", instruction_type: InstructionType::R, op: Op::R64Srl });
    v.push(Instruction { mask: 0xfe00707f, bits: 0x40005033, name: "SRA", instruction_type: InstructionType::R, op: Op::R64Sra });
    v.push(Instruction { mask: 0xfe00707f, bits: 0x6033, name: "OR", instruction_type: InstructionType::R, op: Op::R64Or });
    v.push(Instruction { mask: 0xfe00707f, bits: 0x7033, name: "AND", instruction_type: InstructionType::R, op: Op::R64And });
    assert(v@ =~= spec_rv64i_set_r());
    v
}

/// The operations of this set.
pub open spec fn in_rv64i_set_r(op: Op) -> bool {
    match op {
        Op::R64Add | Op::R64Sub | Op::R64Sll | Op::R64Slt | Op::R64Sltu | Op::R64Xor | Op::R64Srl
        | Op::R64Sra | Op::R64Or | Op::R64And => true,
        _ => false,
    }
}

/// The value a 64-bit register-register instruction writes. Shift amounts are the low five
/// bits of the second operand, as for 32-bit registers.
pub open spec fn rv64i_r_value(op: Op, w: u32, x: Seq<u64>) -> u64 {
    let a = x[rs1_of(w) as int];
    let b = x[rs2_of(w) as int];
    let shamt = b % 32;
    match op {
        Op::R64Add => (a as i64).wrapping_add(b as i64) as u64,
        Op::R64Sub => (a as i64).wrapping_sub(b as i64) as u64,
        Op::R64Sll => a << shamt,
        Op::R64Slt => if (a as i64) < (b as i64) { 1 } else { 0 },
        Op::R64Sltu => if a < b { 1 } else { 0 },
        Op::R64Xor => a ^ b,
        Op::R64Srl => a >> shamt,
        Op::R64Sra => ((a as i64) >> shamt) as u64,
        Op::R64Or => a | b,
        _ => a & b,
    }
}

/// The outcome of a 64-bit register-register instruction.
pub open spec fn rv64i_r_done<M: Memory>(before: Cpu<M>, after: Cpu<M>, op: Op, w: u32, r: Result<(), EmuError>) -> bool {
    r is Ok && writes_x64(before, after, rd_of(w), rv64i_r_value(op, w, before.x64()))
}

/// Executes a register-register instruction on the 64-bit registers.
pub fn execute_rv64i_set_r<M: Memory>(cpu: &mut Cpu<M>, op: Op, word: &Word) -> (r: Result<(), EmuError>)
    requires
        old(cpu).wf(),
        in_rv64i_set_r(op),
    ensures
        final(cpu).wf(),
        rv64i_r_done(*old(cpu), *final(cpu), op, word.0, r),
{
    proof {
        lemma_fields_in_range(word.0);
    }
    let ins = parse_instruction_r(word);
    let a = cpu.read_x_u64(ins.rs1.0);
    let b = cpu.read_x_u64(ins.rs2.0);
    let shamt = b % 32;
    let v: u64 = match op {
        Op::R64Add => (a as i64).wrapping_add(b as i64) as u64,
        Op::R64Sub => (a as i64).wrapping_sub(b as i64) as u64,
        Op::R64Sll => a << shamt,
        Op::R64Slt => if (a as i64) < (b as i64) { 1 } else { 0 },
        Op::R64Sltu => if a < b { 1 } else { 0 },
        Op::R64Xor => a ^ b,
        Op::R64Srl => a >> shamt,
        Op::R64Sra => ((a as i64) >> shamt) as u64,
        Op::R64Or => a | b,
        _ => a & b,
    };
    cpu.write_x_u64(ins.rd.0, v);
    Ok(())
}

} // verus!
