use vstd::prelude::*;

use crate::cpu::cpu_core::Cpu;
use crate::cpu::memory::memory_core::Memory;
use crate::error::EmuError;
use crate::isa::semantics::{imm_i_of, lemma_fields_in_range, rd_of, rs1_of, writes_x32};
use crate::types::{parse_instruction_i, parse_instruction_u, Instruction, InstructionType, Op, Word};
use crate::utils::binary_utils::{sext12, sign_extend_12bit_to_32bit};

verus! {

/// The instructions of this set, in the order the decoder tries them.
pub open spec fn spec_rv32i_set_i() -> Seq<Instruction> {
    seq![
        Instruction { mask: 0x707f, bits: 0x13, name: "ADDI", instruction_type: InstructionType::I, op: Op::Addi },
        Instruction { mask: 0x707f, bits: 0x2013, name: "SLTI", instruction_type: InstructionType::I, op: Op::Slti },
        Instruction { mask: 0x707f, bits: 0x3013, name: "SLTIU", instruction_type: InstructionType::I, op: Op::Sltiu },
        Instruction { mask: 0x707f, bits: 0x7013, name: "ANDI", instruction_type: InstructionType::I, op: Op::Andi },
        Instruction { mask: 0x707f, bits: 0x6013, name: "ORI", instruction_type: InstructionType::I, op: Op::Ori },
        Instruction { mask: 0x707f, bits: 0x4013, name: "XORI", instruction_type: InstructionType::I, op: Op::Xori },
        Instruction { mask: 0xfe00707f, bits: 0x1013, name: "SLLI", instruction_type: InstructionType::I, op: Op::Slli },
        Instruction { mask: 0xfe00707f, bits: 0x5013, name: "SRLI", instruction_type: InstructionType::I, op: Op::Srli },
        Instruction { mask: 0xfe00707f, bits: 0x40005013, name: "SRAI", instruction_type: InstructionType::I, op: Op::Srai },
        Instruction { mask: 0x7f, bits: 0x37, name: "LUI", instruction_type: InstructionType::U, op: Op::Lui },
        Instruction { mask: 0x7f, bits: 0x17, name: "AUIPC", instruction_type: InstructionType::U, op: Op::Auipc },
    ]
}

/// The instructions of this set, in the order the decoder tries them.
pub fn rv32i_set_i() -> (v: Vec<Instruction>)
    ensures
        v@ == spec_rv32i_set_i(),
{
    let mut v: Vec<Instruction> = Vec::new();
    v.push(Instruction { mask: 0x707f, bits: 0x13, name: "ADDI", instruction_type: InstructionType::I, op: Op::Addi });
    v.push(Instruction { mask: 0x707f, bits: 0x2013, name: "SLTI", instruction_type: InstructionType::I, op: Op::Slti });
    v.push(Instruction { mask: 0x707f, bits: 0x3013, name: "SLTIU", instruction_type: InstructionType::I, op: Op::Sltiu });
    v.push(Instruction { mask: 0x707f, bits: 0x7013, name: "ANDI", instruction_type: InstructionType::I, op: Op::Andi });
    v.push(Instruction { mask: 0x707f, bits: 0x6013, name: "ORI", instruction_type: InstructionType::I, op: Op::Ori });
    v.push(Instruction { mask: 0x707f, bits: 0x4013, name: "XORI", instruction_type: InstructionType::I, op: Op::Xori });
    v.push(Instruction { mask: 0xfe00707f, bits: 0x1013, name: "SLLI", instruction_type: InstructionType::I, op: Op::Slli });
    v.push(Instruction { mask: 0xfe00707f, bits: 0x5013, name: "SRLI", instruction_type: InstructionType::I, op: Op::Srli });
    v.push(Instruction { mask: 0xfe00707f, bits: 0x40005013, name: "SRAI", instruction_type: InstructionType::I, op: Op::Srai });
    v.push(Instruction { mask: 0x7f, bits: 0x37, name: "LUI", instruction_type: InstructionType::U, op: Op::Lui });
    v.push(Instruction { mask: 0x7f, bits: 0x17, name: "AUIPC", instruction_type: InstructionType::U, op: Op::Auipc });
    assert(v@ =~= spec_rv32i_set_i());
    v
}

/// The operations of this set.
pub open spec fn in_rv32i_set_i(op: Op) -> bool {
    match op {
        Op::Addi | Op::Slti | Op::Sltiu | Op::Andi | Op::Ori | Op::Xori | Op::Slli | Op::Srli
        | Op::Srai | Op::Lui | Op::Auipc => true,
        _ => false,
    }
}

/// The value an instruction of this set writes to its destination register, given the 32-bit
/// registers `x` and the address `cur` of the instruction.
pub open spec fn rv32i_i_value(op: Op, w: u32, x: Seq<u32>, cur: u64) -> u32 {
    let a = x[rs1_of(w) as int];
    let imm = sext12(imm_i_of(w)) as i32;
    let shamt = (imm_i_of(w) % 32) as u32;
    match op {
        Op::Addi => imm.wrapping_add(a as i32) as u32,
        Op::Slti => if (a as i32) < imm { 1 } else { 0 },
        Op::Sltiu => if a < (imm as u32) { 1 } else { 0 },
        Op::Andi => ((a as i32) & imm) as u32,
        Op::Ori => ((a as i32) | imm) as u32,
        Op::Xori => ((a as i32) ^ imm) as u32,
        Op::Slli => a << shamt,
        Op::Srli => a >> shamt,
        Op::Srai => ((a as i32) >> shamt) as u32,
        Op::Lui => w & 0xffff_f000,
        _ => (w & 0xffff_f000).wrapping_add(cur as u32),
    }
}

/// The outcome of an integer-immediate instruction.
pub open spec fn rv32i_i_done<M: Memory>(before: Cpu<M>, after: Cpu<M>, op: Op, w: u32, r: Result<(), EmuError>) -> bool {
    r is Ok && writes_x32(before, after, rd_of(w), rv32i_i_value(op, w, before.x32(), before.current_instruction_pc_64))
}

/// Executes an integer-immediate instruction on the 32-bit registers.
pub fn execute_rv32i_set_i<M: Memory>(cpu: &mut Cpu<M>, op: Op, word: &Word) -> (r: Result<(), EmuError>)
    requires
        old(cpu).wf(),
        in_rv32i_set_i(op),
    ensures
        final(cpu).wf(),
        rv32i_i_done(*old(cpu), *final(cpu), op, word.0, r),
{
    proof {
        lemma_fields_in_range(word.0);
    }
    if op == Op::Lui || op == Op::Auipc {
        let ins = parse_instruction_u(word);
        let v = if op == Op::Lui {
            ins.imm
        } else {
            ins.imm.wrapping_add(cpu.read_current_instruction_addr_u32())
        };
        cpu.write_x_u32(ins.rd.0, v);
        return Ok(());
    }
    let ins = parse_instruction_i(word);
    let imm = sign_extend_12bit_to_32bit(ins.imm.0);
    let a = cpu.read_x_u32(ins.rs1.0);
    let shamt = (ins.imm.0 % 32) as u32;
    let v: u32 = match op {
        Op::Addi => imm.wrapping_add(a as i32) as u32,
        Op::Slti => if (a as i32) < imm { 1 } else { 0 },
        Op::Sltiu => if a < (imm as u32) { 1 } else { 0 },
        Op::Andi => ((a as i32) & imm) as u32,
        Op::Ori => ((a as i32) | imm) as u32,
        Op::Xori => ((a as i32) ^ imm) as u32,
        Op::Slli => a << shamt,
        Op::Srli => a >> shamt,
        _ => ((a as i32) >> shamt) as u32,
    };
    cpu.write_x_u32(ins.rd.0, v);
    Ok(())
}

} // verus!
