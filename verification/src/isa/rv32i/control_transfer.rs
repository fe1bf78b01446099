use vstd::prelude::*;

use crate::cpu::cpu_core::{wx32, Cpu};
use crate::cpu::memory::memory_core::Memory;
use crate::error::EmuError;
use crate::isa::semantics::{imm_i_of, lemma_fields_in_range, rd_of, rs1_of, rs2_of};
use crate::types::{
    parse_instruction_i, parse_instruction_sb, parse_instruction_uj, sb_bits, sext, uj_bits,
    Instruction, InstructionType, Op, Word,
};
use crate::utils::binary_utils::sext12;

verus! {

/// The instructions of this set, in the order the decoder tries them.
pub open spec fn spec_rv32i_set_uj() -> Seq<Instruction> {
    seq![
        Instruction { mask: 0x7f, bits: 0x6f, name: "JAL", instruction_type: InstructionType::UJ, op: Op::Jal },
        Instruction { mask: 0x707f, bits: 0x67, name: "JALR", instruction_type: InstructionType::I, op: Op::Jalr },
        Instruction { mask: 0x707f, bits: 0x63, name: "BEQ", instruction_type: InstructionType::SB, op: Op::Beq },
        Instruction { mask: 0x707f, bits: 0x1063, name: "BNE", instruction_type: InstructionType::SB, op: Op::Bne },
        Instruction { mask: 0x707f, bits: 0x4063, name: "BLT", instruction_type: InstructionType::SB, op: Op::Blt },
        Instruction { mask: 0x707f, bits: 0x5063, name: "BGE", instruction_type: InstructionType::SB, op: Op::Bge },
        Instruction { mask: 0x707f, bits: 0x6063, name: "BLTU", instruction_type: InstructionType::SB, op: Op::Bltu },
        Instruction { mask: 0x707f, bits: 0x7063, name: "BGEU", instruction_type: InstructionType::SB, op: Op::Bgeu },
    ]
}

/// The instructions of this set, in the order the decoder tries them.
pub fn rv32i_set_uj() -> (v: Vec<Instruction>)
    ensures
        v@ == spec_rv32i_set_uj(),
{
    let mut v: Vec<Instruction> = Vec::new();
    v.push(Instruction { mask: 0x7f, bits: 0x6f, name: "JAL", instruction_type: InstructionType::UJ, op: Op::Jal });
    v.push(Instruction { mask: 0x707f, bits: 0x67, name: "JALR", instruction_type: InstructionType::I, op: Op::Jalr });
    v.push(Instruction { mask: 0x707f, bits: 0x63, name: "BEQ", instruction_type: InstructionType::SB, op: Op::Beq });
    v.push(Instruction { mask: 0x707f, bits: 0x1063, name: "BNE", instruction_type: InstructionType::SB, op: Op::Bne });
    v.push(Instruction { mask: 0x707f, bits: 0x4063, name: "BLT", instruction_type: InstructionType::SB, op: Op::Blt });
    v.push(Instruction { mask: 0x707f, bits: 0x5063, name: "BGE", instruction_type: InstructionType::SB, op: Op::Bge });
    v.push(Instruction { mask: 0x707f, bits: 0x6063, name: "BLTU", instruction_type: InstructionType::SB, op: Op::Bltu });
    v.push(Instruction { mask: 0x707f, bits: 0x7063, name: "BGEU", instruction_type: InstructionType::SB, op: Op::Bgeu });
    assert(v@ =~= spec_rv32i_set_uj());
    v
}

/// The operations of this set.
pub open spec fn in_rv32i_set_uj(op: Op) -> bool {
    match op {
        Op::Jal | Op::Jalr | Op::Beq | Op::Bne | Op::Blt | Op::Bge | Op::Bltu | Op::Bgeu => true,
        _ => false,
    }
}

/// Whether a conditional branch is taken. `BGE` takes the branch on a strictly greater first
/// operand and `BLTU` on a smaller or equal one.
pub open spec fn branch_taken(op: Op, a: u32, b: u32) -> bool {
    match op {
        Op::Beq => (a as i32) == (b as i32),
        Op::Bne => (a as i32) != (b as i32),
        Op::Blt => (a as i32) < (b as i32),
        Op::Bge => (a as i32) > (b as i32),
        Op::Bltu => a <= b,
        _ => a >= b,
    }
}

/// The target of a jump or taken branch of this set relative to the instruction at `cur`.
pub open spec fn rv32_relative_target(cur: u64, offset: int) -> u64 {
    ((cur as u32).wrapping_add_signed(offset as i32)) as u64
}

/// `after` is `before` after a control-transfer instruction of this set: `JAL` links the
/// address of the next instruction, `JALR` writes its (even) target to the destination
/// register, and branches move the program counter when taken.
pub open spec fn rv32i_uj_done<M: Memory>(before: Cpu<M>, after: Cpu<M>, op: Op, w: u32) -> bool {
    let x = before.x32();
    let cur = before.current_instruction_pc_64;
    match op {
        Op::Jal => before.regs_set(
            &after,
            wx32(x, rd_of(w), before.pc() as u32),
            before.x64(),
            rv32_relative_target(cur, sext(uj_bits(w), 21)),
        ),
        Op::Jalr => {
            let t = x[rs1_of(w) as int].wrapping_add_signed(sext12(imm_i_of(w)) as i32) & 0xffff_fffe;
            before.regs_set(&after, wx32(x, rd_of(w), t), before.x64(), t as u64)
        },
        _ => before.regs_set(
            &after,
            x,
            before.x64(),
            if branch_taken(op, x[rs1_of(w) as int], x[rs2_of(w) as int]) {
                rv32_relative_target(cur, sext(sb_bits(w), 13))
            } else {
                before.pc()
            },
        ),
    }
}

/// The outcome of a 32-bit jump or branch.
pub open spec fn rv32i_uj_result<M: Memory>(before: Cpu<M>, after: Cpu<M>, op: Op, w: u32, r: Result<(), EmuError>) -> bool {
    r is Ok && rv32i_uj_done(before, after, op, w)
}

/// Executes a jump or branch on the 32-bit registers.
pub fn execute_rv32i_set_uj<M: Memory>(cpu: &mut Cpu<M>, op: Op, word: &Word) -> (r: Result<(), EmuError>)
    requires
        old(cpu).wf(),
        in_rv32i_set_uj(op),
    ensures
        final(cpu).wf(),
        rv32i_uj_result(*old(cpu), *final(cpu), op, word.0, r),
{
    proof {
        lemma_fields_in_range(word.0);
    }
    match op {
        Op::Jal => {
            let ins = parse_instruction_uj(word);
            let link = cpu.read_pc_u32();
            cpu.write_x_u32(ins.rd.0, link);
            let offset = ins.imm.as_i32();
            let target = cpu.read_current_instruction_addr_u32().wrapping_add_signed(offset);
            cpu.write_pc_u32(target);
        },
        Op::Jalr => {
            let ins = parse_instruction_i(word);
            let offset = ins.imm.as_i32();
            let target = cpu.read_x_u32(ins.rs1.0).wrapping_add_signed(offset) & 0xffff_fffe;
            cpu.write_x_u32(ins.rd.0, target);
            cpu.write_pc_u32(target);
        },
        _ => {
            let ins = parse_instruction_sb(word);
            let a = cpu.read_x_u32(ins.rs1.0);
            let b = cpu.read_x_u32(ins.rs2.0);
            let taken = match op {
                Op::Beq => (a as i32) == (b as i32),
                Op::Bne => (a as i32) != (b as i32),
                Op::Blt => (a as i32) < (b as i32),
                Op::Bge => (a as i32) > (b as i32),
                Op::Bltu => a <= b,
                _ => a >= b,
            };
            if taken {
                let offset = ins.imm.as_i32();
                let target = cpu.read_current_instruction_addr_u32().wrapping_add_signed(offset);
                cpu.write_pc_u32(target);
            }
        },
    }
    Ok(())
}

} // verus!
