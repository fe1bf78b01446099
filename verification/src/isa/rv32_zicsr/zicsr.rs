use vstd::prelude::*;

use crate::cpu::cpu_core::{wx32, Cpu};
use crate::cpu::memory::memory_core::Memory;
use crate::error::EmuError;
use crate::isa::semantics::{imm_i_of, lemma_fields_in_range, rd_of, rs1_of};
use crate::types::{parse_instruction_i, Instruction, InstructionType, Op, Word};

verus! {

/// The instructions of this set, in the order the decoder tries them.
pub open spec fn spec_rv32_zicsr_set() -> Seq<Instruction> {
    seq![
        Instruction { mask: 0x707f, bits: 0x1073, name: "CSRRW", instruction_type: InstructionType::I, op: Op::C32Csrrw },
        Instruction { mask: 0x707f, bits: 0x2073, name: "CSRRS", instruction_type: InstructionType::I, op: Op::C32Csrrs },
        Instruction { mask: 0x707f, bits: 0x3073, name: "CSRRC", instruction_type: InstructionType::I, op: Op::C32Csrrc },
        Instruction { mask: 0x707f, bits: 0x5073, name: "CSRRWI", instruction_type: InstructionType::I, op: Op::C32Csrrwi },
        Instruction { mask: 0x707f, bits: 0x6073, name: "CSRRSI", instruction_type: InstructionType::I, op: Op::C32Csrrsi },
        Instruction { mask: 0x707f, bits: 0x7073, name: "CSRRCI", instruction_type: InstructionType::I, op: Op::C32Csrrci },
    ]
}

/// The instructions of this set, in the order the decoder tries them.
pub fn rv32_zicsr_set() -> (v: Vec<Instruction>)
    ensures
        v@ == spec_rv32_zicsr_set(),
{
    let mut v: Vec<Instruction> = Vec::new();
    v.push(Instruction { mask: 0x707f, bits: 0x1073, name: "CSRRW", instruction_type: InstructionType::I, op: Op::C32Csrrw });
    v.push(Instruction { mask: 0x707f, bits: 0x2073, name: "CSRRS", instruction_type: InstructionType::I, op: Op::C32Csrrs });
    v.push(Instruction { mask: 0x707f, bits: 0x3073, name: "CSRRC", instruction_type: InstructionType::I, op: Op::C32Csrrc });
    v.push(Instruction { mask: 0x707f, bits: 0x5073, name: "CSRRWI", instruction_type: InstructionType::I, op: Op::C32Csrrwi });
    v.push(Instruction { mask: 0x707f, bits: 0x6073, name: "CSRRSI", instruction_type: InstructionType::I, op: Op::C32Csrrsi });
    v.push(Instruction { mask: 0x707f, bits: 0x7073, name: "CSRRCI", instruction_type: InstructionType::I, op: Op::C32Csrrci });
    assert(v@ =~= spec_rv32_zicsr_set());
    v
}

/// The operations of this set.
pub open spec fn in_rv32_zicsr_set(op: Op) -> bool {
    match op {
        Op::C32Csrrw | Op::C32Csrrs | Op::C32Csrrc | Op::C32Csrrwi | Op::C32Csrrsi | Op::C32Csrrci => true,
        _ => false,
    }
}

/// The new value of a 32-bit control register: the source replaces, sets or clears bits.
pub open spec fn csr32_new_value(op: Op, old: u32, w: u32, x: Seq<u32>) -> u32 {
    let src = match op {
        Op::C32Csrrw | Op::C32Csrrs | Op::C32Csrrc => x[rs1_of(w) as int],
        _ => rs1_of(w) as u32,
    };
    match op {
        Op::C32Csrrw | Op::C32Csrrwi => src,
        Op::C32Csrrs | Op::C32Csrrsi => old | src,
        _ => old & !src,
    }
}

/// `after` is `before` after a 32-bit control-register instruction on the 32-bit file.
pub open spec fn rv32_csr_done<M: Memory>(before: Cpu<M>, after: Cpu<M>, op: Op, w: u32) -> bool {
    let t = before.csr_table.regs32();
    let a = imm_i_of(w);
    let old = t[a as int];
    &&& after.x32() == wx32(before.x32(), rd_of(w), old)
    &&& after.csr_table.regs32() == t.update(a as int, csr32_new_value(op, old, w, before.x32()))
    &&& after.csr_table.regs64() == before.csr_table.regs64()
    &&& after.x64() == before.x64()
    &&& after.pc() == before.pc()
    &&& after.same_setup(&before)
    &&& after.current_instruction_pc_64 == before.current_instruction_pc_64
    &&& after.is_halted() == before.is_halted()
    &&& after.program_brk == before.program_brk
    &&& after.privilege_mode == before.privilege_mode
    &&& before.mem_eq(&after)
}

/// The outcome of a 32-bit control-register instruction.
pub open spec fn rv32_zicsr_done<M: Memory>(before: Cpu<M>, after: Cpu<M>, op: Op, w: u32, r: Result<(), EmuError>) -> bool {
    r is Ok && rv32_csr_done(before, after, op, w)
}

/// Executes a 32-bit control-register instruction.
pub fn execute_rv32_zicsr_set<M: Memory>(cpu: &mut Cpu<M>, op: Op, word: &Word) -> (r: Result<(), EmuError>)
    requires
        old(cpu).wf(),
        in_rv32_zicsr_set(op),
    ensures
        final(cpu).wf(),
        rv32_zicsr_done(*old(cpu), *final(cpu), op, word.0, r),
{
    proof {
        lemma_fields_in_range(word.0);
    }
    let ins = parse_instruction_i(word);
    let src: u32 = match op {
        Op::C32Csrrw | Op::C32Csrrs | Op::C32Csrrc => cpu.read_x_u32(ins.rs1.0),
        _ => ins.rs1.0 as u32,
    };
    let old = cpu.csr_table.read32(ins.imm);
    let new = match op {
        Op::C32Csrrw | Op::C32Csrrwi => src,
        Op::C32Csrrs | Op::C32Csrrsi => old | src,
        _ => old & !src,
    };
    cpu.write_x_u32(ins.rd.0, old);
    cpu.csr_table.write32(ins.imm, new);
    Ok(())
}

} // verus!
