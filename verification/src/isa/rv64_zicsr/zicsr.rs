use vstd::prelude::*;

use crate::cpu::cpu_core::{wx64, Cpu};
use crate::cpu::memory::memory_core::Memory;
use crate::error::EmuError;
use crate::isa::csr::csr_types::{spec_read64, spec_write64};
use crate::isa::semantics::{imm_i_of, lemma_fields_in_range, rd_of, rs1_of};
use crate::types::{parse_instruction_i, Instruction, InstructionType, Op, Word};

verus! {

/// The instructions of this set, in the order the decoder tries them.
pub open spec fn spec_rv64_zicsr_set() -> Seq<Instruction> {
    seq![
        Instruction { mask: 0x707f, bits: 0x1073, name: "CSRRW", instruction_type: InstructionType::I, op: Op::C64Csrrw },
        Instruction { mask: 0x707f, bits: 0x2073, name: "CSRRS", instruction_type: InstructionType::I, op: Op::C64Csrrs },
        Instruction { mask: 0x707f, bits: 0x3073, name: "CSRRC", instruction_type: InstructionType::I, op: Op::C64Csrrc },
        Instruction { mask: 0x707f, bits: 0x5073, name: "CSRRWI", instruction_type: InstructionType::I, op: Op::C64Csrrwi },
        Instruction { mask: 0x707f, bits: 0x6073, name: "CSRRSI", instruction_type: InstructionType::I, op: Op::C64Csrrsi },
        Instruction { mask: 0x707f, bits: 0x7073, name: "CSRRCI", instruction_type: InstructionType::I, op: Op::C64Csrrci },
    ]
}

/// The instructions of this set, in the order the decoder tries them.
pub fn rv64_zicsr_set() -> (v: Vec<Instruction>)
    ensures
        v@ == spec_rv64_zicsr_set(),
{
    let mut v: Vec<Instruction> = Vec::new();
    v.push(Instruction { mask: 0x707f, bits: 0x1073, name: "CSRRW", instruction_type: InstructionType::I, op: Op::C64Csrrw });
    v.push(Instruction { mask: 0x707f, bits: 0x2073, name: "CSRRS", instruction_type: InstructionType::I, op: Op::C64Csrrs });
    v.push(Instruction { mask: 0x707f, bits: 0x3073, name: "CSRRC", instruction_type: InstructionType::I, op: Op::C64Csrrc });
    v.push(Instruction { mask: 0x707f, bits: 0x5073, name: "CSRRWI", instruction_type: InstructionType::I, op: Op::C64Csrrwi });
    v.push(Instruction { mask: 0x707f, bits: 0x6073, name: "CSRRSI", instruction_type: InstructionType::I, op: Op::C64Csrrsi });
    v.push(Instruction { mask: 0x707f, bits: 0x7073, name: "CSRRCI", instruction_type: InstructionType::I, op: Op::C64Csrrci });
    assert(v@ =~= spec_rv64_zicsr_set());
    v
}

/// The operations of this set.
pub open spec fn in_rv64_zicsr_set(op: Op) -> bool {
    match op {
        Op::C64Csrrw | Op::C64Csrrs | Op::C64Csrrc | Op::C64Csrrwi | Op::C64Csrrsi | Op::C64Csrrci => true,
        _ => false,
    }
}

/// The new value of the control register: the source replaces, sets or clears bits. The source
/// is register `rs1` for the plain forms and the field value itself for the immediate forms.
pub open spec fn csr_new_value(op: Op, old: u64, w: u32, x: Seq<u64>) -> u64 {
    let src = match op {
        Op::C64Csrrw | Op::C64Csrrs | Op::C64Csrrc => x[rs1_of(w) as int],
        _ => rs1_of(w) as u64,
    };
    match op {
        Op::C64Csrrw | Op::C64Csrrwi => src,
        Op::C64Csrrs | Op::C64Csrrsi => old | src,
        _ => old & !src,
    }
}

/// `after` is `before` after a 64-bit control-register instruction: `rd` receives the old
/// value of the register and the register its new value.
pub open spec fn rv64_csr_done<M: Memory>(before: Cpu<M>, after: Cpu<M>, op: Op, w: u32) -> bool {
    let t = before.csr_table.regs64();
    let a = imm_i_of(w);
    let old = spec_read64(t, a);
    &&& after.x64() == wx64(before.x64(), rd_of(w), old)
    &&& after.csr_table.regs64() == spec_write64(t, a, csr_new_value(op, old, w, before.x64()))
    &&& after.csr_table.regs32() == before.csr_table.regs32()
    &&& after.x32() == before.x32()
    &&& after.pc() == before.pc()
    &&& after.same_setup(&before)
    &&& after.current_instruction_pc_64 == before.current_instruction_pc_64
    &&& after.is_halted() == before.is_halted()
    &&& after.program_brk == before.program_brk
    &&& after.privilege_mode == before.privilege_mode
    &&& before.mem_eq(&after)
}

/// The outcome of a 64-bit control-register instruction.
pub open spec fn rv64_zicsr_done<M: Memory>(before: Cpu<M>, after: Cpu<M>, op: Op, w: u32, r: Result<(), EmuError>) -> bool {
    r is Ok && rv64_csr_done(before, after, op, w)
}

/// Executes a 64-bit control-register instruction.
pub fn execute_rv64_zicsr_set<M: Memory>(cpu: &mut Cpu<M>, op: Op, word: &Word) -> (r: Result<(), EmuError>)
    requires
        old(cpu).wf(),
        in_rv64_zicsr_set(op),
    ensures
        final(cpu).wf(),
        rv64_zicsr_done(*old(cpu), *final(cpu), op, word.0, r),
{
    proof {
        lemma_fields_in_range(word.0);
    }
    let ins = parse_instruction_i(word);
    let src: u64 = match op {
        Op::C64Csrrw | Op::C64Csrrs | Op::C64Csrrc => cpu.read_x_u64(ins.rs1.0),
        _ => ins.rs1.0 as u64,
    };
    let old = cpu.csr_table.read64(ins.imm);
    let new = match op {
        Op::C64Csrrw | Op::C64Csrrwi => src,
        Op::C64Csrrs | Op::C64Csrrsi => old | src,
        _ => old & !src,
    };
    cpu.write_x_u64(ins.rd.0, old);
    cpu.csr_table.write64(ins.imm, new);
    Ok(())
}

} // verus!
