use vstd::prelude::*;

use crate::cpu::cpu_core::Cpu;
use crate::cpu::memory::memory_core::Memory;
use crate::error::EmuError;
use crate::types::{Instruction, InstructionType, Op, Word};

verus! {

/// The instructions of this set, in the order the decoder tries them.
pub open spec fn spec_rv32_zifencei_set() -> Seq<Instruction> {
    seq![
        Instruction { mask: 0x707f, bits: 0x100f, name: "FENCE.I", instruction_type: InstructionType::R, op: Op::FenceI },
    ]
}

/// The instructions of this set, in the order the decoder tries them.
pub fn rv32_zifencei_set() -> (v: Vec<Instruction>)
    ensures
        v@ == spec_rv32_zifencei_set(),
{
    let mut v: Vec<Instruction> = Vec::new();
    v.push(Instruction { mask: 0x707f, bits: 0x100f, name: "FENCE.I", instruction_type: InstructionType::R, op: Op::FenceI });
    assert(v@ =~= spec_rv32_zifencei_set());
    v
}

/// The outcome of `FENCE.I`.
pub open spec fn zifencei_done<M: Memory>(before: Cpu<M>, after: Cpu<M>, op: Op, w: u32, r: Result<(), EmuError>) -> bool {
    r is Ok && after == before
}

/// Executes `FENCE.I`: instruction fetches always see memory, so nothing is to be done.
pub fn execute_zifencei_set<M: Memory>(cpu: &mut Cpu<M>, op: Op, word: &Word) -> (r: Result<(), EmuError>)
    requires
        old(cpu).wf(),
        op == Op::FenceI,
    ensures
        final(cpu).wf(),
        zifencei_done(*old(cpu), *final(cpu), op, word.0, r),
{
    Ok(())
}

} // verus!
