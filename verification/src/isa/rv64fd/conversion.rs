use vstd::prelude::*;

use crate::cpu::cpu_core::Cpu;
use crate::cpu::memory::memory_core::Memory;
use crate::error::EmuError;
use crate::types::{Instruction, InstructionType, Op, Word};

verus! {

/// The instructions of this set, in the order the decoder tries them.
pub open spec fn spec_rv64f_set_conversion() -> Seq<Instruction> {
    seq![
        Instruction { mask: 0xfff0007f, bits: 0xd0000053, name: "FCVT.S.W", instruction_type: InstructionType::I, op: Op::FloatUnit },
        Instruction { mask: 0xfff0007f, bits: 0xc0000053, name: "FCVT.W.S", instruction_type: InstructionType::I, op: Op::FloatUnit },
        Instruction { mask: 0xfff0007f, bits: 0xc2000053, name: "FCVT.W.D", instruction_type: InstructionType::I, op: Op::FloatUnit },
        Instruction { mask: 0xfff0007f, bits: 0xc0100053, name: "FCVT.WU.S", instruction_type: InstructionType::I, op: Op::FloatUnit },
        Instruction { mask: 0xfff0007f, bits: 0xc2100053, name: "FCVT.WU.D", instruction_type: InstructionType::I, op: Op::FloatUnit },
        Instruction { mask: 0xfff0007f, bits: 0xc0200053, name: "FCVT.L.S", instruction_type: InstructionType::I, op: Op::FloatUnit },
        Instruction { mask: 0xfff0007f, bits: 0xc0300053, name: "FCVT.LU.S", instruction_type: InstructionType::I, op: Op::FloatUnit },
        Instruction { mask: 0xfff0007f, bits: 0xc2200053, name: "FCVT.L.D", instruction_type: InstructionType::I, op: Op::FloatUnit },
        Instruction { mask: 0xfff0007f, bits: 0xc2300053, name: "FCVT.LU.D", instruction_type: InstructionType::I, op: Op::FloatUnit },
        Instruction { mask: 0xfff0007f, bits: 0x40100053, name: "FCVT.S.D", instruction_type: InstructionType::I, op: Op::FloatUnit },
        Instruction { mask: 0xfff0007f, bits: 0xd0200053, name: "FCVT.S.L", instruction_type: InstructionType::I, op: Op::FloatUnit },
        Instruction { mask: 0xfff0007f, bits: 0x42000053, name: "FCVT.D.S", instruction_type: InstructionType::I, op: Op::FloatUnit },
        Instruction { mask: 0xfff0007f, bits: 0xd2000053, name: "FCVT.D.W", instruction_type: InstructionType::I, op: Op::FloatUnit },
        Instruction { mask: 0xfff0007f, bits: 0xd2100053, name: "FCVT.D.WU", instruction_type: InstructionType::I, op: Op::FloatUnit },
        Instruction { mask: 0xfff0007f, bits: 0xd2200053, name: "FCVT.D.L", instruction_type: InstructionType::I, op: Op::FloatUnit },
        Instruction { mask: 0xfff0007f, bits: 0xd2300053, name: "FCVT.D.LU", instruction_type: InstructionType::I, op: Op::FloatUnit },
    ]
}

/// The instructions of this set, in the order the decoder tries them.
pub fn rv64f_set_conversion() -> (v: Vec<Instruction>)
    ensures
        v@ == spec_rv64f_set_conversion(),
{
    let mut v: Vec<Instruction> = Vec::new();
    v.push(Instruction { mask: 0xfff0007f, bits: 0xd0000053, name: "FCVT.S.W", instruction_type: InstructionType::I, op: Op::FloatUnit });
    v.push(Instruction { mask: 0xfff0007f, bits: 0xc0000053, name: "FCVT.W.S", instruction_type: InstructionType::I, op: Op::FloatUnit });
    v.push(Instruction { mask: 0xfff0007f, bits: 0xc2000053, name: "FCVT.W.D", instruction_type: InstructionType::I, op: Op::FloatUnit });
    v.push(Instruction { mask: 0xfff0007f, bits: 0xc0100053, name: "FCVT.WU.S", instruction_type: InstructionType::I, op: Op::FloatUnit });
    v.push(Instruction { mask: 0xfff0007f, bits: 0xc2100053, name: "FCVT.WU.D", instruction_type: InstructionType::I, op: Op::FloatUnit });
    v.push(Instruction { mask: 0xfff0007f, bits: 0xc0200053, name: "FCVT.L.S", instruction_type: InstructionType::I, op: Op::FloatUnit });
    v.push(Instruction { mask: 0xfff0007f, bits: 0xc0300053, name: "FCVT.LU.S", instruction_type: InstructionType::I, op: Op::FloatUnit });
    v.push(Instruction { mask: 0xfff0007f, bits: 0xc2200053, name: "FCVT.L.D", instruction_type: InstructionType::I, op: Op::FloatUnit });
    v.push(Instruction { mask: 0xfff0007f, bits: 0xc2300053, name: "FCVT.LU.D", instruction_type: InstructionType::I, op: Op::FloatUnit });
    v.push(Instruction { mask: 0xfff0007f, bits: 0x40100053, name: "FCVT.S.D", instruction_type: InstructionType::I, op: Op::FloatUnit });
    v.push(Instruction { mask: 0xfff0007f, bits: 0xd0200053, name: "FCVT.S.L", instruction_type: InstructionType::I, op: Op::FloatUnit });
    v.push(Instruction { mask: 0xfff0007f, bits: 0x42000053, name: "FCVT.D.S", instruction_type: InstructionType::I, op: Op::FloatUnit });
    v.push(Instruction { mask: 0xfff0007f, bits: 0xd2000053, name: "FCVT.D.W", instruction_type: InstructionType::I, op: Op::FloatUnit });
    v.push(Instruction { mask: 0xfff0007f, bits: 0xd2100053, name: "FCVT.D.WU", instruction_type: InstructionType::I, op: Op::FloatUnit });
    v.push(Instruction { mask: 0xfff0007f, bits: 0xd2200053, name: "FCVT.D.L", instruction_type: InstructionType::I, op: Op::FloatUnit });
    v.push(Instruction { mask: 0xfff0007f, bits: 0xd2300053, name: "FCVT.D.LU", instruction_type: InstructionType::I, op: Op::FloatUnit });
    assert(v@ =~= spec_rv64f_set_conversion());
    v
}

/// The outcome of an instruction that needs floating-point arithmetic (a conversion, an
/// arithmetic operation or a comparison): the word is handed to the host's floating-point
/// unit, and the hart is unchanged.
pub open spec fn float_unit_done<M: Memory>(before: Cpu<M>, after: Cpu<M>, w: u32, r: Result<(), EmuError>) -> bool {
    r == Err::<(), EmuError>(EmuError::FloatInstruction(w)) && after == before
}

/// Hands an instruction that needs floating-point arithmetic to the host.
pub fn execute_float_unit<M: Memory>(cpu: &mut Cpu<M>, word: &Word) -> (r: Result<(), EmuError>)
    ensures
        float_unit_done(*old(cpu), *final(cpu), word.0, r),
{
    Err(EmuError::FloatInstruction(word.0))
}

} // verus!
