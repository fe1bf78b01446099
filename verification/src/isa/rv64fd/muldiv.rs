use vstd::prelude::*;

use crate::types::{Instruction, InstructionType, Op};

verus! {

/// The instructions of this set, in the order the decoder tries them.
pub open spec fn spec_rv64f_set_muldiv() -> Seq<Instruction> {
    seq![
        Instruction { mask: 0xfe00007f, bits: 0x10000053, name: "FMUL.S", instruction_type: InstructionType::R, op: Op::FloatUnit },
        Instruction { mask: 0xfe00007f, bits: 0x12000053, name: "FMUL.D", instruction_type: InstructionType::R, op: Op::FloatUnit },
        Instruction { mask: 0xfe00007f, bits: 0x18000053, name: "FDIV.S", instruction_type: InstructionType::I, op: Op::FloatUnit },
        Instruction { mask: 0xfe00007f, bits: 0x1a000053, name: "FDIV.D", instruction_type: InstructionType::R, op: Op::FloatUnit },
        Instruction { mask: 0xfe00007f, bits: 0x53, name: "FADD.S", instruction_type: InstructionType::R, op: Op::FloatUnit },
        Instruction { mask: 0xfe00007f, bits: 0x8000053, name: "FSUB.S", instruction_type: InstructionType::I, op: Op::FloatUnit },
        Instruction { mask: 0xfe00007f, bits: 0x2000053, name: "FADD.D", instruction_type: InstructionType::R, op: Op::FloatUnit },
        Instruction { mask: 0xfe00007f, bits: 0xa000053, name: "FSUB.D", instruction_type: InstructionType::R, op: Op::FloatUnit },
        Instruction { mask: 0x600007f, bits: 0x43, name: "FMADD.S", instruction_type: InstructionType::R, op: Op::FloatUnit },
        Instruction { mask: 0x600007f, bits: 0x47, name: "FMSUB.S", instruction_type: InstructionType::R, op: Op::FloatUnit },
        Instruction { mask: 0x600007f, bits: 0x4b, name: "FNMSUB.S", instruction_type: InstructionType::R, op: Op::FloatUnit },
        Instruction { mask: 0x600007f, bits: 0x4f, name: "FNMADD.S", instruction_type: InstructionType::R, op: Op::FloatUnit },
        Instruction { mask: 0x600007f, bits: 0x2000043, name: "FMADD.D", instruction_type: InstructionType::R, op: Op::FloatUnit },
        Instruction { mask: 0x600007f, bits: 0x2000047, name: "FMSUB.S", instruction_type: InstructionType::R, op: Op::FloatUnit },
        Instruction { mask: 0x600007f, bits: 0x200004b, name: "FNMSUB.S", instruction_type: InstructionType::R, op: Op::FloatUnit },
        Instruction { mask: 0x600007f, bits: 0x200004f, name: "FNMADD.S", instruction_type: InstructionType::R, op: Op::FloatUnit },
        Instruction { mask: 0xfe00707f, bits: 0xa0002053, name: "FEQ.S", instruction_type: InstructionType::R, op: Op::FloatUnit },
        Instruction { mask: 0xfe00707f, bits: 0xa2002053, name: "FEQ.D", instruction_type: InstructionType::R, op: Op::FloatUnit },
        Instruction { mask: 0xfe00707f, bits: 0xa0001053, name: "FLT.S", instruction_type: InstructionType::R, op: Op::FloatUnit },
        Instruction { mask: 0xfe00707f, bits: 0xa2001053, name: "FLT.D", instruction_type: InstructionType::R, op: Op::FloatUnit },
        Instruction { mask: 0xfe00707f, bits: 0xa0000053, name: "FLE.S", instruction_type: InstructionType::R, op: Op::FloatUnit },
        Instruction { mask: 0xfe00707f, bits: 0xa2000053, name: "FLE.D", instruction_type: InstructionType::R, op: Op::FloatUnit },
    ]
}

/// The instructions of this set, in the order the decoder tries them.
pub fn rv64f_set_muldiv() -> (v: Vec<Instruction>)
    ensures
        v@ == spec_rv64f_set_muldiv(),
{
    let mut v: Vec<Instruction> = Vec::new();
    v.push(Instruction { mask: 0xfe00007f, bits: 0x10000053, name: "FMUL.S", instruction_type: InstructionType::R, op: Op::FloatUnit });
    v.push(Instruction { mask: 0xfe00007f, bits: 0x12000053, name: "FMUL.D", instruction_type: InstructionType::R, op: Op::FloatUnit });
    v.push(Instruction { mask: 0xfe00007f, bits: 0x18000053, name: "FDIV.S", instruction_type: InstructionType::I, op: Op::FloatUnit });
    v.push(Instruction { mask: 0xfe00007f, bits: 0x1a000053, name: "FDIV.D", instruction_type: InstructionType::R, op: Op::FloatUnit });
    v.push(Instruction { mask: 0xfe00007f, bits: 0x53, name: "FADD.S", instruction_type: InstructionType::R, op: Op::FloatUnit });
    v.push(Instruction { mask: 0xfe00007f, bits: 0x8000053, name: "FSUB.S", instruction_type: InstructionType::I, op: Op::FloatUnit });
    v.push(Instruction { mask: 0xfe00007f, bits: 0x2000053, name: "FADD.D", instruction_type: InstructionType::R, op: Op::FloatUnit });
    v.push(Instruction { mask: 0xfe00007f, bits: 0xa000053, name: "FSUB.D", instruction_type: InstructionType::R, op: Op::FloatUnit });
    v.push(Instruction { mask: 0x600007f, bits: 0x43, name: "FMADD.S", instruction_type: InstructionType::R, op: Op::FloatUnit });
    v.push(Instruction { mask: 0x600007f, bits: 0x47, name: "FMSUB.S", instruction_type: InstructionType::R, op: Op::FloatUnit });
    v.push(Instruction { mask: 0x600007f, bits: 0x4b, name: "FNMSUB.S", instruction_type: InstructionType::R, op: Op::FloatUnit });
    v.push(Instruction { mask: 0x600007f, bits: 0x4f, name: "FNMADD.S", instruction_type: InstructionType::R, op: Op::FloatUnit });
    v.push(Instruction { mask: 0x600007f, bits: 0x2000043, name: "FMADD.D", instruction_type: InstructionType::R, op: Op::FloatUnit });
    v.push(Instruction { mask: 0x600007f, bits: 0x2000047, name: "FMSUB.S", instruction_type: InstructionType::R, op: Op::FloatUnit });
    v.push(Instruction { mask: 0x600007f, bits: 0x200004b, name: "FNMSUB.S", instruction_type: InstructionType::R, op: Op::FloatUnit });
    v.push(Instruction { mask: 0x600007f, bits: 0x200004f, name: "FNMADD.S", instruction_type: InstructionType::R, op: Op::FloatUnit });
    v.push(Instruction { mask: 0xfe00707f, bits: 0xa0002053, name: "FEQ.S", instruction_type: InstructionType::R, op: Op::FloatUnit });
    v.push(Instruction { mask: 0xfe00707f, bits: 0xa2002053, name: "FEQ.D", instruction_type: InstructionType::R, op: Op::FloatUnit });
    v.push(Instruction { mask: 0xfe00707f, bits: 0xa0001053, name: "FLT.S", instruction_type: InstructionType::R, op: Op::FloatUnit });
    v.push(Instruction { mask: 0xfe00707f, bits: 0xa2001053, name: "FLT.D", instruction_type: InstructionType::R, op: Op::FloatUnit });
    v.push(Instruction { mask: 0xfe00707f, bits: 0xa0000053, name: "FLE.S", instruction_type: InstructionType::R, op: Op::FloatUnit });
    v.push(Instruction { mask: 0xfe00707f, bits: 0xa2000053, name: "FLE.D", instruction_type: InstructionType::R, op: Op::FloatUnit });
    assert(v@ =~= spec_rv64f_set_muldiv());
    v
}

} // verus!
