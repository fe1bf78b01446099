use vstd::prelude::*;

use crate::cpu::cpu_core::Cpu;
use crate::cpu::memory::memory_core::Memory;
use crate::cpu::memory_access::{read_effect, write_effect};
use crate::error::EmuError;
use crate::isa::semantics::{imm_i_of, lemma_fields_in_range, rd_of, rs1_of, rs2_of, writes_x32};
use crate::types::{parse_instruction_i, parse_instruction_s, s_bits, Instruction, InstructionType, Op, Word};
use crate::utils::binary_utils::{sext12, u16_to_i16, u8_to_i8};

verus! {

/// The instructions of this set, in the order the decoder tries them.
pub open spec fn spec_rv32i_set_ls() -> Seq<Instruction> {
    seq![
        Instruction { mask: 0x707f, bits: 0x3, name: "LB", instruction_type: InstructionType::I, op: Op::Lb },
        Instruction { mask: 0x707f, bits: 0x1003, name: "LH", instruction_type: InstructionType::I, op: Op::Lh },
        Instruction { mask: 0x707f, bits: 0x2003, name: "LW", instruction_type: InstructionType::I, op: Op::Lw },
        Instruction { mask: 0x707f, bits: 0x4003, name: "LBU", instruction_type: InstructionType::I, op: Op::Lbu },
        Instruction { mask: 0x707f, bits: 0x5003, name: "LHU", instruction_type: InstructionType::I, op: Op::Lhu },
        Instruction { mask: 0x707f, bits: 0x2023, name: "SW", instruction_type: InstructionType::S, op: Op::Sw },
        Instruction { mask: 0x707f, bits: 0x1023, name: "SH", instruction_type: InstructionType::S, op: Op::Sh },
        Instruction { mask: 0x707f, bits: 0x23, name: "SB", instruction_type: InstructionType::S, op: Op::Sb },
    ]
}

/// The instructions of this set, in the order the decoder tries them.
pub fn rv32i_set_ls() -> (v: Vec<Instruction>)
    ensures
        v@ == spec_rv32i_set_ls(),
{
    let mut v: Vec<Instruction> = Vec::new();
    v.push(Instruction { mask: 0x707f, bits: 0x3, name: "LB", instruction_type: InstructionType::I, op: Op::Lb });
    v.push(Instruction { mask: 0x707f, bits: 0x1003, name: "LH", instruction_type: InstructionType::I, op: Op::Lh });
    v.push(Instruction { mask: 0x707f, bits: 0x2003, name: "LW", instruction_type: InstructionType::I, op: Op::Lw });
    v.push(Instruction { mask: 0x707f, bits: 0x4003, name: "LBU", instruction_type: InstructionType::I, op: Op::Lbu });
    v.push(Instruction { mask: 0x707f, bits: 0x5003, name: "LHU", instruction_type: InstructionType::I, op: Op::Lhu });
    v.push(Instruction { mask: 0x707f, bits: 0x2023, name: "SW", instruction_type: InstructionType::S, op: Op::Sw });
    v.push(Instruction { mask: 0x707f, bits: 0x1023, name: "SH", instruction_type: InstructionType::S, op: Op::Sh });
    v.push(Instruction { mask: 0x707f, bits: 0x23, name: "SB", instruction_type: InstructionType::S, op: Op::Sb });
    assert(v@ =~= spec_rv32i_set_ls());
    v
}

/// The operations of this set.
pub open spec fn in_rv32i_set_ls(op: Op) -> bool {
    match op {
        Op::Lb | Op::Lh | Op::Lw | Op::Lbu | Op::Lhu | Op::Sw | Op::Sh | Op::Sb => true,
        _ => false,
    }
}

/// Loads of this set.
pub open spec fn is_rv32_load(op: Op) -> bool {
    op == Op::Lb || op == Op::Lh || op == Op::Lw || op == Op::Lbu || op == Op::Lhu
}

/// The number of bytes an access of this set moves.
pub open spec fn access_width(op: Op) -> nat {
    match op {
        Op::Lb | Op::Lbu | Op::Sb => 1,
        Op::Lh | Op::Lhu | Op::Sh => 2,
        _ => 4,
    }
}

/// The register value a load writes for the loaded value `v`: sign-extended for `LB` and
/// `LH`, zero-extended for `LBU` and `LHU`.
pub open spec fn rv32_load_value(op: Op, v: u64) -> u32 {
    match op {
        Op::Lb => (((v as u8) as i8) as i32) as u32,
        Op::Lh => (((v as u16) as i16) as i32) as u32,
        Op::Lbu => (v as u8) as u32,
        Op::Lhu => (v as u16) as u32,
        _ => v as u32,
    }
}

/// The address of an access: base register plus the sign-extended offset, wrapping at 32 bits.
pub open spec fn rv32_access_addr(op: Op, w: u32, x: Seq<u32>) -> u64 {
    let off = if is_rv32_load(op) { sext12(imm_i_of(w)) } else { sext12(s_bits(w)) };
    (x[rs1_of(w) as int].wrapping_add_signed(off as i32)) as u64
}

/// The value a store writes: the low bytes of the second source register.
pub open spec fn rv32_store_value(w: u32, x: Seq<u32>) -> u64 {
    x[rs2_of(w) as int] as u64
}

/// `after` is `before` after a load: the read's effect, then the destination register.
pub open spec fn load_done<M: Memory>(before: Cpu<M>, after: Cpu<M>, addr: u64, w: nat, rd: u8, op: Op, r: Result<(), EmuError>) -> bool {
    exists|mid: Cpu<M>, rv: Result<u64, EmuError>|
        #![trigger read_effect(before, mid, addr, w, rv)]
        read_effect(before, mid, addr, w, rv) && match rv {
            Ok(v) => r is Ok && writes_x32(mid, after, rd, rv32_load_value(op, v)),
            Err(_) => r is Err && after == mid,
        }
}

/// The outcome of a 32-bit load or store.
pub open spec fn rv32i_ls_done<M: Memory>(before: Cpu<M>, after: Cpu<M>, op: Op, w: u32, r: Result<(), EmuError>) -> bool {
    let x = before.x32();
    let addr = rv32_access_addr(op, w, x);
    if is_rv32_load(op) {
        load_done(before, after, addr, access_width(op), rd_of(w), op, r)
    } else {
        write_effect(
            before,
            after,
            addr,
            access_width(op),
            if op == Op::Sw {
                rv32_store_value(w, x)
            } else if op == Op::Sh {
                (rv32_store_value(w, x) as u16) as u64
            } else {
                (rv32_store_value(w, x) as u8) as u64
            },
            r,
        )
    }
}

/// Executes a load or store on the 32-bit registers.
pub fn execute_rv32i_set_ls<M: Memory>(cpu: &mut Cpu<M>, op: Op, word: &Word) -> (r: Result<(), EmuError>)
    requires
        old(cpu).wf(),
        in_rv32i_set_ls(op),
    ensures
        final(cpu).wf(),
        rv32i_ls_done(*old(cpu), *final(cpu), op, word.0, r),
{
    proof {
        lemma_fields_in_range(word.0);
    }
    if op == Op::Sw || op == Op::Sh || op == Op::Sb {
        let ins = parse_instruction_s(word);
        let offset = ins.imm.as_i32();
        let addr = cpu.read_x_u32(ins.rs1.0).wrapping_add_signed(offset) as u64;
        let v = cpu.read_x_u32(ins.rs2.0);
        return if op == Op::Sw {
            cpu.write_mem_u32(addr, v)
        } else if op == Op::Sh {
            cpu.write_mem_u16(addr, v as u16)
        } else {
            cpu.write_mem_u8(addr, v as u8)
        };
    }
    let ins = parse_instruction_i(word);
    let offset = ins.imm.as_i32();
    let addr = cpu.read_x_u32(ins.rs1.0).wrapping_add_signed(offset) as u64;
    let rv: Result<u64, EmuError> = match op {
        Op::Lb | Op::Lbu => match cpu.read_mem_u8(addr) {
            Ok(v) => Ok(v as u64),
            Err(e) => Err(e),
        },
        Op::Lh | Op::Lhu => match cpu.read_mem_u16(addr) {
            Ok(v) => Ok(v as u64),
            Err(e) => Err(e),
        },
        _ => match cpu.read_mem_u32(addr) {
            Ok(v) => Ok(v as u64),
            Err(e) => Err(e),
        },
    };
    let ghost mid = *cpu;
    let v = match rv {
        Ok(v) => v,
        Err(e) => {
            assert(read_effect(*old(cpu), mid, addr, access_width(op), rv));
            return Err(e);
        },
    };
    let value: u32 = match op {
        Op::Lb => u8_to_i8(v as u8) as i32 as u32,
        Op::Lh => u16_to_i16(v as u16) as i32 as u32,
        Op::Lbu => (v as u8) as u32,
        Op::Lhu => (v as u16) as u32,
        _ => v as u32,
    };
    cpu.write_x_u32(ins.rd.0, value);
    assert(read_effect(*old(cpu), mid, addr, access_width(op), rv));
    Ok(())
}

} // verus!
