use vstd::prelude::*;

use crate::cpu::cpu_core::Cpu;
use crate::cpu::memory::memory_core::Memory;
use crate::error::EmuError;
use crate::isa::semantics::{lemma_fields_in_range, nan_boxed, rd_of, rs1_of, rs2_of, writes_f, writes_x32, writes_x64};
use crate::types::{parse_instruction_r, Instruction, InstructionType, Op, Word};

verus! {

/// The instructions of this set, in the order the decoder tries them.
pub open spec fn spec_rv64f_set_mov() -> Seq<Instruction> {
    seq![
        Instruction { mask: 0xfff0007f, bits: 0xe2000053, name: "FMV.X.D", instruction_type: InstructionType::R, op: Op::FmvXD },
        Instruction { mask: 0xfff0007f, bits: 0xf0000053, name: "FMV.X.W", instruction_type: InstructionType::R, op: Op::FmvXW },
        Instruction { mask: 0xfff0007f, bits: 0xf2000053, name: "FMV.D.X", instruction_type: InstructionType::R, op: Op::FmvDX },
        Instruction { mask: 0xfff0007f, bits: 0xe0000053, name: "FMV.W.X", instruction_type: InstructionType::R, op: Op::FmvWX },
        Instruction { mask: 0xfe00707f, bits: 0x20000053, name: "FSGNJ.S", instruction_type: InstructionType::R, op: Op::FsgnjS },
        Instruction { mask: 0xfe00707f, bits: 0x20001053, name: "FSGNJN.S", instruction_type: InstructionType::R, op: Op::FsgnjnS },
        Instruction { mask: 0xfe00707f, bits: 0x20002053, name: "FSGNJX.S", instruction_type: InstructionType::R, op: Op::FsgnjxS },
        Instruction { mask: 0xfe00707f, bits: 0x22000053, name: "FSGNJ.D", instruction_type: InstructionType::R, op: Op::FsgnjD },
        Instruction { mask: 0xfe00707f, bits: 0x22001053, name: "FSGNJN.D", instruction_type: InstructionType::R, op: Op::FsgnjnD },
        Instruction { mask: 0xfe00707f, bits: 0x22002053, name: "FSGNJX.D", instruction_type: InstructionType::R, op: Op::FsgnjxD },
    ]
}

/// The instructions of this set, in the order the decoder tries them.
pub fn rv64f_set_mov() -> (v: Vec<Instruction>)
    ensures
        v@ == spec_rv64f_set_mov(),
{
    let mut v: Vec<Instruction> = Vec::new();
    v.push(Instruction { mask: 0xfff0007f, bits: 0xe2000053, name: "FMV.X.D", instruction_type: InstructionType::R, op: Op::FmvXD });
    v.push(Instruction { mask: 0xfff0007f, bits: 0xf0000053, name: "FMV.X.W", instruction_type: InstructionType::R, op: Op::FmvXW });
    v.push(Instruction { mask: 0xfff0007f, bits: 0xf2000053, name: "FMV.D.X", instruction_type: InstructionType::R, op: Op::FmvDX });
    v.push(Instruction { mask: 0xfff0007f, bits: 0xe0000053, name: "FMV.W.X", instruction_type: InstructionType::R, op: Op::FmvWX });
    v.push(Instruction { mask: 0xfe00707f, bits: 0x20000053, name: "FSGNJ.S", instruction_type: InstructionType::R, op: Op::FsgnjS });
    v.push(Instruction { mask: 0xfe00707f, bits: 0x20001053, name: "FSGNJN.S", instruction_type: InstructionType::R, op: Op::FsgnjnS });
    v.push(Instruction { mask: 0xfe00707f, bits: 0x20002053, name: "FSGNJX.S", instruction_type: InstructionType::R, op: Op::FsgnjxS });
    v.push(Instruction { mask: 0xfe00707f, bits: 0x22000053, name: "FSGNJ.D", instruction_type: InstructionType::R, op: Op::FsgnjD });
    v.push(Instruction { mask: 0xfe00707f, bits: 0x22001053, name: "FSGNJN.D", instruction_type: InstructionType::R, op: Op::FsgnjnD });
    v.push(Instruction { mask: 0xfe00707f, bits: 0x22002053, name: "FSGNJX.D", instruction_type: InstructionType::R, op: Op::FsgnjxD });
    assert(v@ =~= spec_rv64f_set_mov());
    v
}

/// The operations of this set.
pub open spec fn in_rv64f_set_mov(op: Op) -> bool {
    match op {
        Op::FmvXD | Op::FmvXW | Op::FmvDX | Op::FmvWX | Op::FsgnjS | Op::FsgnjnS | Op::FsgnjxS
        | Op::FsgnjD | Op::FsgnjnD | Op::FsgnjxD => true,
        _ => false,
    }
}

/// The single-precision sign injections: the magnitude of `a` with the sign of `b`, its
/// inverse, or the exclusive or of both signs.
pub open spec fn sign_injected32(op: Op, a: u32, b: u32) -> u32 {
    match op {
        Op::FsgnjS => (a & 0x7fff_ffff) | (b & 0x8000_0000),
        Op::FsgnjnS => (a & 0x7fff_ffff) | (!b & 0x8000_0000),
        _ => (a & 0x7fff_ffff) | ((a ^ b) & 0x8000_0000),
    }
}

/// The double-precision sign injections.
pub open spec fn sign_injected64(op: Op, a: u64, b: u64) -> u64 {
    match op {
        Op::FsgnjD => (a & 0x7fff_ffff_ffff_ffff) | (b & 0x8000_0000_0000_0000),
        Op::FsgnjnD => (a & 0x7fff_ffff_ffff_ffff) | (!b & 0x8000_0000_0000_0000),
        _ => (a & 0x7fff_ffff_ffff_ffff) | ((a ^ b) & 0x8000_0000_0000_0000),
    }
}

/// The outcome of a move between register files or a sign injection; bit patterns are moved
/// unchanged and single-precision results are boxed.
pub open spec fn rv64f_mov_done<M: Memory>(before: Cpu<M>, after: Cpu<M>, op: Op, w: u32, r: Result<(), EmuError>) -> bool {
    let f = before.f_regs();
    let a = f[rs1_of(w) as int];
    let b = f[rs2_of(w) as int];
    &&& r is Ok
    &&& match op {
        Op::FmvXD => writes_x64(before, after, rd_of(w), a),
        Op::FmvXW => writes_x32(before, after, rd_of(w), a as u32),
        Op::FmvDX => writes_f(before, after, rd_of(w), before.x64()[rs1_of(w) as int]),
        Op::FmvWX => writes_f(before, after, rd_of(w), nan_boxed(before.x32()[rs1_of(w) as int])),
        Op::FsgnjS | Op::FsgnjnS | Op::FsgnjxS => writes_f(
            before,
            after,
            rd_of(w),
            nan_boxed(sign_injected32(op, a as u32, b as u32)),
        ),
        _ => writes_f(before, after, rd_of(w), sign_injected64(op, a, b)),
    }
}

/// Executes a move between register files or a sign injection.
pub fn execute_rv64f_set_mov<M: Memory>(cpu: &mut Cpu<M>, op: Op, word: &Word) -> (r: Result<(), EmuError>)
    requires
        old(cpu).wf(),
        in_rv64f_set_mov(op),
    ensures
        final(cpu).wf(),
        rv64f_mov_done(*old(cpu), *final(cpu), op, word.0, r),
{
    proof {
        lemma_fields_in_range(word.0);
    }
    let ins = parse_instruction_r(word);
    let a = cpu.read_f_bits(ins.rs1.0);
    let b = cpu.read_f_bits(ins.rs2.0);
    match op {
        Op::FmvXD => cpu.write_x_u64(ins.rd.0, a),
        Op::FmvXW => cpu.write_x_u32(ins.rd.0, a as u32),
        Op::FmvDX => {
            let v = cpu.read_x_u64(ins.rs1.0);
            cpu.write_f_bits(ins.rd.0, v);
        },
        Op::FmvWX => {
            let v = cpu.read_x_u32(ins.rs1.0);
            cpu.write_f_bits(ins.rd.0, 0xffff_ffff_0000_0000u64 | (v as u64));
        },
        Op::FsgnjS | Op::FsgnjnS | Op::FsgnjxS => {
            let x = a as u32;
            let y = b as u32;
            let s: u32 = match op {
                Op::FsgnjS => (x & 0x7fff_ffff) | (y & 0x8000_0000),
                Op::FsgnjnS => (x & 0x7fff_ffff) | (!y & 0x8000_0000),
                _ => (x & 0x7fff_ffff) | ((x ^ y) & 0x8000_0000),
            };
            cpu.write_f_bits(ins.rd.0, 0xffff_ffff_0000_0000u64 | (s as u64));
        },
        _ => {
            let s: u64 = match op {
                Op::FsgnjD => (a & 0x7fff_ffff_ffff_ffff) | (b & 0x8000_0000_0000_0000),
                Op::FsgnjnD => (a & 0x7fff_ffff_ffff_ffff) | (!b & 0x8000_0000_0000_0000),
                _ => (a & 0x7fff_ffff_ffff_ffff) | ((a ^ b) & 0x8000_0000_0000_0000),
            };
            cpu.write_f_bits(ins.rd.0, s);
        },
    }
    Ok(())
}

} // verus!
