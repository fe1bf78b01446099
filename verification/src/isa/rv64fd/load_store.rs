use vstd::prelude::*;

use crate::cpu::cpu_core::Cpu;
use crate::cpu::memory::memory_core::Memory;
use crate::cpu::memory_access::{read_effect, write_effect};
use crate::error::EmuError;
use crate::isa::semantics::{imm_i_of, lemma_fields_in_range, nan_boxed, rd_of, rs1_of, rs2_of, writes_f};
use crate::types::{parse_instruction_i, parse_instruction_s, s_bits, Instruction, InstructionType, Op, Word};
use crate::utils::binary_utils::sext12;

verus! {

/// The instructions of this set, in the order the decoder tries them.
pub open spec fn spec_rv64f_set_ls() -> Seq<Instruction> {
    seq![
        Instruction { mask: 0x707f, bits: 0x2007, name: "FLW", instruction_type: InstructionType::I, op: Op::Flw },
        Instruction { mask: 0x707f, bits: 0x3007, name: "FLD", instruction_type: InstructionType::I, op: Op::Fld },
        Instruction { mask: 0x707f, bits: 0x2027, name: "FSW", instruction_type: InstructionType::S, op: Op::Fsw },
        Instruction { mask: 0x707f, bits: 0x3027, name: "FSD", instruction_type: InstructionType::S, op: Op::Fsd },
    ]
}

/// The instructions of this set, in the order the decoder tries them.
pub fn rv64f_set_ls() -> (v: Vec<Instruction>)
    ensures
        v@ == spec_rv64f_set_ls(),
{
    let mut v: Vec<Instruction> = Vec::new();
    v.push(Instruction { mask: 0x707f, bits: 0x2007, name: "FLW", instruction_type: InstructionType::I, op: Op::Flw });
    v.push(Instruction { mask: 0x707f, bits: 0x3007, name: "FLD", instruction_type: InstructionType::I, op: Op::Fld });
    v.push(Instruction { mask: 0x707f, bits: 0x2027, name: "FSW", instruction_type: InstructionType::S, op: Op::Fsw });
    v.push(Instruction { mask: 0x707f, bits: 0x3027, name: "FSD", instruction_type: InstructionType::S, op: Op::Fsd });
    assert(v@ =~= spec_rv64f_set_ls());
    v
}

/// The operations of this set.
pub open spec fn in_rv64f_set_ls(op: Op) -> bool {
    op == Op::Flw || op == Op::Fld || op == Op::Fsw || op == Op::Fsd
}

/// The address of a floating-point load or store: base register plus the sign-extended offset,
/// wrapping at 64 bits.
pub open spec fn rv64f_access_addr(op: Op, w: u32, x: Seq<u64>) -> u64 {
    let off = if op == Op::Flw || op == Op::Fld { sext12(imm_i_of(w)) } else { sext12(s_bits(w)) };
    x[rs1_of(w) as int].wrapping_add(off as u64)
}

/// `after` is `before` after a floating-point load of `width` bytes into `rd`: the read's
/// effect, then the register (single-precision values boxed).
pub open spec fn f_load_done<M: Memory>(before: Cpu<M>, after: Cpu<M>, addr: u64, width: nat, rd: u8, r: Result<(), EmuError>) -> bool {
    exists|mid: Cpu<M>, rv: Result<u64, EmuError>|
        #![trigger read_effect(before, mid, addr, width, rv)]
        read_effect(before, mid, addr, width, rv) && match rv {
            Ok(v) => r is Ok && writes_f(mid, after, rd, if width == 4 { nan_boxed(v as u32) } else { v }),
            Err(_) => r is Err && after == mid,
        }
}

/// The outcome of a floating-point load or store: `FLW` and `FLD` read a word or doubleword
/// into a floating-point register, `FSW` and `FSD` store its low word or all of it.
pub open spec fn rv64f_ls_done<M: Memory>(before: Cpu<M>, after: Cpu<M>, op: Op, w: u32, r: Result<(), EmuError>) -> bool {
    let addr = rv64f_access_addr(op, w, before.x64());
    let f = before.f_regs();
    match op {
        Op::Flw => f_load_done(before, after, addr, 4, rd_of(w), r),
        Op::Fld => f_load_done(before, after, addr, 8, rd_of(w), r),
        Op::Fsw => write_effect(before, after, addr, 4, (f[rs2_of(w) as int] as u32) as u64, r),
        _ => write_effect(before, after, addr, 8, f[rs2_of(w) as int], r),
    }
}

/// Executes a floating-point load or store.
pub fn execute_rv64f_set_ls<M: Memory>(cpu: &mut Cpu<M>, op: Op, word: &Word) -> (r: Result<(), EmuError>)
    requires
        old(cpu).wf(),
        in_rv64f_set_ls(op),
    ensures
        final(cpu).wf(),
        rv64f_ls_done(*old(cpu), *final(cpu), op, word.0, r),
{
    proof {
        lemma_fields_in_range(word.0);
    }
    if op == Op::Fsw || op == Op::Fsd {
        let ins = parse_instruction_s(word);
        let addr = cpu.read_x_u64(ins.rs1.0).wrapping_add(ins.imm.as_i64() as u64);
        let v = cpu.read_f_bits(ins.rs2.0);
        return if op == Op::Fsw {
            cpu.write_mem_u32(addr, v as u32)
        } else {
            cpu.write_mem_u64(addr, v)
        };
    }
    let ins = parse_instruction_i(word);
    let addr = cpu.read_x_u64(ins.rs1.0).wrapping_add(ins.imm.as_i64() as u64);
    let rv: Result<u64, EmuError> = if op == Op::Flw {
        match cpu.read_mem_u32(addr) {
            Ok(v) => Ok(0xffff_ffff_0000_0000u64 | (v as u64)),
            Err(e) => Err(e),
        }
    } else {
        cpu.read_mem_u64(addr)
    };
    let ghost mid = *cpu;
    match rv {
        Ok(v) => {
            cpu.write_f_bits(ins.rd.0, v);
            Ok(())
        },
        Err(e) => Err(e),
    }
}

} // verus!
