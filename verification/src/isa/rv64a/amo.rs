use vstd::prelude::*;

use crate::cpu::cpu_core::Cpu;
use crate::cpu::memory::memory_core::Memory;
use crate::cpu::memory_access::{read_effect, write_effect};
use crate::error::EmuError;
use crate::isa::semantics::{lemma_fields_in_range, rd_of, rs1_of, rs2_of, writes_x64};
use crate::types::{parse_instruction_r, Instruction, InstructionType, Op, Word};

verus! {

/// The instructions of this set, in the order the decoder tries them.
pub open spec fn spec_rv64a_set_amo() -> Seq<Instruction> {
    seq![
        Instruction { mask: 0xf800707f, bits: 0x800302f, name: "AMOSWAP.D", instruction_type: InstructionType::R, op: Op::AmoswapD },
        Instruction { mask: 0xf800707f, bits: 0x800202f, name: "AMOSWAP.W", instruction_type: InstructionType::R, op: Op::AmoswapW },
        Instruction { mask: 0xf800707f, bits: 0x302f, name: "AMOADD.D", instruction_type: InstructionType::R, op: Op::AmoaddD },
        Instruction { mask: 0xf800707f, bits: 0x202f, name: "AMOADD.W", instruction_type: InstructionType::R, op: Op::AmoaddW },
        Instruction { mask: 0xf800707f, bits: 0x2000302f, name: "AMOXOR.D", instruction_type: InstructionType::R, op: Op::AmoxorD },
        Instruction { mask: 0xf800707f, bits: 0x2000202f, name: "AMOXOR.W", instruction_type: InstructionType::R, op: Op::AmoxorW },
        Instruction { mask: 0xf800707f, bits: 0x6000302f, name: "AMOAND.D", instruction_type: InstructionType::R, op: Op::AmoandD },
        Instruction { mask: 0xf800707f, bits: 0x6000202f, name: "AMOAND.W", instruction_type: InstructionType::R, op: Op::AmoandW },
        Instruction { mask: 0xf800707f, bits: 0x4000302f, name: "AMOOR.D", instruction_type: InstructionType::R, op: Op::AmoorD },
        Instruction { mask: 0xf800707f, bits: 0x4000202f, name: "AMOOR.W", instruction_type: InstructionType::R, op: Op::AmoorW },
    ]
}

/// The instructions of this set, in the order the decoder tries them.
pub fn rv64a_set_amo() -> (v: Vec<Instruction>)
    ensures
        v@ == spec_rv64a_set_amo(),
{
    let mut v: Vec<Instruction> = Vec::new();
    v.push(Instruction { mask: 0xf800707f, bits: 0x800302f, name: "AMOSWAP.D", instruction_type: InstructionType::R, op: Op::AmoswapD });
    v.push(Instruction { mask: 0xf800707f, bits: 0x800202f, name: "AMOSWAP.W", instruction_type: InstructionType::R, op: Op::AmoswapW });
    v.push(Instruction { mask: 0xf800707f, bits: 0x302f, name: "AMOADD.D", instruction_type: InstructionType::R, op: Op::AmoaddD });
    v.push(Instruction { mask: 0xf800707f, bits: 0x202f, name: "AMOADD.W", instruction_type: InstructionType::R, op: Op::AmoaddW });
    v.push(Instruction { mask: 0xf800707f, bits: 0x2000302f, name: "AMOXOR.D", instruction_type: InstructionType::R, op: Op::AmoxorD });
    v.push(Instruction { mask: 0xf800707f, bits: 0x2000202f, name: "AMOXOR.W", instruction_type: InstructionType::R, op: Op::AmoxorW });
    v.push(Instruction { mask: 0xf800707f, bits: 0x6000302f, name: "AMOAND.D", instruction_type: InstructionType::R, op: Op::AmoandD });
    v.push(Instruction { mask: 0xf800707f, bits: 0x6000202f, name: "AMOAND.W", instruction_type: InstructionType::R, op: Op::AmoandW });
    v.push(Instruction { mask: 0xf800707f, bits: 0x4000302f, name: "AMOOR.D", instruction_type: InstructionType::R, op: Op::AmoorD });
    v.push(Instruction { mask: 0xf800707f, bits: 0x4000202f, name: "AMOOR.W", instruction_type: InstructionType::R, op: Op::AmoorW });
    assert(v@ =~= spec_rv64a_set_amo());
    v
}

/// The operations of this set.
pub open spec fn in_rv64a_set_amo(op: Op) -> bool {
    match op {
        Op::AmoswapD | Op::AmoswapW | Op::AmoaddD | Op::AmoaddW | Op::AmoxorD | Op::AmoxorW
        | Op::AmoandD | Op::AmoandW | Op::AmoorD | Op::AmoorW => true,
        _ => false,
    }
}

/// Word-sized operations of this set.
pub open spec fn amo_is_word(op: Op) -> bool {
    op == Op::AmoswapW || op == Op::AmoaddW || op == Op::AmoxorW || op == Op::AmoandW || op == Op::AmoorW
}

/// The width in bytes of an atomic operation.
pub open spec fn amo_width(op: Op) -> nat {
    if amo_is_word(op) { 4 } else { 8 }
}

/// The value written to `rd`: the loaded value, sign-extended for words.
pub open spec fn amo_loaded(op: Op, v: u64) -> u64 {
    if amo_is_word(op) { (((v as u32) as i32) as i64) as u64 } else { v }
}

/// The value stored back: the second source combined with the loaded value.
pub open spec fn amo_result(op: Op, v: u64, src: u64) -> u64 {
    if amo_is_word(op) {
        let d = v as u32;
        let s = src as u32;
        (match op {
            Op::AmoswapW => s,
            Op::AmoaddW => (d as i32).wrapping_add(s as i32) as u32,
            Op::AmoxorW => d ^ s,
            Op::AmoandW => d & s,
            _ => d | s,
        }) as u64
    } else {
        match op {
            Op::AmoswapD => src,
            Op::AmoaddD => (v as i64).wrapping_add(src as i64) as u64,
            Op::AmoxorD => v ^ src,
            Op::AmoandD => v & src,
            _ => v | src,
        }
    }
}

/// After the load: `rd` receives `loaded`, then `res` is stored at `addr`.
pub open spec fn amo_store<M: Memory>(mid: Cpu<M>, after: Cpu<M>, addr: u64, w: nat, rd: u8, loaded: u64, res: u64, r: Result<(), EmuError>) -> bool {
    exists|m2: Cpu<M>|
        #![trigger writes_x64(mid, m2, rd, loaded)]
        writes_x64(mid, m2, rd, loaded) && m2.wf() && write_effect(m2, after, addr, w, res, r)
}

/// `after` is `before` after an atomic memory operation: load, register write, store.
pub open spec fn amo_done<M: Memory>(before: Cpu<M>, after: Cpu<M>, op: Op, w: u32, r: Result<(), EmuError>) -> bool {
    let x = before.x64();
    let addr = x[rs1_of(w) as int];
    let width = amo_width(op);
    exists|mid: Cpu<M>, rv: Result<u64, EmuError>|
        #![trigger read_effect(before, mid, addr, width, rv)]
        read_effect(before, mid, addr, width, rv) && match rv {
            Err(_) => r is Err && after == mid,
            Ok(v) => mid.wf() && amo_store(
                mid,
                after,
                addr,
                width,
                rd_of(w),
                amo_loaded(op, v),
                amo_result(op, v, x[rs2_of(w) as int]),
                r,
            ),
        }
}

/// The outcome of an atomic memory operation.
pub open spec fn rv64a_done<M: Memory>(before: Cpu<M>, after: Cpu<M>, op: Op, w: u32, r: Result<(), EmuError>) -> bool {
    amo_done(before, after, op, w, r)
}

/// Executes an atomic memory operation on the 64-bit registers.
pub fn execute_rv64a_set_amo<M: Memory>(cpu: &mut Cpu<M>, op: Op, word: &Word) -> (r: Result<(), EmuError>)
    requires
        old(cpu).wf(),
        in_rv64a_set_amo(op),
    ensures
        final(cpu).wf(),
        rv64a_done(*old(cpu), *final(cpu), op, word.0, r),
{
    proof {
        lemma_fields_in_range(word.0);
    }
    let ins = parse_instruction_r(word);
    let addr = cpu.read_x_u64(ins.rs1.0);
    let src = cpu.read_x_u64(ins.rs2.0);
    let word_op = op == Op::AmoswapW || op == Op::AmoaddW || op == Op::AmoxorW || op == Op::AmoandW
        || op == Op::AmoorW;
    let rv: Result<u64, EmuError> = if word_op {
        match cpu.read_mem_u32(addr) {
            Ok(v) => Ok(v as u64),
            Err(e) => Err(e),
        }
    } else {
        cpu.read_mem_u64(addr)
    };
    let ghost mid = *cpu;
    proof {
        assert(read_effect(*old(cpu), mid, addr, amo_width(op), rv));
    }
    let v = match rv {
        Ok(v) => v,
        Err(e) => {
            return Err(e);
        },
    };
    if word_op {
        let d = v as u32;
        let s = src as u32;
        cpu.write_x_u64(ins.rd.0, ((d as i32) as i64) as u64);
        let ghost m2 = *cpu;
        let res: u32 = match op {
            Op::AmoswapW => s,
            Op::AmoaddW => (d as i32).wrapping_add(s as i32) as u32,
            Op::AmoxorW => d ^ s,
            Op::AmoandW => d & s,
            _ => d | s,
        };
        let r = cpu.write_mem_u32(addr, res);
        assert(writes_x64(mid, m2, ins.rd.0, amo_loaded(op, v)));
        r
    } else {
        cpu.write_x_u64(ins.rd.0, v);
        let ghost m2 = *cpu;
        let res: u64 = match op {
            Op::AmoswapD => src,
            Op::AmoaddD => (v as i64).wrapping_add(src as i64) as u64,
            Op::AmoxorD => v ^ src,
            Op::AmoandD => v & src,
            _ => v | src,
        };
        let r = cpu.write_mem_u64(addr, res);
        assert(writes_x64(mid, m2, ins.rd.0, amo_loaded(op, v)));
        r
    }
}

} // verus!
