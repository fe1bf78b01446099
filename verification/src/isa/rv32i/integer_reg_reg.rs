use vstd::prelude::*;

use crate::cpu::cpu_core::Cpu;
use crate::cpu::memory::memory_core::Memory;
use crate::error::EmuError;
use crate::isa::semantics::{lemma_fields_in_range, rd_of, rs1_of, rs2_of, writes_x32};
use crate::types::{parse_instruction_r, Instruction, InstructionType, Op, RInstructionData, Word};

verus! {

/// The instructions of this set, in the order the decoder tries them.
pub open spec fn spec_rv32i_set_r() -> Seq<Instruction> {
    seq![
        Instruction { mask: 0xfe00707f, bits: 0x33, name: "ADD", instruction_type: InstructionType::R, op: Op::R32Add },
        Instruction { mask: 0xfe00707f, bits: 0x40000033, name: "SUB", instruction_type: InstructionType::R, op: Op::R32Sub },
        Instruction { mask: 0xfe00707f, bits: 0x1033, name: "SLL", instruction_type: InstructionType::R, op: Op::R32Sll },
        Instruction { mask: 0xfe00707f, bits: 0x2033, name: "SLT", instruction_type: InstructionType::R, op: Op::R32Slt },
        Instruction { mask: 0xfe00707f, bits: 0x3033, name: "SLTU", instruction_type: InstructionType::R, op: Op::R32Sltu },
        Instruction { mask: 0xfe00707f, bits: 0x4033, name: "XOR", instruction_type: InstructionType::R, op: Op::R32Xor },
        Instruction { mask: 0xfe00707f, bits: 0x5033, name: "SRL", instruction_type: InstructionType::R, op: Op::R32Srl },
        Instruction { mask: 0xfe00707f, bits: 0x40005033, name: "SRA", instruction_type: InstructionType::R, op: Op::R32Sra },
        Instruction { mask: 0xfe00707f, bits: 0x6033, name: "OR", instruction_type: InstructionType::R, op: Op::R32Or },
        Instruction { mask: 0xfe00707f, bits: 0x7033, name: "AND", instruction_type: InstructionType::R, op: Op::R32And },
    ]
}

/// The instructions of this set, in the order the decoder tries them.
pub fn rv32i_set_r() -> (v: Vec<Instruction>)
    ensures
        v@ == spec_rv32i_set_r(),
{
    let mut v: Vec<Instruction> = Vec::new();
    v.push(Instruction { mask: 0xfe00707f, bits: 0x33, name: "ADD", instruction_type: InstructionType::R, op: Op::R32Add });
    v.push(Instruction { mask: 0xfe00707f, bits: 0x40000033, name: "SUB", instruction_type: InstructionType::R, op: Op::R32Sub });
    v.push(Instruction { mask: 0xfe00707f, bits: 0x1033, name: "SLL", instruction_type: InstructionType::R, op: Op::R32Sll });
    v.push(Instruction { mask: 0xfe00707f, bits: 0x2033, name: "SLT", instruction_type: InstructionType::R, op: Op::R32Slt });
    v.push(Instruction { mask: 0xfe00707f, bits: 0x3033, name: "SLTU", instruction_type: InstructionType::R, op: Op::R32Sltu });
    v.push(Instruction { mask: 0xfe00707f, bits: 0x4033, name: "XOR", instruction_type: InstructionType::R, op: Op::R32Xor });
    v.push(Instruction { mask: 0xfe00707f, bits: 0x5033, name: "SRL", instruction_type: InstructionType::R, op: Op::R32Srl });
    v.push(Instruction { mask: 0xfe00707f, bits: 0x40005033, name: "SRA", instruction_type: InstructionType::R, op: Op::R32Sra });
    v.push(Instruction { mask: 0xfe00707f, bits: 0x6033, name: "OR", instruction_type: InstructionType::R, op: Op::R32Or });
    v.push(Instruction { mask: 0xfe00707f, bits: 0x7033, name: "AND", instruction_type: InstructionType::R, op: Op::R32And });
    assert(v@ =~= spec_rv32i_set_r());
    v
}

/// The operations of this set.
pub open spec fn in_rv32i_set_r(op: Op) -> bool {
    match op {
        Op::R32Add | Op::R32Sub | Op::R32Sll | Op::R32Slt | Op::R32Sltu | Op::R32Xor | Op::R32Srl
        | Op::R32Sra | Op::R32Or | Op::R32And => true,
        _ => false,
    }
}

/// The value a register-register operation of this set computes from its operands `a` and
/// `b`. Shift amounts are the low five bits of `b`.
pub open spec fn r32_result(op: Op, a: u32, b: u32) -> u32 {
    let shamt = b % 32;
    match op {
        Op::R32Add => (a as i32).wrapping_add(b as i32) as u32,
        Op::R32Sub => (a as i32).wrapping_sub(b as i32) as u32,
        Op::R32Sll => a << shamt,
        Op::R32Slt => if (a as i32) < (b as i32) { 1 } else { 0 },
        Op::R32Sltu => if a < b { 1 } else { 0 },
        Op::R32Xor => a ^ b,
        Op::R32Srl => a >> shamt,
        Op::R32Sra => ((a as i32) >> shamt) as u32,
        Op::R32Or => a | b,
        _ => a & b,
    }
}

/// The value a register-register instruction of this set writes, given the 32-bit registers.
pub open spec fn rv32i_r_value(op: Op, w: u32, x: Seq<u32>) -> u32 {
    r32_result(op, x[rs1_of(w) as int], x[rs2_of(w) as int])
}

/// Computes `r32_result`.
fn r32_compute(op: Op, a: u32, b: u32) -> (v: u32)
    ensures
        v == r32_result(op, a, b),
{
    let shamt = b % 32;
    match op {
        Op::R32Add => (a as i32).wrapping_add(b as i32) as u32,
        Op::R32Sub => (a as i32).wrapping_sub(b as i32) as u32,
        Op::R32Sll => a << shamt,
        Op::R32Slt => if (a as i32) < (b as i32) { 1 } else { 0 },
        Op::R32Sltu => if a < b { 1 } else { 0 },
        Op::R32Xor => a ^ b,
        Op::R32Srl => a >> shamt,
        Op::R32Sra => ((a as i32) >> shamt) as u32,
        Op::R32Or => a | b,
        _ => a & b,
    }
}

/// The outcome of a 32-bit register-register instruction.
pub open spec fn rv32i_r_done<M: Memory>(before: Cpu<M>, after: Cpu<M>, op: Op, w: u32, r: Result<(), EmuError>) -> bool {
    r is Ok && writes_x32(before, after, rd_of(w), rv32i_r_value(op, w, before.x32()))
}

/// Executes a register-register instruction on the 32-bit registers.
pub fn execute_rv32i_set_r<M: Memory>(cpu: &mut Cpu<M>, op: Op, word: &Word) -> (r: Result<(), EmuError>)
    requires
        old(cpu).wf(),
        in_rv32i_set_r(op),
    ensures
        final(cpu).wf(),
        rv32i_r_done(*old(cpu), *final(cpu), op, word.0, r),
{
    proof {
        lemma_fields_in_range(word.0);
    }
    let ins = parse_instruction_r(word);
    let a = cpu.read_x_u32(ins.rs1.0);
    let b = cpu.read_x_u32(ins.rs2.0);
    let v = r32_compute(op, a, b);
    cpu.write_x_u32(ins.rd.0, v);
    Ok(())
}

/// The outcome of operation `op` on the register fields of `ins`: a register number past the
/// last register is refused, the source ones first, and then nothing changes.
pub open spec fn r_fields_done<M: Memory>(
    before: Cpu<M>,
    after: Cpu<M>,
    op: Op,
    ins: RInstructionData,
    r: Result<(), EmuError>,
) -> bool {
    if ins.rs1.0 >= 32 {
        r == Err::<(), EmuError>(EmuError::InvalidRegister(ins.rs1.0 as u32)) && after == before
    } else if ins.rs2.0 >= 32 {
        r == Err::<(), EmuError>(EmuError::InvalidRegister(ins.rs2.0 as u32)) && after == before
    } else if ins.rd.0 >= 32 {
        r == Err::<(), EmuError>(EmuError::InvalidRegister(ins.rd.0 as u32)) && after == before
    } else {
        r is Ok && writes_x32(
            before,
            after,
            ins.rd.0,
            r32_result(op, before.x32()[ins.rs1.0 as int], before.x32()[ins.rs2.0 as int]),
        )
    }
}

/// Executes operation `op` on the register fields of `ins`.
fn execute_r_fields<M: Memory>(cpu: &mut Cpu<M>, op: Op, ins: &RInstructionData) -> (r: Result<(), EmuError>)
    requires
        old(cpu).wf(),
    ensures
        final(cpu).wf(),
        r_fields_done(*old(cpu), *final(cpu), op, *ins, r),
{
    if ins.rs1.0 >= 32 {
        return Err(EmuError::InvalidRegister(ins.rs1.0 as u32));
    }
    if ins.rs2.0 >= 32 {
        return Err(EmuError::InvalidRegister(ins.rs2.0 as u32));
    }
    if ins.rd.0 >= 32 {
        return Err(EmuError::InvalidRegister(ins.rd.0 as u32));
    }
    let a = cpu.read_x_u32(ins.rs1.0);
    let b = cpu.read_x_u32(ins.rs2.0);
    let v = r32_compute(op, a, b);
    cpu.write_x_u32(ins.rd.0, v);
    Ok(())
}

/// ADD: the wrapping sum of the two source registers.
pub struct Add {
    pub instruction: RInstructionData,
}

impl Add {
    /// The operation on the fields `instruction`.
    pub fn new(instruction: RInstructionData) -> (r: Self)
        ensures
            r.instruction == instruction,
    {
        Add { instruction }
    }

    /// The fields it works on.
    pub fn instruction(&self) -> (r: &RInstructionData)
        ensures
            *r == self.instruction,
    {
        &self.instruction
    }

    /// Writes the result to the destination register.
    pub fn execute<M: Memory>(&self, cpu: &mut Cpu<M>) -> (r: Result<(), EmuError>)
        requires
            old(cpu).wf(),
        ensures
            final(cpu).wf(),
            r_fields_done(*old(cpu), *final(cpu), Op::R32Add, self.instruction, r),
    {
        execute_r_fields(cpu, Op::R32Add, &self.instruction)
    }
}

/// SUB: the wrapping difference of the two source registers.
pub struct Sub {
    pub instruction: RInstructionData,
}

impl Sub {
    /// The operation on the fields `instruction`.
    pub fn new(instruction: RInstructionData) -> (r: Self)
        ensures
            r.instruction == instruction,
    {
        Sub { instruction }
    }

    /// The fields it works on.
    pub fn instruction(&self) -> (r: &RInstructionData)
        ensures
            *r == self.instruction,
    {
        &self.instruction
    }

    /// Writes the result to the destination register.
    pub fn execute<M: Memory>(&self, cpu: &mut Cpu<M>) -> (r: Result<(), EmuError>)
        requires
            old(cpu).wf(),
        ensures
            final(cpu).wf(),
            r_fields_done(*old(cpu), *final(cpu), Op::R32Sub, self.instruction, r),
    {
        execute_r_fields(cpu, Op::R32Sub, &self.instruction)
    }
}

/// SLT: 1 when the first source is less than the second as signed numbers, else 0.
pub struct SLT {
    pub instruction: RInstructionData,
}

impl SLT {
    /// The operation on the fields `instruction`.
    pub fn new(instruction: RInstructionData) -> (r: Self)
        ensures
            r.instruction == instruction,
    {
        SLT { instruction }
    }

    /// The fields it works on.
    pub fn instruction(&self) -> (r: &RInstructionData)
        ensures
            *r == self.instruction,
    {
        &self.instruction
    }

    /// Writes the result to the destination register.
    pub fn execute<M: Memory>(&self, cpu: &mut Cpu<M>) -> (r: Result<(), EmuError>)
        requires
            old(cpu).wf(),
        ensures
            final(cpu).wf(),
            r_fields_done(*old(cpu), *final(cpu), Op::R32Slt, self.instruction, r),
    {
        execute_r_fields(cpu, Op::R32Slt, &self.instruction)
    }
}

/// SLTU: 1 when the first source is less than the second as unsigned numbers, else 0.
pub struct SLTU {
    pub instruction: RInstructionData,
}

impl SLTU {
    /// The operation on the fields `instruction`.
    pub fn new(instruction: RInstructionData) -> (r: Self)
        ensures
            r.instruction == instruction,
    {
        SLTU { instruction }
    }

    /// The fields it works on.
    pub fn instruction(&self) -> (r: &RInstructionData)
        ensures
            *r == self.instruction,
    {
        &self.instruction
    }

    /// Writes the result to the destination register.
    pub fn execute<M: Memory>(&self, cpu: &mut Cpu<M>) -> (r: Result<(), EmuError>)
        requires
            old(cpu).wf(),
        ensures
            final(cpu).wf(),
            r_fields_done(*old(cpu), *final(cpu), Op::R32Sltu, self.instruction, r),
    {
        execute_r_fields(cpu, Op::R32Sltu, &self.instruction)
    }
}

/// AND: the bitwise and of the two source registers.
pub struct AND {
    pub instruction: RInstructionData,
}

impl AND {
    /// The operation on the fields `instruction`.
    pub fn new(instruction: RInstructionData) -> (r: Self)
        ensures
            r.instruction == instruction,
    {
        AND { instruction }
    }

    /// The fields it works on.
    pub fn instruction(&self) -> (r: &RInstructionData)
        ensures
            *r == self.instruction,
    {
        &self.instruction
    }

    /// Writes the result to the destination register.
    pub fn execute<M: Memory>(&self, cpu: &mut Cpu<M>) -> (r: Result<(), EmuError>)
        requires
            old(cpu).wf(),
        ensures
            final(cpu).wf(),
            r_fields_done(*old(cpu), *final(cpu), Op::R32And, self.instruction, r),
    {
        execute_r_fields(cpu, Op::R32And, &self.instruction)
    }
}

/// OR: the bitwise or of the two source registers.
pub struct OR {
    pub instruction: RInstructionData,
}

impl OR {
    /// The operation on the fields `instruction`.
    pub fn new(instruction: RInstructionData) -> (r: Self)
        ensures
            r.instruction == instruction,
    {
        OR { instruction }
    }

    /// The fields it works on.
    pub fn instruction(&self) -> (r: &RInstructionData)
        ensures
            *r == self.instruction,
    {
        &self.instruction
    }

    /// Writes the result to the destination register.
    pub fn execute<M: Memory>(&self, cpu: &mut Cpu<M>) -> (r: Result<(), EmuError>)
        requires
            old(cpu).wf(),
        ensures
            final(cpu).wf(),
            r_fields_done(*old(cpu), *final(cpu), Op::R32Or, self.instruction, r),
    {
        execute_r_fields(cpu, Op::R32Or, &self.instruction)
    }
}

/// XOR: the bitwise exclusive or of the two source registers.
pub struct XOR {
    pub instruction: RInstructionData,
}

impl XOR {
    /// The operation on the fields `instruction`.
    pub fn new(instruction: RInstructionData) -> (r: Self)
        ensures
            r.instruction == instruction,
    {
        XOR { instruction }
    }

    /// The fields it works on.
    pub fn instruction(&self) -> (r: &RInstructionData)
        ensures
            *r == self.instruction,
    {
        &self.instruction
    }

    /// Writes the result to the destination register.
    pub fn execute<M: Memory>(&self, cpu: &mut Cpu<M>) -> (r: Result<(), EmuError>)
        requires
            old(cpu).wf(),
        ensures
            final(cpu).wf(),
            r_fields_done(*old(cpu), *final(cpu), Op::R32Xor, self.instruction, r),
    {
        execute_r_fields(cpu, Op::R32Xor, &self.instruction)
    }
}

/// SLL: the first source shifted left by the low five bits of the second.
pub struct SLL {
    pub instruction: RInstructionData,
}

impl SLL {
    /// The operation on the fields `instruction`.
    pub fn new(instruction: RInstructionData) -> (r: Self)
        ensures
            r.instruction == instruction,
    {
        SLL { instruction }
    }

    /// The fields it works on.
    pub fn instruction(&self) -> (r: &RInstructionData)
        ensures
            *r == self.instruction,
    {
        &self.instruction
    }

    /// Writes the result to the destination register.
    pub fn execute<M: Memory>(&self, cpu: &mut Cpu<M>) -> (r: Result<(), EmuError>)
        requires
            old(cpu).wf(),
        ensures
            final(cpu).wf(),
            r_fields_done(*old(cpu), *final(cpu), Op::R32Sll, self.instruction, r),
    {
        execute_r_fields(cpu, Op::R32Sll, &self.instruction)
    }
}

/// SRL: the first source shifted right, filling with zeros, by the low five bits of the second.
pub struct SRL {
    pub instruction: RInstructionData,
}

impl SRL {
    /// The operation on the fields `instruction`.
    pub fn new(instruction: RInstructionData) -> (r: Self)
        ensures
            r.instruction == instruction,
    {
        SRL { instruction }
    }

    /// The fields it works on.
    pub fn instruction(&self) -> (r: &RInstructionData)
        ensures
            *r == self.instruction,
    {
        &self.instruction
    }

    /// Writes the result to the destination register.
    pub fn execute<M: Memory>(&self, cpu: &mut Cpu<M>) -> (r: Result<(), EmuError>)
        requires
            old(cpu).wf(),
        ensures
            final(cpu).wf(),
            r_fields_done(*old(cpu), *final(cpu), Op::R32Srl, self.instruction, r),
    {
        execute_r_fields(cpu, Op::R32Srl, &self.instruction)
    }
}

/// SRA: the first source shifted right, keeping its sign, by the low five bits of the second.
pub struct SRA {
    pub instruction: RInstructionData,
}

impl SRA {
    /// The operation on the fields `instruction`.
    pub fn new(instruction: RInstructionData) -> (r: Self)
        ensures
            r.instruction == instruction,
    {
        SRA { instruction }
    }

    /// The fields it works on.
    pub fn instruction(&self) -> (r: &RInstructionData)
        ensures
            *r == self.instruction,
    {
        &self.instruction
    }

    /// Writes the result to the destination register.
    pub fn execute<M: Memory>(&self, cpu: &mut Cpu<M>) -> (r: Result<(), EmuError>)
        requires
            old(cpu).wf(),
        ensures
            final(cpu).wf(),
            r_fields_done(*old(cpu), *final(cpu), Op::R32Sra, self.instruction, r),
    {
        execute_r_fields(cpu, Op::R32Sra, &self.instruction)
    }
}

} // verus!
