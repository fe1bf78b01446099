use vstd::prelude::*;

use crate::cpu::cpu_core::{privilege_number, Cpu, CpuMode, PrivilegeMode};
use crate::cpu::memory::memory_core::Memory;
use crate::error::EmuError;
use crate::isa::csr::csr_types::{bit_of, spec_read_xlen, spec_write_xlen, with_bit, with_mpp, CSRAddress, MstatusCSR};
use crate::isa::semantics::no_effect;
use crate::isa::traps::{trap_status, trap_taken, trap_target};
use crate::types::{Instruction, InstructionType, Op, Word};

verus! {

/// The instructions of this set, in the order the decoder tries them.
pub open spec fn spec_rv64_privileged_set() -> Seq<Instruction> {
    seq![
        Instruction { mask: 0xfff0707f, bits: 0x10200073, name: "SRET", instruction_type: InstructionType::R, op: Op::Sret },
        Instruction { mask: 0xfff0707f, bits: 0x30200073, name: "MRET", instruction_type: InstructionType::R, op: Op::Mret },
        Instruction { mask: 0xfe00707f, bits: 0x12000073, name: "SFENCE.VMA", instruction_type: InstructionType::R, op: Op::SfenceVma },
        Instruction { mask: 0xfff0707f, bits: 0x10500073, name: "WFI", instruction_type: InstructionType::R, op: Op::Wfi },
    ]
}

/// The instructions of this set, in the order the decoder tries them.
pub fn rv64_privileged_set() -> (v: Vec<Instruction>)
    ensures
        v@ == spec_rv64_privileged_set(),
{
    let mut v: Vec<Instruction> = Vec::new();
    v.push(Instruction { mask: 0xfff0707f, bits: 0x10200073, name: "SRET", instruction_type: InstructionType::R, op: Op::Sret });
    v.push(Instruction { mask: 0xfff0707f, bits: 0x30200073, name: "MRET", instruction_type: InstructionType::R, op: Op::Mret });
    v.push(Instruction { mask: 0xfe00707f, bits: 0x12000073, name: "SFENCE.VMA", instruction_type: InstructionType::R, op: Op::SfenceVma });
    v.push(Instruction { mask: 0xfff0707f, bits: 0x10500073, name: "WFI", instruction_type: InstructionType::R, op: Op::Wfi });
    assert(v@ =~= spec_rv64_privileged_set());
    v
}

/// The operations of this set.
pub open spec fn in_rv64_privileged_set(op: Op) -> bool {
    op == Op::Sret || op == Op::Mret || op == Op::SfenceVma || op == Op::Wfi
}

/// The status value after `SRET`: `SIE` restored from `SPIE`, `SPIE` set, `SPP` cleared.
pub open spec fn sret_status(s: u64) -> u64 {
    with_bit(with_bit(with_bit(s, 1, bit_of(s, 5)), 5, true), 8, false)
}

/// The status value after `MRET`: `MIE` restored from `MPIE`, `MPIE` set, `MPP` cleared.
pub open spec fn mret_status(s: u64) -> u64 {
    with_mpp(with_bit(with_bit(s, 3, bit_of(s, 7)), 7, true), 0)
}

/// `after` is `before` after a return from a trap: status register `status` rewritten to `v`,
/// privilege `p`, program counter (and, for `SRET`, current instruction address) `pc`.
pub open spec fn trap_returned<M: Memory>(before: Cpu<M>, after: Cpu<M>, status: u16, v: u64, p: PrivilegeMode, pc: u64, sets_current: bool) -> bool {
    &&& (after.csr_table.regs32(), after.csr_table.regs64()) == spec_write_xlen(
        before.csr_table.regs32(),
        before.csr_table.regs64(),
        status,
        v,
        before.arch_mode,
    )
    &&& after.privilege_mode == p
    &&& after.pc() == pc
    &&& after.current_instruction_pc_64 == (if sets_current { pc } else { before.current_instruction_pc_64 })
    &&& after.x32() == before.x32()
    &&& after.x64() == before.x64()
    &&& after.same_setup(&before)
    &&& after.is_halted() == before.is_halted()
    &&& after.program_brk == before.program_brk
    &&& before.mem_eq(&after)
}

/// The outcome of an instruction of this set. `SRET` drops to user level only when `SPP` is
/// clear and refuses to return to its own address; `MRET` returns to supervisor or user level
/// as `MPP` says and refuses other values. `SFENCE.VMA` and `WFI` have no effect.
pub open spec fn privileged_done<M: Memory>(before: Cpu<M>, after: Cpu<M>, op: Op, r: Result<(), EmuError>) -> bool {
    let t32 = before.csr_table.regs32();
    let t64 = before.csr_table.regs64();
    let mode = before.arch_mode;
    match op {
        Op::Sret => {
            let s = spec_read_xlen(t32, t64, 0x100, mode);
            let sepc = spec_read_xlen(t32, t64, 0x141, mode);
            if sepc == before.current_instruction_pc_64 {
                r == Err::<(), EmuError>(EmuError::SretToItself) && after == before
            } else {
                r is Ok && trap_returned(
                    before,
                    after,
                    0x100,
                    sret_status(s),
                    if !bit_of(s, 8) { PrivilegeMode::User } else { before.privilege_mode },
                    sepc,
                    true,
                )
            }
        },
        Op::Mret => {
            let s = spec_read_xlen(t32, t64, 0x300, mode);
            let mpp = (s >> 11u64) & 3;
            if mpp != 0 && mpp != 1 {
                r == Err::<(), EmuError>(EmuError::InvalidMpp(mpp)) && after == before
            } else {
                r is Ok && trap_returned(
                    before,
                    after,
                    0x300,
                    mret_status(s),
                    if mpp == 1 { PrivilegeMode::Supervisor } else { PrivilegeMode::User },
                    spec_read_xlen(t32, t64, 0x341, mode),
                    false,
                )
            }
        },
        _ => r is Ok && no_effect(before, after),
    }
}

/// The outcome of a privileged instruction.
pub open spec fn rv64_privileged_done<M: Memory>(before: Cpu<M>, after: Cpu<M>, op: Op, w: u32, r: Result<(), EmuError>) -> bool {
    privileged_done(before, after, op, r)
}

/// Executes a privileged instruction.
pub fn execute_rv64_privileged_set<M: Memory>(cpu: &mut Cpu<M>, op: Op, word: &Word) -> (r: Result<(), EmuError>)
    requires
        old(cpu).wf(),
        in_rv64_privileged_set(op),
    ensures
        final(cpu).wf(),
        rv64_privileged_done(*old(cpu), *final(cpu), op, word.0, r),
{
    match op {
        Op::Sret => {
            let mode = cpu.arch_mode;
            let sepc = cpu.csr_table.read_xlen(CSRAddress::Sepc.as_u12(), mode);
            if sepc == cpu.read_current_instruction_addr_u64() {
                return Err(EmuError::SretToItself);
            }
            let mut sstatus = MstatusCSR(cpu.csr_table.read_xlen(CSRAddress::Sstatus.as_u12(), mode));
            if !sstatus.spp() {
                cpu.privilege_mode = PrivilegeMode::User;
            }
            let spie = sstatus.spie();
            sstatus.set_sie(spie);
            sstatus.set_spie(true);
            sstatus.set_spp(false);
            cpu.csr_table.write_xlen(CSRAddress::Sstatus.as_u12(), sstatus.0, mode);
            cpu.write_pc_u64(sepc);
            cpu.current_instruction_pc_64 = sepc;
            Ok(())
        },
        Op::Mret => {
            let mode = cpu.arch_mode;
            let mut mstatus = MstatusCSR(cpu.csr_table.read_xlen(CSRAddress::Mstatus.as_u12(), mode));
            let mpp = mstatus.mpp();
            if mpp == 1 {
                cpu.privilege_mode = PrivilegeMode::Supervisor;
            } else if mpp == 0 {
                cpu.privilege_mode = PrivilegeMode::User;
            } else {
                return Err(EmuError::InvalidMpp(mpp));
            }
            let mpie = mstatus.mpie();
            mstatus.set_mie(mpie);
            mstatus.set_mpie(true);
            mstatus.set_mpp(0);
            cpu.csr_table.write_xlen(CSRAddress::Mstatus.as_u12(), mstatus.0, mode);
            let mepc = cpu.csr_table.read_xlen(CSRAddress::Mepc.as_u12(), mode);
            cpu.write_pc_u64(mepc);
            Ok(())
        },
        _ => Ok(()),
    }
}

/// The machine-mode status after entering a trap from privilege number `n` keeps `n` as the
/// previous privilege, and `MRET` then restores the interrupt enable held before the trap.
proof fn lemma_machine_trap_status(s: u64, n: u64)
    by (bit_vector)
    requires
        n < 4,
    ensures
        (with_bit(with_bit(with_mpp(s, n), 7, bit_of(with_mpp(s, n), 3)), 3, false) >> 11u64) & 3 == n,
        bit_of(mret_status(with_bit(with_bit(with_mpp(s, n), 7, bit_of(with_mpp(s, n), 3)), 3, false)), 3)
            == bit_of(s, 3),
{
}

/// `MRET` undoes a trap taken to machine level from supervisor or user level: it succeeds,
/// returns to the privilege level the trap was taken from, at the address of the instruction
/// that trapped, and restores the machine interrupt enable held before the trap.
pub proof fn lemma_mret_undoes_machine_trap<M: Memory>(
    c0: Cpu<M>,
    c1: Cpu<M>,
    c2: Cpu<M>,
    cause: u64,
    interrupt: bool,
    r: Result<(), EmuError>,
)
    requires
        c0.wf(),
        c0.arch_mode == CpuMode::RV64,
        c0.privilege_mode != PrivilegeMode::Machine,
        trap_target(c0.csr_table.regs64(), cause, interrupt) == PrivilegeMode::Machine,
        trap_taken(c0, c1, cause, interrupt),
        privileged_done(c1, c2, Op::Mret, r),
    ensures
        r is Ok,
        c2.privilege_mode == c0.privilege_mode,
        c2.pc() == c0.current_instruction_pc_64,
        bit_of(spec_read_xlen(c2.csr_table.regs32(), c2.csr_table.regs64(), 0x300, CpuMode::RV64), 3)
            == bit_of(spec_read_xlen(c0.csr_table.regs32(), c0.csr_table.regs64(), 0x300, CpuMode::RV64), 3),
{
    let t = c0.csr_table.regs64();
    let s = t[0x300];
    let n = privilege_number(c0.privilege_mode);
    let s1 = trap_status(s, c0.privilege_mode, PrivilegeMode::Machine);
    lemma_machine_trap_status(s, n);
    let t1 = c1.csr_table.regs64();
    assert(t1[0x300] == s1);
    assert(t1[0x341] == c0.current_instruction_pc_64);
    assert(spec_read_xlen(c1.csr_table.regs32(), t1, 0x300, CpuMode::RV64) == s1);
    let t2 = c2.csr_table.regs64();
    assert(t2[0x300] == mret_status(s1));
}

} // verus!
