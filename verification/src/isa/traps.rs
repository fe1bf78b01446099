use vstd::prelude::*;

use crate::cpu::cpu_core::{privilege_number, Cpu, CpuMode, PrivilegeMode};
use crate::cpu::memory::memory_core::Memory;
use crate::error::EmuError;
use crate::isa::csr::csr_types::{
    bit_of, epc_number, spec_read64, spec_write64, status_number, tvec_number, with_bit, with_mpp,
    CSRAddress, MstatusCSR,
};

verus! {

/// Exception causes, as written to `mcause` / `scause`.
#[derive(Clone, Copy, PartialEq, Eq, Structural, Debug)]
pub enum TrapCause {
    InstructionAddressMisaligned,
    InstructionAccessFault,
    IllegalInstruction,
    Breakpoint,
    LoadAddressMisaligned,
    LoadAccessFault,
    StoreAddressMisaligned,
    StoreAccessFault,
    EnvironmentCallFromUMode,
    EnvironmentCallFromSMode,
    EnvironmentCallFromMMode,
    InstructionPageFault,
    LoadPageFault,
    StorePageFault,
    SoftwareCheck,
    HadrwareError,
    Unknown,
}

/// The code of an exception cause.
pub open spec fn trap_cause_code(c: TrapCause) -> u64 {
    match c {
        TrapCause::InstructionAddressMisaligned => 0,
        TrapCause::InstructionAccessFault => 1,
        TrapCause::IllegalInstruction => 2,
        TrapCause::Breakpoint => 3,
        TrapCause::LoadAddressMisaligned => 4,
        TrapCause::LoadAccessFault => 5,
        TrapCause::StoreAddressMisaligned => 6,
        TrapCause::StoreAccessFault => 7,
        TrapCause::EnvironmentCallFromUMode => 8,
        TrapCause::EnvironmentCallFromSMode => 9,
        TrapCause::EnvironmentCallFromMMode => 11,
        TrapCause::InstructionPageFault => 12,
        TrapCause::LoadPageFault => 13,
        TrapCause::StorePageFault => 15,
        TrapCause::SoftwareCheck => 18,
        TrapCause::HadrwareError => 19,
        TrapCause::Unknown => 64,
    }
}

impl TrapCause {
    /// The code of this cause.
    pub fn code(&self) -> (r: u64)
        ensures
            r == trap_cause_code(*self),
    {
        match self {
            TrapCause::InstructionAddressMisaligned => 0,
            TrapCause::InstructionAccessFault => 1,
            TrapCause::IllegalInstruction => 2,
            TrapCause::Breakpoint => 3,
            TrapCause::LoadAddressMisaligned => 4,
            TrapCause::LoadAccessFault => 5,
            TrapCause::StoreAddressMisaligned => 6,
            TrapCause::StoreAccessFault => 7,
            TrapCause::EnvironmentCallFromUMode => 8,
            TrapCause::EnvironmentCallFromSMode => 9,
            TrapCause::EnvironmentCallFromMMode => 11,
            TrapCause::InstructionPageFault => 12,
            TrapCause::LoadPageFault => 13,
            TrapCause::StorePageFault => 15,
            TrapCause::SoftwareCheck => 18,
            TrapCause::HadrwareError => 19,
            TrapCause::Unknown => 64,
        }
    }
}

/// Interrupt causes, as written to `mcause` / `scause` with the interrupt bit.
#[derive(Clone, Copy, PartialEq, Eq, Structural, Debug)]
pub enum TrapInterruptCause {
    SupervisorSoftwareInterrupt,
    MachineSoftwareInterrupt,
    SupervisorTimerInterrupt,
    MachineTimerInterrupt,
    SupervisorExternalInterrupt,
    MachineExternalInterrupt,
    SupervisorExternalGuestInterrupt,
}

/// The code of an interrupt cause.
pub open spec fn interrupt_cause_code(c: TrapInterruptCause) -> u64 {
    match c {
        TrapInterruptCause::SupervisorSoftwareInterrupt => 1,
        TrapInterruptCause::MachineSoftwareInterrupt => 3,
        TrapInterruptCause::SupervisorTimerInterrupt => 5,
        TrapInterruptCause::MachineTimerInterrupt => 7,
        TrapInterruptCause::SupervisorExternalInterrupt => 9,
        TrapInterruptCause::MachineExternalInterrupt => 11,
        TrapInterruptCause::SupervisorExternalGuestInterrupt => 12,
    }
}

impl TrapInterruptCause {
    /// The code of this cause.
    pub fn code(&self) -> (r: u64)
        ensures
            r == interrupt_cause_code(*self),
    {
        match self {
            TrapInterruptCause::SupervisorSoftwareInterrupt => 1,
            TrapInterruptCause::MachineSoftwareInterrupt => 3,
            TrapInterruptCause::SupervisorTimerInterrupt => 5,
            TrapInterruptCause::MachineTimerInterrupt => 7,
            TrapInterruptCause::SupervisorExternalInterrupt => 9,
            TrapInterruptCause::MachineExternalInterrupt => 11,
            TrapInterruptCause::SupervisorExternalGuestInterrupt => 12,
        }
    }
}

pub open spec fn MSTATUS_N() -> u16 { 0x300 }
pub open spec fn MEDELEG_N() -> u16 { 0x302 }
pub open spec fn MIDELEG_N() -> u16 { 0x303 }
pub open spec fn MIE_N() -> u16 { 0x304 }
pub open spec fn MIP_N() -> u16 { 0x344 }
pub open spec fn SIE_N() -> u16 { 0x104 }
pub open spec fn SIP_N() -> u16 { 0x144 }
pub open spec fn MCAUSE_N() -> u16 { 0x342 }
pub open spec fn SCAUSE_N() -> u16 { 0x142 }
pub open spec fn TIME_N() -> u16 { 0xc01 }
pub open spec fn STIMECMP_N() -> u16 { 0x14d }

/// The privilege level a trap is taken to: supervisor when the cause is delegated.
pub open spec fn trap_target(t: Seq<u64>, cause: u64, interrupt: bool) -> PrivilegeMode {
    let deleg = spec_read64(t, if interrupt { MIDELEG_N() } else { MEDELEG_N() });
    if deleg & (1u64 << cause) != 0 {
        PrivilegeMode::Supervisor
    } else {
        PrivilegeMode::Machine
    }
}

/// The status value after entering a trap at `target` from `from`: the previous privilege and
/// interrupt enable are saved and interrupts disabled.
pub open spec fn trap_status(s: u64, from: PrivilegeMode, target: PrivilegeMode) -> u64 {
    if target == PrivilegeMode::Machine {
        let s1 = with_mpp(s, privilege_number(from));
        with_bit(with_bit(s1, 7, bit_of(s1, 3)), 3, false)
    } else {
        let s1 = with_bit(s, 8, from == PrivilegeMode::Supervisor);
        with_bit(with_bit(s1, 5, bit_of(s1, 1)), 1, false)
    }
}

/// The value of a cause register.
pub open spec fn cause_value(cause: u64, interrupt: bool) -> u64 {
    cause | ((if interrupt { 1u64 } else { 0u64 }) << 63u64)
}

/// The program counter after a trap through vector `tvec`: the base for direct mode, the base
/// plus four times the cause for vectored mode.
pub open spec fn trap_pc(tvec: u64, cause: u64) -> u64 {
    if tvec & 3 == 0 {
        tvec & !3u64
    } else {
        (tvec & !3u64).wrapping_add(cause << 2u64)
    }
}

/// The 64-bit control registers after a trap taken at `target` from `from` at instruction
/// address `epc`: status, cause and exception PC are written.
pub open spec fn trap_csrs(t: Seq<u64>, from: PrivilegeMode, target: PrivilegeMode, epc: u64, cause: u64, interrupt: bool) -> Seq<u64> {
    let sn = status_number(target);
    let t1 = spec_write64(t, sn, trap_status(spec_read64(t, sn), from, target));
    let cn = if target == PrivilegeMode::Supervisor { SCAUSE_N() } else { MCAUSE_N() };
    let t2 = spec_write64(t1, cn, cause_value(cause, interrupt));
    spec_write64(t2, epc_number(target), epc)
}

/// A trap to supervisor level from machine level cannot be taken.
pub open spec fn trap_possible(t: Seq<u64>, from: PrivilegeMode, cause: u64, interrupt: bool) -> bool {
    !(trap_target(t, cause, interrupt) == PrivilegeMode::Supervisor && from == PrivilegeMode::Machine)
}

/// `after` is `before` after taking trap `cause` (an interrupt when `interrupt`).
pub open spec fn trap_taken<M: Memory>(before: Cpu<M>, after: Cpu<M>, cause: u64, interrupt: bool) -> bool {
    let t = before.csr_table.regs64();
    let target = trap_target(t, cause, interrupt);
    let t3 = trap_csrs(t, before.privilege_mode, target, before.current_instruction_pc_64, cause, interrupt);
    &&& after.privilege_mode == target
    &&& after.csr_table.regs64() == t3
    &&& after.csr_table.regs32() == before.csr_table.regs32()
    &&& after.pc() == trap_pc(spec_read64(t3, tvec_number(target)), cause)
    &&& after.x32() == before.x32()
    &&& after.x64() == before.x64()
    &&& after.same_setup(&before)
    &&& after.current_instruction_pc_64 == before.current_instruction_pc_64
    &&& after.is_halted() == before.is_halted()
    &&& after.program_brk == before.program_brk
    &&& before.mem_eq(&after)
}

/// Takes trap `cause`: picks machine or supervisor level by the delegation register, saves the
/// previous privilege and interrupt enable in the status register, records cause and the
/// address of the current instruction, and jumps through the trap vector. A 32-bit hart and a
/// trap delegated to supervisor level while in machine mode are refused.
pub fn execute_trap<M: Memory>(cpu: &mut Cpu<M>, cause: u64, interrupt: bool) -> (r: Result<(), EmuError>)
    requires
        old(cpu).wf(),
        cause < 64,
    ensures
        final(cpu).wf(),
        r is Ok <==> old(cpu).arch_mode == CpuMode::RV64 && trap_possible(
            old(cpu).csr_table.regs64(),
            old(cpu).privilege_mode,
            cause,
            interrupt,
        ),
        r is Ok ==> trap_taken(*old(cpu), *final(cpu), cause, interrupt),
        r is Err ==> *final(cpu) == *old(cpu),
{
    if cpu.arch_mode == CpuMode::RV32 {
        return Err(EmuError::UnsupportedArch);
    }
    let initial = cpu.privilege_mode;
    let deleg = if interrupt {
        cpu.csr_table.read64(CSRAddress::Mideleg.as_u12())
    } else {
        cpu.csr_table.read64(CSRAddress::Medeleg.as_u12())
    };
    let target = if (deleg & (1u64 << cause)) != 0 {
        PrivilegeMode::Supervisor
    } else {
        PrivilegeMode::Machine
    };
    if target == PrivilegeMode::Supervisor && initial == PrivilegeMode::Machine {
        return Err(EmuError::InvalidPrivilegeTransition);
    }
    let ghost t0 = cpu.csr_table.regs64();
    assert(target == trap_target(t0, cause, interrupt));
    cpu.privilege_mode = target;
    let status_addr = match target {
        PrivilegeMode::Machine => CSRAddress::Mstatus,
        _ => CSRAddress::Sstatus,
    };
    let mut mstatus = MstatusCSR(cpu.csr_table.read_xlen(status_addr.as_u12(), cpu.arch_mode));
    if target == PrivilegeMode::Machine {
        mstatus.set_mpp(initial.number());
        let m = mstatus.mie();
        mstatus.set_mpie(m);
        mstatus.set_mie(false);
    } else {
        if initial == PrivilegeMode::User {
            mstatus.set_spp(false);
        } else {
            mstatus.set_spp(true);
        }
        let s = mstatus.sie();
        mstatus.set_spie(s);
        mstatus.set_sie(false);
    }
    assert(mstatus.0 == trap_status(spec_read64(t0, status_number(target)), initial, target));
    cpu.csr_table.write_xlen(status_addr.as_u12(), mstatus.0, cpu.arch_mode);
    let ghost t1 = cpu.csr_table.regs64();
    assert(t1 == spec_write64(t0, status_number(target), mstatus.0));
    let mcause: u64 = cause | ((if interrupt { 1u64 } else { 0u64 }) << 63u64);
    if target == PrivilegeMode::Supervisor {
        cpu.csr_table.write64(CSRAddress::Scause.as_u12(), mcause);
    } else {
        cpu.csr_table.write64(CSRAddress::Mcause.as_u12(), mcause);
    }
    let ghost t2 = cpu.csr_table.regs64();
    assert(t2 == spec_write64(t1, if target == PrivilegeMode::Supervisor { SCAUSE_N() } else { MCAUSE_N() }, cause_value(cause, interrupt)));
    let current_pc = cpu.read_current_instruction_addr_u64();
    cpu.csr_table.write_xlen_epc(current_pc, cpu.arch_mode, target);
    assert(cpu.csr_table.regs64() == trap_csrs(t0, initial, target, current_pc, cause, interrupt));
    let tvec = cpu.csr_table.read_xlen_tvec(cpu.arch_mode, target);
    let tvec_mode = tvec & 3;
    let tvec_base = tvec & !3u64;
    if tvec_mode == 0 {
        cpu.write_pc_u64(tvec_base);
    } else {
        cpu.write_pc_u64(tvec_base.wrapping_add(cause << 2u64));
    }
    Ok(())
}

/// The 64-bit control registers with the supervisor timer interrupt raised in `mip` when
/// `time` has passed `stimecmp`.
pub open spec fn timer_raised(t: Seq<u64>) -> Seq<u64> {
    if spec_read64(t, TIME_N()) > spec_read64(t, STIMECMP_N()) {
        spec_write64(t, MIP_N(), spec_read64(t, MIP_N()) | 0x20)
    } else {
        t
    }
}

/// `i` is the lowest of the first 13 interrupt bits set in `x`.
pub open spec fn lowest_interrupt(x: u64, i: u64) -> bool {
    &&& i < 13
    &&& x & (1u64 << i) != 0
    &&& forall|j: u64| j < i ==> x & (1u64 << j) == 0
}

/// None of the first 13 interrupt bits is set in `x`.
pub open spec fn no_interrupt(x: u64) -> bool {
    forall|j: u64| j < 13 ==> x & (1u64 << j) == 0
}

/// `after` is `before` with the 64-bit control registers `t` and nothing else changed.
pub open spec fn only_csrs_set<M: Memory>(before: Cpu<M>, after: Cpu<M>, t: Seq<u64>) -> bool {
    &&& after.csr_table.regs64() == t
    &&& after.csr_table.regs32() == before.csr_table.regs32()
    &&& after.privilege_mode == before.privilege_mode
    &&& after.pc() == before.pc()
    &&& after.x32() == before.x32()
    &&& after.x64() == before.x64()
    &&& after.same_setup(&before)
    &&& after.current_instruction_pc_64 == before.current_instruction_pc_64
    &&& after.is_halted() == before.is_halted()
    &&& after.program_brk == before.program_brk
    &&& before.mem_eq(&after)
}

/// `after` is `before` after interrupt `i` was taken from control registers `t`.
pub open spec fn interrupt_taken<M: Memory>(before: Cpu<M>, after: Cpu<M>, t: Seq<u64>, i: u64, r: Result<(), EmuError>) -> bool {
    if before.arch_mode == CpuMode::RV64 && trap_possible(t, before.privilege_mode, i, true) {
        let target = trap_target(t, i, true);
        let t3 = trap_csrs(t, before.privilege_mode, target, before.current_instruction_pc_64, i, true);
        &&& r is Ok
        &&& after.csr_table.regs64() == t3
        &&& after.privilege_mode == target
        &&& after.pc() == trap_pc(spec_read64(t3, tvec_number(target)), i)
        &&& after.csr_table.regs32() == before.csr_table.regs32()
        &&& after.x32() == before.x32()
        &&& after.x64() == before.x64()
        &&& after.same_setup(&before)
        &&& after.current_instruction_pc_64 == before.current_instruction_pc_64
        &&& after.is_halted() == before.is_halted()
        &&& after.program_brk == before.program_brk
        &&& before.mem_eq(&after)
    } else {
        r is Err && only_csrs_set(before, after, t)
    }
}

/// The outcome of an interrupt check: after the timer comparison, a pending enabled interrupt
/// is taken at machine level when machine interrupts are enabled, else a delegated one at
/// supervisor level when supervisor interrupts are enabled; its pending bit is cleared first.
pub open spec fn interrupts_checked<M: Memory>(before: Cpu<M>, after: Cpu<M>, r: Result<(), EmuError>) -> bool {
    let t1 = timer_raised(before.csr_table.regs64());
    let mip = spec_read64(t1, MIP_N());
    let sip = spec_read64(t1, SIP_N());
    let pending = mip & spec_read64(t1, MIE_N());
    let spending = pending & spec_read64(t1, SIE_N()) & spec_read64(t1, MIDELEG_N());
    let ms = spec_read64(t1, MSTATUS_N());
    if pending != 0 && bit_of(ms, 3) {
        &&& no_interrupt(pending) ==> r is Ok && only_csrs_set(before, after, t1)
        &&& forall|i: u64| lowest_interrupt(pending, i) ==> interrupt_taken(
            before,
            after,
            spec_write64(t1, MIP_N(), mip & !(1u64 << i)),
            i,
            r,
        )
    } else if spending != 0 && bit_of(ms, 1) {
        &&& no_interrupt(spending) ==> r is Ok && only_csrs_set(before, after, t1)
        &&& forall|i: u64| lowest_interrupt(spending, i) ==> interrupt_taken(
            before,
            after,
            spec_write64(t1, SIP_N(), sip & !(1u64 << i)),
            i,
            r,
        )
    } else {
        r is Ok && only_csrs_set(before, after, t1)
    }
}

/// The lowest of the first 13 interrupt bits set in `x`, if any.
fn find_interrupt(x: u64) -> (r: Option<u64>)
    ensures
        r matches Some(i) ==> lowest_interrupt(x, i),
        r is None ==> no_interrupt(x),
{
    let mut i: u64 = 0;
    while i < 13
        invariant
            i <= 13,
            forall|j: u64| j < i ==> x & (1u64 << j) == 0,
        decreases 13 - i,
    {
        if (x & (1u64 << i)) != 0 {
            return Some(i);
        }
        i = i + 1;
    }
    None
}

/// Raises the supervisor timer interrupt when due and takes the highest-priority pending
/// interrupt that is enabled (machine level first, then delegated supervisor interrupts).
pub fn check_pending_interrupts<M: Memory>(cpu: &mut Cpu<M>) -> (r: Result<(), EmuError>)
    requires
        old(cpu).wf(),
    ensures
        final(cpu).wf(),
        interrupts_checked(*old(cpu), *final(cpu), r),
{
    let time = cpu.csr_table.read64(CSRAddress::Time.as_u12());
    let stimecmp = cpu.csr_table.read64(CSRAddress::Stimecmp.as_u12());
    if time > stimecmp {
        let mip = cpu.csr_table.read64(CSRAddress::Mip.as_u12());
        cpu.csr_table.write64(CSRAddress::Mip.as_u12(), mip | 0x20);
    }
    let ghost t1 = cpu.csr_table.regs64();
    let mideleg = cpu.csr_table.read64(CSRAddress::Mideleg.as_u12());
    let mip = cpu.csr_table.read64(CSRAddress::Mip.as_u12());
    let sip = cpu.csr_table.read64(CSRAddress::Sip.as_u12());
    let mie_csr = cpu.csr_table.read64(CSRAddress::Mie.as_u12());
    let sie_csr = cpu.csr_table.read64(CSRAddress::Sie.as_u12());
    let pending = mip & mie_csr;
    let spending = pending & sie_csr & mideleg;
    let mstatus = MstatusCSR(cpu.csr_table.read64(CSRAddress::Mstatus.as_u12()));
    let mie = mstatus.mie();
    let sie = mstatus.sie();
    if pending != 0 && mie {
        match find_interrupt(pending) {
            Some(i) => {
                cpu.csr_table.write64(CSRAddress::Mip.as_u12(), mip & !(1u64 << i));
                execute_trap(cpu, i, true)
            },
            None => Ok(()),
        }
    } else if spending != 0 && sie {
        match find_interrupt(spending) {
            Some(i) => {
                cpu.csr_table.write64(CSRAddress::Sip.as_u12(), sip & !(1u64 << i));
                execute_trap(cpu, i, true)
            },
            None => Ok(()),
        }
    } else {
        Ok(())
    }
}

/// Advances the `time` register by one tick.
pub fn update_timers<M: Memory>(cpu: &mut Cpu<M>)
    requires
        old(cpu).wf(),
    ensures
        final(cpu).wf(),
        ({
            let t = spec_read64(old(cpu).csr_table.regs64(), TIME_N());
            final(cpu).csr_table.regs64() == spec_write64(
                old(cpu).csr_table.regs64(),
                TIME_N(),
                t.wrapping_add(1),
            )
        }),
        final(cpu).csr_table.regs32() == old(cpu).csr_table.regs32(),
        final(cpu).x32() == old(cpu).x32(),
        final(cpu).x64() == old(cpu).x64(),
        final(cpu).pc() == old(cpu).pc(),
        final(cpu).same_setup(old(cpu)),
        final(cpu).privilege_mode == old(cpu).privilege_mode,
        old(cpu).mem_eq(final(cpu)),
{
    let t = cpu.csr_table.read64(CSRAddress::Time.as_u12());
    cpu.csr_table.write64(CSRAddress::Time.as_u12(), t.wrapping_add(1));
}

} // verus!
