use vstd::prelude::*;

use crate::cpu::cpu_core::{wx64, Cpu, ExecutionMode, PrivilegeMode};
use crate::cpu::memory::memory_core::Memory;
use crate::cpu::memory_access::{block_target, block_written, write_effect};
use crate::error::EmuError;
use crate::isa::semantics::{no_effect, writes_x32, writes_x64};
use crate::cpu::cpu_core::wx32;
use crate::isa::traps::{execute_trap, trap_possible, trap_taken};
use crate::cpu::cpu_core::CpuMode;
use crate::system::kernel::{seek_type_of, HostCall, HostReply, SeekType};
use crate::types::{Instruction, InstructionType, Op, Word};
use crate::isa::rv32i::environment::{clock_reading, time_of_day, timespec_bytes, timeval_bytes};

verus! {

/// The instructions of this set, in the order the decoder tries them.
pub open spec fn spec_rv64i_set_e() -> Seq<Instruction> {
    seq![
        Instruction { mask: 0xfff0707f, bits: 0x73, name: "ECALL", instruction_type: InstructionType::I, op: Op::Ecall64 },
        Instruction { mask: 0xfff0707f, bits: 0x100073, name: "EBREAK", instruction_type: InstructionType::I, op: Op::Ebreak },
        Instruction { mask: 0x707f, bits: 0xf, name: "FENCE", instruction_type: InstructionType::R, op: Op::Fence },
    ]
}

/// The instructions of this set, in the order the decoder tries them.
pub fn rv64i_set_e() -> (v: Vec<Instruction>)
    ensures
        v@ == spec_rv64i_set_e(),
{
    let mut v: Vec<Instruction> = Vec::new();
    v.push(Instruction { mask: 0xfff0707f, bits: 0x73, name: "ECALL", instruction_type: InstructionType::I, op: Op::Ecall64 });
    v.push(Instruction { mask: 0xfff0707f, bits: 0x100073, name: "EBREAK", instruction_type: InstructionType::I, op: Op::Ebreak });
    v.push(Instruction { mask: 0x707f, bits: 0xf, name: "FENCE", instruction_type: InstructionType::R, op: Op::Fence });
    assert(v@ =~= spec_rv64i_set_e());
    v
}

/// The operations of this set.
pub open spec fn in_rv64i_set_e(op: Op) -> bool {
    op == Op::Ecall64 || op == Op::Ebreak || op == Op::Fence
}

/// Register numbers of the system-call arguments and result.
pub open spec fn A0() -> u8 { 10 }
pub open spec fn A1() -> u8 { 11 }
pub open spec fn A2() -> u8 { 12 }
pub open spec fn A7() -> u8 { 17 }

/// The register the failure flag of a failed system call goes to (`x20`).
pub open spec fn ERR_FLAG_REG() -> u8 { 20 }

/// The bytes a block read of `len` bytes at `addr` gives (mapped through the page table when `satp` is set), or
/// `None` when it is refused.
pub open spec fn block_bytes<M: Memory>(cpu: Cpu<M>, addr: u64, len: u64) -> Option<Seq<u8>> {
    match block_target(cpu, addr) {
        Ok(pa) => if len <= usize::MAX && addr + len <= u64::MAX && pa + len <= u64::MAX {
            cpu.memory.load_bytes(pa, len as nat)
        } else {
            None
        },
        Err(_) => None,
    }
}

/// `after` is `before` with `bytes` appended to the standard output (`fd` 1) or error (`fd` 2)
/// of the system-call layer and 64-bit register `a0` set to `v`.
pub open spec fn output_written<M: Memory>(before: Cpu<M>, after: Cpu<M>, fd: u32, bytes: Seq<u8>, v: u64) -> bool {
    &&& after.x64() == wx64(before.x64(), A0(), v)
    &&& after.x32() == before.x32()
    &&& after.pc() == before.pc()
    &&& before.core_eq(&after)
    &&& after.memory == before.memory
    &&& after.peripherals == before.peripherals
    &&& after.block_device == before.block_device
    &&& after.kernel.stdin_buffer@ == before.kernel.stdin_buffer@
    &&& fd == 1 ==> after.kernel.stdout_buffer@ == before.kernel.stdout_buffer@ + bytes
        && after.kernel.stderr_buffer@ == before.kernel.stderr_buffer@
    &&& fd == 2 ==> after.kernel.stderr_buffer@ == before.kernel.stderr_buffer@ + bytes
        && after.kernel.stdout_buffer@ == before.kernel.stdout_buffer@
}

/// The outcome of a system call of a 64-bit user-space program: number in `a7`, arguments in
/// `a0`..`a2`. `close`, `exit`, `brk` and writes to the standard streams are served here;
/// clocks are read here; file calls go to the host; `lseek`, `read` and `write` refuse descriptor 0.
pub open spec fn syscall64_done<M: Memory>(before: Cpu<M>, after: Cpu<M>, r: Result<(), EmuError>) -> bool {
    let x = before.x64();
    let n = x[A7() as int];
    let a0 = x[A0() as int];
    let a1 = x[A1() as int];
    let a2 = x[A2() as int];
    let fd = a0 as u32;
    if n == 57 {
        &&& writes_x64(before, after, A0(), 0)
        &&& r == (if fd == 0 {
            Ok::<(), EmuError>(())
        } else {
            Err(EmuError::HostCall(HostCall::Close { fd }))
        })
    } else if n == 62 {
        &&& after == before
        &&& r == (if fd == 0 {
            Err::<(), EmuError>(EmuError::UnsupportedFileDescriptor(0))
        } else if a2 as u32 >= 3 {
            Err(EmuError::InvalidSeek(a2 as u32))
        } else {
            Err(EmuError::HostCall(HostCall::Seek { fd, offset: a1, whence: seek_type_of(a2 as u32) }))
        })
    } else if n == 63 {
        &&& after == before
        &&& r == (if fd == 0 {
            Err::<(), EmuError>(EmuError::UnsupportedFileDescriptor(0))
        } else {
            Err(EmuError::HostCall(HostCall::Read { fd, addr: a1, len: a2 }))
        })
    } else if n == 64 {
        if fd == 0 {
            after == before && r == Err::<(), EmuError>(EmuError::UnsupportedFileDescriptor(0))
        } else {
            match block_bytes(before, a1, a2) {
                None => r is Err && after == before,
                Some(bytes) => if fd == 1 || fd == 2 {
                    r is Ok && output_written(before, after, fd, bytes, (a2 as u32) as u64)
                } else {
                    after == before && r == Err::<(), EmuError>(EmuError::HostCall(HostCall::Write { fd, addr: a1, len: a2 }))
                },
            }
        }
    } else if n == 80 {
        after == before && r == Err::<(), EmuError>(EmuError::HostCall(HostCall::Fstat { fd, addr: a1 }))
    } else if n == 93 {
        &&& r is Ok
        &&& after.is_halted()
        &&& after.x64() == wx64(x, A0(), 0)
        &&& after.x32() == before.x32()
        &&& after.pc() == before.pc()
        &&& after.same_setup(&before)
        &&& after.current_instruction_pc_64 == before.current_instruction_pc_64
        &&& after.program_brk == before.program_brk
        &&& after.csr_table == before.csr_table
        &&& after.privilege_mode == before.privilege_mode
        &&& before.mem_eq(&after)
    } else if n == 214 {
        let brk = if a0 != 0 { a0 } else { before.program_brk };
        &&& r is Ok
        &&& after.program_brk == brk
        &&& after.x64() == wx64(x, A0(), brk)
        &&& after.x32() == before.x32()
        &&& after.pc() == before.pc()
        &&& after.same_setup(&before)
        &&& after.current_instruction_pc_64 == before.current_instruction_pc_64
        &&& after.is_halted() == before.is_halted()
        &&& after.csr_table == before.csr_table
        &&& after.privilege_mode == before.privilege_mode
        &&& before.mem_eq(&after)
    } else if n == 169 {
        ||| r == Err::<(), EmuError>(EmuError::HostFailure) && after == before
        ||| exists|s: i64, us: i64|
            #![trigger stored_then_a0(before, after, a0, timespec_bytes(s, us), 0, true, r)]
            0 <= us < 1_000_000 && stored_then_a0(before, after, a0, timespec_bytes(s, us), 0, true, r)
    } else if n == 403 {
        ||| r == Err::<(), EmuError>(EmuError::HostFailure) && after == before
        ||| exists|s: i64, ns: i64|
            #![trigger stored_then_a0(before, after, a1, timespec_bytes(s, ns), 0, true, r)]
            stored_then_a0(before, after, a1, timespec_bytes(s, ns), 0, true, r)
    } else if n == 1024 {
        after == before && r == Err::<(), EmuError>(EmuError::HostCall(HostCall::Open { path_addr: a0, flags: a1 as u32 }))
    } else {
        after == before && r == Err::<(), EmuError>(EmuError::HostCall(HostCall::Unsupported { number: n }))
    }
}

/// The exception cause of an environment call from privilege level `p`.
pub open spec fn ecall_cause(p: PrivilegeMode) -> u64 {
    match p {
        PrivilegeMode::User => 8,
        PrivilegeMode::Supervisor => 9,
        PrivilegeMode::Machine => 11,
    }
}

/// Serves a system call of a 64-bit user-space program.
fn syscall64<M: Memory>(cpu: &mut Cpu<M>) -> (r: Result<(), EmuError>)
    requires
        old(cpu).wf(),
    ensures
        final(cpu).wf(),
        syscall64_done(*old(cpu), *final(cpu), r),
{
    let n = cpu.read_x_u64(17);
    let a0 = cpu.read_x_u64(10);
    let a1 = cpu.read_x_u64(11);
    let a2 = cpu.read_x_u64(12);
    let fd = a0 as u32;
    if n == 57 {
        cpu.write_x_u64(10, 0);
        if fd == 0 {
            return Ok(());
        }
        Err(EmuError::HostCall(HostCall::Close { fd }))
    } else if n == 62 {
        if fd == 0 {
            return Err(EmuError::UnsupportedFileDescriptor(0));
        }
        let whence = a2 as u32;
        if whence >= 3 {
            return Err(EmuError::InvalidSeek(whence));
        }
        Err(EmuError::HostCall(HostCall::Seek { fd, offset: a1, whence: SeekType::from(whence) }))
    } else if n == 63 {
        if fd == 0 {
            return Err(EmuError::UnsupportedFileDescriptor(0));
        }
        Err(EmuError::HostCall(HostCall::Read { fd, addr: a1, len: a2 }))
    } else if n == 64 {
        if fd == 0 {
            return Err(EmuError::UnsupportedFileDescriptor(0));
        }
        if a2 > usize::MAX as u64 || a1 > u64::MAX - a2 {
            return Err(EmuError::OutOfBounds(a1));
        }
        let mut buf: Vec<u8> = vec![0u8; a2 as usize];
        cpu.read_buf(a1, buf.as_mut_slice())?;
        if fd == 1 {
            cpu.kernel.write_stdout(buf.as_slice());
        } else if fd == 2 {
            cpu.kernel.write_stderr(buf.as_slice());
        } else {
            return Err(EmuError::HostCall(HostCall::Write { fd, addr: a1, len: a2 }));
        }
        cpu.write_x_u64(10, (a2 as u32) as u64);
        Ok(())
    } else if n == 80 {
        Err(EmuError::HostCall(HostCall::Fstat { fd, addr: a1 }))
    } else if n == 93 {
        cpu.set_halted();
        cpu.write_x_u64(10, 0);
        Ok(())
    } else if n == 214 {
        if a0 != 0 {
            cpu.program_brk = a0;
        }
        let brk = cpu.program_brk;
        cpu.write_x_u64(10, brk);
        Ok(())
    } else if n == 169 {
        match time_of_day() {
            Some((s, us)) => {
                let b = timeval_bytes(s, us);
                let r = cpu.store_then_a0(a0, &b, 0, true);
                assert(stored_then_a0(*old(cpu), *cpu, a0, timespec_bytes(s, us), 0, true, r));
                r
            },
            None => Err(EmuError::HostFailure),
        }
    } else if n == 403 {
        match clock_reading(a0) {
            Some((s, ns)) => {
                let b = timeval_bytes(s, ns);
                let r = cpu.store_then_a0(a1, &b, 0, true);
                assert(stored_then_a0(*old(cpu), *cpu, a1, timespec_bytes(s, ns), 0, true, r));
                r
            },
            None => Err(EmuError::HostFailure),
        }
    } else if n == 1024 {
        Err(EmuError::HostCall(HostCall::Open { path_addr: a0, flags: a1 as u32 }))
    } else {
        Err(EmuError::HostCall(HostCall::Unsupported { number: n }))
    }
}

/// Executes an environment instruction of a 64-bit hart. In user-space mode `ECALL` is a
/// system call; in bare mode it traps with the environment-call cause of the current
/// The outcome of a 64-bit environment instruction.
pub open spec fn rv64i_e_done<M: Memory>(before: Cpu<M>, after: Cpu<M>, op: Op, w: u32, r: Result<(), EmuError>) -> bool {
    &&& op == Op::Fence ==> r is Ok && no_effect(before, after)
    &&& op == Op::Ebreak ==> r == Err::<(), EmuError>(EmuError::Breakpoint) && after == before
    &&& op == Op::Ecall64 && before.execution_mode == ExecutionMode::UserSpace ==> syscall64_done(before, after, r)
    &&& op == Op::Ecall64 && before.execution_mode == ExecutionMode::Bare ==> {
        let cause = ecall_cause(before.privilege_mode);
        &&& r is Ok <==> before.arch_mode == CpuMode::RV64 && trap_possible(before.csr_table.regs64(), before.privilege_mode, cause, false)
        &&& r is Ok ==> trap_taken(before, after, cause, false)
        &&& r is Err ==> after == before
    }
}

/// privilege level. `EBREAK` stops with `Breakpoint`; `FENCE` has no effect.
pub fn execute_rv64i_set_e<M: Memory>(cpu: &mut Cpu<M>, op: Op, word: &Word) -> (r: Result<(), EmuError>)
    requires
        old(cpu).wf(),
        in_rv64i_set_e(op),
    ensures
        final(cpu).wf(),
        rv64i_e_done(*old(cpu), *final(cpu), op, word.0, r),
{
    match op {
        Op::Fence => Ok(()),
        Op::Ebreak => Err(EmuError::Breakpoint),
        _ => match cpu.execution_mode {
            ExecutionMode::UserSpace => syscall64(cpu),
            ExecutionMode::Bare => {
                let cause: u64 = match cpu.privilege_mode {
                    PrivilegeMode::User => 8,
                    PrivilegeMode::Supervisor => 9,
                    PrivilegeMode::Machine => 11,
                };
                execute_trap(cpu, cause, false)
            },
        },
    }
}

/// `after` is `before` with the failure of a host call recorded: `a0` set to all ones and the
/// failure flag register set to one.
pub open spec fn failure_recorded<M: Memory>(before: Cpu<M>, after: Cpu<M>, flag_reg: u8) -> bool {
    before.regs_set(
        &after,
        before.x32(),
        wx64(wx64(before.x64(), A0(), u64::MAX), flag_reg, 1),
        before.pc(),
    )
}

/// A block write of `bytes` at `addr` followed, when it succeeds, by `a0 := v` in the register
/// file of the given width.
pub open spec fn stored_then_a0<M: Memory>(before: Cpu<M>, after: Cpu<M>, addr: u64, bytes: Seq<u8>, v: u64, wide: bool, r: Result<(), EmuError>) -> bool {
    exists|mid: Cpu<M>, rw: Result<(), EmuError>|
        #![trigger block_written(before, mid, addr, bytes, rw)]
        block_written(before, mid, addr, bytes, rw) && match rw {
            Ok(_) => r is Ok && (if wide { writes_x64(mid, after, A0(), v) } else { writes_x32(mid, after, A0(), v as u32) }),
            Err(_) => r is Err && after == mid,
        }
}

/// The second half of a 32-bit clock reply: `nanos` stored at `next`, then `a0 := 0`.
pub open spec fn clock32_second<M: Memory>(m1: Cpu<M>, after: Cpu<M>, next: u64, nanos: u64, r: Result<(), EmuError>) -> bool {
    exists|m2: Cpu<M>, r2: Result<(), EmuError>|
        #![trigger write_effect(m1, m2, next, 4, nanos, r2)]
        write_effect(m1, m2, next, 4, nanos, r2) && match r2 {
            Err(_) => r is Err && after == m2,
            Ok(_) => r is Ok && writes_x32(m2, after, A0(), 0),
        }
}

/// A 32-bit clock reply `v` (seconds in the low half, nanoseconds in the high half) stored as
/// two words at `addr`, then `a0 := 0`.
pub open spec fn clock32_stored<M: Memory>(before: Cpu<M>, after: Cpu<M>, addr: u64, v: u64, r: Result<(), EmuError>) -> bool {
    exists|m1: Cpu<M>, r1: Result<(), EmuError>|
        #![trigger write_effect(before, m1, addr, 4, (v as u32) as u64, r1)]
        write_effect(before, m1, addr, 4, (v as u32) as u64, r1) && match r1 {
            Err(_) => r is Err && after == m1,
            Ok(_) => clock32_second(m1, after, ((addr as u32).wrapping_add(4)) as u64, ((v >> 32u64) as u32) as u64, r),
        }
}

/// The outcome of handing the host's reply to a pending system call: results go to `a0` (and
/// guest memory for reads, status and clock calls); a failed `close`, `lseek`, `read` or `open`
/// is reported to the program, other failures and replies of the wrong kind stop with
/// `HostFailure`.
pub open spec fn host_call_done<M: Memory>(before: Cpu<M>, after: Cpu<M>, call: HostCall, reply: HostReply, r: Result<(), EmuError>) -> bool {
    match call {
        HostCall::Close { fd } => match reply {
            HostReply::Failed => r is Ok && before.regs_set(
                &after,
                wx32(before.x32(), A0(), 0xffff_ffff),
                wx64(before.x64(), ERR_FLAG_REG(), 1),
                before.pc(),
            ),
            _ => r is Ok && writes_x64(before, after, A0(), 0),
        },
        HostCall::Seek { .. } => match reply {
            HostReply::Value(v) => r is Ok && writes_x64(before, after, A0(), v),
            HostReply::Failed => r is Ok && failure_recorded(before, after, ERR_FLAG_REG()),
            _ => r == Err::<(), EmuError>(EmuError::HostFailure) && after == before,
        },
        HostCall::Read { addr, .. } => match reply {
            HostReply::Bytes(b, n) => stored_then_a0(before, after, addr, b@, n, true, r),
            HostReply::Failed => r is Ok && failure_recorded(before, after, ERR_FLAG_REG()),
            _ => r == Err::<(), EmuError>(EmuError::HostFailure) && after == before,
        },
        HostCall::Write { .. } => match reply {
            HostReply::Value(n) => r is Ok && writes_x64(before, after, A0(), (n as u32) as u64),
            _ => r == Err::<(), EmuError>(EmuError::HostFailure) && after == before,
        },
        HostCall::Fstat { addr, .. } => match reply {
            HostReply::Bytes(b, _) => stored_then_a0(before, after, addr, b@, 0, true, r),
            _ => r == Err::<(), EmuError>(EmuError::HostFailure) && after == before,
        },
        HostCall::FstatStdout { addr, .. } => match reply {
            HostReply::Bytes(b, _) => stored_then_a0(before, after, addr, b@, 0, false, r),
            _ => r == Err::<(), EmuError>(EmuError::HostFailure) && after == before,
        },
        HostCall::Open { .. } => match reply {
            HostReply::Value(fd) => r is Ok && writes_x64(before, after, A0(), fd),
            HostReply::Failed => r is Ok && failure_recorded(before, after, A1()),
            _ => r == Err::<(), EmuError>(EmuError::HostFailure) && after == before,
        },
        HostCall::Unsupported { .. } => r is Ok && after == before,
    }
}

impl<M: Memory> Cpu<M> {
    /// Writes `bytes` at `addr` and then `a0 := v`.
    pub(crate) fn store_then_a0(&mut self, addr: u64, bytes: &Vec<u8>, v: u64, wide: bool) -> (r: Result<(), EmuError>)
        requires
            old(self).wf(),
        ensures
            final(self).wf(),
            stored_then_a0(*old(self), *final(self), addr, bytes@, v, wide, r),
    {
        let rw = self.write_buf(addr, bytes.as_slice());
        let ghost mid = *self;
        match rw {
            Ok(()) => {
                if wide {
                    self.write_x_u64(10, v);
                } else {
                    self.write_x_u32(10, v as u32);
                }
                assert(block_written(*old(self), mid, addr, bytes@, rw));
                Ok(())
            },
            Err(e) => {
                assert(block_written(*old(self), mid, addr, bytes@, rw));
                Err(e)
            },
        }
    }

    /// Stores a 32-bit clock reading `v` as two words at `addr` (seconds, then nanoseconds at
    /// the next word of the 32-bit address space), then `a0 := 0`.
    pub(crate) fn store_clock32(&mut self, addr: u64, v: u64) -> (r: Result<(), EmuError>)
        requires
            old(self).wf(),
        ensures
            final(self).wf(),
            clock32_stored(*old(self), *final(self), addr, v, r),
    {
        let r1 = self.write_mem_u32(addr, v as u32);
        let ghost m1 = *self;
        assert(write_effect(*old(self), m1, addr, 4, (v as u32) as u64, r1));
        if r1.is_err() {
            return r1;
        }
        let next = ((addr as u32).wrapping_add(4)) as u64;
        let r2 = self.write_mem_u32(next, (v >> 32u64) as u32);
        let ghost m2 = *self;
        assert(write_effect(m1, m2, next, 4, ((v >> 32u64) as u32) as u64, r2));
        if r2.is_err() {
            assert(clock32_second(m1, *self, next, ((v >> 32u64) as u32) as u64, r2));
            return r2;
        }
        self.write_x_u32(10, 0);
        assert(writes_x32(m2, *self, A0(), 0));
        assert(clock32_second(m1, *self, next, ((v >> 32u64) as u32) as u64, Ok(())));
        Ok(())
    }

    /// Hands the host's reply to the system call the hart stopped with.
    pub fn complete_host_call(&mut self, call: HostCall, reply: HostReply) -> (r: Result<(), EmuError>)
        requires
            old(self).wf(),
        ensures
            final(self).wf(),
            host_call_done(*old(self), *final(self), call, reply, r),
    {
        match call {
            HostCall::Close { .. } => match reply {
                HostReply::Failed => {
                    self.write_x_u32(10, 0xffff_ffff);
                    self.write_x_u64(20, 1);
                    Ok(())
                },
                _ => {
                    self.write_x_u64(10, 0);
                    Ok(())
                },
            },
            HostCall::Seek { .. } => match reply {
                HostReply::Value(v) => {
                    self.write_x_u64(10, v);
                    Ok(())
                },
                HostReply::Failed => {
                    self.write_x_u64(10, u64::MAX);
                    self.write_x_u64(20, 1);
                    Ok(())
                },
                _ => Err(EmuError::HostFailure),
            },
            HostCall::Read { addr, .. } => match reply {
                HostReply::Bytes(b, n) => self.store_then_a0(addr, &b, n, true),
                HostReply::Failed => {
                    self.write_x_u64(10, u64::MAX);
                    self.write_x_u64(20, 1);
                    Ok(())
                },
                _ => Err(EmuError::HostFailure),
            },
            HostCall::Write { .. } => match reply {
                HostReply::Value(n) => {
                    self.write_x_u64(10, (n as u32) as u64);
                    Ok(())
                },
                _ => Err(EmuError::HostFailure),
            },
            HostCall::Fstat { addr, .. } => match reply {
                HostReply::Bytes(b, _) => self.store_then_a0(addr, &b, 0, true),
                _ => Err(EmuError::HostFailure),
            },
            HostCall::FstatStdout { addr, .. } => match reply {
                HostReply::Bytes(b, _) => self.store_then_a0(addr, &b, 0, false),
                _ => Err(EmuError::HostFailure),
            },
            HostCall::Open { .. } => match reply {
                HostReply::Value(fd) => {
                    self.write_x_u64(10, fd);
                    Ok(())
                },
                HostReply::Failed => {
                    self.write_x_u64(10, u64::MAX);
                    self.write_x_u64(11, 1);
                    Ok(())
                },
                _ => Err(EmuError::HostFailure),
            },
            HostCall::Unsupported { .. } => Ok(()),
        }
    }
}

} // verus!
