use vstd::prelude::*;

use crate::cpu::cpu_core::{wx32, Cpu};
use crate::cpu::memory::memory_core::{le_byte, Memory};
use crate::cpu::memory_access::read_effect;
use crate::error::EmuError;
use crate::isa::rv64i::environment::{clock32_stored, A0, A1, A2, A7};
use crate::isa::semantics::{tdiv, writes_x32};
use crate::system::kernel::HostCall;
use crate::types::{Instruction, InstructionType, Op, Word};

use std::time::{Duration, SystemTime, UNIX_EPOCH};

verus! {

/// The instructions of this set, in the order the decoder tries them.
pub open spec fn spec_rv32i_set_e() -> Seq<Instruction> {
    seq![
        Instruction { mask: 0xfff0707f, bits: 0x73, name: "ECALL", instruction_type: InstructionType::I, op: Op::Ecall32 },
        Instruction { mask: 0xfff0707f, bits: 0x100073, name: "EBREAK", instruction_type: InstructionType::I, op: Op::Ebreak },
    ]
}

/// The instructions of this set, in the order the decoder tries them.
pub fn rv32i_set_e() -> (v: Vec<Instruction>)
    ensures
        v@ == spec_rv32i_set_e(),
{
    let mut v: Vec<Instruction> = Vec::new();
    v.push(Instruction { mask: 0xfff0707f, bits: 0x73, name: "ECALL", instruction_type: InstructionType::I, op: Op::Ecall32 });
    v.push(Instruction { mask: 0xfff0707f, bits: 0x100073, name: "EBREAK", instruction_type: InstructionType::I, op: Op::Ebreak });
    assert(v@ =~= spec_rv32i_set_e());
    v
}

/// The operations of this set.
pub open spec fn in_rv32i_set_e(op: Op) -> bool {
    op == Op::Ecall32 || op == Op::Ebreak
}

/// The status record of a file as a 64-bit program sees it.
#[derive(Clone, Copy, PartialEq, Eq, Structural, Debug)]
pub struct Stat {
    pub dev: u64,
    pub ino: u64,
    pub mode: u32,
    pub nlink: u32,
    pub uid: u32,
    pub gid: u32,
    pub rdev: u64,
    pub size: i64,
    pub blksize: i64,
    pub blocks: i64,
    pub atime: u64,
    pub mtime: u64,
    pub ctime: u64,
}

/// The host clock's time, carried through as an opaque value.
#[verifier::external_type_specification]
#[verifier::external_body]
pub struct ExSystemTime(SystemTime);

/// `SystemTime::now`: the host clock's current time. Nothing is stated of it.
#[verifier::external_body]
fn system_time_now() -> (t: SystemTime) {
    SystemTime::now()
}

/// `SystemTime::duration_since(UNIX_EPOCH)`: the time elapsed since the epoch, `None` for a
/// time before it. Nothing is stated of the duration, which depends on the clock.
#[verifier::external_body]
fn since_unix_epoch(t: &SystemTime) -> (r: Option<Duration>) {
    match t.duration_since(UNIX_EPOCH) {
        Ok(d) => Some(d),
        Err(_) => None,
    }
}

/// `Duration::as_secs`: the whole seconds of a duration. Nothing is stated of the number,
/// which comes from the clock.
#[verifier::external_body]
fn whole_secs(d: &Duration) -> (r: u64) {
    d.as_secs()
}

/// `Duration::subsec_micros`: the fractional part of a duration in whole microseconds, which
/// its documentation gives as less than one million.
#[verifier::external_body]
fn subsec_micros(d: &Duration) -> (r: u32)
    ensures
        r < 1_000_000,
{
    d.subsec_micros()
}

/// `nix::time::clock_gettime` on the clock numbered `clock`: its seconds and nanoseconds, or
/// `None` when the host refuses the clock. Nothing is stated of the time, which comes from the
/// host clock.
#[verifier::external_body]
pub(crate) fn clock_reading(clock: u64) -> (r: Option<(i64, i64)>) {
    match nix::time::clock_gettime(nix::time::ClockId::from_raw(clock as nix::libc::clockid_t)) {
        Ok(t) => Some((t.tv_sec() as i64, t.tv_nsec() as i64)),
        Err(_) => None,
    }
}

/// The time of day as a `timeval`: whole seconds since the epoch and microseconds, or `None`
/// when the host clock is before the epoch.
pub fn time_of_day() -> (r: Option<(i64, i64)>)
    ensures
        r matches Some((s, us)) ==> 0 <= us < 1_000_000,
{
    let t = system_time_now();
    match since_unix_epoch(&t) {
        Some(d) => Some((whole_secs(&d) as i64, subsec_micros(&d) as i64)),
        None => None,
    }
}

/// The `w` little-endian bytes of `v`.
pub open spec fn le_bytes_seq(v: u64, w: nat) -> Seq<u8> {
    Seq::new(w, |i: int| le_byte(v, i as nat))
}

/// The bytes of a status record as a C program lays it out.
pub open spec fn stat_layout(s: Stat) -> Seq<u8> {
    le_bytes_seq(s.dev, 8) + le_bytes_seq(s.ino, 8) + le_bytes_seq(s.mode as u64, 4) + le_bytes_seq(
        s.nlink as u64,
        4,
    ) + le_bytes_seq(s.uid as u64, 4) + le_bytes_seq(s.gid as u64, 4) + le_bytes_seq(s.rdev, 8)
        + le_bytes_seq(s.size as u64, 8) + le_bytes_seq(s.blksize as u64, 8) + le_bytes_seq(
        s.blocks as u64,
        8,
    ) + le_bytes_seq(s.atime, 8) + le_bytes_seq(s.mtime, 8) + le_bytes_seq(s.ctime, 8)
}

/// Appends the `w` little-endian bytes of `v` to `out`.
fn push_le(out: &mut Vec<u8>, v: u64, w: usize)
    requires
        w <= 8,
    ensures
        final(out)@ == old(out)@ + le_bytes_seq(v, w as nat),
{
    let mut i: usize = 0;
    while i < w
        invariant
            i <= w <= 8,
            out@ == old(out)@ + le_bytes_seq(v, i as nat),
        decreases w - i,
    {
        out.push(((v >> (8 * (i as u64))) & 0xff) as u8);
        i = i + 1;
        assert(out@ =~= old(out)@ + le_bytes_seq(v, i as nat));
    }
}

/// The seconds and nanoseconds of a clock reading.
#[derive(Clone, Copy, PartialEq, Eq, Structural, Debug)]
pub struct TimeT {
    pub sec: i64,
    pub nsec: i64,
}

/// The bytes of a clock reading of two 64-bit fields: whole seconds, then the fraction.
pub open spec fn timespec_bytes(sec: i64, frac: i64) -> Seq<u8> {
    le_bytes_seq(sec as u64, 8) + le_bytes_seq(frac as u64, 8)
}

/// The bytes of a `timeval`: whole seconds, then microseconds, each 8 bytes little-endian.
pub fn timeval_bytes(sec: i64, usec: i64) -> (r: Vec<u8>)
    ensures
        r@ == timespec_bytes(sec, usec),
{
    let mut out: Vec<u8> = Vec::new();
    push_le(&mut out, sec as u64, 8);
    push_le(&mut out, usec as u64, 8);
    out
}

/// The time a 32-bit program's clock query gets back in one register pair: the low 32 bits of
/// the seconds in the low word, the low 32 bits of the nanoseconds in the high word.
pub open spec fn clock_word32_of(sec: i64, nsec: i64) -> u64 {
    ((sec as u32) as u64) | (((nsec as u32) as u64) << 32u64)
}

/// Packs a clock reading for a 32-bit program.
pub fn clock_word32(sec: i64, nsec: i64) -> (r: u64)
    ensures
        r == clock_word32_of(sec, nsec),
{
    ((sec as u32) as u64) | (((nsec as u32) as u64) << 32u64)
}

/// The number of 512-byte blocks a file of `size` bytes takes, rounded up.
pub fn blocks_of(size: i64) -> (r: i64)
    requires
        size <= i64::MAX - 511,
    ensures
        r == tdiv(size + 511, 512),
{
    crate::isa::semantics::div_trunc(size + 511, 512)
}

impl TimeT {
    /// The reading as a C program lays it out: both fields little-endian, 16 bytes.
    pub fn to_bytes(&self) -> (r: Vec<u8>)
        ensures
            r@ == le_bytes_seq(self.sec as u64, 8) + le_bytes_seq(self.nsec as u64, 8),
    {
        let mut out: Vec<u8> = Vec::new();
        push_le(&mut out, self.sec as u64, 8);
        push_le(&mut out, self.nsec as u64, 8);
        out
    }
}

/// The status of the standard output holding `buffer_size` bytes, at time `now` (seconds since
/// the epoch): a character device owned by user 1000.
pub open spec fn stdout_stat(buffer_size: u32, now: u64) -> Stat {
    Stat {
        dev: 1,
        ino: 1,
        mode: 0o020666,
        nlink: 1,
        uid: 1000,
        gid: 1000,
        rdev: 1,
        size: buffer_size as i64,
        blksize: 1024,
        blocks: ((buffer_size as i64 + 511) / 512) as i64,
        atime: now,
        mtime: now,
        ctime: now,
    }
}

impl Stat {
    /// The status of the standard output holding `buffer_size` bytes, at time `now`.
    pub fn new_stdout_at(buffer_size: u32, now: u64) -> (r: Stat)
        ensures
            r == stdout_stat(buffer_size, now),
    {
        Stat {
            dev: 1,
            ino: 1,
            mode: 0o020666,
            nlink: 1,
            uid: 1000,
            gid: 1000,
            rdev: 1,
            size: buffer_size as i64,
            blksize: 1024,
            blocks: (buffer_size as i64 + 511) / 512,
            atime: now,
            mtime: now,
            ctime: now,
        }
    }

    /// The record as a C program lays it out: each field little-endian, in order, 88 bytes.
    pub fn to_bytes(&self) -> (r: Vec<u8>)
        ensures
            r@ == stat_layout(*self),
    {
        let mut out: Vec<u8> = Vec::new();
        push_le(&mut out, self.dev, 8);
        push_le(&mut out, self.ino, 8);
        push_le(&mut out, self.mode as u64, 4);
        push_le(&mut out, self.nlink as u64, 4);
        push_le(&mut out, self.uid as u64, 4);
        push_le(&mut out, self.gid as u64, 4);
        push_le(&mut out, self.rdev, 8);
        push_le(&mut out, self.size as u64, 8);
        push_le(&mut out, self.blksize as u64, 8);
        push_le(&mut out, self.blocks as u64, 8);
        push_le(&mut out, self.atime, 8);
        push_le(&mut out, self.mtime, 8);
        push_le(&mut out, self.ctime, 8);
        out
    }

    /// The status of the standard output holding `buffer_size` bytes, stamped with the host
    /// clock's time; refused when that clock is before the epoch.
    pub fn new_stdout(buffer_size: u32) -> (r: Result<Stat, EmuError>)
        ensures
            r matches Ok(s) ==> s == stdout_stat(buffer_size, s.atime),
            r is Err ==> r == Err::<Stat, EmuError>(EmuError::HostFailure),
    {
        let t = system_time_now();
        match since_unix_epoch(&t) {
            Some(d) => Ok(Stat::new_stdout_at(buffer_size, whole_secs(&d))),
            None => Err(EmuError::HostFailure),
        }
    }
}

/// `after` is `mid` with byte `v` appended to the standard output.
pub open spec fn stdout_pushed<M: Memory>(mid: Cpu<M>, after: Cpu<M>, v: u8) -> bool {
    &&& after == Cpu { kernel: after.kernel, ..mid }
    &&& after.kernel.stdout_buffer@ == mid.kernel.stdout_buffer@.push(v)
    &&& after.kernel.stderr_buffer@ == mid.kernel.stderr_buffer@
    &&& after.kernel.stdin_buffer@ == mid.kernel.stdin_buffer@
}

/// One step of the `write` system call: the byte at `addr` is read through the hart's address
/// path, giving `v`, and appended to the standard output.
pub open spec fn stdout_step<M: Memory>(before: Cpu<M>, after: Cpu<M>, addr: u64, v: u8) -> bool {
    exists|mid: Cpu<M>|
        #![trigger read_effect(before, mid, addr, 1, Ok(v as u64))]
        read_effect(before, mid, addr, 1, Ok(v as u64)) && stdout_pushed(mid, after, v)
}

/// `cs` is a run of harts through the first `n` steps of the `write` system call on the buffer
/// at `addr`, step `i` passing byte `vs[i]` on.
pub open spec fn stdout_run<M: Memory>(cs: Seq<Cpu<M>>, vs: Seq<u8>, addr: u64, n: int) -> bool {
    &&& cs.len() == n + 1
    &&& vs.len() == n
    &&& forall|i: int| 0 <= i < n ==> #[trigger] stdout_step(cs[i], cs[i + 1], (addr + i) as u64, vs[i])
}

/// The outcome of a system call of a 32-bit program: number in `a7`, arguments in `a0`..`a2`.
/// Only `close`, `write` to the standard output, `fstat` of the standard output, `exit`,
/// `brk` and `clock_gettime` exist; `write` passes the bytes on one at a time, each read
/// through the hart's address path, and stops at the first refused read, keeping the bytes
/// already passed on.
pub open spec fn syscall32_done<M: Memory>(before: Cpu<M>, after: Cpu<M>, r: Result<(), EmuError>) -> bool {
    let x = before.x32();
    let n = x[A7() as int];
    let a0 = x[A0() as int];
    let a1 = x[A1() as int];
    let a2 = x[A2() as int];
    if n == 57 {
        r is Ok && writes_x32(before, after, A0(), 0)
    } else if n == 64 {
        if a0 != 1 {
            r == Err::<(), EmuError>(EmuError::UnsupportedFileDescriptor(a0)) && after == before
        } else {
            &&& before.core_eq(&after)
            &&& after.x64() == before.x64()
            &&& after.pc() == before.pc()
            &&& after.peripherals == before.peripherals
            &&& after.block_device == before.block_device
            &&& after.kernel.stderr_buffer@ == before.kernel.stderr_buffer@
            &&& after.kernel.stdin_buffer@ == before.kernel.stdin_buffer@
            &&& after.x32() == (if r is Ok { wx32(x, A0(), a2) } else { x })
            &&& r is Ok ==> exists|cs: Seq<Cpu<M>>, vs: Seq<u8>|
                #![trigger stdout_run(cs, vs, a1 as u64, a2 as int)]
                stdout_run(cs, vs, a1 as u64, a2 as int) && cs[0] == before && writes_x32(cs.last(), after, A0(), a2)
            &&& r is Err ==> exists|cs: Seq<Cpu<M>>, vs: Seq<u8>, k: int, e: EmuError|
                #![trigger stdout_run(cs, vs, a1 as u64, k), read_effect(cs[k], after, (a1 + k) as u64, 1, Err(e))]
                0 <= k < a2 && stdout_run(cs, vs, a1 as u64, k) && cs[0] == before && read_effect(
                    cs[k],
                    after,
                    (a1 + k) as u64,
                    1,
                    Err(e),
                )
        }
    } else if n == 80 {
        after == before && r == (if a0 == 1 {
            Err::<(), EmuError>(EmuError::HostCall(HostCall::FstatStdout {
                addr: a1 as u64,
                size: before.kernel.stdout_buffer@.len() as u32,
            }))
        } else {
            Err(EmuError::UnsupportedFileDescriptor(a0))
        })
    } else if n == 93 {
        &&& r is Ok
        &&& after.is_halted()
        &&& after.x32() == wx32(x, A0(), 0)
        &&& after.x64() == before.x64()
        &&& after.pc() == before.pc()
        &&& after.same_setup(&before)
        &&& after.current_instruction_pc_64 == before.current_instruction_pc_64
        &&& after.program_brk == before.program_brk
        &&& after.csr_table == before.csr_table
        &&& after.privilege_mode == before.privilege_mode
        &&& before.mem_eq(&after)
    } else if n == 214 {
        let brk = if a0 != 0 { a0 as u64 } else { before.program_brk };
        &&& r is Ok
        &&& after.program_brk == brk
        &&& after.x32() == wx32(x, A0(), brk as u32)
        &&& after.x64() == before.x64()
        &&& after.pc() == before.pc()
        &&& after.same_setup(&before)
        &&& after.current_instruction_pc_64 == before.current_instruction_pc_64
        &&& after.is_halted() == before.is_halted()
        &&& after.csr_table == before.csr_table
        &&& after.privilege_mode == before.privilege_mode
        &&& before.mem_eq(&after)
    } else if n == 403 {
        ||| r == Err::<(), EmuError>(EmuError::HostFailure) && after == before
        ||| exists|s: i64, ns: i64|
            #![trigger clock32_stored(before, after, a1 as u64, clock_word32_of(s, ns), r)]
            clock32_stored(before, after, a1 as u64, clock_word32_of(s, ns), r)
    } else {
        after == before && r == Err::<(), EmuError>(EmuError::UnsupportedSyscall(n as u64))
    }
}

/// Executes an environment instruction of a 32-bit hart: `ECALL` is a system call, `EBREAK`
/// The outcome of a 32-bit environment instruction.
pub open spec fn rv32i_e_done<M: Memory>(before: Cpu<M>, after: Cpu<M>, op: Op, w: u32, r: Result<(), EmuError>) -> bool {
    &&& op == Op::Ebreak ==> r == Err::<(), EmuError>(EmuError::Breakpoint) && after == before
    &&& op == Op::Ecall32 ==> syscall32_done(before, after, r)
}

/// stops with `Breakpoint`.
pub fn execute_rv32i_set_e<M: Memory>(cpu: &mut Cpu<M>, op: Op, word: &Word) -> (r: Result<(), EmuError>)
    requires
        old(cpu).wf(),
        in_rv32i_set_e(op),
    ensures
        final(cpu).wf(),
        rv32i_e_done(*old(cpu), *final(cpu), op, word.0, r),
{
    if op == Op::Ebreak {
        return Err(EmuError::Breakpoint);
    }
    let n = cpu.read_x_u32(17);
    let a0 = cpu.read_x_u32(10);
    let a1 = cpu.read_x_u32(11);
    let a2 = cpu.read_x_u32(12);
    if n == 57 {
        cpu.write_x_u32(10, 0);
        Ok(())
    } else if n == 64 {
        if a0 != 1 {
            return Err(EmuError::UnsupportedFileDescriptor(a0));
        }
        let ghost mut cs: Seq<Cpu<M>> = seq![*cpu];
        let ghost mut vs: Seq<u8> = Seq::empty();
        let mut i: u32 = 0;
        while i < a2
            invariant
                cpu.wf(),
                i <= a2,
                stdout_run(cs, vs, a1 as u64, i as int),
                cs[0] == *old(cpu),
                cs.last() == *cpu,
                in_rv32i_set_e(op),
                op != Op::Ebreak,
                n == old(cpu).x32()[17],
                n == 64,
                a0 == old(cpu).x32()[10],
                a0 == 1,
                a1 == old(cpu).x32()[11],
                a2 == old(cpu).x32()[12],
                old(cpu).core_eq(cpu),
                cpu.x32() == old(cpu).x32(),
                cpu.x64() == old(cpu).x64(),
                cpu.pc() == old(cpu).pc(),
                cpu.peripherals == old(cpu).peripherals,
                cpu.block_device == old(cpu).block_device,
                cpu.kernel.stderr_buffer@ == old(cpu).kernel.stderr_buffer@,
                cpu.kernel.stdin_buffer@ == old(cpu).kernel.stdin_buffer@,
            decreases a2 - i,
        {
            let at = a1 as u64 + i as u64;
            let ghost before = *cpu;
            let v = match cpu.read_mem_u8(at) {
                Ok(v) => v,
                Err(e) => {
                    assert(read_effect(cs[i as int], *cpu, (a1 + (i as int)) as u64, 1, Err(e)));
                    assert(stdout_run(cs, vs, a1 as u64, i as int));
                    return Err(e);
                },
            };
            let ghost mid = *cpu;
            cpu.kernel.push_stdout(v);
            proof {
                assert(stdout_pushed(mid, *cpu, v));
                assert(stdout_step(before, *cpu, at, v));
                let cs2 = cs.push(*cpu);
                let vs2 = vs.push(v);
                assert forall|j: int| 0 <= j < i + 1 implies #[trigger] stdout_step(
                    cs2[j],
                    cs2[j + 1],
                    (a1 + j) as u64,
                    vs2[j],
                ) by {
                    if j < i {
                        assert(cs2[j] == cs[j] && cs2[j + 1] == cs[j + 1] && vs2[j] == vs[j]);
                    } else {
                        assert(cs2[j] == before && cs2[j + 1] == *cpu);
                    }
                }
                cs = cs2;
                vs = vs2;
            }
            i = i + 1;
        }
        let ghost last = *cpu;
        cpu.write_x_u32(10, a2);
        assert(stdout_run(cs, vs, a1 as u64, a2 as int));
        assert(writes_x32(last, *cpu, A0(), a2));
        Ok(())
    } else if n == 80 {
        if a0 == 1 {
            let size = cpu.kernel.stdout_buffer.len() as u32;
            Err(EmuError::HostCall(HostCall::FstatStdout { addr: a1 as u64, size }))
        } else {
            Err(EmuError::UnsupportedFileDescriptor(a0))
        }
    } else if n == 93 {
        cpu.set_halted();
        cpu.write_x_u32(10, 0);
        Ok(())
    } else if n == 214 {
        if a0 != 0 {
            cpu.program_brk = a0 as u64;
        }
        let brk = cpu.program_brk;
        cpu.write_x_u32(10, brk as u32);
        Ok(())
    } else if n == 403 {
        match clock_reading(a0 as u64) {
            Some((s, ns)) => {
                let v = clock_word32(s, ns);
                cpu.store_clock32(a1 as u64, v)
            },
            None => Err(EmuError::HostFailure),
        }
    } else {
        Err(EmuError::UnsupportedSyscall(n as u64))
    }
}

} // verus!
