use vstd::prelude::*;

use crate::cpu::memory::memory_core::Memory;
use crate::cpu::memory::program_cache::{cache_decodes, cache_refused, ProgramCache};
use crate::cpu::memory::raw_memory::ContinuousMemory;
use crate::cpu::memory::user_memory::{UserMemory, HEAP_SIZE, STACK_SIZE};
use crate::isa::csr::csr_types::{spec_misa, CSRAddress, CSRTable, CSR_COUNT};
use crate::system::passthrough_kernel::PassthroughKernel;
use crate::system::plic::{PLIC_ADDR, PLIC_SIZE};
use crate::system::uart::UART_ADDR;
use crate::system::virtio::{BlockDevice, VIRTIO_0_ADDR};
use crate::cpu::memory_access::spec_translate;
use crate::elf::assembler::{
    data_end, load_program_to_memory, load_refused, section_stores, segment_stores, stores_applied, text_section,
    ElfFile,
};
use crate::isa::traps::{check_pending_interrupts, interrupts_checked};
use crate::system::plic::{plic_check_pending, plic_checked};
use crate::error::EmuError;
use crate::isa::rv32_zicsr::zicsr::{execute_rv32_zicsr_set, in_rv32_zicsr_set, rv32_zicsr_done};
use crate::isa::rv32_zifencei::zifencei::{execute_zifencei_set, zifencei_done};
use crate::isa::rv32i::control_transfer::{execute_rv32i_set_uj, in_rv32i_set_uj, rv32i_uj_result};
use crate::isa::rv32i::environment::{execute_rv32i_set_e, in_rv32i_set_e, rv32i_e_done};
use crate::isa::rv32i::immediate::{execute_rv32i_set_i, in_rv32i_set_i, rv32i_i_done};
use crate::isa::rv32i::integer_reg_reg::{execute_rv32i_set_r, in_rv32i_set_r, rv32i_r_done};
use crate::isa::rv32i::load_store::{execute_rv32i_set_ls, in_rv32i_set_ls, rv32i_ls_done};
use crate::isa::rv32m::muldiv_reg_reg::{execute_rv32m_set_r, in_rv32m_set_r, rv32m_done};
use crate::isa::rv64_privileged::privileged::{execute_rv64_privileged_set, rv64_privileged_done};
use crate::isa::rv64_zicsr::zicsr::{execute_rv64_zicsr_set, in_rv64_zicsr_set, rv64_zicsr_done};
use crate::isa::rv64a::amo::{execute_rv64a_set_amo, in_rv64a_set_amo, rv64a_done};
use crate::isa::rv64i::environment::{execute_rv64i_set_e, in_rv64i_set_e, rv64i_e_done};
use crate::isa::rv64i::integer_reg_reg::{execute_rv64i_set_r, in_rv64i_set_r, rv64i_r_done};
use crate::isa::rv64m::muldiv_reg_reg::{execute_rv64m_set_r, in_rv64m_set_r, rv64m_done};
use crate::isa::rv64fd::conversion::{execute_float_unit, float_unit_done};
use crate::isa::rv64fd::load_store::{execute_rv64f_set_ls, in_rv64f_set_ls, rv64f_ls_done};
use crate::isa::rv64fd::mov::{execute_rv64f_set_mov, in_rv64f_set_mov, rv64f_mov_done};
use crate::types::{decode_program_line, decodes_to, no_match, spec_all_instructions, Instruction, Op, ProgramLine, Word};

verus! {

/// Register width of the emulated hart.
#[derive(Clone, Copy, PartialEq, Eq, Structural, Debug)]
pub enum CpuMode {
    RV32,
    RV64,
}

/// Whether programs run on a user-space system-call layer or on bare hardware.
#[derive(Clone, Copy, PartialEq, Eq, Structural, Debug)]
pub enum ExecutionMode {
    UserSpace,
    Bare,
}

/// RISC-V privilege levels.
#[derive(Clone, Copy, PartialEq, Eq, Structural, Debug)]
pub enum PrivilegeMode {
    User,
    Supervisor,
    Machine,
}

/// The encoding of a privilege level (as stored in `mstatus.MPP`).
pub open spec fn privilege_number(p: PrivilegeMode) -> u64 {
    match p {
        PrivilegeMode::User => 0,
        PrivilegeMode::Supervisor => 1,
        PrivilegeMode::Machine => 3,
    }
}

impl PrivilegeMode {
    /// The encoding of this privilege level.
    pub fn number(&self) -> (r: u64)
        ensures
            r == privilege_number(*self),
    {
        match self {
            PrivilegeMode::User => 0,
            PrivilegeMode::Supervisor => 1,
            PrivilegeMode::Machine => 3,
        }
    }
}

/// Initial stack pointer of a 32-bit user program.
pub const INITIAL_STACK_POINTER_32: u32 = 0xbfffff00;

/// Initial stack pointer of a 64-bit user program.
pub const INITIAL_STACK_POINTER_64: u64 = 0x00007FFFFFFFFFFF;

/// Where a bare-metal kernel image is loaded.
pub const KERNEL_ADDR: u64 = 0x80000000;

/// Size of the bare-metal main memory.
pub const KERNEL_SIZE: u64 = 0x8000000;

/// Register windows of the memory-mapped devices.
#[derive(Clone, Debug)]
pub struct Peripherals {
    pub uart: ContinuousMemory,
    pub virtio: ContinuousMemory,
    pub plic: ContinuousMemory,
}

/// The device windows at their addresses and sizes.
pub open spec fn peripherals_laid_out(p: Peripherals) -> bool {
    &&& p.uart.base() == UART_ADDR
    &&& p.uart.bytes().len() == 0x100
    &&& p.virtio.base() == VIRTIO_0_ADDR
    &&& p.virtio.bytes().len() == 0x100
    &&& p.plic.base() == PLIC_ADDR
    &&& p.plic.bytes().len() == PLIC_SIZE
}

/// Fresh device windows.
pub fn new_peripherals() -> (p: Peripherals)
    ensures
        peripherals_laid_out(p),
{
    Peripherals {
        uart: ContinuousMemory::new(UART_ADDR, 0x100),
        virtio: ContinuousMemory::new(VIRTIO_0_ADDR, 0x100),
        plic: ContinuousMemory::new(PLIC_ADDR, PLIC_SIZE),
    }
}

/// Register `id` of a register file after writing `v` to it: register 0 stays zero.
pub open spec fn wx32(regs: Seq<u32>, id: u8, v: u32) -> Seq<u32> {
    if id == 0 {
        regs
    } else {
        regs.update(id as int, v)
    }
}

/// Register `id` of a register file after writing `v` to it: register 0 stays zero.
pub open spec fn wx64(regs: Seq<u64>, id: u8, v: u64) -> Seq<u64> {
    if id == 0 {
        regs
    } else {
        regs.update(id as int, v)
    }
}

/// A RISC-V hart with its memory, control registers and devices.
pub struct Cpu<M: Memory> {
    pub reg_x32: Vec<u32>,
    pub reg_x64: Vec<u64>,
    pub reg_f: Vec<u64>,
    pub reg_pc_64: u64,
    pub current_instruction_pc_64: u64,
    pub memory: M,
    pub program_cache: ProgramCache,
    pub program_memory_offset: u64,
    pub halted: bool,
    pub program_brk: u64,
    pub kernel: PassthroughKernel,
    pub csr_table: CSRTable,
    pub arch_mode: CpuMode,
    pub privilege_mode: PrivilegeMode,
    pub block_device: Option<BlockDevice>,
    pub execution_mode: ExecutionMode,
    pub peripherals: Option<Peripherals>,
}

/// `ms` is a run of memories, each the one before with the next word of `words` stored at
/// consecutive word addresses from `entry` on.
pub open spec fn words_stored<M: Memory>(ms: Seq<M>, entry: u64, words: Seq<u32>) -> bool {
    &&& ms.len() == words.len() + 1
    &&& forall|k: int|
        0 <= k < words.len() ==> #[trigger] ms[k].stored((entry + 4 * k) as u64, 4, words[k] as u64, ms[k + 1])
}

/// Storing `words` from `entry` on into `m0` can be refused: some run of memories stores the
/// first `k` words and then reaches a word store that its last memory refuses.
pub open spec fn words_refused<M: Memory>(m0: M, entry: u64, words: Seq<u32>) -> bool {
    exists|ms: Seq<M>, k: int|
        #![trigger words_stored(ms, entry, words.take(k))]
        0 <= k < words.len() && words_stored(ms, entry, words.take(k)) && ms[0] == m0 && !ms.last().store_ok(
            (entry + 4 * k) as u64,
            4,
        )
}

impl<M: Memory> Cpu<M> {
    /// The 32-bit integer registers.
    pub open spec fn x32(&self) -> Seq<u32> {
        self.reg_x32@
    }

    /// The 64-bit integer registers.
    pub open spec fn x64(&self) -> Seq<u64> {
        self.reg_x64@
    }

    /// The floating-point registers, as bit patterns.
    pub open spec fn f_regs(&self) -> Seq<u64> {
        self.reg_f@
    }

    /// The program counter.
    pub open spec fn pc(&self) -> u64 {
        self.reg_pc_64
    }

    /// Whether the program asked to stop.
    pub open spec fn is_halted(&self) -> bool {
        self.halted
    }

    /// The decoded program of a user-space run.
    pub open spec fn cache(&self) -> ProgramCache {
        self.program_cache
    }

    /// Consistency of the hart: full register files with register 0 at zero, a consistent
    /// memory and control-register table, and device windows where bare mode needs them.
    pub open spec fn wf(&self) -> bool {
        &&& self.x32().len() == 32
        &&& self.x64().len() == 32
        &&& self.f_regs().len() == 32
        &&& self.x32()[0] == 0
        &&& self.x64()[0] == 0
        &&& self.memory.wf()
        &&& self.csr_table.wf()
        &&& self.cache().lines().len() == crate::cpu::memory::program_cache::word_count(
            self.cache().start(),
            self.cache().end(),
        )
        &&& match self.peripherals {
            Some(p) => peripherals_laid_out(p),
            None => self.execution_mode == ExecutionMode::UserSpace,
        }
    }

    /// The parts no instruction changes.
    pub open spec fn same_setup(&self, b: &Self) -> bool {
        &&& b.reg_f@ == self.reg_f@
        &&& b.program_cache == self.program_cache
        &&& b.program_memory_offset == self.program_memory_offset
        &&& b.arch_mode == self.arch_mode
        &&& b.execution_mode == self.execution_mode
    }

    /// Everything but the integer registers, the program counter, the memory, the device
    /// windows, the system-call layer and the block device is equal.
    pub open spec fn core_eq(&self, b: &Self) -> bool {
        &&& self.same_setup(b)
        &&& b.current_instruction_pc_64 == self.current_instruction_pc_64
        &&& b.is_halted() == self.is_halted()
        &&& b.program_brk == self.program_brk
        &&& b.csr_table == self.csr_table
        &&& b.privilege_mode == self.privilege_mode
    }

    /// The memory, the device windows, the system-call layer and the block device are equal.
    pub open spec fn mem_eq(&self, b: &Self) -> bool {
        &&& b.memory == self.memory
        &&& b.peripherals == self.peripherals
        &&& b.kernel == self.kernel
        &&& b.block_device == self.block_device
    }

    /// `b` is this hart with the given registers and program counter.
    pub open spec fn regs_set(&self, b: &Self, x32: Seq<u32>, x64: Seq<u64>, pc: u64) -> bool {
        &&& self.core_eq(b)
        &&& self.mem_eq(b)
        &&& b.x32() == x32
        &&& b.x64() == x64
        &&& b.pc() == pc
    }

    /// A hart with zeroed registers in machine mode over `memory`.
    pub fn new(
        memory: M,
        kernel: PassthroughKernel,
        mode: CpuMode,
        block_device: Option<BlockDevice>,
        execution_mode: ExecutionMode,
    ) -> (r: Cpu<M>)
        requires
            memory.wf(),
        ensures
            r.wf(),
            r.x32() == Seq::new(32, |i: int| 0u32),
            r.x64() == Seq::new(32, |i: int| 0u64),
            r.pc() == 0,
            r.current_instruction_pc_64 == 0,
            r.memory == memory,
            !r.is_halted(),
            r.program_brk == 0,
            r.kernel == kernel,
            r.arch_mode == mode,
            r.privilege_mode == PrivilegeMode::Machine,
            r.block_device == block_device,
            r.execution_mode == execution_mode,
            r.peripherals is Some,
            r.cache().lines().len() == 0,
            mode == CpuMode::RV32 ==> r.csr_table.regs32() == Seq::new(CSR_COUNT as nat, |i: int| 0u32).update(
                0x301,
                spec_misa(mode) as u32,
            ) && r.csr_table.regs64() == Seq::new(CSR_COUNT as nat, |i: int| 0u64),
            mode == CpuMode::RV64 ==> r.csr_table.regs64() == Seq::new(CSR_COUNT as nat, |i: int| 0u64).update(
                0x301,
                spec_misa(mode),
            ) && r.csr_table.regs32() == Seq::new(CSR_COUNT as nat, |i: int| 0u32),
    {
        let csr_table = CSRTable::new(mode);
        let r = Cpu {
            reg_x32: vec![0u32; 32],
            reg_x64: vec![0u64; 32],
            reg_f: vec![0u64; 32],
            reg_pc_64: 0,
            current_instruction_pc_64: 0,
            memory,
            program_cache: ProgramCache::empty(),
            program_memory_offset: 0,
            halted: false,
            program_brk: 0,
            kernel,
            csr_table,
            arch_mode: mode,
            privilege_mode: PrivilegeMode::Machine,
            block_device,
            execution_mode,
            peripherals: Some(new_peripherals()),
        };
        assert(r.x32() =~= Seq::new(32, |i: int| 0u32));
        assert(r.x64() =~= Seq::new(32, |i: int| 0u64));
        r
    }

    /// Reads a 32-bit integer register.
    pub fn read_x_u32(&self, id: u8) -> (r: u32)
        requires
            self.wf(),
            id < 32,
        ensures
            r == self.x32()[id as int],
    {
        self.reg_x32[id as usize]
    }

    /// Reads a 64-bit integer register.
    pub fn read_x_u64(&self, id: u8) -> (r: u64)
        requires
            self.wf(),
            id < 32,
        ensures
            r == self.x64()[id as int],
    {
        self.reg_x64[id as usize]
    }

    /// Reads a 32-bit integer register as a signed number.
    pub fn read_x_i32(&self, id: u8) -> (r: i32)
        requires
            self.wf(),
            id < 32,
        ensures
            r == self.x32()[id as int] as i32,
    {
        self.reg_x32[id as usize] as i32
    }

    /// Reads a 64-bit integer register as a signed number.
    pub fn read_x_i64(&self, id: u8) -> (r: i64)
        requires
            self.wf(),
            id < 32,
        ensures
            r == self.x64()[id as int] as i64,
    {
        self.reg_x64[id as usize] as i64
    }

    /// Writes a 32-bit integer register; writes to register 0 are dropped.
    pub fn write_x_u32(&mut self, id: u8, value: u32)
        requires
            old(self).wf(),
            id < 32,
        ensures
            final(self).wf(),
            old(self).regs_set(final(self), wx32(old(self).x32(), id, value), old(self).x64(), old(self).pc()),
    {
        if id == 0 {
            return;
        }
        self.reg_x32.set(id as usize, value);
    }

    /// Writes a 64-bit integer register; writes to register 0 are dropped.
    pub fn write_x_u64(&mut self, id: u8, value: u64)
        requires
            old(self).wf(),
            id < 32,
        ensures
            final(self).wf(),
            old(self).regs_set(final(self), old(self).x32(), wx64(old(self).x64(), id, value), old(self).pc()),
    {
        if id == 0 {
            return;
        }
        self.reg_x64.set(id as usize, value);
    }

    /// Writes a 32-bit integer register from a signed number.
    pub fn write_x_i32(&mut self, id: u8, value: i32)
        requires
            old(self).wf(),
            id < 32,
        ensures
            final(self).wf(),
            old(self).regs_set(final(self), wx32(old(self).x32(), id, value as u32), old(self).x64(), old(self).pc()),
    {
        self.write_x_u32(id, value as u32)
    }

    /// Writes a 64-bit integer register from a signed number.
    pub fn write_x_i64(&mut self, id: u8, value: i64)
        requires
            old(self).wf(),
            id < 32,
        ensures
            final(self).wf(),
            old(self).regs_set(final(self), old(self).x32(), wx64(old(self).x64(), id, value as u64), old(self).pc()),
    {
        self.write_x_u64(id, value as u64)
    }

    /// Reads the bit pattern of a floating-point register.
    pub fn read_f_bits(&self, id: u8) -> (r: u64)
        requires
            self.wf(),
            id < 32,
        ensures
            r == self.f_regs()[id as int],
    {
        self.reg_f[id as usize]
    }

    /// Writes the bit pattern of a floating-point register.
    pub fn write_f_bits(&mut self, id: u8, value: u64)
        requires
            old(self).wf(),
            id < 32,
        ensures
            final(self).wf(),
            final(self).f_regs() == old(self).f_regs().update(id as int, value),
            *final(self) == (Cpu { reg_f: final(self).reg_f, ..*old(self) }),
    {
        self.reg_f.set(id as usize, value);
    }

    /// The program counter, truncated to 32 bits.
    pub fn read_pc_u32(&self) -> (r: u32)
        ensures
            r == self.pc() as u32,
    {
        self.reg_pc_64 as u32
    }

    /// The program counter.
    pub fn read_pc_u64(&self) -> (r: u64)
        ensures
            r == self.pc(),
    {
        self.reg_pc_64
    }

    /// Sets the program counter from a 32-bit address.
    pub fn write_pc_u32(&mut self, val: u32)
        requires
            old(self).wf(),
        ensures
            final(self).wf(),
            old(self).regs_set(final(self), old(self).x32(), old(self).x64(), val as u64),
    {
        self.reg_pc_64 = val as u64;
    }

    /// Sets the program counter.
    pub fn write_pc_u64(&mut self, val: u64)
        requires
            old(self).wf(),
        ensures
            final(self).wf(),
            old(self).regs_set(final(self), old(self).x32(), old(self).x64(), val),
    {
        self.reg_pc_64 = val;
    }

    /// Address of the instruction being executed, truncated to 32 bits.
    pub fn read_current_instruction_addr_u32(&self) -> (r: u32)
        ensures
            r == self.current_instruction_pc_64 as u32,
    {
        self.current_instruction_pc_64 as u32
    }

    /// Address of the instruction being executed.
    pub fn read_current_instruction_addr_u64(&self) -> (r: u64)
        ensures
            r == self.current_instruction_pc_64,
    {
        self.current_instruction_pc_64
    }

    /// Stops the hart.
    pub fn set_halted(&mut self)
        requires
            old(self).wf(),
        ensures
            final(self).wf(),
            final(self).is_halted(),
            final(self).x32() == old(self).x32(),
            final(self).x64() == old(self).x64(),
            final(self).pc() == old(self).pc(),
            final(self).same_setup(old(self)),
            final(self).current_instruction_pc_64 == old(self).current_instruction_pc_64,
            final(self).program_brk == old(self).program_brk,
            final(self).csr_table == old(self).csr_table,
            final(self).privilege_mode == old(self).privilege_mode,
            old(self).mem_eq(final(self)),
    {
        self.halted = true;
    }

    /// Whether the hart was stopped.
    pub fn halted(&self) -> (r: bool)
        ensures
            r == self.is_halted(),
    {
        self.halted
    }
}

impl Cpu<UserMemory> {
    /// A hart for user-space programs: a stack just below the initial stack pointer and a
    /// heap at address zero.
    pub fn new_userspace(mode: CpuMode) -> (r: Cpu<UserMemory>)
        ensures
            r.wf(),
            r.arch_mode == mode,
            r.execution_mode == ExecutionMode::UserSpace,
            r.memory.heap_region().base() == 0,
            r.memory.heap_region().bytes().len() == HEAP_SIZE,
            mode == CpuMode::RV64 ==> r.memory.stack_region().base() == INITIAL_STACK_POINTER_64 - STACK_SIZE,
            mode == CpuMode::RV32 ==> r.memory.stack_region().base() == INITIAL_STACK_POINTER_32 - STACK_SIZE,
            r.memory.stack_region().bytes().len() == STACK_SIZE,
    {
        let base = match mode {
            CpuMode::RV64 => INITIAL_STACK_POINTER_64 - STACK_SIZE,
            CpuMode::RV32 => INITIAL_STACK_POINTER_32 as u64 - STACK_SIZE,
        };
        let memory = UserMemory::new(base, 0, STACK_SIZE, HEAP_SIZE);
        Cpu::new(memory, PassthroughKernel::new(), mode, None, ExecutionMode::UserSpace)
    }
}

impl Cpu<ContinuousMemory> {
    /// A 64-bit bare-metal hart with main memory at the kernel address.
    pub fn new_bare(block_device: Option<BlockDevice>) -> (r: Cpu<ContinuousMemory>)
        ensures
            r.wf(),
            r.arch_mode == CpuMode::RV64,
            r.execution_mode == ExecutionMode::Bare,
            r.memory.base() == KERNEL_ADDR,
            r.memory.bytes().len() == KERNEL_SIZE,
            r.memory.bytes() == Seq::new(KERNEL_SIZE as nat, |i: int| 0u8),
            r.block_device == block_device,
            r.privilege_mode == PrivilegeMode::Machine,
            r.x64() == Seq::new(32, |i: int| 0u64),
            r.pc() == 0,
            r.current_instruction_pc_64 == 0,
            !r.is_halted(),
            r.peripherals is Some,
            r.csr_table.regs64() == Seq::new(CSR_COUNT as nat, |i: int| 0u64).update(
                0x301,
                spec_misa(CpuMode::RV64),
            ),
            r.csr_table.regs32() == Seq::new(CSR_COUNT as nat, |i: int| 0u32),
    {
        Cpu::new(
            ContinuousMemory::new(KERNEL_ADDR, KERNEL_SIZE),
            PassthroughKernel::new(),
            CpuMode::RV64,
            block_device,
            ExecutionMode::Bare,
        )
    }
}

/// The hart about to execute the instruction at its program counter: the current
/// instruction address is the program counter, which moves on by four.
pub open spec fn advanced<M: Memory>(c: Cpu<M>) -> Cpu<M> {
    Cpu { current_instruction_pc_64: c.reg_pc_64, reg_pc_64: c.reg_pc_64.wrapping_add(4), ..c }
}

/// The outcome of one cycle of a user-space hart: the instruction comes from the decoded
/// program; a program counter outside it is refused.
pub open spec fn userspace_cycle<M: Memory>(before: Cpu<M>, after: Cpu<M>, r: Result<(), EmuError>) -> bool {
    let c = before.cache();
    let pc = before.pc();
    if before.is_halted() {
        r == Err::<(), EmuError>(EmuError::Halted) && after == before
    } else if c.start() <= pc < c.end() {
        let line = c.lines()[(pc - c.start()) / 4];
        op_done(advanced(before), after, line.instruction.op, line.word.0, r)
    } else {
        r == Err::<(), EmuError>(EmuError::OutOfBounds(pc)) && after == before
    }
}

/// After the instruction of a bare-metal cycle: PLIC check, then two interrupt checks.
pub open spec fn interrupts_polled<M: Memory>(m1: Cpu<M>, after: Cpu<M>, r: Result<(), EmuError>) -> bool {
    exists|m2: Cpu<M>|
        #![trigger plic_checked(m1, m2)]
        plic_checked(m1, m2) && m2.wf() && interrupts_twice(m2, after, r)
}

/// Two interrupt checks in a row; the second is skipped when the first fails.
pub open spec fn interrupts_twice<M: Memory>(m2: Cpu<M>, after: Cpu<M>, r: Result<(), EmuError>) -> bool {
    exists|m3: Cpu<M>, r3: Result<(), EmuError>|
        #![trigger interrupts_checked(m2, m3, r3)]
        interrupts_checked(m2, m3, r3) && match r3 {
            Err(_) => r == r3 && after == m3,
            Ok(_) => m3.wf() && interrupts_checked(m3, after, r),
        }
}

/// The instruction of a bare-metal cycle, then the interrupt checks when it succeeded.
pub open spec fn bare_step<M: Memory>(adv: Cpu<M>, after: Cpu<M>, op: Op, w: u32, r: Result<(), EmuError>) -> bool {
    exists|m1: Cpu<M>, r1: Result<(), EmuError>|
        #![trigger op_done(adv, m1, op, w, r1)]
        op_done(adv, m1, op, w, r1) && match r1 {
            Err(_) => r == r1 && after == m1,
            Ok(_) => m1.wf() && interrupts_polled(m1, after, r),
        }
}

/// The outcome of one cycle of a bare-metal hart: fetch through the address mapping from
/// main memory, decode, execute, then poll the PLIC and take pending interrupts.
pub open spec fn bare_cycle<M: Memory>(before: Cpu<M>, after: Cpu<M>, r: Result<(), EmuError>) -> bool {
    if before.is_halted() {
        r == Err::<(), EmuError>(EmuError::Halted) && after == before
    } else {
        match spec_translate(before, before.pc()) {
            Err(e) => r == Err::<(), EmuError>(e) && after == before,
            Ok(pa) => match before.memory.load(pa, 4) {
                None => r is Err && after == before,
                Some(v) => if no_match(spec_all_instructions(before.arch_mode), v as u32) {
                    r == Err::<(), EmuError>(EmuError::InstructionNotFound(v as u32)) && after == before
                } else {
                    exists|ins: Instruction|
                        #![trigger decodes_to(before.arch_mode, v as u32, ins)]
                        decodes_to(before.arch_mode, v as u32, ins) && bare_step(advanced(before), after, ins.op, v as u32, r)
                },
            },
        }
    }
}

/// The outcome of one cycle in the hart's execution mode.
pub open spec fn cycle<M: Memory>(before: Cpu<M>, after: Cpu<M>, r: Result<(), EmuError>) -> bool {
    match before.execution_mode {
        ExecutionMode::Bare => bare_cycle(before, after, r),
        ExecutionMode::UserSpace => userspace_cycle(before, after, r),
    }
}

/// `t` is a run of successful cycles: each state follows from the one before it.
pub open spec fn successful_run<M: Memory>(t: Seq<Cpu<M>>) -> bool {
    forall|i: int| 0 <= i < t.len() - 1 ==> #[trigger] cycle(t[i], t[i + 1], Ok(()))
}

/// A successful run followed by one more successful cycle is a successful run.
proof fn lemma_run_extends<M: Memory>(t: Seq<Cpu<M>>, x: Cpu<M>)
    requires
        t.len() >= 1,
        successful_run(t),
        cycle(t.last(), x, Ok(())),
    ensures
        successful_run(t.push(x)),
{
    let t2 = t.push(x);
    assert forall|k: int| 0 <= k < t2.len() - 1 implies #[trigger] cycle(t2[k], t2[k + 1], Ok(())) by {
        if k < t.len() - 1 {
            assert(t2[k] == t[k] && t2[k + 1] == t[k + 1]);
        } else {
            assert(t2[k] == t.last() && t2[k + 1] == x);
        }
    }
}

/// `after` is `before` after `n` successful cycles.
pub open spec fn ran<M: Memory>(before: Cpu<M>, after: Cpu<M>, n: nat) -> bool {
    exists|t: Seq<Cpu<M>>|
        #![trigger successful_run(t), t.len()]
        t.len() == n + 1 && t[0] == before && t[n as int] == after && successful_run(t)
}

/// Runs compose: `a` successful cycles followed by `b` more are `a + b` successful cycles.
pub proof fn lemma_ran_compose<M: Memory>(c0: Cpu<M>, c1: Cpu<M>, c2: Cpu<M>, a: nat, b: nat)
    requires
        ran(c0, c1, a),
        ran(c1, c2, b),
    ensures
        ran(c0, c2, a + b),
{
    let t1 = choose|t: Seq<Cpu<M>>|
        #![trigger successful_run(t), t.len()]
        t.len() == a + 1 && t[0] == c0 && t[a as int] == c1 && successful_run(t);
    let t2 = choose|t: Seq<Cpu<M>>|
        #![trigger successful_run(t), t.len()]
        t.len() == b + 1 && t[0] == c1 && t[b as int] == c2 && successful_run(t);
    let t = t1 + t2.subrange(1, (b + 1) as int);
    assert(t.len() == a + b + 1);
    assert(t[0] == c0);
    assert(t[(a + b) as int] == c2) by {
        if b > 0 {
            assert(t[(a + b) as int] == t2[b as int]);
        }
    }
    assert forall|i: int| 0 <= i < t.len() - 1 implies #[trigger] cycle(t[i], t[i + 1], Ok(())) by {
        if i < a {
            assert(t[i] == t1[i] && t[i + 1] == t1[i + 1]);
            assert(cycle(t1[i], t1[i + 1], Ok(())));
        } else {
            let j = i - a;
            if j == 0 {
                assert(t[i] == t1[a as int]);
            } else {
                assert(t[i] == t2[j]);
            }
            assert(t[i + 1] == t2[j + 1]);
            assert(cycle(t2[j], t2[j + 1], Ok(())));
        }
    }
    assert(successful_run(t));
}

/// The outcome of executing the instruction `op` encoded in word `w`.
pub open spec fn op_done<M: Memory>(before: Cpu<M>, after: Cpu<M>, op: Op, w: u32, r: Result<(), EmuError>) -> bool {
    if in_rv32i_set_i(op) {
        rv32i_i_done(before, after, op, w, r)
    } else if in_rv32i_set_r(op) {
        rv32i_r_done(before, after, op, w, r)
    } else if in_rv32m_set_r(op) {
        rv32m_done(before, after, op, w, r)
    } else if in_rv32i_set_uj(op) {
        rv32i_uj_result(before, after, op, w, r)
    } else if in_rv32i_set_ls(op) {
        rv32i_ls_done(before, after, op, w, r)
    } else if in_rv32i_set_e(op) {
        rv32i_e_done(before, after, op, w, r)
    } else if op == Op::FenceI {
        zifencei_done(before, after, op, w, r)
    } else if in_rv32_zicsr_set(op) {
        rv32_zicsr_done(before, after, op, w, r)
    } else if in_rv64i_set_r(op) {
        rv64i_r_done(before, after, op, w, r)
    } else if in_rv64i_set_e(op) {
        rv64i_e_done(before, after, op, w, r)
    } else if in_rv64a_set_amo(op) {
        rv64a_done(before, after, op, w, r)
    } else if in_rv64m_set_r(op) {
        rv64m_done(before, after, op, w, r)
    } else if in_rv64_zicsr_set(op) {
        rv64_zicsr_done(before, after, op, w, r)
    } else if in_rv64f_set_ls(op) {
        rv64f_ls_done(before, after, op, w, r)
    } else if in_rv64f_set_mov(op) {
        rv64f_mov_done(before, after, op, w, r)
    } else if op == Op::FloatUnit {
        float_unit_done(before, after, w, r)
    } else {
        rv64_privileged_done(before, after, op, w, r)
    }
}

impl<M: Memory> Cpu<M> {
    /// Executes a decoded instruction.
    pub fn execute_program_line(&mut self, program_line: &ProgramLine) -> (r: Result<(), EmuError>)
        requires
            old(self).wf(),
        ensures
            final(self).wf(),
            op_done(*old(self), *final(self), program_line.instruction.op, program_line.word.0, r),
    {
        let op = program_line.instruction.op;
        let word = &program_line.word;
        if in_set_i(op) {
            execute_rv32i_set_i(self, op, word)
        } else if in_set_r32(op) {
            execute_rv32i_set_r(self, op, word)
        } else if in_set_m32(op) {
            execute_rv32m_set_r(self, op, word)
        } else if in_set_uj(op) {
            execute_rv32i_set_uj(self, op, word)
        } else if in_set_ls(op) {
            execute_rv32i_set_ls(self, op, word)
        } else if op == Op::Ecall32 || op == Op::Ebreak {
            execute_rv32i_set_e(self, op, word)
        } else if op == Op::FenceI {
            execute_zifencei_set(self, op, word)
        } else if in_set_c32(op) {
            execute_rv32_zicsr_set(self, op, word)
        } else if in_set_r64(op) {
            execute_rv64i_set_r(self, op, word)
        } else if op == Op::Ecall64 || op == Op::Fence {
            execute_rv64i_set_e(self, op, word)
        } else if in_set_amo(op) {
            execute_rv64a_set_amo(self, op, word)
        } else if in_set_m64(op) {
            execute_rv64m_set_r(self, op, word)
        } else if in_set_c64(op) {
            execute_rv64_zicsr_set(self, op, word)
        } else if in_set_fls(op) {
            execute_rv64f_set_ls(self, op, word)
        } else if in_set_fmov(op) {
            execute_rv64f_set_mov(self, op, word)
        } else if op == Op::FloatUnit {
            execute_float_unit(self, word)
        } else {
            execute_rv64_privileged_set(self, op, word)
        }
    }

    /// Runs one cycle of a bare-metal hart.
    fn run_cycle_bare(&mut self) -> (r: Result<(), EmuError>)
        requires
            old(self).wf(),
            old(self).execution_mode == ExecutionMode::Bare,
        ensures
            final(self).wf(),
            bare_cycle(*old(self), *final(self), r),
    {
        if self.halted {
            return Err(EmuError::Halted);
        }
        let pa = self.translate_address_if_needed(self.reg_pc_64)?;
        let w = self.memory.read_mem_u32(pa)?;
        let line = decode_program_line(Word(w), self.arch_mode)?;
        assert(decodes_to(old(self).arch_mode, w, line.instruction));
        self.current_instruction_pc_64 = self.reg_pc_64;
        self.reg_pc_64 = self.reg_pc_64.wrapping_add(4);
        assert(*self == advanced(*old(self)));
        let ghost adv = *self;
        let r1 = self.execute_program_line(&line);
        let ghost m1 = *self;
        assert(op_done(adv, m1, line.instruction.op, w, r1));
        if r1.is_err() {
            return r1;
        }
        plic_check_pending(self);
        let ghost m2 = *self;
        assert(plic_checked(m1, m2));
        let r3 = check_pending_interrupts(self);
        let ghost m3 = *self;
        assert(interrupts_checked(m2, m3, r3));
        if r3.is_err() {
            return r3;
        }
        let r4 = check_pending_interrupts(self);
        assert(interrupts_twice(m2, *self, r4));
        assert(interrupts_polled(m1, *self, r4));
        assert(bare_step(adv, *self, line.instruction.op, w, r4));
        r4
    }

    /// Runs one cycle of a user-space hart.
    fn run_cycle_userspace(&mut self) -> (r: Result<(), EmuError>)
        requires
            old(self).wf(),
        ensures
            final(self).wf(),
            userspace_cycle(*old(self), *final(self), r),
    {
        if self.halted {
            return Err(EmuError::Halted);
        }
        let line = match self.program_cache.try_get_line(self.reg_pc_64) {
            Some(l) => l,
            None => {
                return Err(EmuError::OutOfBounds(self.reg_pc_64));
            },
        };
        self.current_instruction_pc_64 = self.reg_pc_64;
        self.reg_pc_64 = self.reg_pc_64.wrapping_add(4);
        assert(*self == advanced(*old(self)));
        self.execute_program_line(&line)
    }

    /// Runs one cycle in the hart's execution mode.
    pub fn run_cycle(&mut self) -> (r: Result<(), EmuError>)
        requires
            old(self).wf(),
        ensures
            final(self).wf(),
            cycle(*old(self), *final(self), r),
    {
        match self.execution_mode {
            ExecutionMode::Bare => self.run_cycle_bare(),
            ExecutionMode::UserSpace => self.run_cycle_userspace(),
        }
    }

    /// Runs up to `count` cycles and stops at the first that fails.
    #[verifier::spinoff_prover]
    pub fn run_cycles(&mut self, count: u64) -> (r: Result<(), EmuError>)
        requires
            old(self).wf(),
        ensures
            final(self).wf(),
            r is Ok ==> ran(*old(self), *final(self), count as nat),
            r is Err ==> exists|k: nat, mid: Cpu<M>|
                #![trigger ran(*old(self), mid, k)]
                k < count && ran(*old(self), mid, k) && cycle(mid, *final(self), r),
    {
        let mut i: u64 = 0;
        let ghost mut t: Seq<Cpu<M>> = seq![*self];
        while i < count
            invariant
                self.wf(),
                i <= count,
                t.len() == i + 1,
                t[0] == *old(self),
                t[i as int] == *self,
                successful_run(t),
            decreases count - i,
        {
            let ghost prev = *self;
            let res = self.run_cycle();
            if let Err(e) = res {
                assert(ran(*old(self), prev, i as nat));
                assert(cycle(prev, *self, res));
                return res;
            }
            proof {
                let t2 = t.push(*self);
                assert(t.last() == prev);
                assert(cycle(prev, *self, res));
                let u: () = res->Ok_0;
                assert(u == ());
                assert(res == Ok::<(), EmuError>(()));
                lemma_run_extends(t, *self);
                t = t2;
            }
            i = i + 1;
        }
        assert(ran(*old(self), *self, count as nat));
        Ok(())
    }

    /// Stores `opcodes` as consecutive words from `entry_point` on, points the program counter
    /// at the first, decodes them into the program cache with the table of `mode`, and puts
    /// the program break after them. An address range past the end of the address space, a
    /// refused store or an undecodable word is reported.
    pub fn load_program_from_opcodes(&mut self, opcodes: Vec<u32>, entry_point: u64, mode: CpuMode) -> (r: Result<(), EmuError>)
        requires
            old(self).wf(),
        ensures
            final(self).wf(),
            entry_point + 4 * opcodes@.len() + 8 > u64::MAX ==> r == Err::<(), EmuError>(
                EmuError::OutOfBounds(entry_point),
            ) && *final(self) == *old(self),
            r is Err ==> {
                ||| entry_point + 4 * opcodes@.len() + 8 > u64::MAX
                ||| words_refused(old(self).memory, entry_point, opcodes@)
                ||| exists|ms: Seq<M>|
                    #![trigger words_stored(ms, entry_point, opcodes@)]
                    words_stored(ms, entry_point, opcodes@) && ms[0] == old(self).memory && ms.last() == final(self).memory
                        && cache_refused(
                        final(self).memory,
                        entry_point,
                        (entry_point + 4 * opcodes@.len()) as u64,
                        mode,
                    )
            },
            r is Ok ==> {
                let n = opcodes@.len();
                let end = (entry_point + 4 * n) as u64;
                &&& entry_point + 4 * n + 4 <= u64::MAX
                &&& exists|ms: Seq<M>|
                    #![trigger words_stored(ms, entry_point, opcodes@)]
                    words_stored(ms, entry_point, opcodes@) && ms[0] == old(self).memory && ms.last() == final(self).memory
                &&& final(self).pc() == entry_point
                &&& final(self).program_brk == end
                &&& final(self).cache().start() == entry_point
                &&& final(self).cache().end() == end
                &&& cache_decodes(final(self).cache(), final(self).memory, mode)
                &&& final(self).x32() == old(self).x32()
                &&& final(self).x64() == old(self).x64()
                &&& final(self).csr_table == old(self).csr_table
                &&& final(self).privilege_mode == old(self).privilege_mode
            },
    {
        let n = opcodes.len();
        if n as u64 > (u64::MAX - 8) / 4 || entry_point > u64::MAX - 8 - 4 * (n as u64) {
            return Err(EmuError::OutOfBounds(entry_point));
        }
        let program_size = 4 * (n as u64);
        let mut i: usize = 0;
        let ghost mut ms: Seq<M> = seq![self.memory];
        while i < n
            invariant
                self.wf(),
                n == opcodes@.len(),
                i <= n,
                entry_point + 4 * n + 8 <= u64::MAX,
                words_stored(ms, entry_point, opcodes@.take(i as int)),
                ms[0] == old(self).memory,
                ms.last() == self.memory,
                self.x32() == old(self).x32(),
                self.x64() == old(self).x64(),
                self.csr_table == old(self).csr_table,
                self.privilege_mode == old(self).privilege_mode,
                self.program_cache == old(self).program_cache,
            decreases n - i,
        {
            let addr = entry_point + 4 * (i as u64);
            let ghost before = self.memory;
            match self.memory.write_mem_u32(addr, opcodes[i]) {
                Ok(()) => {},
                Err(e) => {
                    proof {
                        assert(!ms.last().store_ok((entry_point + 4 * (i as int)) as u64, 4));
                        assert(words_stored(ms, entry_point, opcodes@.take(i as int)));
                    }
                    return Err(e);
                },
            }
            proof {
                let ms2 = ms.push(self.memory);
                let ws2 = opcodes@.take(i + 1);
                assert forall|k: int| 0 <= k < ws2.len() implies #[trigger] ms2[k].stored(
                    (entry_point + 4 * k) as u64,
                    4,
                    ws2[k] as u64,
                    ms2[k + 1],
                ) by {
                    if k < i {
                        assert(ms2[k] == ms[k] && ms2[k + 1] == ms[k + 1]);
                        assert(ws2[k] == opcodes@.take(i as int)[k]);
                    } else {
                        assert(ms2[k] == before && ms2[k + 1] == self.memory);
                    }
                }
                ms = ms2;
            }
            i = i + 1;
        }
        proof {
            assert(opcodes@.take(n as int) =~= opcodes@);
        }
        self.reg_pc_64 = entry_point;
        let cache = match ProgramCache::new(entry_point, entry_point + program_size, &mut self.memory, mode) {
            Ok(c) => c,
            Err(e) => {
                return Err(e);
            },
        };
        self.program_cache = cache;
        self.program_brk = entry_point + program_size;
        Ok(())
    }

    /// Loads a decoded ELF program: segments and sections go to memory, the program counter to
    /// the entry point, the stack pointer to its initial value for the hart's width and the
    /// program break to the end of the data; a user-space hart also decodes the text section
    /// into its program cache.
    pub fn load_program_from_elf(&mut self, elf: ElfFile) -> (r: Result<(), EmuError>)
        requires
            old(self).wf(),
        ensures
            final(self).wf(),
            r is Ok ==> {
                &&& final(self).pc() == elf.header.entry_point
                &&& final(self).program_brk == data_end(elf.section_headers@)
                &&& final(self).arch_mode == CpuMode::RV64 ==> final(self).x64()[2] == INITIAL_STACK_POINTER_64
                &&& final(self).arch_mode == CpuMode::RV32 ==> final(self).x32()[2] == INITIAL_STACK_POINTER_32
                &&& exists|ms: Seq<M>|
                    #![trigger stores_applied(ms, segment_stores(elf.program_headers@) + section_stores(elf.section_headers@))]
                    stores_applied(ms, segment_stores(elf.program_headers@) + section_stores(elf.section_headers@))
                        && ms[0] == old(self).memory && ms.last() == final(self).memory
                &&& text_section(elf.section_headers@).0 + text_section(elf.section_headers@).1 + 4 <= u64::MAX
                &&& old(self).execution_mode == ExecutionMode::UserSpace ==> final(self).cache().start() == text_section(
                    elf.section_headers@,
                ).0 && final(self).cache().end() == text_section(elf.section_headers@).0 + text_section(
                    elf.section_headers@,
                ).1
                &&& old(self).execution_mode == ExecutionMode::UserSpace ==> cache_decodes(
                    final(self).cache(),
                    final(self).memory,
                    old(self).arch_mode,
                )
            },
        r is Err ==> {
            let (a, s) = text_section(elf.section_headers@);
            ||| load_refused(old(self).memory, elf.program_headers@, elf.section_headers@)
            ||| a + s + 4 > u64::MAX
            ||| old(self).execution_mode == ExecutionMode::UserSpace && cache_refused(
                final(self).memory,
                a,
                (a + s) as u64,
                old(self).arch_mode,
            )
        },
    {
        let ghost entry = elf.header.entry_point;
        let ghost phs = elf.program_headers@;
        let ghost ss = elf.section_headers@;
        let mode = self.arch_mode;
        let program_file = load_program_to_memory(elf, &mut self.memory, mode)?;
        self.reg_pc_64 = program_file.entry_point;
        let start = program_file.program_memory_offset;
        if start > u64::MAX - 4 || program_file.program_size > u64::MAX - 4 - start {
            return Err(EmuError::OutOfBounds(start));
        }
        let cache = ProgramCache::new(start, start + program_file.program_size, &mut self.memory, mode);
        if self.execution_mode == ExecutionMode::UserSpace {
            match cache {
                Ok(c) => {
                    self.program_cache = c;
                },
                Err(e) => {
                    return Err(e);
                },
            }
        }
        if self.arch_mode == CpuMode::RV64 {
            self.write_x_u64(2, INITIAL_STACK_POINTER_64);
        } else {
            self.write_x_u32(2, INITIAL_STACK_POINTER_32);
        }
        self.program_brk = program_file.end_of_data_addr;
        Ok(())
    }

    /// Stores a kernel image at `addr`, points the program counter at it and decodes it into
    /// the program cache with the hart's table.
    pub fn load_kernel_image(&mut self, image: &[u8], addr: u64) -> (r: Result<(), EmuError>)
        requires
            old(self).wf(),
        ensures
            final(self).wf(),
            addr + image@.len() + 4 > u64::MAX ==> r == Err::<(), EmuError>(EmuError::OutOfBounds(addr))
                && *final(self) == *old(self),
            addr + image@.len() + 4 <= u64::MAX && !old(self).memory.store_bytes_ok(addr, image@.len()) ==> r is Err,
            r is Err ==> {
                ||| addr + image@.len() + 4 > u64::MAX
                ||| !old(self).memory.store_bytes_ok(addr, image@.len())
                ||| old(self).memory.stored_bytes(addr, image@, final(self).memory) && cache_refused(
                    final(self).memory,
                    addr,
                    (addr + image@.len()) as u64,
                    old(self).arch_mode,
                )
            },
            r is Ok ==> {
                &&& addr + image@.len() + 4 <= u64::MAX
                &&& old(self).memory.stored_bytes(addr, image@, final(self).memory)
                &&& final(self).pc() == addr
                &&& final(self).cache().start() == addr
                &&& final(self).cache().end() == addr + image@.len()
                &&& cache_decodes(final(self).cache(), final(self).memory, old(self).arch_mode)
            },
    {
        let len = image.len() as u64;
        if len > u64::MAX - 4 || addr > u64::MAX - 4 - len {
            return Err(EmuError::OutOfBounds(addr));
        }
        self.reg_pc_64 = addr;
        self.memory.write_buf(addr, image)?;
        let cache = match ProgramCache::new(addr, addr + len, &mut self.memory, self.arch_mode) {
            Ok(c) => c,
            Err(e) => {
                return Err(e);
            },
        };
        self.program_cache = cache;
        Ok(())
    }

    /// Decodes `word` with the table of the hart's width and executes it.
    pub fn execute_word(&mut self, word: Word) -> (r: Result<(), EmuError>)
        requires
            old(self).wf(),
        ensures
            final(self).wf(),
            no_match(spec_all_instructions(old(self).arch_mode), word.0) ==> r == Err::<(), EmuError>(
                EmuError::InstructionNotFound(word.0),
            ) && *final(self) == *old(self),
            !no_match(spec_all_instructions(old(self).arch_mode), word.0) ==> exists|ins: Instruction|
                #![trigger decodes_to(old(self).arch_mode, word.0, ins)]
                decodes_to(old(self).arch_mode, word.0, ins) && op_done(*old(self), *final(self), ins.op, word.0, r),
    {
        let line = decode_program_line(word, self.arch_mode)?;
        let r = self.execute_program_line(&line);
        assert(decodes_to(old(self).arch_mode, word.0, line.instruction));
        r
    }
}

/// Membership tests of the operation groups, as executable checks.
fn in_set_fls(op: Op) -> (r: bool)
    ensures
        r == in_rv64f_set_ls(op),
{
    op == Op::Flw || op == Op::Fld || op == Op::Fsw || op == Op::Fsd
}

fn in_set_fmov(op: Op) -> (r: bool)
    ensures
        r == in_rv64f_set_mov(op),
{
    match op {
        Op::FmvXD | Op::FmvXW | Op::FmvDX | Op::FmvWX | Op::FsgnjS | Op::FsgnjnS | Op::FsgnjxS
        | Op::FsgnjD | Op::FsgnjnD | Op::FsgnjxD => true,
        _ => false,
    }
}

fn in_set_i(op: Op) -> (r: bool)
    ensures
        r == in_rv32i_set_i(op),
{
    match op {
        Op::Addi | Op::Slti | Op::Sltiu | Op::Andi | Op::Ori | Op::Xori | Op::Slli | Op::Srli
        | Op::Srai | Op::Lui | Op::Auipc => true,
        _ => false,
    }
}

fn in_set_r32(op: Op) -> (r: bool)
    ensures
        r == in_rv32i_set_r(op),
{
    match op {
        Op::R32Add | Op::R32Sub | Op::R32Sll | Op::R32Slt | Op::R32Sltu | Op::R32Xor | Op::R32Srl
        | Op::R32Sra | Op::R32Or | Op::R32And => true,
        _ => false,
    }
}

fn in_set_m32(op: Op) -> (r: bool)
    ensures
        r == in_rv32m_set_r(op),
{
    match op {
        Op::M32Mul | Op::M32Mulh | Op::M32Mulhsu | Op::M32Mulhu | Op::M32Div | Op::M32Divu
        | Op::M32Rem | Op::M32Remu => true,
        _ => false,
    }
}

fn in_set_uj(op: Op) -> (r: bool)
    ensures
        r == in_rv32i_set_uj(op),
{
    match op {
        Op::Jal | Op::Jalr | Op::Beq | Op::Bne | Op::Blt | Op::Bge | Op::Bltu | Op::Bgeu => true,
        _ => false,
    }
}

fn in_set_ls(op: Op) -> (r: bool)
    ensures
        r == in_rv32i_set_ls(op),
{
    match op {
        Op::Lb | Op::Lh | Op::Lw | Op::Lbu | Op::Lhu | Op::Sw | Op::Sh | Op::Sb => true,
        _ => false,
    }
}

fn in_set_c32(op: Op) -> (r: bool)
    ensures
        r == in_rv32_zicsr_set(op),
{
    match op {
        Op::C32Csrrw | Op::C32Csrrs | Op::C32Csrrc | Op::C32Csrrwi | Op::C32Csrrsi | Op::C32Csrrci => true,
        _ => false,
    }
}

fn in_set_r64(op: Op) -> (r: bool)
    ensures
        r == in_rv64i_set_r(op),
{
    match op {
        Op::R64Add | Op::R64Sub | Op::R64Sll | Op::R64Slt | Op::R64Sltu | Op::R64Xor | Op::R64Srl
        | Op::R64Sra | Op::R64Or | Op::R64And => true,
        _ => false,
    }
}

fn in_set_amo(op: Op) -> (r: bool)
    ensures
        r == in_rv64a_set_amo(op),
{
    match op {
        Op::AmoswapD | Op::AmoswapW | Op::AmoaddD | Op::AmoaddW | Op::AmoxorD | Op::AmoxorW
        | Op::AmoandD | Op::AmoandW | Op::AmoorD | Op::AmoorW => true,
        _ => false,
    }
}

fn in_set_m64(op: Op) -> (r: bool)
    ensures
        r == in_rv64m_set_r(op),
{
    match op {
        Op::M64Mul | Op::MulW | Op::M64Mulh | Op::M64Mulhsu | Op::M64Mulhu | Op::M64Div | Op::DivW
        | Op::M64Divu | Op::DivuW | Op::M64Rem | Op::RemW | Op::M64Remu | Op::RemuW => true,
        _ => false,
    }
}

fn in_set_c64(op: Op) -> (r: bool)
    ensures
        r == in_rv64_zicsr_set(op),
{
    match op {
        Op::C64Csrrw | Op::C64Csrrs | Op::C64Csrrc | Op::C64Csrrwi | Op::C64Csrrsi | Op::C64Csrrci => true,
        _ => false,
    }
}

} // verus!
