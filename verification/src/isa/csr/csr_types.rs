use vstd::prelude::*;

use crate::cpu::cpu_core::{CpuMode, PrivilegeMode};
use crate::types::{BitValue, U12};

verus! {

/// Supervisor interrupt enable.
pub const SSTATUS_SIE: u64 = 0x2;
/// Previous supervisor interrupt enable.
pub const SSTATUS_SPIE: u64 = 0x20;
/// Previous privilege level of a supervisor trap.
pub const SSTATUS_SPP: u64 = 0x100;
/// Floating-point unit status.
pub const SSTATUS_FS: u64 = 0x6000;
/// Extension status.
pub const SSTATUS_XS: u64 = 0x18000;
/// Supervisor access to user memory.
pub const SSTATUS_SUM: u64 = 0x40000;
/// Make executable pages readable.
pub const SSTATUS_MXR: u64 = 0x80000;
/// State dirty.
pub const SSTATUS_SD: u64 = 0x8000_0000_0000_0000;

/// The bits of `mstatus` that `sstatus` shows.
pub const SSTATUS_MASK: u64 = 0x8000_0000_000d_e122;

/// The number of control and status registers that the table holds.
pub const CSR_COUNT: usize = 4096;

/// Names of the control and status registers that the emulator knows.
#[derive(Clone, Copy, PartialEq, Eq, Structural, Debug)]
pub enum CSRAddress {
    Ustatus,
    Uie,
    Utvec,
    Uscratch,
    Uepc,
    Ucause,
    Utval,
    Uip,
    Fflags,
    Frm,
    Fcsr,
    Cycle,
    CycleH,
    Time,
    TimeH,
    Instret,
    InstretH,
    Sstatus,
    Sedeleg,
    Sideleg,
    Sie,
    Stvec,
    Scounteren,
    Sscratch,
    Sepc,
    Scause,
    Stval,
    Sip,
    Stimecmp,
    Satp,
    Mvendorid,
    Marchid,
    Mimpid,
    Mhartid,
    Mstatus,
    Misa,
    Medeleg,
    Mideleg,
    Mie,
    Mtvec,
    Mcounteren,
    Mscratch,
    Mepc,
    Mcause,
    Mtval,
    Mip,
    Pmpcfg0,
    Pmpcfg1,
    Pmpcfg2,
    Pmpcfg3,
    Pmpaddr0,
    Pmpaddr1,
    Mcycle,
    Minstret,
    Mhpmcounter3,
    Mhpmcounter4,
    Mcountinhibit,
    Mhpmevent3,
    Mhpmevent4,
}

/// The 12-bit number of a control and status register.
pub open spec fn csr_number(a: CSRAddress) -> u16 {
    match a {
        CSRAddress::Ustatus => 0x000,
        CSRAddress::Uie => 0x004,
        CSRAddress::Utvec => 0x005,
        CSRAddress::Uscratch => 0x040,
        CSRAddress::Uepc => 0x041,
        CSRAddress::Ucause => 0x042,
        CSRAddress::Utval => 0x043,
        CSRAddress::Uip => 0x044,
        CSRAddress::Fflags => 0x001,
        CSRAddress::Frm => 0x002,
        CSRAddress::Fcsr => 0x003,
        CSRAddress::Cycle => 0xc00,
        CSRAddress::CycleH => 0xc80,
        CSRAddress::Time => 0xc01,
        CSRAddress::TimeH => 0xc81,
        CSRAddress::Instret => 0xc02,
        CSRAddress::InstretH => 0xc82,
        CSRAddress::Sstatus => 0x100,
        CSRAddress::Sedeleg => 0x102,
        CSRAddress::Sideleg => 0x103,
        CSRAddress::Sie => 0x104,
        CSRAddress::Stvec => 0x105,
        CSRAddress::Scounteren => 0x106,
        CSRAddress::Sscratch => 0x140,
        CSRAddress::Sepc => 0x141,
        CSRAddress::Scause => 0x142,
        CSRAddress::Stval => 0x143,
        CSRAddress::Sip => 0x144,
        CSRAddress::Stimecmp => 0x14d,
        CSRAddress::Satp => 0x180,
        CSRAddress::Mvendorid => 0xf11,
        CSRAddress::Marchid => 0xf12,
        CSRAddress::Mimpid => 0xf13,
        CSRAddress::Mhartid => 0xf14,
        CSRAddress::Mstatus => 0x300,
        CSRAddress::Misa => 0x301,
        CSRAddress::Medeleg => 0x302,
        CSRAddress::Mideleg => 0x303,
        CSRAddress::Mie => 0x304,
        CSRAddress::Mtvec => 0x305,
        CSRAddress::Mcounteren => 0x306,
        CSRAddress::Mscratch => 0x340,
        CSRAddress::Mepc => 0x341,
        CSRAddress::Mcause => 0x342,
        CSRAddress::Mtval => 0x343,
        CSRAddress::Mip => 0x344,
        CSRAddress::Pmpcfg0 => 0x3a0,
        CSRAddress::Pmpcfg1 => 0x3a1,
        CSRAddress::Pmpcfg2 => 0x3a2,
        CSRAddress::Pmpcfg3 => 0x3a3,
        CSRAddress::Pmpaddr0 => 0x3b0,
        CSRAddress::Pmpaddr1 => 0x3b1,
        CSRAddress::Mcycle => 0xb00,
        CSRAddress::Minstret => 0xb02,
        CSRAddress::Mhpmcounter3 => 0xb03,
        CSRAddress::Mhpmcounter4 => 0xb04,
        CSRAddress::Mcountinhibit => 0x320,
        CSRAddress::Mhpmevent3 => 0x323,
        CSRAddress::Mhpmevent4 => 0x324,
    }
}

pub open spec fn SIE() -> u16 { 0x104 }
pub open spec fn SIP() -> u16 { 0x144 }
pub open spec fn SSTATUS() -> u16 { 0x100 }
pub open spec fn MIE() -> u16 { 0x304 }
pub open spec fn MIP() -> u16 { 0x344 }
pub open spec fn MIDELEG() -> u16 { 0x303 }
pub open spec fn MSTATUS() -> u16 { 0x300 }

impl CSRAddress {
    /// The register number as a 12-bit field.
    pub fn as_u12(self) -> (r: U12)
        ensures
            r.0 == csr_number(self),
            r.0 < 4096,
    {
        let n: u16 = match self {
        CSRAddress::Ustatus => 0x000,
        CSRAddress::Uie => 0x004,
        CSRAddress::Utvec => 0x005,
        CSRAddress::Uscratch => 0x040,
        CSRAddress::Uepc => 0x041,
        CSRAddress::Ucause => 0x042,
        CSRAddress::Utval => 0x043,
        CSRAddress::Uip => 0x044,
        CSRAddress::Fflags => 0x001,
        CSRAddress::Frm => 0x002,
        CSRAddress::Fcsr => 0x003,
        CSRAddress::Cycle => 0xc00,
        CSRAddress::CycleH => 0xc80,
        CSRAddress::Time => 0xc01,
        CSRAddress::TimeH => 0xc81,
        CSRAddress::Instret => 0xc02,
        CSRAddress::InstretH => 0xc82,
        CSRAddress::Sstatus => 0x100,
        CSRAddress::Sedeleg => 0x102,
        CSRAddress::Sideleg => 0x103,
        CSRAddress::Sie => 0x104,
        CSRAddress::Stvec => 0x105,
        CSRAddress::Scounteren => 0x106,
        CSRAddress::Sscratch => 0x140,
        CSRAddress::Sepc => 0x141,
        CSRAddress::Scause => 0x142,
        CSRAddress::Stval => 0x143,
        CSRAddress::Sip => 0x144,
        CSRAddress::Stimecmp => 0x14d,
        CSRAddress::Satp => 0x180,
        CSRAddress::Mvendorid => 0xf11,
        CSRAddress::Marchid => 0xf12,
        CSRAddress::Mimpid => 0xf13,
        CSRAddress::Mhartid => 0xf14,
        CSRAddress::Mstatus => 0x300,
        CSRAddress::Misa => 0x301,
        CSRAddress::Medeleg => 0x302,
        CSRAddress::Mideleg => 0x303,
        CSRAddress::Mie => 0x304,
        CSRAddress::Mtvec => 0x305,
        CSRAddress::Mcounteren => 0x306,
        CSRAddress::Mscratch => 0x340,
        CSRAddress::Mepc => 0x341,
        CSRAddress::Mcause => 0x342,
        CSRAddress::Mtval => 0x343,
        CSRAddress::Mip => 0x344,
        CSRAddress::Pmpcfg0 => 0x3a0,
        CSRAddress::Pmpcfg1 => 0x3a1,
        CSRAddress::Pmpcfg2 => 0x3a2,
        CSRAddress::Pmpcfg3 => 0x3a3,
        CSRAddress::Pmpaddr0 => 0x3b0,
        CSRAddress::Pmpaddr1 => 0x3b1,
        CSRAddress::Mcycle => 0xb00,
        CSRAddress::Minstret => 0xb02,
        CSRAddress::Mhpmcounter3 => 0xb03,
        CSRAddress::Mhpmcounter4 => 0xb04,
        CSRAddress::Mcountinhibit => 0x320,
        CSRAddress::Mhpmevent3 => 0x323,
        CSRAddress::Mhpmevent4 => 0x324,
        };
        assert(n < 0x1000);
        assert(n & 0xf000u16 == 0) by (bit_vector)
            requires
                n < 0x1000u16,
        ;
        U12::new(n)
    }
}

/// What a 64-bit read of register `a` returns: `sie`, `sip` and `sstatus` are views of
/// `mie`, `mip` and `mstatus`.
pub open spec fn spec_read64(t: Seq<u64>, a: u16) -> u64 {
    if a == SIE() {
        t[MIE() as int] & t[MIDELEG() as int]
    } else if a == SIP() {
        t[MIP() as int] & t[MIDELEG() as int]
    } else if a == SSTATUS() {
        t[MSTATUS() as int] & SSTATUS_MASK
    } else {
        t[a as int]
    }
}

/// The 64-bit register file after a 64-bit write of `v` to register `a`.
pub open spec fn spec_write64(t: Seq<u64>, a: u16, v: u64) -> Seq<u64> {
    if a == SIE() {
        t.update(
            MIE() as int,
            (t[MIE() as int] & !t[MIDELEG() as int]) | (v & t[MIDELEG() as int]),
        )
    } else if a == SIP() {
        t.update(
            MIP() as int,
            (t[MIP() as int] & !t[MIDELEG() as int]) | (v & t[MIDELEG() as int]),
        )
    } else if a == SSTATUS() {
        t.update(MSTATUS() as int, (t[MSTATUS() as int] & !SSTATUS_MASK) | (v & SSTATUS_MASK))
    } else {
        t.update(a as int, v)
    }
}

/// The `misa` value of a hart: extensions I and M, and the register width.
pub open spec fn spec_misa(mode: CpuMode) -> u64 {
    match mode {
        CpuMode::RV32 => 0x4000_1100,
        CpuMode::RV64 => 0x8000_0000_0000_1100,
    }
}

/// Bit `n` of `x`.
pub open spec fn bit_of(x: u64, n: u64) -> bool {
    (x >> n) & 1 == 1
}

/// `x` with bit `n` set to `b`.
pub open spec fn with_bit(x: u64, n: u64, b: bool) -> u64 {
    if b {
        x | (1u64 << n)
    } else {
        x & !(1u64 << n)
    }
}

/// `x` with the two-bit field at bit 11 (`MPP`) set to the low bits of `v`.
pub open spec fn with_mpp(x: u64, v: u64) -> u64 {
    (x & !(3u64 << 11u64)) | ((v & 3) << 11u64)
}

/// A view of the `mstatus` register with its named fields.
#[derive(Clone, Copy, PartialEq, Eq, Structural, Debug)]
pub struct MstatusCSR(pub u64);

impl MstatusCSR {
    /// Supervisor interrupt enable.
    pub fn sie(&self) -> (r: bool)
        ensures
            r == bit_of(self.0, 1),
    {
        (self.0 >> 1u64) & 1 == 1
    }

    /// Sets the supervisor interrupt enable.
    pub fn set_sie(&mut self, b: bool)
        ensures
            final(self).0 == with_bit(old(self).0, 1, b),
    {
        self.0 = if b { self.0 | (1u64 << 1u64) } else { self.0 & !(1u64 << 1u64) };
    }

    /// Machine interrupt enable.
    pub fn mie(&self) -> (r: bool)
        ensures
            r == bit_of(self.0, 3),
    {
        (self.0 >> 3u64) & 1 == 1
    }

    /// Sets the machine interrupt enable.
    pub fn set_mie(&mut self, b: bool)
        ensures
            final(self).0 == with_bit(old(self).0, 3, b),
    {
        self.0 = if b { self.0 | (1u64 << 3u64) } else { self.0 & !(1u64 << 3u64) };
    }

    /// Supervisor interrupt enable before the trap.
    pub fn spie(&self) -> (r: bool)
        ensures
            r == bit_of(self.0, 5),
    {
        (self.0 >> 5u64) & 1 == 1
    }

    /// Sets the supervisor interrupt enable before the trap.
    pub fn set_spie(&mut self, b: bool)
        ensures
            final(self).0 == with_bit(old(self).0, 5, b),
    {
        self.0 = if b { self.0 | (1u64 << 5u64) } else { self.0 & !(1u64 << 5u64) };
    }

    /// Machine interrupt enable before the trap.
    pub fn mpie(&self) -> (r: bool)
        ensures
            r == bit_of(self.0, 7),
    {
        (self.0 >> 7u64) & 1 == 1
    }

    /// Sets the machine interrupt enable before the trap.
    pub fn set_mpie(&mut self, b: bool)
        ensures
            final(self).0 == with_bit(old(self).0, 7, b),
    {
        self.0 = if b { self.0 | (1u64 << 7u64) } else { self.0 & !(1u64 << 7u64) };
    }

    /// Supervisor previous privilege (set: supervisor, clear: user).
    pub fn spp(&self) -> (r: bool)
        ensures
            r == bit_of(self.0, 8),
    {
        (self.0 >> 8u64) & 1 == 1
    }

    /// Sets the supervisor previous privilege.
    pub fn set_spp(&mut self, b: bool)
        ensures
            final(self).0 == with_bit(old(self).0, 8, b),
    {
        self.0 = if b { self.0 | (1u64 << 8u64) } else { self.0 & !(1u64 << 8u64) };
    }

    /// Machine previous privilege.
    pub fn mpp(&self) -> (r: u64)
        ensures
            r == (self.0 >> 11u64) & 3,
    {
        (self.0 >> 11u64) & 3
    }

    /// Sets the machine previous privilege to the low two bits of `v`.
    pub fn set_mpp(&mut self, v: u64)
        ensures
            final(self).0 == with_mpp(old(self).0, v),
    {
        self.0 = (self.0 & !(3u64 << 11u64)) | ((v & 3) << 11u64);
    }
}

/// The control and status registers of a hart: a 32-bit and a 64-bit file of 4096 each.
pub struct CSRTable {
    csrs32: Vec<u32>,
    csrs64: Vec<u64>,
}

impl CSRTable {
    /// Both register files have their full size.
    pub open spec fn wf(&self) -> bool {
        self.regs32().len() == CSR_COUNT && self.regs64().len() == CSR_COUNT
    }

    /// The 32-bit register file.
    pub closed spec fn regs32(&self) -> Seq<u32> {
        self.csrs32@
    }

    /// The 64-bit register file.
    pub closed spec fn regs64(&self) -> Seq<u64> {
        self.csrs64@
    }

    /// A zeroed table with `misa` (and the zero `mvendorid`, `mhartid`) set for `cpu_mode`.
    pub fn new(cpu_mode: CpuMode) -> (r: CSRTable)
        ensures
            r.wf(),
            r.regs32().len() == CSR_COUNT,
            r.regs64().len() == CSR_COUNT,
            cpu_mode == CpuMode::RV32 ==> r.regs32() == Seq::new(CSR_COUNT as nat, |i: int| 0u32).update(0x301, spec_misa(cpu_mode) as u32)
                && r.regs64() == Seq::new(CSR_COUNT as nat, |i: int| 0u64),
            cpu_mode == CpuMode::RV64 ==> r.regs64() == Seq::new(CSR_COUNT as nat, |i: int| 0u64).update(0x301, spec_misa(cpu_mode))
                && r.regs32() == Seq::new(CSR_COUNT as nat, |i: int| 0u32),
    {
        let mut csr_table = CSRTable { csrs32: vec![0u32; 4096], csrs64: vec![0u64; 4096] };
        let mut misa: u64 = 0;
        misa = misa | 0x100;
        misa = misa | 0x1000;
        match cpu_mode {
            CpuMode::RV32 => {
                misa = (misa & !0xc000_0000u64) | (1u64 << 30u64);
                assert(misa == 0x4000_1100u64) by (bit_vector)
                    requires misa == ((((0u64 | 0x100u64) | 0x1000u64) & !0xc000_0000u64) | (1u64 << 30u64));
                csr_table.write32(CSRAddress::Misa.as_u12(), misa as u32);
            },
            CpuMode::RV64 => {
                misa = (misa & !0xc000_0000_0000_0000u64) | (2u64 << 62u64);
                assert(misa == 0x8000_0000_0000_1100u64) by (bit_vector)
                    requires misa == ((((0u64 | 0x100u64) | 0x1000u64) & !0xc000_0000_0000_0000u64) | (2u64 << 62u64));
                csr_table.write64(CSRAddress::Misa.as_u12(), misa);
            },
        }
        csr_table.write32(CSRAddress::Mvendorid.as_u12(), 0);
        csr_table.write_xlen(CSRAddress::Mhartid.as_u12(), 0, cpu_mode);
        proof {
            if cpu_mode == CpuMode::RV32 {
                assert(csr_table.regs32() =~= Seq::new(CSR_COUNT as nat, |i: int| 0u32).update(0x301, spec_misa(cpu_mode) as u32));
                assert(csr_table.regs64() =~= Seq::new(CSR_COUNT as nat, |i: int| 0u64));
            } else {
                assert(csr_table.regs64() =~= Seq::new(CSR_COUNT as nat, |i: int| 0u64).update(0x301, spec_misa(cpu_mode)));
                assert(csr_table.regs32() =~= Seq::new(CSR_COUNT as nat, |i: int| 0u32));
            }
        }
        csr_table
    }

    /// Reads a register of the 32-bit file.
    pub fn read32(&self, addr: U12) -> (r: u32)
        requires
            self.wf(),
            addr.0 < 4096,
        ensures
            r == self.regs32()[addr.0 as int],
    {
        self.csrs32[addr.value() as usize]
    }

    /// Writes a register of the 32-bit file.
    pub fn write32(&mut self, addr: U12, value: u32)
        requires
            old(self).wf(),
            addr.0 < 4096,
        ensures
            final(self).wf(),
            final(self).regs32() == old(self).regs32().update(addr.0 as int, value),
            final(self).regs64() == old(self).regs64(),
    {
        self.csrs32.set(addr.value() as usize, value);
    }

    /// Reads a register of the 64-bit file; `sie`, `sip` and `sstatus` are masked views of
    /// `mie`, `mip` (by `mideleg`) and `mstatus`.
    pub fn read64(&self, addr: U12) -> (r: u64)
        requires
            self.wf(),
            addr.0 < 4096,
        ensures
            r == spec_read64(self.regs64(), addr.0),
        decreases
            (if addr.0 == SIE() || addr.0 == SIP() || addr.0 == SSTATUS() { 1int } else { 0int }),
    {
        if addr == CSRAddress::Sie.as_u12() {
            let mideleg = self.read64(CSRAddress::Mideleg.as_u12());
            let mie = self.read64(CSRAddress::Mie.as_u12());
            return mie & mideleg;
        }
        if addr == CSRAddress::Sip.as_u12() {
            let mideleg = self.read64(CSRAddress::Mideleg.as_u12());
            let mip = self.read64(CSRAddress::Mip.as_u12());
            return mip & mideleg;
        }
        if addr == CSRAddress::Sstatus.as_u12() {
            let mstatus = self.read64(CSRAddress::Mstatus.as_u12());
            return mstatus & SSTATUS_MASK;
        }
        self.csrs64[addr.value() as usize]
    }

    /// Writes a register of the 64-bit file; writes to `sie`, `sip` and `sstatus` change
    /// only the delegated (or shown) bits of `mie`, `mip` and `mstatus`.
    pub fn write64(&mut self, addr: U12, value: u64)
        requires
            old(self).wf(),
            addr.0 < 4096,
        ensures
            final(self).wf(),
            final(self).regs64() == spec_write64(old(self).regs64(), addr.0, value),
            final(self).regs32() == old(self).regs32(),
        decreases
            (if addr.0 == SIE() || addr.0 == SIP() || addr.0 == SSTATUS() { 1int } else { 0int }),
    {
        if addr == CSRAddress::Sie.as_u12() {
            let mideleg = self.read64(CSRAddress::Mideleg.as_u12());
            let mie = self.read64(CSRAddress::Mie.as_u12());
            self.write64(CSRAddress::Mie.as_u12(), (mie & !mideleg) | (value & mideleg));
            return;
        }
        if addr == CSRAddress::Sip.as_u12() {
            let mideleg = self.read64(CSRAddress::Mideleg.as_u12());
            let mip = self.read64(CSRAddress::Mip.as_u12());
            self.write64(CSRAddress::Mip.as_u12(), (mip & !mideleg) | (value & mideleg));
            return;
        }
        if addr == CSRAddress::Sstatus.as_u12() {
            let mstatus = self.read64(CSRAddress::Mstatus.as_u12());
            self.write64(
                CSRAddress::Mstatus.as_u12(),
                (mstatus & !SSTATUS_MASK) | (value & SSTATUS_MASK),
            );
            return;
        }
        self.csrs64.set(addr.value() as usize, value);
    }

    /// Writes a register of the file that matches the register width (truncating for RV32).
    pub fn write_xlen(&mut self, addr: U12, value: u64, mode: CpuMode)
        requires
            old(self).wf(),
            addr.0 < 4096,
        ensures
            final(self).wf(),
            mode == CpuMode::RV32 ==> final(self).regs32() == old(self).regs32().update(
                addr.0 as int,
                value as u32,
            ) && final(self).regs64() == old(self).regs64(),
            mode == CpuMode::RV64 ==> final(self).regs64() == spec_write64(
                old(self).regs64(),
                addr.0,
                value,
            ) && final(self).regs32() == old(self).regs32(),
    {
        match mode {
            CpuMode::RV32 => self.write32(addr, value as u32),
            CpuMode::RV64 => self.write64(addr, value),
        }
    }

    /// Reads a register of the file that matches the register width.
    pub fn read_xlen(&self, addr: U12, mode: CpuMode) -> (r: u64)
        requires
            self.wf(),
            addr.0 < 4096,
        ensures
            r == spec_read_xlen(self.regs32(), self.regs64(), addr.0, mode),
    {
        match mode {
            CpuMode::RV32 => self.read32(addr) as u64,
            CpuMode::RV64 => self.read64(addr),
        }
    }

    /// The trap vector of a privilege level; user mode has none.
    pub fn read_xlen_tvec(&self, mode: CpuMode, privilege_mode: PrivilegeMode) -> (r: u64)
        requires
            self.wf(),
            privilege_mode != PrivilegeMode::User,
        ensures
            r == spec_read_xlen(self.regs32(), self.regs64(), tvec_number(privilege_mode), mode),
    {
        match privilege_mode {
            PrivilegeMode::Machine => self.read_xlen(CSRAddress::Mtvec.as_u12(), mode),
            PrivilegeMode::Supervisor => self.read_xlen(CSRAddress::Stvec.as_u12(), mode),
            PrivilegeMode::User => {
                proof { assert(false); }
                0
            },
        }
    }

    /// Sets the trap vector of a privilege level; user mode has none.
    pub fn write_xlen_tvec(&mut self, value: u64, mode: CpuMode, privilege_mode: PrivilegeMode)
        requires
            old(self).wf(),
            privilege_mode != PrivilegeMode::User,
        ensures
            final(self).wf(),
            spec_write_xlen(old(self).regs32(), old(self).regs64(), tvec_number(privilege_mode), value, mode) == (final(self).regs32(), final(self).regs64()),
    {
        match privilege_mode {
            PrivilegeMode::Machine => self.write_xlen(CSRAddress::Mtvec.as_u12(), value, mode),
            PrivilegeMode::Supervisor => self.write_xlen(CSRAddress::Stvec.as_u12(), value, mode),
            PrivilegeMode::User => {
                proof { assert(false); }
            },
        }
    }

    /// The trap value register of a privilege level; user mode has none.
    pub fn read_xlen_tval(&self, mode: CpuMode, privilege_mode: PrivilegeMode) -> (r: u64)
        requires
            self.wf(),
            privilege_mode != PrivilegeMode::User,
        ensures
            r == spec_read_xlen(self.regs32(), self.regs64(), tval_number(privilege_mode), mode),
    {
        match privilege_mode {
            PrivilegeMode::Machine => self.read_xlen(CSRAddress::Mtval.as_u12(), mode),
            PrivilegeMode::Supervisor => self.read_xlen(CSRAddress::Stval.as_u12(), mode),
            PrivilegeMode::User => {
                proof { assert(false); }
                0
            },
        }
    }

    /// Sets the trap value register of a privilege level; user mode has none.
    pub fn write_xlen_tval(&mut self, value: u64, mode: CpuMode, privilege_mode: PrivilegeMode)
        requires
            old(self).wf(),
            privilege_mode != PrivilegeMode::User,
        ensures
            final(self).wf(),
            spec_write_xlen(old(self).regs32(), old(self).regs64(), tval_number(privilege_mode), value, mode) == (final(self).regs32(), final(self).regs64()),
    {
        match privilege_mode {
            PrivilegeMode::Machine => self.write_xlen(CSRAddress::Mtval.as_u12(), value, mode),
            PrivilegeMode::Supervisor => self.write_xlen(CSRAddress::Stval.as_u12(), value, mode),
            PrivilegeMode::User => {
                proof { assert(false); }
            },
        }
    }

    /// The status register seen at a privilege level.
    pub fn read_xlen_status(&self, mode: CpuMode, privilege_mode: PrivilegeMode) -> (r: u64)
        requires
            self.wf(),
        ensures
            r == spec_read_xlen(self.regs32(), self.regs64(), status_number(privilege_mode), mode),
    {
        match privilege_mode {
            PrivilegeMode::Machine => self.read_xlen(CSRAddress::Mstatus.as_u12(), mode),
            PrivilegeMode::Supervisor => self.read_xlen(CSRAddress::Sstatus.as_u12(), mode),
            PrivilegeMode::User => self.read_xlen(CSRAddress::Ustatus.as_u12(), mode),
        }
    }

    /// Sets the exception program counter of a privilege level; user mode has none.
    pub fn write_xlen_epc(&mut self, value: u64, mode: CpuMode, privilege_mode: PrivilegeMode)
        requires
            old(self).wf(),
            privilege_mode != PrivilegeMode::User,
        ensures
            final(self).wf(),
            spec_write_xlen(old(self).regs32(), old(self).regs64(), epc_number(privilege_mode), value, mode) == (final(self).regs32(), final(self).regs64()),
    {
        match privilege_mode {
            PrivilegeMode::Machine => self.write_xlen(CSRAddress::Mepc.as_u12(), value, mode),
            PrivilegeMode::Supervisor => self.write_xlen(CSRAddress::Sepc.as_u12(), value, mode),
            PrivilegeMode::User => {
                proof { assert(false); }
            },
        }
    }

    /// The exception program counter of a privilege level; user mode has none.
    pub fn read_xlen_epc(&self, mode: CpuMode, privilege_mode: PrivilegeMode) -> (r: u64)
        requires
            self.wf(),
            privilege_mode != PrivilegeMode::User,
        ensures
            r == spec_read_xlen(self.regs32(), self.regs64(), epc_number(privilege_mode), mode),
    {
        match privilege_mode {
            PrivilegeMode::Machine => self.read_xlen(CSRAddress::Mepc.as_u12(), mode),
            PrivilegeMode::Supervisor => self.read_xlen(CSRAddress::Sepc.as_u12(), mode),
            PrivilegeMode::User => {
                proof { assert(false); }
                0
            },
        }
    }
}

/// What a read of register `a` of the width `mode` returns.
pub open spec fn spec_read_xlen(t32: Seq<u32>, t64: Seq<u64>, a: u16, mode: CpuMode) -> u64 {
    match mode {
        CpuMode::RV32 => t32[a as int] as u64,
        CpuMode::RV64 => spec_read64(t64, a),
    }
}

/// Both register files after a write of `v` to register `a` of the width `mode`.
pub open spec fn spec_write_xlen(t32: Seq<u32>, t64: Seq<u64>, a: u16, v: u64, mode: CpuMode) -> (Seq<u32>, Seq<u64>) {
    match mode {
        CpuMode::RV32 => (t32.update(a as int, v as u32), t64),
        CpuMode::RV64 => (t32, spec_write64(t64, a, v)),
    }
}

/// The trap-vector register of a privilege level.
pub open spec fn tvec_number(p: PrivilegeMode) -> u16 {
    if p == PrivilegeMode::Machine { 0x305 } else { 0x105 }
}

/// The trap-value register of a privilege level.
pub open spec fn tval_number(p: PrivilegeMode) -> u16 {
    if p == PrivilegeMode::Machine { 0x343 } else { 0x143 }
}

/// The exception-PC register of a privilege level.
pub open spec fn epc_number(p: PrivilegeMode) -> u16 {
    if p == PrivilegeMode::Machine { 0x341 } else { 0x141 }
}

/// The status register of a privilege level.
pub open spec fn status_number(p: PrivilegeMode) -> u16 {
    match p {
        PrivilegeMode::Machine => 0x300,
        PrivilegeMode::Supervisor => 0x100,
        PrivilegeMode::User => 0x000,
    }
}

/// A write to `sie` is read back through `sie` as the written value restricted to the
/// delegated interrupts; the same holds of `sip`, and of `sstatus` with its mask. Other
/// registers read back exactly what was written.
pub proof fn lemma_write_then_read64(t: Seq<u64>, a: u16, v: u64)
    requires
        t.len() == CSR_COUNT,
        a < 4096,
    ensures
        a == SIE() || a == SIP() ==> spec_read64(spec_write64(t, a, v), a) == v & t[MIDELEG() as int],
        a == SSTATUS() ==> spec_read64(spec_write64(t, a, v), a) == v & SSTATUS_MASK,
        a != SIE() && a != SIP() && a != SSTATUS() ==> spec_read64(spec_write64(t, a, v), a) == v,
{
    let d = t[MIDELEG() as int];
    let m = t[MIE() as int];
    let p = t[MIP() as int];
    let s = t[MSTATUS() as int];
    assert(((m & !d) | (v & d)) & d == v & d && ((p & !d) | (v & d)) & d == v & d && ((s & !SSTATUS_MASK) | (v
        & SSTATUS_MASK)) & SSTATUS_MASK == v & SSTATUS_MASK) by (bit_vector);
}

} // verus!
