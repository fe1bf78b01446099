use vstd::prelude::*;

use crate::types::{BitValue, U12};

verus! {

/// Names of control and status registers of the 32-bit-only table.
#[derive(Clone, Copy, PartialEq, Eq, Structural, Debug)]
pub enum CSRAddress {
    Ustatus,
    Uie,
    Utvec,
    Uscratch,
    Uepc,
    Ucause,
    Utval,
    Uip,
    Fflags,
    Frm,
    Fcsr,
    Cycle,
    CycleH,
    Time,
    TimeH,
    Instret,
    InstretH,
    Sstatus,
    Sedeleg,
    Sideleg,
    Sie,
    Stvec,
    Scounteren,
    Sscratch,
    Sepc,
    Scause,
    Stval,
    Sip,
    Satp,
    Mvendorid,
    Marchid,
    Mimpid,
    Mhartid,
    Mstatus,
    Misa,
    Medeleg,
    Mideleg,
    Mie,
    Mtvec,
    Mcounteren,
    Mscratch,
    Mepc,
    Mcause,
    Mtval,
    Mip,
    Pmpcfg0,
    Pmpcfg1,
    Pmpcfg2,
    Pmpcfg3,
    Pmpaddr0,
    Pmpaddr1,
    Mcycle,
    Minstret,
    Mhpmcounter3,
    Mhpmcounter4,
    Mcountinhibit,
    Mhpmevent3,
    Mhpmevent4,
}

/// A single file of 4096 32-bit control and status registers.
pub struct CSRTable {
    csrs: Vec<u32>,
}

impl CSRTable {
    /// Both register files have their full size.
    pub open spec fn wf(&self) -> bool {
        self.regs().len() == 4096
    }

    /// The register file.
    pub closed spec fn regs(&self) -> Seq<u32> {
        self.csrs@
    }

    /// A table of zeros.
    pub fn new() -> (r: CSRTable)
        ensures
            r.wf(),
            r.regs() == Seq::new(4096, |i: int| 0u32),
    {
        let r = CSRTable { csrs: vec![0u32; 4096] };
        assert(r.regs() =~= Seq::new(4096, |i: int| 0u32));
        r
    }

    /// Reads a register.
    pub fn read(&self, addr: U12) -> (r: u32)
        requires
            self.wf(),
            addr.0 < 4096,
        ensures
            r == self.regs()[addr.0 as int],
    {
        self.csrs[addr.value() as usize]
    }

    /// Writes a register.
    pub fn write(&mut self, addr: U12, value: u32)
        requires
            old(self).wf(),
            addr.0 < 4096,
        ensures
            final(self).wf(),
            final(self).regs() == old(self).regs().update(addr.0 as int, value),
    {
        self.csrs.set(addr.value() as usize, value);
    }
}

} // verus!
