use vstd::prelude::*;

use crate::cpu::cpu_core::{Cpu, Peripherals};
use crate::cpu::memory_access::only_devices_changed;
use crate::cpu::memory::memory_core::{le_value, spliced, Memory};
use crate::cpu::memory::raw_memory::ContinuousMemory;
use crate::isa::csr::csr_types::{spec_read64, spec_write64, CSRAddress, SIP};

verus! {

/// Base address of the platform-level interrupt controller.
pub const PLIC_ADDR: u64 = 0x0c000000;

/// Pending-interrupts register.
pub const PLIC_PENDING: u64 = 0x0c001000;

/// Enabled-interrupts register.
pub const PLIC_ENABLE: u64 = 0x0c002080;

/// Priority threshold register.
pub const PLIC_THRESHOLD: u64 = 0x0c201000;

/// Claim / complete register.
pub const PLIC_CLAIM: u64 = 0x0c201004;

/// Size of the PLIC register window.
pub const PLIC_SIZE: u64 = 0x20100c;

/// Bit of the supervisor external interrupt in `sip`.
pub const SUPERVISOR_EXTERNAL_INTERRUPT_BIT: u64 = 0x200;

/// The 32-bit register at `addr` of a device window.
pub open spec fn reg32(m: ContinuousMemory, addr: u64) -> u32 {
    le_value(m.bytes(), addr - m.base(), 4) as u32
}

/// The window `m` with the 32-bit register at `addr` set to `v`.
pub open spec fn set_reg32(m: ContinuousMemory, addr: u64, v: u32) -> Seq<u8> {
    spliced(m.bytes(), addr - m.base(), v as u64, 4)
}

/// The PLIC window laid out at its address with its size.
pub open spec fn plic_laid_out(m: ContinuousMemory) -> bool {
    m.base() == PLIC_ADDR && m.bytes().len() == PLIC_SIZE
}

/// Interrupt `i` is both enabled and pending.
pub open spec fn claimable(enable: u32, pending: u32, i: u32) -> bool {
    i < 32 && enable & (1u32 << i) != 0 && pending & (1u32 << i) != 0
}

/// `i` is the lowest interrupt that is enabled and pending.
pub open spec fn first_claimable(enable: u32, pending: u32, i: u32) -> bool {
    claimable(enable, pending, i) && forall|j: u32| j < i ==> !claimable(enable, pending, j)
}

/// Reads a 32-bit register of a laid-out PLIC window.
fn plic_read(m: &mut ContinuousMemory, addr: u64) -> (r: u32)
    requires
        plic_laid_out(*old(m)),
        PLIC_ADDR <= addr,
        addr + 4 <= PLIC_ADDR + PLIC_SIZE,
    ensures
        *final(m) == *old(m),
        r == reg32(*old(m), addr),
{
    proof {
        crate::cpu::memory::memory_core::lemma_le_value_bound(m.bytes(), addr - m.base(), 4);
        vstd::arithmetic::power2::lemma2_to64();
    }
    match m.read_mem_u32(addr) {
        Ok(v) => v,
        Err(_) => {
            assert(false);
            0
        },
    }
}

/// Writes a 32-bit register of a laid-out PLIC window.
fn plic_write(m: &mut ContinuousMemory, addr: u64, v: u32)
    requires
        plic_laid_out(*old(m)),
        PLIC_ADDR <= addr,
        addr + 4 <= PLIC_ADDR + PLIC_SIZE,
    ensures
        plic_laid_out(*final(m)),
        final(m).bytes() == set_reg32(*old(m), addr, v),
{
    let r = m.write_mem_u32(addr, v);
    assert(r is Ok);
}

/// `after` is the PLIC state `before` after a claim that returned `r`.
pub open spec fn claimed(before: Peripherals, after: Peripherals, r: u32) -> bool {
    let e = reg32(before.plic, PLIC_ENABLE);
    let pd = reg32(before.plic, PLIC_PENDING);
    &&& plic_laid_out(after.plic)
    &&& after.uart == before.uart
    &&& after.virtio == before.virtio
    &&& if first_claimable(e, pd, r) {
        after.plic.bytes() == spliced(
            set_reg32(before.plic, PLIC_CLAIM, r),
            PLIC_PENDING - PLIC_ADDR,
            (pd & !(1u32 << r)) as u64,
            4,
        )
    } else {
        &&& r == 0
        &&& forall|j: u32| j < 32 ==> !claimable(e, pd, j)
        &&& after.plic == before.plic
    }
}

/// Claims the lowest interrupt that is both enabled and pending: it is written to the claim
/// register, cleared from the pending register and returned. With none, 0 is returned and the
/// window is unchanged.
pub fn plic_claim(p: &mut Peripherals) -> (r: u32)
    requires
        plic_laid_out(old(p).plic),
    ensures
        claimed(*old(p), *final(p), r),
{
    let enable = plic_read(&mut p.plic, PLIC_ENABLE);
    let pending = plic_read(&mut p.plic, PLIC_PENDING);
    let mut i: u32 = 0;
    while i < 32
        invariant
            i <= 32,
            *p == *old(p),
            plic_laid_out(p.plic),
            enable == reg32(old(p).plic, PLIC_ENABLE),
            pending == reg32(old(p).plic, PLIC_PENDING),
            forall|j: u32| j < i ==> !claimable(enable, pending, j),
        decreases 32 - i,
    {
        let mask: u32 = 1u32 << i;
        if (enable & mask) != 0 && (pending & mask) != 0 {
            plic_write(&mut p.plic, PLIC_CLAIM, i);
            plic_write(&mut p.plic, PLIC_PENDING, pending & !mask);
            assert(first_claimable(enable, pending, i));
            return i;
        }
        i = i + 1;
    }
    0
}

/// Handles a read of the claim register of the hart's PLIC: claims the lowest interrupt that
/// is both enabled and pending (see `plic_claim`) and returns it, or 0.
pub fn plic_handle_claim_read<M: Memory>(cpu: &mut Cpu<M>) -> (r: u32)
    requires
        old(cpu).wf(),
        old(cpu).peripherals is Some,
    ensures
        final(cpu).wf(),
        final(cpu).peripherals is Some,
        claimed(old(cpu).peripherals->0, final(cpu).peripherals->0, r),
        only_devices_changed(*old(cpu), *final(cpu)),
{
    let mut p = match cpu.peripherals.take() {
        Some(p) => p,
        None => {
            assert(false);
            return 0;
        },
    };
    let v = plic_claim(&mut p);
    cpu.peripherals = Some(p);
    v
}

/// Marks interrupt `irq` pending at the PLIC.
pub fn plic_raise(p: &mut Peripherals, irq: u32)
    requires
        plic_laid_out(old(p).plic),
        irq < 32,
    ensures
        plic_laid_out(final(p).plic),
        final(p).uart == old(p).uart,
        final(p).virtio == old(p).virtio,
        final(p).plic.bytes() == set_reg32(
            old(p).plic,
            PLIC_PENDING,
            reg32(old(p).plic, PLIC_PENDING) | (1u32 << irq),
        ),
{
    let pending = plic_read(&mut p.plic, PLIC_PENDING);
    plic_write(&mut p.plic, PLIC_PENDING, pending | (1u32 << irq));
}

/// Marks interrupt `irq` pending at the hart's PLIC; nothing else changes.
pub fn plic_trigger_irq<M: Memory>(cpu: &mut Cpu<M>, irq: u32)
    requires
        old(cpu).wf(),
        old(cpu).peripherals is Some,
        irq < 32,
    ensures
        final(cpu).wf(),
        only_devices_changed(*old(cpu), *final(cpu)),
        final(cpu).peripherals is Some,
        final(cpu).peripherals->0.uart == old(cpu).peripherals->0.uart,
        final(cpu).peripherals->0.virtio == old(cpu).peripherals->0.virtio,
        final(cpu).peripherals->0.plic.bytes() == set_reg32(
            old(cpu).peripherals->0.plic,
            PLIC_PENDING,
            reg32(old(cpu).peripherals->0.plic, PLIC_PENDING) | (1u32 << irq),
        ),
{
    let mut p = match cpu.peripherals.take() {
        Some(p) => p,
        None => {
            assert(false);
            return;
        },
    };
    plic_raise(&mut p, irq);
    cpu.peripherals = Some(p);
}

/// Whether some enabled interrupt is pending at the PLIC.
pub open spec fn plic_has_pending(m: ContinuousMemory) -> bool {
    reg32(m, PLIC_PENDING) & reg32(m, PLIC_ENABLE) != 0
}

/// `after` is `before` after the PLIC poll: the supervisor external interrupt is raised in
/// `sip` when an enabled PLIC interrupt is pending; nothing else changes.
pub open spec fn plic_checked<M: Memory>(before: Cpu<M>, after: Cpu<M>) -> bool {
    let p = before.peripherals->0;
    let t = before.csr_table.regs64();
    &&& before.peripherals is Some
    &&& after.csr_table.regs32() == before.csr_table.regs32()
    &&& after.csr_table.regs64() == (if plic_has_pending(p.plic) {
        spec_write64(t, SIP(), spec_read64(t, SIP()) | SUPERVISOR_EXTERNAL_INTERRUPT_BIT)
    } else {
        t
    })
    &&& after.x32() == before.x32()
    &&& after.x64() == before.x64()
    &&& after.pc() == before.pc()
    &&& after.same_setup(&before)
    &&& after.current_instruction_pc_64 == before.current_instruction_pc_64
    &&& after.is_halted() == before.is_halted()
    &&& after.program_brk == before.program_brk
    &&& after.privilege_mode == before.privilege_mode
    &&& before.mem_eq(&after)
}

/// Raises the supervisor external interrupt in `sip` when an enabled PLIC interrupt is
/// pending; the hart is otherwise unchanged.
pub fn plic_check_pending<M: Memory>(cpu: &mut Cpu<M>)
    requires
        old(cpu).wf(),
        old(cpu).peripherals is Some,
    ensures
        final(cpu).wf(),
        plic_checked(*old(cpu), *final(cpu)),
{
    let mut p = match cpu.peripherals.take() {
        Some(p) => p,
        None => {
            assert(false);
            return;
        },
    };
    let pending = plic_read(&mut p.plic, PLIC_PENDING);
    let enable = plic_read(&mut p.plic, PLIC_ENABLE);
    cpu.peripherals = Some(p);
    if (pending & enable) != 0 {
        let sip = cpu.csr_table.read64(CSRAddress::Sip.as_u12()) | SUPERVISOR_EXTERNAL_INTERRUPT_BIT;
        cpu.csr_table.write64(CSRAddress::Sip.as_u12(), sip);
    }
}

/// Writes to the claim / complete register are accepted and have no effect.
pub fn plic_handle_claim_write<M: Memory>(cpu: &mut Cpu<M>, value: u32)
    ensures
        *final(cpu) == *old(cpu),
{
}

/// Writes to the pending register are accepted and have no effect.
pub fn plic_handle_pending_write<M: Memory>(cpu: &mut Cpu<M>, value: u32)
    ensures
        *final(cpu) == *old(cpu),
{
}

} // verus!
