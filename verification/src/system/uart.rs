use vstd::prelude::*;

use crate::cpu::cpu_core::Cpu;
use crate::cpu::memory::memory_core::Memory;
use crate::cpu::memory_access::{only_memory_changed, uart_read_done, uart_write_done};
use crate::error::EmuError;
use crate::system::plic::{plic_trigger_irq, reg32, set_reg32, PLIC_PENDING};

verus! {

/// Base address of the UART device.
pub const UART_ADDR: u64 = 0x10000000;

/// Offset of the line status register.
pub const LSR_REG: u64 = 0x5;

/// Line status: a received byte is ready.
pub const LSR_RX_READY: u8 = 0x1;

/// Line status: the transmitter is ready.
pub const LSR_TX_READY: u8 = 0x20;

/// Interrupt number of the UART at the PLIC.
pub const UART0_IRQ: u32 = 10;

/// Handles a store to the UART data register: sets the transmit-ready bit of the line status
/// and the data byte (both kept in main memory) and passes the byte to the output of the
/// system-call layer. An access main memory refuses is reported as an error.
pub fn uart_handle_write<M: Memory>(cpu: &mut Cpu<M>, value: u8) -> (r: Result<(), EmuError>)
    requires
        old(cpu).wf(),
    ensures
        final(cpu).wf(),
        uart_write_done(*old(cpu), *final(cpu), value, r),
{
    let lsr_addr = UART_ADDR + LSR_REG;
    let lsr = cpu.memory.read_mem_u8(lsr_addr)?;
    cpu.memory.write_mem_u8(lsr_addr, lsr | LSR_TX_READY)?;
    let ghost mid = cpu.memory;
    let ghost l = old(cpu).memory.load(lsr_addr, 1)->0;
    assert(l as u8 == lsr);
    if let Err(e) = cpu.memory.write_mem_u8(UART_ADDR, value) {
        assert(old(cpu).memory.stored(lsr_addr, 1, (l as u8 | 0x20) as u64, mid));
        assert(old(cpu).core_eq(cpu));
        return Err(e);
    }
    assert(old(cpu).memory.stored(lsr_addr, 1, (lsr as u8 | 0x20) as u64, mid));
    let mut out: Vec<u8> = Vec::new();
    out.push(value);
    cpu.kernel.write_stdout(out.as_slice());
    assert(out@ =~= seq![value]);
    assert(cpu.kernel.stdout_buffer@ =~= old(cpu).kernel.stdout_buffer@.push(value));
    assert(old(cpu).memory.stored(lsr_addr, 1, (l as u8 | 0x20) as u64, mid));
    assert(old(cpu).core_eq(cpu));
    Ok(())
}

/// Handles a read of the UART data register: clears the receive-ready bit of the line status
/// (kept in main memory) and returns the data byte of main memory. The line status is read
/// through the hart's address path without this handler; where that path leads back to the
/// data register, `DeviceLoop` is reported.
pub fn uart_handle_read<M: Memory>(cpu: &mut Cpu<M>) -> (r: Result<u8, EmuError>)
    requires
        old(cpu).wf(),
    ensures
        final(cpu).wf(),
        uart_read_done(
            *old(cpu),
            *final(cpu),
            match r {
                Ok(v) => Ok(v as u64),
                Err(e) => Err(e),
            },
        ),
{
    let lsr = cpu.read_lsr()?;
    let cleared: u8 = (lsr as u8) & !LSR_RX_READY;
    assert((lsr as u8) & !1u8 == (lsr as u8) & 0xfe) by (bit_vector);
    cpu.memory.write_mem_u8(UART_ADDR + LSR_REG, cleared)?;
    cpu.memory.read_mem_u8(UART_ADDR)
}

/// Marks the transmitter ready in the line status kept in main memory.
pub fn init_uart<M: Memory>(cpu: &mut Cpu<M>) -> (r: Result<(), EmuError>)
    requires
        old(cpu).wf(),
    ensures
        final(cpu).wf(),
        r is Ok <==> old(cpu).memory.store_ok((UART_ADDR + LSR_REG) as u64, 1),
        r is Ok ==> old(cpu).memory.stored((UART_ADDR + LSR_REG) as u64, 1, LSR_TX_READY as u64, final(cpu).memory),
        only_memory_changed(*old(cpu), *final(cpu)),
        r is Err ==> *final(cpu) == *old(cpu),
{
    cpu.memory.write_mem_u8(UART_ADDR + LSR_REG, LSR_TX_READY)
}

/// Delivers a received byte: when no byte is waiting (receive-ready clear), the byte and the
/// receive-ready bit are stored in main memory and the UART interrupt is raised at the PLIC.
/// A waiting byte is not overwritten.
pub fn write_char<M: Memory>(cpu: &mut Cpu<M>, c: u8) -> (r: Result<(), EmuError>)
    requires
        old(cpu).wf(),
        old(cpu).peripherals is Some,
    ensures
        final(cpu).wf(),
        final(cpu).peripherals is Some,
        old(cpu).core_eq(final(cpu)),
        final(cpu).x32() == old(cpu).x32(),
        final(cpu).x64() == old(cpu).x64(),
        final(cpu).pc() == old(cpu).pc(),
        final(cpu).kernel == old(cpu).kernel,
        final(cpu).block_device == old(cpu).block_device,
        ({
            let l = old(cpu).memory.load((UART_ADDR + LSR_REG) as u64, 1);
            &&& l is None ==> r is Err && *final(cpu) == *old(cpu)
            &&& (l is Some && l->0 & 1 != 0) ==> r is Ok && *final(cpu) == *old(cpu)
            &&& (r is Ok && l is Some && l->0 & 1 == 0) ==> exists|mid: M|
                #![trigger old(cpu).memory.stored((UART_ADDR + LSR_REG) as u64, 1, l->0 | 1, mid)]
                old(cpu).memory.stored((UART_ADDR + LSR_REG) as u64, 1, l->0 | 1, mid) && mid.stored(
                    UART_ADDR,
                    1,
                    c as u64,
                    final(cpu).memory,
                ) && final(cpu).peripherals->0.plic.bytes() == set_reg32(
                    old(cpu).peripherals->0.plic,
                    PLIC_PENDING,
                    reg32(old(cpu).peripherals->0.plic, PLIC_PENDING) | (1u32 << UART0_IRQ),
                )
        }),
        r is Err ==> final(cpu).peripherals == old(cpu).peripherals,
{
    let lsr_addr = UART_ADDR + LSR_REG;
    let lsr = cpu.memory.read_mem_u8(lsr_addr)?;
    assert((lsr & 1u8 == 0) <==> ((lsr as u64) & 1u64 == 0)) by (bit_vector);
    if lsr & LSR_RX_READY == 0 {
        cpu.memory.write_mem_u8(lsr_addr, lsr | LSR_RX_READY)?;
        let ghost mid = cpu.memory;
        cpu.memory.write_mem_u8(UART_ADDR, c)?;
        assert((lsr | 1u8) as u64 == (lsr as u64) | 1u64) by (bit_vector);
        assert(old(cpu).memory.stored(lsr_addr, 1, (lsr as u64) | 1, mid));
        plic_trigger_irq(cpu, UART0_IRQ);
    }
    Ok(())
}

} // verus!
