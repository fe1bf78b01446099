use vstd::prelude::*;

use crate::cpu::cpu_core::{Cpu, ExecutionMode, Peripherals, KERNEL_ADDR};
use crate::cpu::memory::memory_core::Memory;
use crate::cpu::memory::mmu::{spec_walk_sv39, walk_page_table_sv39};
use crate::cpu::memory::raw_memory::ContinuousMemory;
use crate::error::EmuError;
use crate::isa::csr::csr_types::{spec_read64, CSRAddress};
use crate::system::plic::{
    claimed, plic_handle_claim_read, plic_handle_claim_write, plic_handle_pending_write, PLIC_CLAIM, PLIC_PENDING,
};
use crate::system::uart::{uart_handle_read, uart_handle_write, LSR_REG, UART_ADDR};
use crate::system::virtio::{process_queue, queue_outcome, VIRTIO_0_ADDR, VIRTIO_NOTIFY_ADDR};

verus! {

/// The physical address an access of virtual address `addr` reaches: the Sv39 walk when
/// `satp` is set, the address itself otherwise.
pub open spec fn spec_translate<M: Memory>(cpu: Cpu<M>, addr: u64) -> Result<u64, EmuError> {
    let satp = spec_read64(cpu.csr_table.regs64(), 0x180);
    if satp != 0 {
        spec_walk_sv39(cpu.memory, addr, satp)
    } else {
        Ok(addr)
    }
}

/// The memory-mapped devices of bare mode.
#[derive(Clone, Copy, PartialEq, Eq, Structural, Debug)]
pub enum Device {
    Plic,
    Uart,
    Virtio,
}

/// The device a physical address of bare mode belongs to: every address up to the kernel
/// address is split between the PLIC, the UART and the virtio window.
pub open spec fn device_of(pa: u64) -> Option<Device> {
    if pa <= KERNEL_ADDR {
        if pa < UART_ADDR {
            Some(Device::Plic)
        } else if pa < VIRTIO_0_ADDR {
            Some(Device::Uart)
        } else {
            Some(Device::Virtio)
        }
    } else {
        None
    }
}

/// The register window of device `d`.
pub open spec fn window(p: Peripherals, d: Device) -> ContinuousMemory {
    match d {
        Device::Plic => p.plic,
        Device::Uart => p.uart,
        Device::Virtio => p.virtio,
    }
}

/// The value a byte or word read of physical address `pa` gives in bare mode, leaving the
/// device handlers aside: the device window for device addresses, main memory otherwise.
pub open spec fn routed_load<M: Memory>(cpu: Cpu<M>, pa: u64, w: nat) -> Option<u64> {
    match device_of(pa) {
        Some(d) => match cpu.peripherals {
            Some(p) => window(p, d).load(pa, w),
            None => None,
        },
        None => cpu.memory.load(pa, w),
    }
}

/// The value a halfword or doubleword read of `addr` gives: main memory, after address mapping
/// in bare mode.
pub open spec fn plain_load<M: Memory>(cpu: Cpu<M>, addr: u64, w: nat) -> Option<u64> {
    match cpu.execution_mode {
        ExecutionMode::UserSpace => cpu.memory.load(addr, w),
        ExecutionMode::Bare => match spec_translate(cpu, addr) {
            Ok(pa) => cpu.memory.load(pa, w),
            Err(_) => None,
        },
    }
}

/// The value a byte or word read of `addr` gives when no device handler is involved.
pub open spec fn device_load<M: Memory>(cpu: Cpu<M>, addr: u64, w: nat) -> Option<u64> {
    match cpu.execution_mode {
        ExecutionMode::UserSpace => cpu.memory.load(addr, w),
        ExecutionMode::Bare => match spec_translate(cpu, addr) {
            Ok(pa) => routed_load(cpu, pa, w),
            Err(_) => None,
        },
    }
}

/// A read of `addr` in bare mode reaches physical address `pa`.
pub open spec fn bare_reaches<M: Memory>(cpu: Cpu<M>, addr: u64, pa: u64) -> bool {
    cpu.execution_mode == ExecutionMode::Bare && spec_translate(cpu, addr) == Ok::<u64, EmuError>(pa)
}

/// `r` reports `v` as `Ok(v)` and its absence as an error.
pub open spec fn read_reports(r: Result<u64, EmuError>, v: Option<u64>) -> bool {
    match r {
        Ok(x) => v == Some(x),
        Err(_) => v is None,
    }
}

/// The value the UART line-status register gives to its handler: the read of its address
/// without device handlers, refused where it would reach the data register again.
pub open spec fn lsr_load<M: Memory>(cpu: Cpu<M>) -> Option<u64> {
    match cpu.execution_mode {
        ExecutionMode::UserSpace => cpu.memory.load((UART_ADDR + LSR_REG) as u64, 1),
        ExecutionMode::Bare => match spec_translate(cpu, (UART_ADDR + LSR_REG) as u64) {
            Ok(pa) => if pa == UART_ADDR {
                None
            } else {
                routed_load(cpu, pa, 1)
            },
            Err(_) => None,
        },
    }
}

/// `after` differs from `before` at most in main memory.
pub open spec fn only_memory_changed<M: Memory>(before: Cpu<M>, after: Cpu<M>) -> bool {
    &&& before.core_eq(&after)
    &&& after.x32() == before.x32()
    &&& after.x64() == before.x64()
    &&& after.pc() == before.pc()
    &&& after.peripherals == before.peripherals
    &&& after.kernel == before.kernel
    &&& after.block_device == before.block_device
}

/// `after` differs from `before` at most in the device windows.
pub open spec fn only_devices_changed<M: Memory>(before: Cpu<M>, after: Cpu<M>) -> bool {
    &&& before.core_eq(&after)
    &&& after.x32() == before.x32()
    &&& after.x64() == before.x64()
    &&& after.pc() == before.pc()
    &&& after.memory == before.memory
    &&& after.kernel == before.kernel
    &&& after.block_device == before.block_device
}

/// The effect of a read of the UART data register: the receive-ready bit of the line status
/// (kept in main memory) is cleared and the data byte of main memory is returned.
pub open spec fn uart_read_done<M: Memory>(
    before: Cpu<M>,
    after: Cpu<M>,
    r: Result<u64, EmuError>,
) -> bool {
    let lsr_addr = (UART_ADDR + LSR_REG) as u64;
    match lsr_load(before) {
        None => r is Err && after == before,
        Some(lsr) => if before.memory.store_ok(lsr_addr, 1) {
            &&& before.memory.stored(lsr_addr, 1, (lsr as u8 & 0xfe) as u64, after.memory)
            &&& only_memory_changed(before, after)
            &&& read_reports(r, after.memory.load(UART_ADDR, 1))
        } else {
            r is Err && after == before
        },
    }
}


/// Whether a byte or word store at physical address `pa` is accepted, leaving the device
/// handlers aside.
pub open spec fn routed_store_ok<M: Memory>(cpu: Cpu<M>, pa: u64, w: nat) -> bool {
    match device_of(pa) {
        Some(d) => match cpu.peripherals {
            Some(p) => window(p, d).store_ok(pa, w),
            None => false,
        },
        None => cpu.memory.store_ok(pa, w),
    }
}

/// `q` is the device windows `p` with the store applied to the window of `d`.
pub open spec fn window_stored(p: Peripherals, d: Device, pa: u64, w: nat, v: u64, q: Peripherals) -> bool {
    &&& window(p, d).stored(pa, w, v, window(q, d))
    &&& d != Device::Plic ==> q.plic == p.plic
    &&& d != Device::Uart ==> q.uart == p.uart
    &&& d != Device::Virtio ==> q.virtio == p.virtio
}

/// `after` is `before` with the store of the `w` low bytes of `v` at physical address `pa`
/// applied to a device window or to main memory.
pub open spec fn routed_stored<M: Memory>(before: Cpu<M>, pa: u64, w: nat, v: u64, after: Cpu<M>) -> bool {
    match device_of(pa) {
        Some(d) => {
            &&& only_devices_changed(before, after)
            &&& before.peripherals is Some
            &&& after.peripherals is Some
            &&& window_stored(before.peripherals->0, d, pa, w, v, after.peripherals->0)
        },
        None => only_memory_changed(before, after) && before.memory.stored(pa, w, v, after.memory),
    }
}

/// A store at physical address `pa` without device handlers: refused exactly when the target
/// refuses it, in which case nothing changes.
pub open spec fn routed_store<M: Memory>(
    before: Cpu<M>,
    pa: u64,
    w: nat,
    v: u64,
    after: Cpu<M>,
    r: Result<(), EmuError>,
) -> bool {
    &&& r is Ok <==> routed_store_ok(before, pa, w)
    &&& r is Ok ==> routed_stored(before, pa, w, v, after)
    &&& r is Err ==> after == before
}

/// A store to main memory at physical address `pa`.
pub open spec fn memory_store<M: Memory>(
    before: Cpu<M>,
    pa: u64,
    w: nat,
    v: u64,
    after: Cpu<M>,
    r: Result<(), EmuError>,
) -> bool {
    &&& r is Ok <==> before.memory.store_ok(pa, w)
    &&& r is Ok ==> only_memory_changed(before, after) && before.memory.stored(pa, w, v, after.memory)
    &&& r is Err ==> after == before
}

/// A halfword or doubleword store of `addr`: to main memory, after address mapping in bare mode.
pub open spec fn plain_store<M: Memory>(
    before: Cpu<M>,
    addr: u64,
    w: nat,
    v: u64,
    after: Cpu<M>,
    r: Result<(), EmuError>,
) -> bool {
    match before.execution_mode {
        ExecutionMode::UserSpace => memory_store(before, addr, w, v, after, r),
        ExecutionMode::Bare => match spec_translate(before, addr) {
            Ok(pa) => memory_store(before, pa, w, v, after, r),
            Err(_) => r is Err && after == before,
        },
    }
}

/// A byte or word store of `addr` when no device handler is involved.
pub open spec fn device_store<M: Memory>(
    before: Cpu<M>,
    addr: u64,
    w: nat,
    v: u64,
    after: Cpu<M>,
    r: Result<(), EmuError>,
) -> bool {
    match before.execution_mode {
        ExecutionMode::UserSpace => memory_store(before, addr, w, v, after, r),
        ExecutionMode::Bare => match spec_translate(before, addr) {
            Ok(pa) => routed_store(before, pa, w, v, after, r),
            Err(_) => r is Err && after == before,
        },
    }
}

/// The effect of a store to the UART data register: the transmit-ready bit of the line status
/// and the data byte (both kept in main memory) are set, and the byte is passed to the output
/// of the system-call layer. Where main memory refuses one of the accesses, the store fails;
/// then at most main memory has changed.
pub open spec fn uart_write_done<M: Memory>(
    before: Cpu<M>,
    after: Cpu<M>,
    value: u8,
    r: Result<(), EmuError>,
) -> bool {
    let lsr_addr = (UART_ADDR + LSR_REG) as u64;
    match before.memory.load(lsr_addr, 1) {
        None => r is Err && after == before,
        Some(lsr) => {
            &&& r is Ok ==> exists|mid: M|
                #![trigger before.memory.stored(lsr_addr, 1, (lsr as u8 | 0x20) as u64, mid)]
                before.memory.store_ok(lsr_addr, 1) && before.memory.stored(
                    lsr_addr,
                    1,
                    (lsr as u8 | 0x20) as u64,
                    mid,
                ) && mid.store_ok(UART_ADDR, 1) && mid.stored(UART_ADDR, 1, value as u64, after.memory)
            &&& r is Err ==> {
                ||| !before.memory.store_ok(lsr_addr, 1) && after.memory == before.memory
                ||| exists|mid: M|
                    #![trigger before.memory.stored(lsr_addr, 1, (lsr as u8 | 0x20) as u64, mid)]
                    before.memory.stored(lsr_addr, 1, (lsr as u8 | 0x20) as u64, mid) && !mid.store_ok(
                        UART_ADDR,
                        1,
                    ) && after.memory == mid
            }
            &&& r is Ok ==> after.kernel.stdout_buffer@ == before.kernel.stdout_buffer@.push(value)
            &&& r is Ok ==> after.kernel.stdin_buffer@ == before.kernel.stdin_buffer@
            &&& r is Ok ==> after.kernel.stderr_buffer@ == before.kernel.stderr_buffer@
            &&& r is Err ==> only_memory_changed(before, after)
            &&& before.core_eq(&after)
            &&& after.x32() == before.x32()
            &&& after.x64() == before.x64()
            &&& after.pc() == before.pc()
            &&& after.peripherals == before.peripherals
            &&& after.block_device == before.block_device
        },
    }
}


/// The registers, program counter and control state are those of `before`: what a block
/// request started through the virtio notify register leaves unchanged.
pub open spec fn queue_notified<M: Memory>(before: Cpu<M>, after: Cpu<M>) -> bool {
    &&& before.core_eq(&after)
    &&& after.x32() == before.x32()
    &&& after.x64() == before.x64()
    &&& after.pc() == before.pc()
}

/// The physical address a block access of `addr` reaches: translated in either mode.
pub open spec fn block_target<M: Memory>(cpu: Cpu<M>, addr: u64) -> Result<u64, EmuError> {
    spec_translate(cpu, addr)
}


/// The effect of a read of `w` bytes at virtual address `addr` that returned `r`: device
/// handlers for the UART data register (bytes) and the PLIC claim register (words) in bare
/// mode, a plain read otherwise.
pub open spec fn read_effect<M: Memory>(before: Cpu<M>, after: Cpu<M>, addr: u64, w: nat, r: Result<u64, EmuError>) -> bool {
    if w == 1 {
        if bare_reaches(before, addr, UART_ADDR) {
            uart_read_done(before, after, r)
        } else {
            after == before && read_reports(r, device_load(before, addr, 1))
        }
    } else if w == 4 {
        if bare_reaches(before, addr, PLIC_CLAIM) {
            &&& r is Ok
            &&& r->Ok_0 < 0x1_0000_0000
            &&& before.peripherals is Some
            &&& after.peripherals is Some
            &&& claimed(before.peripherals->0, after.peripherals->0, r->Ok_0 as u32)
            &&& only_devices_changed(before, after)
        } else {
            after == before && read_reports(r, device_load(before, addr, 4))
        }
    } else {
        after == before && read_reports(r, plain_load(before, addr, w))
    }
}

/// The effect of a store of the low byte of `v` at virtual address `addr` that returned `r`: in
/// bare mode the UART data register has a handler; other stores go to a device window or main
/// memory.
pub open spec fn byte_write_effect<M: Memory>(before: Cpu<M>, after: Cpu<M>, addr: u64, v: u64, r: Result<(), EmuError>) -> bool {
    if bare_reaches(before, addr, UART_ADDR) {
        uart_write_done(before, after, v as u8, r)
    } else {
        device_store(before, addr, 1, v, after, r)
    }
}

/// The effect of a store of the `w` low bytes of `v` at virtual address `addr` that returned
/// `r`: in bare mode the UART data register (bytes), the PLIC pending and claim registers and
/// the virtio notify register (words) have handlers; other stores go to a device window or
/// main memory.
pub open spec fn write_effect<M: Memory>(before: Cpu<M>, after: Cpu<M>, addr: u64, w: nat, v: u64, r: Result<(), EmuError>) -> bool {
    if w == 1 {
        byte_write_effect(before, after, addr, v, r)
    } else if w == 4 {
        if bare_reaches(before, addr, PLIC_PENDING) || bare_reaches(before, addr, PLIC_CLAIM) {
            r is Ok && after == before
        } else if bare_reaches(before, addr, VIRTIO_NOTIFY_ADDR) {
            &&& queue_notified(before, after)
            &&& exists|mid: Cpu<M>, rq: Result<(), EmuError>|
                #![trigger queue_outcome(before, mid, rq)]
                queue_outcome(before, mid, rq) && match rq {
                    Err(e) => r == Err::<(), EmuError>(e) && after == mid,
                    Ok(_) => routed_store(mid, VIRTIO_NOTIFY_ADDR, 4, v, after, r),
                }
        } else {
            device_store(before, addr, 4, v, after, r)
        }
    } else {
        plain_store(before, addr, w, v, after, r)
    }
}

/// The effect of a block write of `bytes` at `addr` (translated when `satp` is set) that
/// returned `r`.
pub open spec fn block_written<M: Memory>(before: Cpu<M>, after: Cpu<M>, addr: u64, bytes: Seq<u8>, r: Result<(), EmuError>) -> bool {
    match block_target(before, addr) {
        Ok(pa) => (r is Ok <==> pa + bytes.len() <= u64::MAX && before.memory.store_bytes_ok(pa, bytes.len()))
            && (r is Ok ==> only_memory_changed(before, after) && before.memory.stored_bytes(pa, bytes, after.memory))
            && (r is Err ==> after == before),
        Err(_) => r is Err && after == before,
    }
}

/// `s` is the string at `addr` of memory `m`: its bytes are non-zero and a zero byte follows.
pub open spec fn c_string_at<M: Memory>(m: M, addr: u64, s: Seq<u8>) -> bool {
    &&& addr + s.len() < u64::MAX
    &&& forall|i: int| 0 <= i < s.len() ==> m.load((addr + i) as u64, 1) == Some(#[trigger] s[i] as u64) && s[i] != 0
    &&& m.load((addr + s.len()) as u64, 1) == Some(0u64)
}

impl<M: Memory> Cpu<M> {
    /// The physical address of `addr`: the Sv39 walk when `satp` is set.
    pub fn translate_address_if_needed(&mut self, addr: u64) -> (r: Result<u64, EmuError>)
        requires
            old(self).wf(),
        ensures
            *final(self) == *old(self),
            r == spec_translate(*old(self), addr),
    {
        let satp = self.csr_table.read64(CSRAddress::Satp.as_u12());
        if satp != 0 {
            walk_page_table_sv39(addr, satp, self)
        } else {
            Ok(addr)
        }
    }

    /// Reads `w` bytes (1 or 4) at physical address `pa`, from a device window or main memory.
    fn routed_read(&mut self, pa: u64, w: u64) -> (r: Result<u64, EmuError>)
        requires
            old(self).wf(),
            w == 1 || w == 4,
        ensures
            *final(self) == *old(self),
            read_reports(r, routed_load(*old(self), pa, w as nat)),
            r is Ok ==> r->Ok_0 < 0x1_0000_0000,
        r is Ok && w == 1 ==> r->Ok_0 < 0x100,
    {
        if pa <= KERNEL_ADDR {
            let mut p = match self.peripherals.take() {
                Some(p) => p,
                None => {
                    return Err(EmuError::OutOfBounds(pa));
                },
            };
            let res = if pa < UART_ADDR {
                read_window(&mut p.plic, pa, w)
            } else if pa < VIRTIO_0_ADDR {
                read_window(&mut p.uart, pa, w)
            } else {
                read_window(&mut p.virtio, pa, w)
            };
            self.peripherals = Some(p);
            res
        } else if w == 1 {
            match self.memory.read_mem_u8(pa) {
                Ok(v) => {
                    assert(v < 256);
                    Ok(v as u64)
                },
                Err(e) => Err(e),
            }
        } else {
            match self.memory.read_mem_u32(pa) {
                Ok(v) => Ok(v as u64),
                Err(e) => Err(e),
            }
        }
    }

    /// Writes `w` bytes (1 or 4) at physical address `pa`, to a device window or main memory.
    fn routed_write(&mut self, pa: u64, w: u64, v: u64) -> (r: Result<(), EmuError>)
        requires
            old(self).wf(),
            w == 1 || w == 4,
            w == 1 ==> v < 0x100,
            v < 0x1_0000_0000,
        ensures
            final(self).wf(),
            routed_store(*old(self), pa, w as nat, v, *final(self), r),
    {
        if pa <= KERNEL_ADDR {
            let mut p = match self.peripherals.take() {
                Some(p) => p,
                None => {
                    return Err(EmuError::OutOfBounds(pa));
                },
            };
            let res = if pa < UART_ADDR {
                write_window(&mut p.plic, pa, w, v)
            } else if pa < VIRTIO_0_ADDR {
                write_window(&mut p.uart, pa, w, v)
            } else {
                write_window(&mut p.virtio, pa, w, v)
            };
            self.peripherals = Some(p);
            res
        } else if w == 1 {
            self.memory.write_mem_u8(pa, v as u8)
        } else {
            self.memory.write_mem_u32(pa, v as u32)
        }
    }

    /// Reads the UART line-status register for its handler.
    pub fn read_lsr(&mut self) -> (r: Result<u64, EmuError>)
        requires
            old(self).wf(),
        ensures
            *final(self) == *old(self),
            read_reports(r, lsr_load(*old(self))),
            r is Ok ==> r->Ok_0 < 0x100,
    {
        let lsr_addr = UART_ADDR + LSR_REG;
        match self.execution_mode {
            ExecutionMode::UserSpace => match self.memory.read_mem_u8(lsr_addr) {
                Ok(v) => Ok(v as u64),
                Err(e) => Err(e),
            },
            ExecutionMode::Bare => {
                let pa = self.translate_address_if_needed(lsr_addr)?;
                if pa == UART_ADDR {
                    return Err(EmuError::DeviceLoop(pa));
                }
                self.routed_read(pa, 1)
            },
        }
    }

    /// Reads a byte. In bare mode a read of the UART data register goes to the UART handler;
    /// other device addresses read the device window.
    pub fn read_mem_u8(&mut self, addr: u64) -> (r: Result<u8, EmuError>)
        requires
            old(self).wf(),
        ensures
            final(self).wf(),
            read_effect(*old(self), *final(self), addr, 1, match r { Ok(v) => Ok(v as u64), Err(e) => Err(e) }),
    {
        match self.execution_mode {
            ExecutionMode::UserSpace => self.memory.read_mem_u8(addr),
            ExecutionMode::Bare => {
                let pa = self.translate_address_if_needed(addr)?;
                if pa == UART_ADDR {
                    return uart_handle_read(self);
                }
                let v = self.routed_read(pa, 1)?;
                Ok(v as u8)
            },
        }
    }

    /// Writes a word. In bare mode stores to the PLIC pending and claim registers are accepted
    /// and ignored, and a store to the virtio notify register first serves the block request
    /// queue; other device addresses write the device window.
    pub fn write_mem_u32(&mut self, addr: u64, value: u32) -> (r: Result<(), EmuError>)
        requires
            old(self).wf(),
        ensures
            final(self).wf(),
            write_effect(*old(self), *final(self), addr, 4, value as u64, r),
    {
        match self.execution_mode {
            ExecutionMode::UserSpace => self.memory.write_mem_u32(addr, value),
            ExecutionMode::Bare => {
                let pa = self.translate_address_if_needed(addr)?;
                if pa == PLIC_PENDING {
                    plic_handle_pending_write(self, value);
                    return Ok(());
                }
                if pa == PLIC_CLAIM {
                    plic_handle_claim_write(self, value);
                    return Ok(());
                }
                if pa == VIRTIO_NOTIFY_ADDR {
                    let ghost before = *self;
                    let rq = process_queue(self);
                    let ghost mid = *self;
                    if let Err(e) = rq {
                        assert(queue_outcome(before, mid, rq));
                        return Err(e);
                    }
                    let r = self.routed_write(pa, 4, value as u64);
                    assert(queue_outcome(before, mid, rq));
                    return r;
                }
                self.routed_write(pa, 4, value as u64)
            },
        }
    }

    /// Reads `buf.len()` bytes from main memory at `addr` (translated when `satp` is set).
    pub fn read_buf(&mut self, addr: u64, buf: &mut [u8]) -> (r: Result<(), EmuError>)
        requires
            old(self).wf(),
            addr + old(buf)@.len() <= u64::MAX,
        ensures
            *final(self) == *old(self),
            final(buf)@.len() == old(buf)@.len(),
            match block_target(*old(self), addr) {
                Ok(pa) => (r is Ok <==> pa + old(buf)@.len() <= u64::MAX && old(self).memory.load_bytes(pa, old(buf)@.len()) is Some)
                    && (r is Ok ==> old(self).memory.load_bytes(pa, old(buf)@.len()) == Some(final(buf)@)),
                Err(_) => r is Err,
            },
    {
        let pa = self.translate_address_if_needed(addr)?;
        if pa > u64::MAX - buf.len() as u64 {
            return Err(EmuError::OutOfBounds(pa));
        }
        self.memory.read_buf(pa, buf)
    }

    /// Writes `buf` to main memory at `addr` (translated when `satp` is set).
    pub fn write_buf(&mut self, addr: u64, buf: &[u8]) -> (r: Result<(), EmuError>)
        requires
            old(self).wf(),
        ensures
            final(self).wf(),
            block_written(*old(self), *final(self), addr, buf@, r),
    {
        let pa = self.translate_address_if_needed(addr)?;
        if pa > u64::MAX - buf.len() as u64 {
            return Err(EmuError::OutOfBounds(pa));
        }
        self.memory.write_buf(pa, buf)
    }

    /// Writes a doubleword to main memory (after address mapping in bare mode).
    pub fn write_mem_u64(&mut self, addr: u64, value: u64) -> (r: Result<(), EmuError>)
        requires
            old(self).wf(),
        ensures
            final(self).wf(),
            write_effect(*old(self), *final(self), addr, 8, value, r),
    {
        let pa = match self.execution_mode {
            ExecutionMode::UserSpace => addr,
            ExecutionMode::Bare => self.translate_address_if_needed(addr)?,
        };
        self.memory.write_mem_u64(pa, value)
    }

    /// Writes a halfword to main memory (after address mapping in bare mode).
    pub fn write_mem_u16(&mut self, addr: u64, value: u16) -> (r: Result<(), EmuError>)
        requires
            old(self).wf(),
        ensures
            final(self).wf(),
            write_effect(*old(self), *final(self), addr, 2, value as u64, r),
    {
        let pa = match self.execution_mode {
            ExecutionMode::UserSpace => addr,
            ExecutionMode::Bare => self.translate_address_if_needed(addr)?,
        };
        self.memory.write_mem_u16(pa, value)
    }

    /// Writes a byte. In bare mode a store to the UART data register goes to the UART handler;
    /// other device addresses write the device window.
    pub fn write_mem_u8(&mut self, addr: u64, value: u8) -> (r: Result<(), EmuError>)
        requires
            old(self).wf(),
        ensures
            final(self).wf(),
            write_effect(*old(self), *final(self), addr, 1, value as u64, r),
    {
        match self.execution_mode {
            ExecutionMode::UserSpace => self.memory.write_mem_u8(addr, value),
            ExecutionMode::Bare => {
                let pa = self.translate_address_if_needed(addr)?;
                if pa == UART_ADDR {
                    return uart_handle_write(self, value);
                }
                self.routed_write(pa, 1, value as u64)
            },
        }
    }

    /// The bytes of the zero-terminated string at `addr`, without the terminator, read byte by
    /// byte through the hart's address path. A refused read, or a string running to the end of
    /// the address space, is reported.
    pub fn read_c_string(&mut self, addr: u64) -> (r: Result<Vec<u8>, EmuError>)
        requires
            old(self).wf(),
        ensures
            final(self).wf(),
            old(self).execution_mode == ExecutionMode::UserSpace ==> *final(self) == *old(self),
            old(self).execution_mode == ExecutionMode::UserSpace && r is Ok ==> c_string_at(old(self).memory, addr, r->Ok_0@),
            old(self).execution_mode == ExecutionMode::UserSpace && r is Err ==> exists|n: nat|
                #![trigger old(self).memory.load((addr + n) as u64, 1)]
                addr + n <= u64::MAX && (forall|i: int| 0 <= i < n ==> #[trigger] old(self).memory.load((addr + i) as u64, 1) is Some
                    && old(self).memory.load((addr + i) as u64, 1) != Some(0u64)) && (addr + n == u64::MAX || old(self).memory.load((addr + n) as u64, 1) is None),
    {
        let mut result: Vec<u8> = Vec::new();
        let mut current = addr;
        loop
            invariant
                self.wf(),
                addr <= current,
                current == addr + result@.len(),
                old(self).execution_mode == ExecutionMode::UserSpace ==> *self == *old(self),
                old(self).execution_mode == ExecutionMode::UserSpace ==> forall|i: int|
                    0 <= i < result@.len() ==> old(self).memory.load((addr + i) as u64, 1) == Some(#[trigger] result@[i] as u64)
                        && result@[i] != 0,
            decreases u64::MAX - current,
        {
            proof {
                if old(self).execution_mode == ExecutionMode::UserSpace {
                    assert forall|i: int| 0 <= i < result@.len() implies #[trigger] old(self).memory.load((addr + i) as u64, 1) is Some
                        && old(self).memory.load((addr + i) as u64, 1) != Some(0u64) by {
                        assert(result@[i] != 0);
                    }
                }
            }
            if current == u64::MAX {
                assert(old(self).execution_mode == ExecutionMode::UserSpace ==> old(self).memory.load((addr + result@.len()) as u64, 1) == old(self).memory.load((addr + result@.len()) as u64, 1));
                return Err(EmuError::OutOfBounds(current));
            }
            let byte = match self.read_mem_u8(current) {
                Ok(b) => b,
                Err(e) => {
                    assert(old(self).execution_mode == ExecutionMode::UserSpace ==> old(self).memory.load((addr + result@.len()) as u64, 1) is None);
                    return Err(e);
                },
            };
            if byte == 0 {
                return Ok(result);
            }
            result.push(byte);
            current = current + 1;
        }
    }

    /// Reads a doubleword. Bare mode translates the address; devices have no doubleword
    /// registers, so the read goes to main memory.
    pub fn read_mem_u64(&mut self, addr: u64) -> (r: Result<u64, EmuError>)
        requires
            old(self).wf(),
        ensures
            *final(self) == *old(self),
            read_reports(r, plain_load(*old(self), addr, 8)),
            read_effect(*old(self), *final(self), addr, 8, r),
    {
        let pa = match self.execution_mode {
            ExecutionMode::UserSpace => addr,
            ExecutionMode::Bare => self.translate_address_if_needed(addr)?,
        };
        self.memory.read_mem_u64(pa)
    }

    /// Reads a halfword. Bare mode translates the address; the read goes to main memory.
    pub fn read_mem_u16(&mut self, addr: u64) -> (r: Result<u16, EmuError>)
        requires
            old(self).wf(),
        ensures
            final(self).wf(),
            read_effect(*old(self), *final(self), addr, 2, match r { Ok(v) => Ok(v as u64), Err(e) => Err(e) }),
    {
        let pa = match self.execution_mode {
            ExecutionMode::UserSpace => addr,
            ExecutionMode::Bare => self.translate_address_if_needed(addr)?,
        };
        self.memory.read_mem_u16(pa)
    }

    /// Reads a word. In bare mode a read of the PLIC claim register claims the lowest enabled
    /// pending interrupt; other device addresses read the device window.
    pub fn read_mem_u32(&mut self, addr: u64) -> (r: Result<u32, EmuError>)
        requires
            old(self).wf(),
        ensures
            final(self).wf(),
            read_effect(*old(self), *final(self), addr, 4, match r { Ok(v) => Ok(v as u64), Err(e) => Err(e) }),
    {
        match self.execution_mode {
            ExecutionMode::UserSpace => self.memory.read_mem_u32(addr),
            ExecutionMode::Bare => {
                let pa = self.translate_address_if_needed(addr)?;
                if pa == PLIC_CLAIM {
                    return Ok(plic_handle_claim_read(self));
                }
                let v = self.routed_read(pa, 4)?;
                Ok(v as u32)
            },
        }
    }
}

/// Writes `w` bytes (1 or 4) of a device window.
fn write_window(m: &mut ContinuousMemory, pa: u64, w: u64, v: u64) -> (r: Result<(), EmuError>)
    requires
        w == 1 || w == 4,
        w == 1 ==> v < 0x100,
        v < 0x1_0000_0000,
    ensures
        r is Ok <==> old(m).store_ok(pa, w as nat),
        r is Ok ==> old(m).stored(pa, w as nat, v, *final(m)),
        r is Err ==> *final(m) == *old(m),
        final(m).base() == old(m).base(),
        final(m).bytes().len() == old(m).bytes().len(),
{
    if w == 1 {
        m.write_mem_u8(pa, v as u8)
    } else {
        m.write_mem_u32(pa, v as u32)
    }
}

/// Reads `w` bytes (1 or 4) of a device window.
fn read_window(m: &mut ContinuousMemory, pa: u64, w: u64) -> (r: Result<u64, EmuError>)
    requires
        w == 1 || w == 4,
    ensures
        *final(m) == *old(m),
        read_reports(r, old(m).load(pa, w as nat)),
        r is Ok ==> r->Ok_0 < 0x1_0000_0000,
        r is Ok && w == 1 ==> r->Ok_0 < 0x100,
{
    if w == 1 {
        match m.read_mem_u8(pa) {
            Ok(v) => Ok(v as u64),
            Err(e) => Err(e),
        }
    } else {
        match m.read_mem_u32(pa) {
            Ok(v) => Ok(v as u64),
            Err(e) => Err(e),
        }
    }
}

} // verus!
