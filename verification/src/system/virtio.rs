use vstd::prelude::*;

use crate::cpu::cpu_core::Cpu;
use crate::cpu::memory::memory_core::{le_value, spliced, Memory};
use crate::cpu::memory::raw_memory::ContinuousMemory;
use crate::cpu::memory_access::{
    block_target, block_written, byte_write_effect, only_devices_changed, queue_notified, read_effect,
};
use crate::error::EmuError;
use crate::system::plic::{plic_trigger_irq, reg32, set_reg32, PLIC_PENDING};

verus! {

/// Number of descriptors in the virtqueue.
pub const VIRTIO_DESC_NUM: usize = 8;

/// Base address of the virtio block device.
pub const VIRTIO_0_ADDR: u64 = 0x10001000;

pub const VIRTIO_MMIO_MAGIC_VALUE: u32 = 0x000;
pub const VIRTIO_MMIO_VERSION: u32 = 0x004;
pub const VIRTIO_MMIO_DEVICE_ID: u32 = 0x008;
pub const VIRTIO_MMIO_VENDOR_ID: u32 = 0x00c;
pub const VIRTIO_MMIO_QUEUE_NOTIFY: u32 = 0x050;

/// Address of the queue-notify register.
pub const VIRTIO_NOTIFY_ADDR: u64 = 0x10001050;

pub const VIRTIO_MMIO_QUEUE_NUM_MAX: u32 = 0x034;
pub const VIRTIO_MMIO_QUEUE_DESC_LOW: u32 = 0x080;
pub const VIRTIO_MMIO_QUEUE_DESC_HIGH: u32 = 0x084;
pub const VIRTIO_MMIO_QUEUE_AVAIL_LOW: u32 = 0x090;
pub const VIRTIO_MMIO_QUEUE_AVAIL_HIGH: u32 = 0x094;
pub const VIRTIO_MMIO_QUEUE_USED_LOW: u32 = 0x0a0;
pub const VIRTIO_MMIO_QUEUE_USED_HIGH: u32 = 0x0a4;

/// Descriptor flag: the chain goes on in `next`.
pub const VRING_DESC_F_NEXT: u16 = 1;

/// Descriptor flag: the device writes the buffer.
pub const VRING_DESC_F_WRITE: u16 = 2;

/// Interrupt number of the block device at the PLIC.
pub const VIRTIO0_IRQ: u32 = 1;

/// Request type: read sectors into guest memory.
pub const VIRTIO_BLK_T_IN: u32 = 0;

/// Request type: write guest memory to sectors.
pub const VIRTIO_BLK_T_OUT: u32 = 1;

/// Status byte of a served request.
pub const VIRTIO_BLK_S_OK: u8 = 0;

/// Size of the available ring structure.
pub const AVAIL_SIZE: u64 = 22;

/// Size of a descriptor.
pub const DESC_SIZE: u64 = 16;

/// Size of a block request header.
pub const BLK_REQ_SIZE: u64 = 16;

/// Size of the used ring structure.
pub const USED_SIZE: u64 = 72;

/// A structure of `len` bytes at `addr` lies wholly inside the window.
pub open spec fn in_window(m: ContinuousMemory, addr: u64, len: u64) -> bool {
    addr >= m.base() && (addr - m.base()) + len <= m.bytes().len() && addr + len <= u64::MAX
}

/// Field `off..off + w` of the `len`-byte structure at `addr`: its little-endian value when the
/// structure lies inside the window, zero otherwise (the structure is then read as zeros).
pub open spec fn struct_field_value(m: ContinuousMemory, addr: u64, len: u64, off: u64, w: u64) -> u64 {
    if in_window(m, addr, len) {
        le_value(m.bytes(), (addr - m.base()) + off, w as nat) as u64
    } else {
        0
    }
}

/// Reads a field of a structure held in the window.
fn struct_field(m: &mut ContinuousMemory, addr: u64, len: u64, off: u64, w: u64) -> (r: u64)
    requires
        off + w <= len,
        len <= USED_SIZE,
        w <= 8,
    ensures
        *final(m) == *old(m),
        r == struct_field_value(*old(m), addr, len, off, w),
{
    let n = m.data.len();
    if addr > u64::MAX - len || addr < m.addr || addr - m.addr > n as u64 || (n as u64) - (addr - m.addr) < len {
        return 0;
    }
    match m.read_le(addr + off, w) {
        Ok(v) => v,
        Err(_) => 0,
    }
}

/// Writes a field of a structure held in the window when the structure lies inside it.
fn set_struct_field(m: &mut ContinuousMemory, addr: u64, len: u64, off: u64, w: u64, v: u64)
    requires
        off + w <= len,
        len <= USED_SIZE,
        w <= 8,
    ensures
        final(m).base() == old(m).base(),
        final(m).bytes().len() == old(m).bytes().len(),
        in_window(*old(m), addr, len) ==> final(m).bytes() == spliced(
            old(m).bytes(),
            (addr - old(m).base()) + off,
            v,
            w as nat,
        ),
        !in_window(*old(m), addr, len) ==> *final(m) == *old(m),
{
    let n = m.data.len();
    if addr > u64::MAX - len || addr < m.addr || addr - m.addr > n as u64 || (n as u64) - (addr - m.addr) < len {
        return;
    }
    let _ = m.write_le(addr + off, w, v);
}

/// The 64-bit address held in the pair of 32-bit registers at offsets `low` and `high` of the
/// window.
pub open spec fn reg_pair_value(m: ContinuousMemory, low: u32, high: u32) -> u64 {
    (le_value(m.bytes(), low as int, 4) as u64) | ((le_value(m.bytes(), high as int, 4) as u64) << 32u64)
}

/// The 64-bit address held in a pair of 32-bit registers of the window.
fn reg_pair(m: &mut ContinuousMemory, low: u32, high: u32) -> (r: u64)
    requires
        old(m).base() == VIRTIO_0_ADDR,
        old(m).bytes().len() == 0x100,
        low < 0xfc,
        high < 0xfc,
    ensures
        *final(m) == *old(m),
        r == reg_pair_value(*old(m), low, high),
{
    let lo = match m.read_le(VIRTIO_0_ADDR + low as u64, 4) {
        Ok(v) => v,
        Err(_) => 0,
    };
    let hi = match m.read_le(VIRTIO_0_ADDR + high as u64, 4) {
        Ok(v) => v,
        Err(_) => 0,
    };
    lo | (hi << 32u64)
}

/// A descriptor of the virtqueue.
#[derive(Clone, Copy, Debug)]
pub struct QueueDesc {
    pub addr: u64,
    pub len: u32,
    pub flags: u16,
    pub next: u16,
}

/// Descriptor `idx` of the table at `table`.
pub open spec fn desc_at(m: ContinuousMemory, table: u64, idx: u16) -> QueueDesc {
    let at = table.wrapping_add(((idx as u64) * DESC_SIZE) as u64);
    QueueDesc {
        addr: struct_field_value(m, at, DESC_SIZE, 0, 8),
        len: struct_field_value(m, at, DESC_SIZE, 8, 4) as u32,
        flags: struct_field_value(m, at, DESC_SIZE, 12, 2) as u16,
        next: struct_field_value(m, at, DESC_SIZE, 14, 2) as u16,
    }
}

/// Reads descriptor `idx` of the table at `table`.
fn read_desc(m: &mut ContinuousMemory, table: u64, idx: u16) -> (r: QueueDesc)
    ensures
        *final(m) == *old(m),
        r == desc_at(*old(m), table, idx),
{
    let at = table.wrapping_add((idx as u64) * DESC_SIZE);
    QueueDesc {
        addr: struct_field(m, at, DESC_SIZE, 0, 8),
        len: struct_field(m, at, DESC_SIZE, 8, 4) as u32,
        flags: struct_field(m, at, DESC_SIZE, 12, 2) as u16,
        next: struct_field(m, at, DESC_SIZE, 14, 2) as u16,
    }
}

/// The parts of a block request that the device acts on.
pub struct Request {
    pub write_to_guest: bool,
    pub sector: u64,
    pub desc_idx: u16,
    pub data: QueueDesc,
    pub status: QueueDesc,
    pub used_addr: u64,
}

/// The newest request of the available ring of the window `m`, or `VirtioProtocol` when its
/// descriptor chain is not a header followed by a data buffer and a one-byte device-written
/// status, or the request is neither a read nor a write.
pub open spec fn request_of(m: ContinuousMemory) -> Result<Request, EmuError> {
    let avail_addr = reg_pair_value(m, VIRTIO_MMIO_QUEUE_AVAIL_LOW, VIRTIO_MMIO_QUEUE_AVAIL_HIGH);
    let desc_addr = reg_pair_value(m, VIRTIO_MMIO_QUEUE_DESC_LOW, VIRTIO_MMIO_QUEUE_DESC_HIGH);
    let used_addr = reg_pair_value(m, VIRTIO_MMIO_QUEUE_USED_LOW, VIRTIO_MMIO_QUEUE_USED_HIGH);
    let avail_idx = struct_field_value(m, avail_addr, AVAIL_SIZE, 2, 2) as u16;
    let slot = (avail_idx.wrapping_sub(1) as u64) % (VIRTIO_DESC_NUM as u64);
    let desc_idx = struct_field_value(m, avail_addr, AVAIL_SIZE, (4 + 2 * slot) as u64, 2) as u16;
    let req_desc = desc_at(m, desc_addr, desc_idx);
    let req_type = struct_field_value(m, req_desc.addr, BLK_REQ_SIZE, 0, 4);
    let sector = struct_field_value(m, req_desc.addr, BLK_REQ_SIZE, 8, 8);
    let data = desc_at(m, desc_addr, req_desc.next);
    let status = desc_at(m, desc_addr, data.next);
    if req_desc.flags != VRING_DESC_F_NEXT || data.flags & VRING_DESC_F_NEXT == 0 {
        Err(EmuError::VirtioProtocol)
    } else if req_type != VIRTIO_BLK_T_IN as u64 && req_type != VIRTIO_BLK_T_OUT as u64 {
        Err(EmuError::VirtioProtocol)
    } else if status.len != 1 || status.flags != VRING_DESC_F_WRITE {
        Err(EmuError::VirtioProtocol)
    } else {
        Ok(Request { write_to_guest: req_type == VIRTIO_BLK_T_IN as u64, sector, desc_idx, data, status, used_addr })
    }
}

/// The sectors a request names lie inside the disk image `d`.
pub open spec fn request_fits(d: BlockDevice, req: Request) -> bool {
    req.sector < d.size_in_blocks && req.sector * SECTOR_SIZE + req.data.len <= d.storage@.len()
}

/// Reads the newest request of the available ring and checks its descriptor chain: a header,
/// a data buffer and a one-byte device-written status.
fn read_request(m: &mut ContinuousMemory) -> (r: Result<Request, EmuError>)
    requires
        old(m).base() == VIRTIO_0_ADDR,
        old(m).bytes().len() == 0x100,
    ensures
        *final(m) == *old(m),
        r == request_of(*old(m)),
{
    let avail_addr = reg_pair(m, VIRTIO_MMIO_QUEUE_AVAIL_LOW, VIRTIO_MMIO_QUEUE_AVAIL_HIGH);
    let desc_addr = reg_pair(m, VIRTIO_MMIO_QUEUE_DESC_LOW, VIRTIO_MMIO_QUEUE_DESC_HIGH);
    let used_addr = reg_pair(m, VIRTIO_MMIO_QUEUE_USED_LOW, VIRTIO_MMIO_QUEUE_USED_HIGH);
    let avail_idx = struct_field(m, avail_addr, AVAIL_SIZE, 2, 2) as u16;
    let slot = (avail_idx.wrapping_sub(1) as u64) % (VIRTIO_DESC_NUM as u64);
    let desc_idx = struct_field(m, avail_addr, AVAIL_SIZE, 4 + 2 * slot, 2) as u16;
    let req_desc = read_desc(m, desc_addr, desc_idx);
    let req_type = struct_field(m, req_desc.addr, BLK_REQ_SIZE, 0, 4);
    let sector = struct_field(m, req_desc.addr, BLK_REQ_SIZE, 8, 8);
    if req_desc.flags != VRING_DESC_F_NEXT {
        return Err(EmuError::VirtioProtocol);
    }
    let data = read_desc(m, desc_addr, req_desc.next);
    if data.flags & VRING_DESC_F_NEXT == 0 {
        return Err(EmuError::VirtioProtocol);
    }
    let write_to_guest = if req_type == VIRTIO_BLK_T_IN as u64 {
        true
    } else if req_type == VIRTIO_BLK_T_OUT as u64 {
        false
    } else {
        return Err(EmuError::VirtioProtocol);
    };
    let status = read_desc(m, desc_addr, data.next);
    if status.len != 1 || status.flags != VRING_DESC_F_WRITE {
        return Err(EmuError::VirtioProtocol);
    }
    Ok(Request { write_to_guest, sector, desc_idx, data, status, used_addr })
}

/// The sector bytes a request names in the disk image `d`.
pub open spec fn request_bytes(d: BlockDevice, req: Request) -> Seq<u8> {
    d.storage@.subrange(req.sector * SECTOR_SIZE, req.sector * SECTOR_SIZE + req.data.len)
}

/// The `BLOCK_SIZE` guest bytes at the data address of a request, as a block read through the
/// hart's address path sees them, or `None` when that read is refused.
pub open spec fn guest_block<M: Memory>(cpu: Cpu<M>, req: Request) -> Option<Seq<u8>> {
    if req.data.addr + BLOCK_SIZE > u64::MAX {
        None
    } else {
        match block_target(cpu, req.data.addr) {
            Ok(pa) => if pa + BLOCK_SIZE <= u64::MAX {
                cpu.memory.load_bytes(pa, BLOCK_SIZE as nat)
            } else {
                None
            },
            Err(_) => None,
        }
    }
}

/// The data of a request that fits the disk image `d` has moved: a read request writes the
/// named sector bytes to guest memory at the data address; a write request copies the
/// `BLOCK_SIZE` guest bytes there over the disk image from the named sector on.
pub open spec fn transfer_done<M: Memory>(before: Cpu<M>, after: Cpu<M>, req: Request, d: BlockDevice) -> bool {
    if req.write_to_guest {
        block_written(before, after, req.data.addr, request_bytes(d, req), Ok(()))
    } else {
        match guest_block(before, req) {
            Some(bytes) => {
                let start = req.sector * SECTOR_SIZE;
                &&& req.data.len == BLOCK_SIZE
                &&& after == Cpu { block_device: after.block_device, ..before }
                &&& after.block_device is Some
                &&& after.block_device->0.size_in_blocks == d.size_in_blocks
                &&& after.block_device->0.storage@ == d.storage@.subrange(0, start) + bytes + d.storage@.subrange(
                    start + BLOCK_SIZE,
                    d.storage@.len() as int,
                )
            },
            None => false,
        }
    }
}

/// The data of a request that fits the disk image cannot move: for a read request guest
/// memory refuses the block write, for a write request the block read of the guest buffer is
/// refused or the buffer is not `BLOCK_SIZE` bytes long.
pub open spec fn transfer_refused<M: Memory>(before: Cpu<M>, req: Request) -> bool {
    if req.write_to_guest {
        match block_target(before, req.data.addr) {
            Ok(pa) => !(pa + req.data.len <= u64::MAX && before.memory.store_bytes_ok(pa, req.data.len as nat)),
            Err(_) => true,
        }
    } else {
        guest_block(before, req) is None || req.data.len != BLOCK_SIZE
    }
}

/// Moves the data of a request between the block device and guest memory.
fn transfer<M: Memory>(cpu: &mut Cpu<M>, req: &Request) -> (r: Result<(), EmuError>)
    requires
        old(cpu).wf(),
    ensures
        final(cpu).wf(),
        queue_notified(*old(cpu), *final(cpu)),
        old(cpu).block_device is None ==> r == Err::<(), EmuError>(EmuError::NoBlockDevice) && *final(cpu) == *old(cpu),
        old(cpu).block_device matches Some(d) && !request_fits(d, *req) ==> r == Err::<(), EmuError>(
            EmuError::SectorOutOfRange(req.sector),
        ) && *final(cpu) == *old(cpu),
        match old(cpu).block_device {
            Some(d) => request_fits(d, *req) ==> {
                &&& r is Ok ==> transfer_done(*old(cpu), *final(cpu), *req, d)
                &&& r is Err ==> transfer_refused(*old(cpu), *req) && *final(cpu) == *old(cpu)
            },
            None => true,
        },
{
    let len = req.data.len as usize;
    let ghost d0 = old(cpu).block_device->0;
    let (block, data) = match &cpu.block_device {
        None => {
            return Err(EmuError::NoBlockDevice);
        },
        Some(device) => {
            if req.sector >= device.size_in_blocks as u64 {
                return Err(EmuError::SectorOutOfRange(req.sector));
            }
            let block = req.sector as usize;
            assert(block < device.size_in_blocks);
            let slen = device.storage.len();
            assert(slen == device.storage@.len());
            let start = match block.checked_mul(SECTOR_SIZE) {
                Some(v) => v,
                None => {
                    assert(req.sector * SECTOR_SIZE > slen);
                    return Err(EmuError::SectorOutOfRange(req.sector));
                },
            };
            let end = match start.checked_add(len) {
                Some(v) => v,
                None => {
                    assert(req.sector * SECTOR_SIZE + req.data.len > slen);
                    return Err(EmuError::SectorOutOfRange(req.sector));
                },
            };
            if end > device.storage.len() {
                return Err(EmuError::SectorOutOfRange(req.sector));
            }
            if req.write_to_guest {
                (block, vstd::slice::slice_to_vec(device.read_block(block, len)))
            } else {
                (block, Vec::new())
            }
        },
    };
    assert(request_fits(d0, *req));
    if req.write_to_guest {
        assert(data@ == request_bytes(d0, *req));
        return cpu.write_buf(req.data.addr, data.as_slice());
    }
    let mut buf: Vec<u8> = vec![0u8; BLOCK_SIZE];
    if req.data.addr > u64::MAX - BLOCK_SIZE as u64 {
        return Err(EmuError::OutOfBounds(req.data.addr));
    }
    match cpu.read_buf(req.data.addr, buf.as_mut_slice()) {
        Err(e) => {
            return Err(e);
        },
        Ok(()) => {},
    }
    if len != BLOCK_SIZE {
        return Err(EmuError::VirtioProtocol);
    }
    let ghost before = *cpu;
    let mut device = match cpu.block_device.take() {
        Some(d) => d,
        None => {
            return Err(EmuError::NoBlockDevice);
        },
    };
    device.write_block(block, len, buf.as_slice());
    cpu.block_device = Some(device);
    proof {
        assert(*cpu == Cpu { block_device: cpu.block_device, ..before });
    }
    Ok(())
}

/// The used ring of the window `v` with a request recorded: the slot at the used index holds
/// the request's descriptor index and length zero, and the used index moves on by one
/// (wrapping). A used ring outside the window is left as it is.
pub open spec fn used_ring_recorded(v: ContinuousMemory, req: Request) -> Seq<u8> {
    let idx = struct_field_value(v, req.used_addr, USED_SIZE, 2, 2) as u16;
    let slot = (idx as u64) % (VIRTIO_DESC_NUM as u64);
    if in_window(v, req.used_addr, USED_SIZE) {
        let off = req.used_addr - v.base();
        let b1 = spliced(v.bytes(), off + 4 + 8 * slot, req.desc_idx as u64, 4);
        let b2 = spliced(b1, off + 8 + 8 * slot, 0, 4);
        spliced(b2, off + 2, idx.wrapping_add(1) as u64, 2)
    } else {
        v.bytes()
    }
}

/// `after` is `before` with the request recorded in the used ring of the virtio window and
/// the device interrupt marked pending at the PLIC.
pub open spec fn request_recorded<M: Memory>(before: Cpu<M>, after: Cpu<M>, req: Request) -> bool {
    &&& before.peripherals is Some
    &&& after.peripherals is Some
    &&& only_devices_changed(before, after)
    &&& after.peripherals->0.uart == before.peripherals->0.uart
    &&& after.peripherals->0.virtio.base() == before.peripherals->0.virtio.base()
    &&& after.peripherals->0.virtio.bytes() == used_ring_recorded(before.peripherals->0.virtio, req)
    &&& after.peripherals->0.plic.bytes() == set_reg32(
        before.peripherals->0.plic,
        PLIC_PENDING,
        reg32(before.peripherals->0.plic, PLIC_PENDING) | (1u32 << VIRTIO0_IRQ),
    )
}

/// A request that fits the disk image `d` was served: its data moved, the status byte was
/// read and then set to `VIRTIO_BLK_S_OK` through the hart's address path, and the request
/// was recorded in the used ring with the device interrupt raised.
pub open spec fn request_served<M: Memory>(before: Cpu<M>, after: Cpu<M>, req: Request, d: BlockDevice) -> bool {
    exists|c1: Cpu<M>, c2: Cpu<M>, v: u64, c3: Cpu<M>|
        #![trigger transfer_done(before, c1, req, d), read_effect(c1, c2, req.status.addr, 1, Ok(v)), byte_write_effect(c2, c3, req.status.addr, 0, Ok(()))]
        transfer_done(before, c1, req, d) && read_effect(c1, c2, req.status.addr, 1, Ok(v)) && byte_write_effect(
            c2,
            c3,
            req.status.addr,
            0,
            Ok(()),
        ) && request_recorded(c3, after, req)
}

/// Serving a request that fits the disk image `d` can fail: the data cannot move, or, after it
/// moved, the read or the store of the status byte is refused, or the device windows are gone.
pub open spec fn request_refused<M: Memory>(before: Cpu<M>, req: Request, d: BlockDevice) -> bool {
    ||| transfer_refused(before, req)
    ||| exists|c1: Cpu<M>, c2: Cpu<M>, e: EmuError|
        #![trigger transfer_done(before, c1, req, d), read_effect(c1, c2, req.status.addr, 1, Err(e))]
        transfer_done(before, c1, req, d) && read_effect(c1, c2, req.status.addr, 1, Err(e))
    ||| exists|c1: Cpu<M>, c2: Cpu<M>, v: u64, c3: Cpu<M>, r: Result<(), EmuError>|
        #![trigger transfer_done(before, c1, req, d), read_effect(c1, c2, req.status.addr, 1, Ok(v)), byte_write_effect(c2, c3, req.status.addr, 0, r)]
        transfer_done(before, c1, req, d) && read_effect(c1, c2, req.status.addr, 1, Ok(v)) && byte_write_effect(
            c2,
            c3,
            req.status.addr,
            0,
            r,
        ) && (r is Err || c3.peripherals is None)
}

/// The outcome of serving the block request queue from `before`: a request of another shape,
/// a missing disk or sectors past its end are refused with nothing changed; a request that
/// fits is served, or refused only where one of its steps is refused.
pub open spec fn queue_outcome<M: Memory>(before: Cpu<M>, after: Cpu<M>, r: Result<(), EmuError>) -> bool {
    &&& queue_notified(before, after)
    &&& match request_of(before.peripherals->0.virtio) {
        Err(e) => r == Err::<(), EmuError>(e) && after == before,
        Ok(req) => match before.block_device {
            None => r == Err::<(), EmuError>(EmuError::NoBlockDevice) && after == before,
            Some(d) => if !request_fits(d, req) {
                r == Err::<(), EmuError>(EmuError::SectorOutOfRange(req.sector)) && after == before
            } else {
                &&& r is Ok ==> request_served(before, after, req, d)
                &&& r is Err ==> request_refused(before, req, d)
            },
        },
    }
}

/// Serves the newest request of the block device's virtqueue: checks the descriptor chain,
/// moves the data between the disk image and guest memory, sets the status byte, records the
/// request in the used ring and raises the device interrupt. A chain of another shape, a
/// missing disk, a sector past its end or a refused guest access is reported as an error.
pub fn process_queue<M: Memory>(cpu: &mut Cpu<M>) -> (r: Result<(), EmuError>)
    requires
        old(cpu).wf(),
        old(cpu).peripherals is Some,
    ensures
        final(cpu).wf(),
        queue_outcome(*old(cpu), *final(cpu), r),
{
    let mut p = match cpu.peripherals.take() {
        Some(p) => p,
        None => {
            assert(false);
            return Err(EmuError::VirtioProtocol);
        },
    };
    let req = read_request(&mut p.virtio);
    cpu.peripherals = Some(p);
    assert(*cpu == *old(cpu));
    let req = req?;
    let ghost d = old(cpu).block_device->0;
    transfer(cpu, &req)?;
    let ghost c1 = *cpu;
    let _status = match cpu.read_mem_u8(req.status.addr) {
        Ok(v) => v,
        Err(e) => {
            assert(read_effect(c1, *cpu, req.status.addr, 1, Err(e)));
            return Err(e);
        },
    };
    let ghost c2 = *cpu;
    let ghost v = _status as u64;
    assert(read_effect(c1, c2, req.status.addr, 1, Ok(v)));
    match cpu.write_mem_u8(req.status.addr, VIRTIO_BLK_S_OK) {
        Ok(()) => {},
        Err(e) => {
            assert(byte_write_effect(c2, *cpu, req.status.addr, 0, Err(e)));
            return Err(e);
        },
    }
    let ghost c3 = *cpu;
    assert(byte_write_effect(c2, c3, req.status.addr, 0, Ok(())));
    let mut p = match cpu.peripherals.take() {
        Some(p) => p,
        None => {
            return Err(EmuError::VirtioProtocol);
        },
    };
    let used_idx = struct_field(&mut p.virtio, req.used_addr, USED_SIZE, 2, 2) as u16;
    let slot = (used_idx as u64) % (VIRTIO_DESC_NUM as u64);
    set_struct_field(&mut p.virtio, req.used_addr, USED_SIZE, 4 + 8 * slot, 4, req.desc_idx as u64);
    set_struct_field(&mut p.virtio, req.used_addr, USED_SIZE, 8 + 8 * slot, 4, 0);
    set_struct_field(&mut p.virtio, req.used_addr, USED_SIZE, 2, 2, used_idx.wrapping_add(1) as u64);
    cpu.peripherals = Some(p);
    plic_trigger_irq(cpu, VIRTIO0_IRQ);
    assert(request_recorded(c3, *cpu, req));
    Ok(())
}

/// The virtio window `b` with its identification registers filled: device id 2 (block
/// device), vendor and magic values, version 2 and the queue size.
pub open spec fn initialised_virtio(b: Seq<u8>) -> Seq<u8> {
    let b1 = spliced(b, VIRTIO_MMIO_DEVICE_ID as int, 2, 4);
    let b2 = spliced(b1, VIRTIO_MMIO_VENDOR_ID as int, 0x554d4551, 4);
    let b3 = spliced(b2, VIRTIO_MMIO_MAGIC_VALUE as int, 0x74726976, 4);
    let b4 = spliced(b3, VIRTIO_MMIO_VERSION as int, 2, 4);
    spliced(b4, VIRTIO_MMIO_QUEUE_NUM_MAX as int, VIRTIO_DESC_NUM as u64, 4)
}

/// Fills the identification registers of the virtio window.
pub fn init_virtio<M: Memory>(cpu: &mut Cpu<M>)
    requires
        old(cpu).wf(),
        old(cpu).peripherals is Some,
    ensures
        final(cpu).wf(),
        crate::cpu::memory_access::only_devices_changed(*old(cpu), *final(cpu)),
        final(cpu).peripherals is Some,
        final(cpu).peripherals->0.plic == old(cpu).peripherals->0.plic,
        final(cpu).peripherals->0.uart == old(cpu).peripherals->0.uart,
        final(cpu).peripherals->0.virtio.base() == VIRTIO_0_ADDR,
        final(cpu).peripherals->0.virtio.bytes() == initialised_virtio(old(cpu).peripherals->0.virtio.bytes()),
{
    let mut p = match cpu.peripherals.take() {
        Some(p) => p,
        None => {
            assert(false);
            return;
        },
    };
    let _ = p.virtio.write_le(VIRTIO_0_ADDR + VIRTIO_MMIO_DEVICE_ID as u64, 4, 2);
    let _ = p.virtio.write_le(VIRTIO_0_ADDR + VIRTIO_MMIO_VENDOR_ID as u64, 4, 0x554d4551);
    let _ = p.virtio.write_le(VIRTIO_0_ADDR + VIRTIO_MMIO_MAGIC_VALUE as u64, 4, 0x74726976);
    let _ = p.virtio.write_le(VIRTIO_0_ADDR + VIRTIO_MMIO_VERSION as u64, 4, 2);
    let _ = p.virtio.write_le(VIRTIO_0_ADDR + VIRTIO_MMIO_QUEUE_NUM_MAX as u64, 4, VIRTIO_DESC_NUM as u64);
    cpu.peripherals = Some(p);
}

/// Size of a disk sector.
pub const SECTOR_SIZE: usize = 512;

/// Size of the buffer moved by one block write.
pub const BLOCK_SIZE: usize = 1024;

/// A disk image held in memory, in sectors of 512 bytes.
pub struct BlockDevice {
    pub storage: Vec<u8>,
    pub size_in_blocks: usize,
}

impl BlockDevice {
    /// Number of whole sectors.
    pub open spec fn blocks(&self) -> usize {
        self.size_in_blocks
    }

    /// A device over `storage`, which holds `size_in_blocks` sectors.
    pub fn from_storage(storage: Vec<u8>, size_in_blocks: usize) -> (r: BlockDevice)
        requires
            storage@.len() == size_in_blocks * SECTOR_SIZE,
        ensures
            r.storage@ == storage@,
            r.blocks() == size_in_blocks,
    {
        BlockDevice { storage, size_in_blocks }
    }

    /// `len` bytes from the start of sector `block_num`, which must lie inside the device.
    pub fn read_block(&self, block_num: usize, len: usize) -> (r: &[u8])
        requires
            block_num < self.blocks(),
            block_num * SECTOR_SIZE + len <= self.storage.len(),
        ensures
            r@ == self.storage@.subrange(
                block_num * SECTOR_SIZE as int,
                block_num * SECTOR_SIZE + len as int,
            ),
    {
        let start = block_num * SECTOR_SIZE;
        vstd::slice::slice_subrange(self.storage.as_slice(), start, start + len)
    }

    /// Copies the `len` bytes of `data` to the start of sector `block_num`, inside the device.
    pub fn write_block(&mut self, block_num: usize, len: usize, data: &[u8])
        requires
            block_num < old(self).blocks(),
            block_num * SECTOR_SIZE + len <= old(self).storage.len(),
            data@.len() == len,
        ensures
            final(self).blocks() == old(self).blocks(),
            final(self).storage@ == old(self).storage@.subrange(0, block_num * SECTOR_SIZE as int)
                + data@ + old(self).storage@.subrange(
                block_num * SECTOR_SIZE + len as int,
                old(self).storage@.len() as int,
            ),
    {
        let start = block_num * SECTOR_SIZE;
        let mut i: usize = 0;
        while i < len
            invariant
                start == block_num * SECTOR_SIZE,
                start + len <= self.storage.len(),
                data@.len() == len,
                i <= len,
                self.size_in_blocks == old(self).size_in_blocks,
                self.storage@.len() == old(self).storage@.len(),
                forall|j: int|
                    0 <= j < self.storage@.len() ==> #[trigger] self.storage@[j] == (if start <= j < start + i {
                        data@[j - start]
                    } else {
                        old(self).storage@[j]
                    }),
            decreases len - i,
        {
            self.storage.set(start + i, data[i]);
            i = i + 1;
        }
        assert(self.storage@ =~= old(self).storage@.subrange(0, start as int) + data@
            + old(self).storage@.subrange(start + len as int, old(self).storage@.len() as int));
    }
}

} // verus!
