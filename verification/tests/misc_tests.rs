use risc_sim::isa::rv32i::environment::{blocks_of, clock_word32, timeval_bytes};
use risc_sim::system::display::{frame_pixels, key_queue_entries, SCREEN_PIXELS};
use risc_sim::elf::assembler::SectionFlags;
use risc_sim::cpu::cpu_core::{Cpu, CpuMode};
use risc_sim::isa::csr::csr_types::{CSRAddress, CSRTable, MstatusCSR};
use risc_sim::isa::rv32i::environment::{Stat, TimeT};
use risc_sim::isa::semantics::{div_trunc, rem_trunc};
use risc_sim::system::kernel::SeekType;
use risc_sim::system::passthrough_kernel::PassthroughKernel;
use risc_sim::system::virtio::BlockDevice;
use risc_sim::utils::data::CircularBuffer;

#[test]
fn circular_buffer_is_first_in_first_out() {
    let mut b: CircularBuffer<u64> = CircularBuffer::new(4);
    assert_eq!(b.pop(), None);
    b.push(1);
    b.push(2);
    assert_eq!(b.pop(), Some(1));
    b.push(3);
    b.push(4);
    assert_eq!(b.pop(), Some(2));
    assert_eq!(b.pop(), Some(3));
    assert_eq!(b.pop(), Some(4));
    assert_eq!(b.pop(), None);
}

#[test]
fn circular_buffer_drops_the_oldest_when_full() {
    let mut b: CircularBuffer<u64> = CircularBuffer::new(3);
    b.push(1);
    b.push(2);
    b.push(3);
    assert_eq!(b.pop(), Some(2));
    assert_eq!(b.pop(), Some(3));
    assert_eq!(b.pop(), None);
    assert_eq!(b.size, 3);

    let mut one: CircularBuffer<u64> = CircularBuffer::new(1);
    one.push(9);
    assert_eq!(one.pop(), None);
    let mut empty: CircularBuffer<u64> = CircularBuffer::new(0);
    assert_eq!(empty.pop(), None);
}

#[test]
fn stdout_status_record() {
    let s = Stat::new_stdout_at(1000, 42);
    assert_eq!((s.dev, s.ino, s.mode, s.nlink), (1, 1, 0o020666, 1));
    assert_eq!((s.uid, s.gid, s.rdev), (1000, 1000, 1));
    assert_eq!((s.size, s.blksize, s.blocks), (1000, 1024, 2));
    assert_eq!((s.atime, s.mtime, s.ctime), (42, 42, 42));
    assert_eq!(Stat::new_stdout_at(0, 0).blocks, 0);
    assert_eq!(Stat::new_stdout_at(512, 0).blocks, 1);
    let now = Stat::new_stdout(10).unwrap();
    assert_eq!(now.size, 10);
    assert_eq!(now.blocks, 1);
    assert_eq!(now.atime, now.mtime);
    assert!(now.atime > 1_600_000_000);
}

#[test]
fn truncating_division() {
    assert_eq!(div_trunc(-7, 2), -3);
    assert_eq!(rem_trunc(-7, 2), -1);
    assert_eq!(div_trunc(7, -2), -3);
    assert_eq!(rem_trunc(7, -2), 1);
    assert_eq!(div_trunc(i64::MIN, 1), i64::MIN);
    assert_eq!(rem_trunc(i64::MIN, -3), -2);
}

#[test]
fn passthrough_kernel_streams() {
    let mut k = PassthroughKernel::new();
    k.write_stdout(b"ab");
    k.write_stdout(b"c");
    k.write_stderr(b"e");
    assert_eq!(k.stderr_buffer, b"e".to_vec());
    assert_eq!(k.read_and_clear_stdout_buffer(), b"abc".to_vec());
    assert!(k.stdout_buffer.is_empty());
}

#[test]
fn seek_origins() {
    assert_eq!(SeekType::from(0), SeekType::Start);
    assert_eq!(SeekType::from(1), SeekType::Current);
    assert_eq!(SeekType::from(2), SeekType::End);
}

#[test]
fn status_register_fields() {
    let mut s = MstatusCSR(0);
    s.set_mie(true);
    s.set_mpp(3);
    s.set_spp(true);
    assert!(s.mie());
    assert!(!s.sie());
    assert_eq!(s.mpp(), 3);
    assert!(s.spp());
    assert_eq!(s.0, (1 << 3) | (3 << 11) | (1 << 8));
    s.set_mpie(s.mie());
    s.set_mie(false);
    assert_eq!(s.0, (1 << 7) | (3 << 11) | (1 << 8));
    assert!(s.mpie());
    s.set_spie(true);
    assert!(s.spie());
    s.set_sie(true);
    assert!(s.sie());
}

#[test]
fn csr_table_views() {
    let mut t = CSRTable::new(CpuMode::RV64);
    t.write64(CSRAddress::Mscratch.as_u12(), 77);
    assert_eq!(t.read64(CSRAddress::Mscratch.as_u12()), 77);
    // sstatus is a masked view of mstatus
    t.write64(CSRAddress::Mstatus.as_u12(), 0x8 | 0x2);
    assert_eq!(t.read64(CSRAddress::Sstatus.as_u12()), 0x2);
    // sie shows only the delegated bits of mie
    t.write64(CSRAddress::Mideleg.as_u12(), 0x222);
    t.write64(CSRAddress::Sie.as_u12(), 0xfff);
    assert_eq!(t.read64(CSRAddress::Mie.as_u12()), 0x222);
    assert_eq!(t.read64(CSRAddress::Sie.as_u12()), 0x222);
    t.write_xlen(CSRAddress::Mepc.as_u12(), 0x1234_5678_9abc, CpuMode::RV64);
    assert_eq!(t.read_xlen(CSRAddress::Mepc.as_u12(), CpuMode::RV64), 0x1234_5678_9abc);
}

#[test]
fn block_device_sectors() {
    let mut d = BlockDevice::from_storage(vec![0u8; 1024], 2);
    d.write_block(1, 3, &[7, 8, 9]);
    assert_eq!(d.read_block(1, 4), &[7, 8, 9, 0]);
    assert_eq!(d.read_block(0, 2), &[0, 0]);
    assert_eq!(d.storage[512], 7);
}

#[test]
fn status_record_layout() {
    let s = Stat::new_stdout_at(0x0102, 0x0a0b);
    let b = s.to_bytes();
    assert_eq!(b.len(), 88);
    assert_eq!(&b[0..8], &[1, 0, 0, 0, 0, 0, 0, 0]);
    assert_eq!(&b[16..20], &0o020666u32.to_le_bytes());
    assert_eq!(&b[24..28], &1000u32.to_le_bytes());
    assert_eq!(&b[40..48], &0x0102i64.to_le_bytes());
    assert_eq!(&b[80..88], &0x0a0bu64.to_le_bytes());
    let t = TimeT { sec: -1, nsec: 5 };
    let tb = t.to_bytes();
    assert_eq!(tb.len(), 16);
    assert_eq!(&tb[0..8], &[0xff; 8]);
    assert_eq!(&tb[8..16], &[5, 0, 0, 0, 0, 0, 0, 0]);
}

#[test]
fn frame_words_become_opaque_pixels() {
    let mut cpu = Cpu::new_userspace(CpuMode::RV32);
    let base = 0x10_0000u64;
    cpu.write_mem_u32(base, 0x7711_2233).unwrap();
    cpu.write_mem_u32(base + 4 * 201, 0x00ab_cdef).unwrap();
    let mut buf = vec![0u32; SCREEN_PIXELS as usize];
    frame_pixels(&mut cpu, base, &mut buf).unwrap();
    assert_eq!(buf[0], 0xff11_2233);
    assert_eq!(buf[201], 0xffab_cdef);
    assert_eq!(buf[5], 0xff00_0000);
    // a frame that runs past the heap is refused
    assert!(frame_pixels(&mut cpu, 0xff_ff00, &mut buf).is_err());
}

#[test]
fn key_transitions_fill_the_queue() {
    let keys = vec![0xad, 0xaf, 13];
    let before = vec![false, true, false];
    let now = vec![true, false, false];
    assert_eq!(key_queue_entries(&keys, &before, &now), vec![0x8000_00ad, 0xaf, 0xffff_ffff]);
    assert_eq!(key_queue_entries(&keys, &now, &now), vec![0xffff_ffff]);
}

#[test]
fn section_flags_read_as_text() {
    assert_eq!(SectionFlags::from_bits_truncate(0x6).flags_text(), "ALLOC | EXECINSTR");
    assert_eq!(SectionFlags::from_bits_truncate(0x1).flags_text(), "WRITE");
    assert_eq!(SectionFlags::from_bits_truncate(0x8).flags_text(), "NONE");
}

#[test]
fn host_reply_packing() {

    let b = timeval_bytes(0x0102, 7);
    assert_eq!(b.len(), 16);
    assert_eq!(&b[0..3], &[0x02, 0x01, 0]);
    assert_eq!(b[8], 7);
    assert_eq!(clock_word32(0x1_0000_0005, 9), (9u64 << 32) | 5);
    assert_eq!(blocks_of(0), 0);
    assert_eq!(blocks_of(1), 1);
    assert_eq!(blocks_of(1024), 2);
    assert_eq!(blocks_of(1025), 3);
}
