use risc_sim::cpu::memory::btree_memory::BTreeStorage;
use risc_sim::cpu::memory::hashmap_memory::{FxHashMemory, FxHashStorage};
use risc_sim::cpu::memory::memory_core::{le_load, Memory};
use risc_sim::cpu::memory::page_storage::{Page, PageMemory, PageStorage, PAGE_SIZE, PAGE_WORDS};
use risc_sim::cpu::memory::raw_memory::ContinuousMemory;
use risc_sim::cpu::memory::table_memory::TableMemoryPageStorage;
use risc_sim::cpu::memory::user_memory::{UserMemory, CUTOFF_ADDR};
use risc_sim::cpu::memory::vec_binsearch_memory::{VecBSearchPageStorage, VecBsearchMemory};
use risc_sim::cpu::memory::raw_page_storage::{RawPageStorage, RAW_PAGE_BYTES};
use risc_sim::cpu::memory::vec_memory::VecPageStorage;
use risc_sim::cpu::memory::vec_u8_memory::{FxBytePageStorage, VecU8Memory};
use risc_sim::error::EmuError;

/// Writes and reads back scalars of every width, across a page boundary too.
fn exercise<M: Memory>(mut m: M, base: u64) {
    assert_eq!(m.read_mem_u32(base).unwrap(), 0);
    m.write_mem_u32(base, 0xdead_beef).unwrap();
    assert_eq!(m.read_mem_u32(base).unwrap(), 0xdead_beef);
    assert_eq!(m.read_mem_u8(base).unwrap(), 0xef);
    assert_eq!(m.read_mem_u8(base + 3).unwrap(), 0xde);
    assert_eq!(m.read_mem_u16(base + 2).unwrap(), 0xdead);
    assert_eq!(m.read_mem_u64(base).unwrap(), 0xdead_beef);

    m.write_mem_u8(base + 1, 0x11).unwrap();
    assert_eq!(m.read_mem_u32(base).unwrap(), 0xdead_11ef);
    m.write_mem_u16(base + 6, 0xabcd).unwrap();
    assert_eq!(m.read_mem_u64(base).unwrap(), 0xabcd_0000_dead_11ef);

    m.write_mem_u64(base + 8, 0x0102_0304_0506_0708).unwrap();
    assert_eq!(m.read_mem_u32(base + 8).unwrap(), 0x0506_0708);
    assert_eq!(m.read_mem_u32(base + 12).unwrap(), 0x0102_0304);
    assert_eq!(m.read_mem_u16(base + 7).unwrap(), 0x08ab);
    // the word before the written ones is untouched
    assert_eq!(m.read_mem_u32(base + 16).unwrap(), 0);

    let mut buf = [0u8; 5];
    m.read_buf(base + 8, &mut buf).unwrap();
    assert_eq!(buf, [0x08, 0x07, 0x06, 0x05, 0x04]);
    m.write_buf(base + 20, &[1, 2, 3]).unwrap();
    assert_eq!(m.read_mem_u32(base + 20).unwrap(), 0x0003_0201);
}

#[test]
fn continuous_memory_reads_back_writes() {
    exercise(ContinuousMemory::new(0x1000, 64), 0x1000);
}

#[test]
fn continuous_memory_refuses_accesses_outside() {
    let mut m = ContinuousMemory::new(0x1000, 16);
    assert!(m.read_mem_u8(0xfff).is_err());
    assert!(m.read_mem_u32(0x1010).is_err());
    // a read that starts inside the block reads the bytes past its end as zero
    assert_eq!(m.read_mem_u32(0x100e).unwrap(), 0);
    assert!(m.read_mem_u16(0x100e).is_ok());
    assert!(m.write_mem_u64(0x100c, 1).is_err());
    // a refused write changes nothing
    assert_eq!(m.read_mem_u32(0x100c).unwrap(), 0);
    assert!(m.write_buf(0x100f, &[1, 2]).is_err());
    assert_eq!(m.read_mem_u8(0x100f).unwrap(), 0);
}

#[test]
fn continuous_memory_little_endian_helpers() {
    let mut m = ContinuousMemory::new(0, 16);
    m.write_le(4, 2, 0x1234).unwrap();
    assert_eq!(m.read_le(4, 2).unwrap(), 0x1234);
    assert_eq!(m.read_le(4, 1).unwrap(), 0x34);
    assert!(m.read_le(15, 2).is_err());
    assert_eq!(le_load(&[0x01, 0x02, 0x03, 0x04], 0, 4), 0x0403_0201);
    assert_eq!(le_load(&[0x01, 0x02, 0x03, 0x04], 1, 2), 0x0302);
}

#[test]
fn user_memory_serves_stack_and_heap() {
    let mut m = UserMemory::new(CUTOFF_ADDR + 0x100, 0, 0x100, 0x100);
    m.write_mem_u32(0x10, 7).unwrap();
    m.write_mem_u32(CUTOFF_ADDR + 0x110, 9).unwrap();
    assert_eq!(m.read_mem_u32(0x10).unwrap(), 7);
    assert_eq!(m.read_mem_u32(CUTOFF_ADDR + 0x110).unwrap(), 9);
    assert!(m.read_mem_u32(CUTOFF_ADDR).is_err());
    assert!(m.write_mem_u8(0x100, 1).is_err());
}

#[test]
fn vec_page_memory_reads_back_writes() {
    exercise(PageMemory::<VecPageStorage>::new(), PAGE_SIZE - 6);
}

#[test]
fn btree_page_memory_reads_back_writes() {
    exercise(PageMemory::<BTreeStorage>::new(), PAGE_SIZE - 6);
}

#[test]
fn table_page_memory_reads_back_writes() {
    exercise(PageMemory::<TableMemoryPageStorage>::new(), PAGE_SIZE - 6);
}

#[test]
fn fx_hash_page_memory_reads_back_writes() {
    exercise(FxHashMemory::new(), PAGE_SIZE - 6);
}

#[test]
fn bsearch_page_memory_reads_back_writes() {
    exercise(VecBsearchMemory::new(), PAGE_SIZE - 6);
}

#[test]
fn table_page_memory_refuses_pages_past_the_table() {
    let mut m = PageMemory::<TableMemoryPageStorage>::new();
    assert_eq!(m.write_mem_u8(4 * PAGE_SIZE, 1), Err(EmuError::OutOfBounds(4 * PAGE_SIZE)));
    assert_eq!(m.read_mem_u8(4 * PAGE_SIZE).unwrap(), 0);
    assert!(m.write_mem_u8(4 * PAGE_SIZE - 1, 1).is_ok());
}

#[test]
fn page_memory_refuses_reads_past_the_address_space() {
    let mut m = PageMemory::<VecPageStorage>::new();
    assert_eq!(m.read_mem_u32(u64::MAX - 1), Err(EmuError::OutOfBounds(u64::MAX - 1)));
    assert!(m.read_mem_u8(u64::MAX).is_ok());
}

#[test]
fn page_stores_count_written_pages() {
    let mut s = VecBSearchPageStorage::new();
    assert_eq!(s.len(), 0);
    s.set_word(5, 0, 1);
    s.set_word(2, 3, 7);
    s.set_word(5, 1, 2);
    assert_eq!(s.len(), 2);
    assert_eq!(s.pages[0].0, 2);
    assert_eq!(s.pages[1].0, 5);
    assert_eq!(s.get_page(5).unwrap().data[1], 2);
    assert_eq!(s.get_page(2).unwrap().data[3], 7);
    assert!(s.get_page(3).is_none());
    assert_eq!(s.get_page_id(5 * PAGE_SIZE + 17), 5);

    let mut h = FxHashStorage::new();
    h.set_word(9, 4, 44);
    assert_eq!(h.len(), 1);
    assert_eq!(h.get_page(9).unwrap().data[4], 44);
    assert_eq!(h.get_page(9).unwrap().data.len(), PAGE_WORDS);
    assert!(h.get_page(8).is_none());
}

#[test]
fn fresh_pages_are_zero() {
    let p = Page::new(3 * PAGE_SIZE);
    assert_eq!(p.position, 3 * PAGE_SIZE);
    assert_eq!(p.data.len(), PAGE_WORDS);
    assert!(p.data.iter().all(|w| *w == 0));
}

#[test]
fn byte_page_memory_reads_back_writes() {
    exercise(VecU8Memory::new(), PAGE_SIZE - 6);
}

#[test]
fn byte_page_store_counts_pages() {
    let mut s = FxBytePageStorage::new();
    assert!(s.is_empty());
    s.set_byte(7, 5, 0xaa);
    s.set_byte(7, 6, 0xbb);
    assert_eq!(s.len(), 1);
    assert!(!s.is_empty());
    let p = s.get_page(7).unwrap();
    assert_eq!(p.data.len(), RAW_PAGE_BYTES);
    assert_eq!((p.data[5], p.data[6], p.data[7]), (0xaa, 0xbb, 0));
    assert_eq!(p.position, 7 * PAGE_SIZE);
    assert!(s.get_page(6).is_none());
}

#[test]
fn memory_mapping_u64_continuous_at_the_end() {
    let value = 0x123456789abcdef0u64;
    for (offset, addr) in [(0u64, 0x1017u64), (0, 0x1), (0x5000, 0x800)] {
        let mut memory = ContinuousMemory::new(offset, 0x1024);
        let addr = addr + offset;
        memory.write_mem_u64(addr, value).unwrap();
        assert_eq!(memory.read_mem_u64(addr).unwrap(), value);
        assert_eq!(memory.read_mem_u64(addr + 1).unwrap(), 0x00123456789abcde);
        assert_eq!(memory.read_mem_u64(addr + 2).unwrap(), 0x0000123456789abc);
        assert_eq!(memory.read_mem_u64(addr + 3).unwrap(), 0x000000123456789a);
        assert_eq!(memory.read_mem_u64(addr + 4).unwrap(), 0x0000000012345678);
        assert_eq!(memory.read_mem_u64(addr + 5).unwrap(), 0x0000000000123456);
        assert_eq!(memory.read_mem_u64(addr + 6).unwrap(), 0x0000000000001234);
        assert_eq!(memory.read_mem_u64(addr + 7).unwrap(), 0x0000000000000012);
        assert_eq!(memory.read_mem_u64(addr + 8).unwrap(), 0x0000000000000000);
        assert_eq!(memory.read_mem_u64(addr - 1).unwrap(), 0x3456789abcdef000);
    }
}

#[test]
fn user_memory_regions_start_zeroed_and_stay_apart() {
    let sa = CUTOFF_ADDR + 0x1000;
    let mut m = UserMemory::new(sa, 0x100, 0x40, 0x40);
    assert_eq!(m.read_mem_u32(sa).unwrap(), 0);
    assert_eq!(m.read_mem_u64(0x100).unwrap(), 0);
    assert!(m.read_mem_u8(sa + 0x40).is_err());
    assert!(m.read_mem_u8(0x140).is_err());
    assert!(m.read_mem_u8(0xff).is_err());
    m.write_mem_u32(0x104, 0xdead_beef).unwrap();
    assert_eq!(m.read_mem_u32(sa + 4).unwrap(), 0);
    assert_eq!(m.read_mem_u32(0x104).unwrap(), 0xdead_beef);
    assert!(m.write_mem_u32(0x13e, 1).is_err());
}
