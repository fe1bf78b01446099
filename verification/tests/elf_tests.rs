use risc_sim::cpu::cpu_core::{Cpu, CpuMode};
use risc_sim::cpu::memory::memory_core::Memory;
use risc_sim::cpu::memory::raw_memory::ContinuousMemory;
use risc_sim::error::EmuError;
use risc_sim::elf::assembler::{
    decode_elf, decode_program_from_binary, load_program_to_memory, ElfError, ProgramHeaderType,
    SectionFlags, SectionType, WordSize, SECTION_FLAGS_KNOWN, SHF_ALLOC, SHF_EXECINSTR,
};

fn put(f: &mut Vec<u8>, off: usize, v: u64, n: usize) {
    for i in 0..n {
        f[off + i] = (v >> (8 * i)) as u8;
    }
}

const CODE: [u32; 4] = [
    0x02a0_0513, // addi a0, x0, 42
    0x0005_0593, // addi a1, a0, 0
    0x05d0_0893, // addi a7, x0, 93
    0x0000_0073, // ecall (exit)
];

/// A small 32-bit RISC-V executable: one loadable segment holding `CODE` at 0x1000, and the
/// sections `.text` and `.shstrtab`.
fn sample_elf() -> Vec<u8> {
    let mut f = vec![0u8; 0xf0];
    f[0..4].copy_from_slice(&[0x7f, b'E', b'L', b'F']);
    f[4] = 1; // 32-bit
    f[5] = 1; // little endian
    f[6] = 1; // version
    put(&mut f, 0x10, 2, 2); // executable
    put(&mut f, 0x12, 0xf3, 2); // RISC-V
    put(&mut f, 0x14, 1, 4);
    put(&mut f, 0x18, 0x1000, 4); // entry
    put(&mut f, 0x1c, 0x34, 4); // program headers
    put(&mut f, 0x20, 0x78, 4); // section headers
    put(&mut f, 0x28, 52, 2);
    put(&mut f, 0x2a, 32, 2);
    put(&mut f, 0x2c, 1, 2);
    put(&mut f, 0x2e, 40, 2);
    put(&mut f, 0x30, 3, 2);
    put(&mut f, 0x32, 2, 2);
    // program header
    put(&mut f, 0x34, 1, 4); // load
    put(&mut f, 0x38, 0x54, 4);
    put(&mut f, 0x3c, 0x1000, 4);
    put(&mut f, 0x40, 0x1000, 4);
    put(&mut f, 0x44, 16, 4);
    put(&mut f, 0x48, 16, 4);
    put(&mut f, 0x4c, 5, 4);
    put(&mut f, 0x50, 4, 4);
    for (i, w) in CODE.iter().enumerate() {
        put(&mut f, 0x54 + 4 * i, *w as u64, 4);
    }
    f[0x64..0x75].copy_from_slice(b"\0.text\0.shstrtab\0");
    // section 1: .text
    let s1 = 0x78 + 40;
    put(&mut f, s1, 1, 4);
    put(&mut f, s1 + 4, 1, 4);
    put(&mut f, s1 + 8, SHF_ALLOC | SHF_EXECINSTR, 4);
    put(&mut f, s1 + 0xc, 0x1000, 4);
    put(&mut f, s1 + 0x10, 0x54, 4);
    put(&mut f, s1 + 0x14, 16, 4);
    // section 2: .shstrtab
    let s2 = 0x78 + 80;
    put(&mut f, s2, 7, 4);
    put(&mut f, s2 + 4, 3, 4);
    put(&mut f, s2 + 0x10, 0x64, 4);
    put(&mut f, s2 + 0x14, 17, 4);
    f
}

#[test]
fn decodes_a_small_executable() {
    let f = sample_elf();
    let elf = decode_elf(&f).unwrap();
    assert_eq!(elf.header.word_size, WordSize::W32);
    assert_eq!(elf.header.entry_point, 0x1000);
    assert_eq!(elf.header.program_header_count, 1);
    assert_eq!(elf.program_headers.len(), 1);
    let ph = &elf.program_headers[0];
    assert_eq!(ph.header_type, ProgramHeaderType::Load);
    assert_eq!(ph.virtual_address, 0x1000);
    assert_eq!(ph.data, f[0x54..0x64].to_vec());
    assert_eq!(elf.section_headers.len(), 3);
    assert_eq!(elf.section_headers[1].name, b".text".to_vec());
    assert_eq!(elf.section_headers[1].section_type, SectionType::SHT_PROGBITS);
    assert!(elf.section_headers[1].flags.contains(SHF_ALLOC | SHF_EXECINSTR));
    assert_eq!(elf.section_headers[2].name, b".shstrtab".to_vec());
    assert_eq!(elf.section_headers[0].name, Vec::<u8>::new());
}

#[test]
fn refuses_broken_files() {
    let f = sample_elf();
    let mut bad = f.clone();
    bad[0] = 0;
    assert_eq!(decode_elf(&bad).err(), Some(ElfError::BadMagic));
    let mut bad = f.clone();
    bad[4] = 3;
    assert_eq!(decode_elf(&bad).err(), Some(ElfError::InvalidWordSize(3)));
    let mut bad = f.clone();
    bad[5] = 0;
    assert_eq!(decode_elf(&bad).err(), Some(ElfError::InvalidEndian(0)));
    let mut bad = f.clone();
    put(&mut bad, 0x10, 9, 2);
    assert_eq!(decode_elf(&bad).err(), Some(ElfError::InvalidElfType(9)));
    assert_eq!(decode_elf(&f[..0x60]).err(), Some(ElfError::Truncated));
    assert_eq!(decode_elf(&f[..4]).err(), Some(ElfError::Truncated));
}

#[test]
fn loads_and_runs_an_executable() {
    let elf = decode_elf(&sample_elf()).unwrap();
    let mut cpu = Cpu::new_userspace(CpuMode::RV32);
    cpu.load_program_from_elf(elf).unwrap();
    assert_eq!(cpu.read_pc_u64(), 0x1000);
    assert_eq!(cpu.read_x_u32(2), 0xbfff_ff00);
    assert_eq!(cpu.memory.read_mem_u32(0x1004).unwrap(), CODE[1]);
    cpu.run_cycles(4).unwrap();
    assert_eq!(cpu.read_x_u32(11), 42);
    assert!(cpu.halted());
}

#[test]
fn loads_segments_into_any_memory() {
    let elf = decode_elf(&sample_elf()).unwrap();
    let mut m = ContinuousMemory::new(0, 0x2000);
    let p = load_program_to_memory(elf, &mut m, CpuMode::RV32).unwrap();
    assert_eq!(p.entry_point, 0x1000);
    assert_eq!(m.read_mem_u32(0x100c).unwrap(), CODE[3]);
}

#[test]
fn decodes_raw_programs() {
    let lines = decode_program_from_binary(&CODE, CpuMode::RV32).unwrap();
    assert_eq!(lines.len(), 4);
    assert_eq!(lines[3].instruction.name, "ECALL");
    assert!(decode_program_from_binary(&[0xffff_ffff], CpuMode::RV32).is_err());
}

#[test]
fn section_flags_keep_named_bits() {
    let f = SectionFlags::from_bits_truncate(u64::MAX);
    assert_eq!(f.0, SECTION_FLAGS_KNOWN);
    assert!(f.contains(SHF_ALLOC));
    assert!(!SectionFlags::from_bits_truncate(0x8).contains(0x8));
}

#[test]
fn section_flag_names() {
    assert_eq!(SectionFlags::from_bits_truncate(0x6).flag_names(), vec!["ALLOC", "EXECINSTR"]);
    assert!(SectionFlags::from_bits_truncate(0x8).flag_names().is_empty());
    assert_eq!(
        SectionFlags::from_bits_truncate(0xf000_0001).flag_names(),
        vec!["WRITE", "MASKPROC", "ORDERED", "EXCLUDE"]
    );
    assert_eq!(SectionFlags::from_bits_truncate(0x0010_0000).flag_names(), Vec::<&str>::new());
    assert_eq!(SectionFlags::from_bits_truncate(0x0ff0_0000).flag_names(), vec!["MASKOS"]);
}

#[test]
fn reports_text_section_and_its_lines() {
    let elf = decode_elf(&sample_elf()).unwrap();
    let mut m = ContinuousMemory::new(0, 0x2000);
    let p = load_program_to_memory(elf, &mut m, CpuMode::RV32).unwrap();
    assert_eq!(p.program_memory_offset, 0x1000);
    assert_eq!(p.program_size, 16);
    let words: Vec<u32> = p.lines.iter().map(|l| l.word.0).collect();
    assert_eq!(words, CODE.to_vec());
    assert_eq!(p.lines[3].instruction.name, "ECALL");
}

#[test]
fn refuses_a_ragged_text_section() {
    let mut f = sample_elf();
    put(&mut f, 0x78 + 40 + 0x14, 15, 4);
    let elf = decode_elf(&f).unwrap();
    let mut m = ContinuousMemory::new(0, 0x2000);
    assert_eq!(
        load_program_to_memory(elf, &mut m, CpuMode::RV32).err(),
        Some(EmuError::OutOfBounds(0x1000))
    );
}

#[test]
fn refuses_a_store_outside_memory() {
    let elf = decode_elf(&sample_elf()).unwrap();
    let mut m = ContinuousMemory::new(0, 0x100);
    assert!(load_program_to_memory(elf, &mut m, CpuMode::RV32).is_err());
}

/// A small 64-bit RISC-V executable: one loadable segment holding `CODE` at 0x1000 and no
/// sections.
fn sample_elf64() -> Vec<u8> {
    let mut f = vec![0u8; 0x88];
    f[0..4].copy_from_slice(&[0x7f, b'E', b'L', b'F']);
    f[4] = 2; // 64-bit
    f[5] = 1; // little endian
    f[6] = 1;
    put(&mut f, 0x10, 2, 2);
    put(&mut f, 0x12, 0xf3, 2);
    put(&mut f, 0x14, 1, 4);
    put(&mut f, 0x18, 0x1000, 8); // entry
    put(&mut f, 0x20, 0x40, 8); // program headers
    put(&mut f, 0x28, 0, 8); // no section headers
    put(&mut f, 0x34, 0x40, 2);
    put(&mut f, 0x36, 0x38, 2);
    put(&mut f, 0x38, 1, 2);
    put(&mut f, 0x3a, 0x40, 2);
    // program header
    put(&mut f, 0x40, 1, 4); // load
    put(&mut f, 0x44, 5, 4); // flags
    put(&mut f, 0x48, 0x78, 8); // offset
    put(&mut f, 0x50, 0x1000, 8); // virtual address
    put(&mut f, 0x58, 0x2000, 8); // physical address
    put(&mut f, 0x60, 16, 8); // file size
    put(&mut f, 0x68, 24, 8); // memory size
    put(&mut f, 0x70, 8, 8); // alignment
    for (i, w) in CODE.iter().enumerate() {
        put(&mut f, 0x78 + 4 * i, *w as u64, 4);
    }
    f
}

#[test]
fn decodes_64_bit_program_headers() {
    let f = sample_elf64();
    let elf = decode_elf(&f).unwrap();
    assert_eq!(elf.header.word_size, WordSize::W64);
    assert_eq!(elf.header.entry_point, 0x1000);
    assert_eq!(elf.program_headers.len(), 1);
    let ph = &elf.program_headers[0];
    assert_eq!(ph.header_type, ProgramHeaderType::Load);
    assert_eq!(ph.flags, 5);
    assert_eq!(ph.segment_offset, 0x78);
    assert_eq!(ph.virtual_address, 0x1000);
    assert_eq!(ph.physical_address, 0x2000);
    assert_eq!(ph.file_size, 16);
    assert_eq!(ph.memory_size, 24);
    assert_eq!(ph.alignment, 8);
    assert_eq!(ph.data, f[0x78..0x88].to_vec());
    let mut m = ContinuousMemory::new(0, 0x2000);
    load_program_to_memory(elf, &mut m, CpuMode::RV64).unwrap();
    assert_eq!(m.read_mem_u32(0x1008).unwrap(), CODE[2]);
    assert!(decode_elf(&f[..0x70]).is_err());
}
