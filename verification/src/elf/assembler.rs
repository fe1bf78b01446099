use vstd::prelude::*;
use vstd::string::StringExecFns;

use crate::cpu::cpu_core::CpuMode;
use crate::cpu::memory::memory_core::{le_load, le_value, Memory};
use crate::error::EmuError;
use crate::types::{decode_program_line, decodes_to, no_match, spec_all_instructions, ProgramLine, Word};

verus! {

/// Word size of an ELF file.
#[derive(Clone, Copy, PartialEq, Eq, Structural, Debug)]
pub enum WordSize {
    W32,
    W64,
}

/// Byte order of an ELF file.
#[derive(Clone, Copy, PartialEq, Eq, Structural, Debug)]
pub enum Endian {
    Little,
    Big,
}

/// Operating-system ABI of an ELF file.
#[derive(Clone, Copy, PartialEq, Eq, Structural, Debug)]
pub enum ABI {
    SystemV,
    Other,
}

/// Kind of an ELF file.
#[derive(Clone, Copy, PartialEq, Eq, Structural, Debug)]
pub enum ELFType {
    Relocatable,
    Executable,
    Shared,
    Core,
    Unknown,
}

/// Target architecture of an ELF file.
#[derive(Clone, Copy, PartialEq, Eq, Structural, Debug)]
pub enum ISA {
    RISCV,
    X86,
    ARM,
    MIPS,
    PPC,
    SPARC,
    OTHER,
}

/// The file header of an ELF file.
#[derive(Clone, Copy, PartialEq, Eq, Structural, Debug)]
pub struct ELFHeader {
    pub word_size: WordSize,
    pub endian: Endian,
    pub version: u8,
    pub abi: ABI,
    pub elf_type: ELFType,
    pub isa: ISA,
    pub entry_point: u64,
    pub program_header_table_offset: u64,
    pub section_header_table_offset: u64,
    pub header_size: u16,
    pub program_header_size: u16,
    pub program_header_count: u16,
    pub section_header_size: u16,
    pub section_header_count: u16,
    pub section_header_string_table_index: u16,
}

/// Kinds of sections.
#[allow(non_camel_case_types)]
#[derive(Clone, Copy, PartialEq, Eq, Structural, Debug)]
pub enum SectionType {
    SHT_NULL,
    SHT_PROGBITS,
    SHT_SYMTAB,
    SHT_STRTAB,
    SHT_RELA,
    SHT_HASH,
    SHT_DYNAMIC,
    SHT_NOTE,
    SHT_NOBITS,
    SHT_REL,
    SHT_SHLIB,
    SHT_DYNSYM,
    SHT_INIT_ARRAY,
    SHT_FINI_ARRAY,
    SHT_PREINIT_ARRAY,
    SHT_GROUP,
    SHT_SYMTAB_SHNDX,
    SHT_NUM,
    SHT_LOOS,
}

/// The flags of a section; only the known flag bits are kept.
#[derive(Clone, Copy, PartialEq, Eq, Structural, Debug)]
pub struct SectionFlags(pub u64);

/// All flag bits that have a name.
pub const SECTION_FLAGS_KNOWN: u64 = 0xfff0_07f7;

pub const SHF_WRITE: u64 = 0x1;
pub const SHF_ALLOC: u64 = 0x2;
pub const SHF_EXECINSTR: u64 = 0x4;

impl SectionFlags {
    /// The flags of `raw` that have a name.
    pub fn from_bits_truncate(raw: u64) -> (r: SectionFlags)
        ensures
            r.0 == raw & SECTION_FLAGS_KNOWN,
    {
        SectionFlags(raw & SECTION_FLAGS_KNOWN)
    }

    /// Whether every flag of `other` is set.
    pub fn contains(&self, other: u64) -> (r: bool)
        ensures
            r == (self.0 & other == other),
    {
        self.0 & other == other
    }

    /// The names of the flags that are set, in the order of `section_flag_table`.
    pub fn flag_names(&self) -> (r: Vec<&'static str>)
        ensures
            r@ == flag_names_from(section_flag_table(), self.0),
    {
        let table = section_flags();
        let mut r: Vec<&'static str> = Vec::new();
        let mut i: usize = 0;
        while i < table.len()
            invariant
                table@ == section_flag_table(),
                i <= table@.len(),
                r@ == flag_names_from(table@.take(i as int), self.0),
            decreases table@.len() - i,
        {
            let (mask, name) = table[i];
            if self.0 & mask == mask {
                r.push(name);
            }
            assert(table@.take(i + 1).drop_last() =~= table@.take(i as int));
            i = i + 1;
        }
        assert(table@.take(table@.len() as int) =~= table@);
        r
    }
}

/// The named section flags with their masks.
pub open spec fn section_flag_table() -> Seq<(u64, &'static str)> {
    seq![
        (0x1u64, "WRITE"),
        (0x2u64, "ALLOC"),
        (0x4u64, "EXECINSTR"),
        (0x10u64, "MERGE"),
        (0x20u64, "STRINGS"),
        (0x40u64, "INFO_LINK"),
        (0x80u64, "LINK_ORDER"),
        (0x100u64, "OS_NONCONFORMING"),
        (0x200u64, "GROUP"),
        (0x400u64, "TLS"),
        (0x0ff0_0000u64, "MASKOS"),
        (0xf000_0000u64, "MASKPROC"),
        (0x4000_0000u64, "ORDERED"),
        (0x8000_0000u64, "EXCLUDE"),
    ]
}

/// The named section flags with their masks.
fn section_flags() -> (v: Vec<(u64, &'static str)>)
    ensures
        v@ == section_flag_table(),
{
    let v: Vec<(u64, &'static str)> = vec![
        (0x1u64, "WRITE"),
        (0x2u64, "ALLOC"),
        (0x4u64, "EXECINSTR"),
        (0x10u64, "MERGE"),
        (0x20u64, "STRINGS"),
        (0x40u64, "INFO_LINK"),
        (0x80u64, "LINK_ORDER"),
        (0x100u64, "OS_NONCONFORMING"),
        (0x200u64, "GROUP"),
        (0x400u64, "TLS"),
        (0x0ff0_0000u64, "MASKOS"),
        (0xf000_0000u64, "MASKPROC"),
        (0x4000_0000u64, "ORDERED"),
        (0x8000_0000u64, "EXCLUDE"),
    ];
    assert(v@ =~= section_flag_table());
    v
}

/// `names` joined by ` | `.
pub open spec fn joined_names(names: Seq<&'static str>) -> Seq<char>
    decreases names.len(),
{
    if names.len() <= 1 {
        if names.len() == 0 { Seq::empty() } else { names[0]@ }
    } else {
        joined_names(names.drop_last()) + " | "@ + names.last()@
    }
}

/// The text of a set of section flags: the names of those set, joined by ` | `, or `NONE`.
pub open spec fn flags_text_of(flags: u64) -> Seq<char> {
    let names = flag_names_from(section_flag_table(), flags);
    if names.len() == 0 { "NONE"@ } else { joined_names(names) }
}

impl SectionFlags {
    /// The text of the flags: the names of those set joined by ` | `, or `NONE` when none is.
    pub fn flags_text(&self) -> (r: String)
        ensures
            r@ == flags_text_of(self.0),
    {
        let names = self.flag_names();
        if names.len() == 0 {
            return String::from_str("NONE");
        }
        let mut s = String::from_str(names[0]);
        let mut i: usize = 1;
        assert(names@.take(1) =~= seq![names@[0]]);
        while i < names.len()
            invariant
                1 <= i <= names@.len(),
                s@ == joined_names(names@.take(i as int)),
            decreases names@.len() - i,
        {
            s.append(" | ");
            s.append(names[i]);
            assert(names@.take(i + 1).drop_last() =~= names@.take(i as int));
            i = i + 1;
        }
        assert(names@.take(names@.len() as int) =~= names@);
        s
    }
}

/// The names of the entries of `t` whose masks are all set in `bits`, in order.
pub open spec fn flag_names_from(t: Seq<(u64, &'static str)>, bits: u64) -> Seq<&'static str>
    decreases t.len(),
{
    if t.len() == 0 {
        Seq::empty()
    } else {
        let rest = flag_names_from(t.drop_last(), bits);
        if bits & t.last().0 == t.last().0 {
            rest.push(t.last().1)
        } else {
            rest
        }
    }
}

/// A section of an ELF file.
#[derive(Clone, Debug)]
pub struct Section {
    pub name: Vec<u8>,
    pub section_type: SectionType,
    pub flags: SectionFlags,
    pub addr: u64,
    pub offset: u64,
    pub size: u64,
    pub data: Vec<u8>,
}

/// Kinds of program headers.
#[derive(Clone, Copy, PartialEq, Eq, Structural, Debug)]
pub enum ProgramHeaderType {
    Load,
    Dynamic,
    Interp,
    Note,
    Shlib,
    Phdr,
    Tls,
    Loos,
    Hios,
    Loproc,
    Hiproc,
    Unknown(u32),
}

/// A program header (segment) of an ELF file.
#[derive(Clone, Debug)]
pub struct ProgramHeader {
    pub header_type: ProgramHeaderType,
    pub flags: u32,
    pub segment_offset: u64,
    pub virtual_address: u64,
    pub physical_address: u64,
    pub file_size: u64,
    pub memory_size: u64,
    pub alignment: u64,
    pub data: Vec<u8>,
}

/// A decoded ELF file.
pub struct ElfFile {
    pub header: ELFHeader,
    pub program_headers: Vec<ProgramHeader>,
    pub section_headers: Vec<Section>,
}

/// Reasons an ELF file is refused.
#[derive(Clone, Copy, PartialEq, Eq, Structural, Debug)]
pub enum ElfError {
    /// The file does not start with the ELF magic number.
    BadMagic,
    /// The word-size byte is neither 1 nor 2.
    InvalidWordSize(u8),
    /// The byte-order byte is neither 1 nor 2.
    InvalidEndian(u8),
    /// The file type is not one of the five known ones.
    InvalidElfType(u16),
    /// A field or a data range lies past the end of the file.
    Truncated,
}

/// The little-endian value of `w` bytes of `f` at `off`.
pub open spec fn le_at(f: Seq<u8>, off: int, w: nat) -> u64 {
    le_value(f, off, w) as u64
}

/// The `w` bytes at `off` lie inside `f`.
pub open spec fn in_file(f: Seq<u8>, off: int, w: int) -> bool {
    0 <= off && off + w <= f.len()
}

/// The word size named by the class byte.
pub open spec fn spec_word_size(b: u8) -> Option<WordSize> {
    if b == 1 { Some(WordSize::W32) } else if b == 2 { Some(WordSize::W64) } else { None }
}

/// The byte order named by the data byte.
pub open spec fn spec_endian(b: u8) -> Option<Endian> {
    if b == 1 { Some(Endian::Little) } else if b == 2 { Some(Endian::Big) } else { None }
}

/// The file type named by `e_type`.
pub open spec fn spec_elf_type(v: u16) -> Option<ELFType> {
    if v == 0 {
        Some(ELFType::Unknown)
    } else if v == 1 {
        Some(ELFType::Relocatable)
    } else if v == 2 {
        Some(ELFType::Executable)
    } else if v == 3 {
        Some(ELFType::Shared)
    } else if v == 4 {
        Some(ELFType::Core)
    } else {
        None
    }
}

/// The architecture named by `e_machine`.
pub open spec fn spec_isa(v: u16) -> ISA {
    if v == 0xf3 {
        ISA::RISCV
    } else if v == 0x3e {
        ISA::X86
    } else if v == 0xb7 {
        ISA::ARM
    } else if v == 0x8c {
        ISA::MIPS
    } else if v == 0x14 {
        ISA::PPC
    } else if v == 0x2b {
        ISA::SPARC
    } else {
        ISA::OTHER
    }
}

/// The field at `off32` (4 bytes) of a 32-bit file or at `off64` (8 bytes) of a 64-bit one.
pub open spec fn word_at(f: Seq<u8>, ws: WordSize, off32: int, off64: int) -> u64 {
    match ws {
        WordSize::W32 => le_at(f, off32, 4),
        WordSize::W64 => le_at(f, off64, 8),
    }
}

/// The 16-bit field at `off32` of a 32-bit file or at `off64` of a 64-bit one.
pub open spec fn half_at(f: Seq<u8>, ws: WordSize, off32: int, off64: int) -> u16 {
    match ws {
        WordSize::W32 => le_at(f, off32, 2) as u16,
        WordSize::W64 => le_at(f, off64, 2) as u16,
    }
}

/// The file header of `f`, or `None` when it is refused: wrong magic, unknown class, byte
/// order or type, or a header longer than the file.
pub open spec fn spec_header(f: Seq<u8>) -> Option<ELFHeader> {
    if f.len() < 8 || f[0] != 0x7f || f[1] != 0x45 || f[2] != 0x4c || f[3] != 0x46 {
        None
    } else {
        match (spec_word_size(f[4]), spec_endian(f[5])) {
            (Some(ws), Some(endian)) => {
                let end = if ws == WordSize::W32 { 0x34int } else { 0x40int };
                if f.len() < end {
                    None
                } else {
                    match spec_elf_type(le_at(f, 0x10, 2) as u16) {
                        None => None,
                        Some(t) => Some(
                            ELFHeader {
                                word_size: ws,
                                endian,
                                version: f[6],
                                abi: if f[7] == 0 { ABI::SystemV } else { ABI::Other },
                                elf_type: t,
                                isa: spec_isa(le_at(f, 0x12, 2) as u16),
                                entry_point: word_at(f, ws, 0x18, 0x18),
                                program_header_table_offset: word_at(f, ws, 0x1c, 0x20),
                                section_header_table_offset: word_at(f, ws, 0x20, 0x28),
                                header_size: half_at(f, ws, 0x28, 0x34),
                                program_header_size: half_at(f, ws, 0x2a, 0x36),
                                program_header_count: half_at(f, ws, 0x2c, 0x38),
                                section_header_size: half_at(f, ws, 0x2e, 0x3a),
                                section_header_count: half_at(f, ws, 0x30, 0x3c),
                                section_header_string_table_index: half_at(f, ws, 0x32, 0x3e),
                            },
                        ),
                    }
                }
            },
            _ => None,
        }
    }
}

/// The kind named by a program header's type field.
pub open spec fn spec_ph_type(v: u32) -> ProgramHeaderType {
    if v == 1 {
        ProgramHeaderType::Load
    } else if v == 2 {
        ProgramHeaderType::Dynamic
    } else if v == 3 {
        ProgramHeaderType::Interp
    } else if v == 4 {
        ProgramHeaderType::Note
    } else if v == 5 {
        ProgramHeaderType::Shlib
    } else if v == 6 {
        ProgramHeaderType::Phdr
    } else if v == 7 {
        ProgramHeaderType::Tls
    } else if v == 0x60000000 {
        ProgramHeaderType::Loos
    } else if v == 0x6fffffff {
        ProgramHeaderType::Hios
    } else if v == 0x70000000 {
        ProgramHeaderType::Loproc
    } else if v == 0x7fffffff {
        ProgramHeaderType::Hiproc
    } else {
        ProgramHeaderType::Unknown(v)
    }
}

/// Offset of entry `i` of a header table at `table` with entries of `size` bytes.
pub open spec fn entry_offset(table: u64, i: int, size: u16) -> int {
    table + i * size
}

/// Size of a program header of a file of word size `ws`.
pub open spec fn ph_size(ws: WordSize) -> int {
    match ws {
        WordSize::W32 => 0x20,
        WordSize::W64 => 0x38,
    }
}

/// Program header at `off` can be read: its fields lie inside the file and, for a loadable
/// segment, its data too.
pub open spec fn ph_ok(f: Seq<u8>, ws: WordSize, off: int) -> bool {
    &&& off <= u64::MAX
    &&& in_file(f, off, ph_size(ws))
    &&& spec_ph_type(le_at(f, off, 4) as u32) == ProgramHeaderType::Load ==> {
        let so = word_at(f, ws, off + 4, off + 8);
        let fs = word_at(f, ws, off + 0x10, off + 0x20);
        so + fs <= f.len()
    }
}

/// `ph` is the program header at `off` of a file `f` of word size `ws`: a 32-bit header holds
/// type, offset, virtual and physical address, file and memory size, flags and alignment in
/// 4-byte fields; a 64-bit one holds type and flags in 4-byte fields and the rest in 8-byte
/// fields.
pub open spec fn ph_matches(f: Seq<u8>, ws: WordSize, off: int, ph: ProgramHeader) -> bool {
    &&& ph.header_type == spec_ph_type(le_at(f, off, 4) as u32)
    &&& ph.flags == (if ws == WordSize::W32 { le_at(f, off + 0x18, 4) } else { le_at(f, off + 4, 4) }) as u32
    &&& ph.segment_offset == word_at(f, ws, off + 4, off + 8)
    &&& ph.virtual_address == word_at(f, ws, off + 8, off + 0x10)
    &&& ph.physical_address == word_at(f, ws, off + 0xc, off + 0x18)
    &&& ph.file_size == word_at(f, ws, off + 0x10, off + 0x20)
    &&& ph.memory_size == word_at(f, ws, off + 0x14, off + 0x28)
    &&& ph.alignment == word_at(f, ws, off + 0x1c, off + 0x30)
    &&& ph.data@ == (if ph.header_type == ProgramHeaderType::Load {
        f.subrange(ph.segment_offset as int, ph.segment_offset + ph.file_size)
    } else {
        Seq::empty()
    })
}

/// The kind named by a section's type field.
pub open spec fn spec_section_type(v: u32) -> SectionType {
    if v == 0 {
        SectionType::SHT_NULL
    } else if v == 1 {
        SectionType::SHT_PROGBITS
    } else if v == 2 {
        SectionType::SHT_SYMTAB
    } else if v == 3 {
        SectionType::SHT_STRTAB
    } else if v == 4 {
        SectionType::SHT_RELA
    } else if v == 5 {
        SectionType::SHT_HASH
    } else if v == 6 {
        SectionType::SHT_DYNAMIC
    } else if v == 7 {
        SectionType::SHT_NOTE
    } else if v == 8 {
        SectionType::SHT_NOBITS
    } else if v == 9 {
        SectionType::SHT_REL
    } else if v == 10 {
        SectionType::SHT_SHLIB
    } else if v == 11 {
        SectionType::SHT_DYNSYM
    } else if v == 14 {
        SectionType::SHT_INIT_ARRAY
    } else if v == 15 {
        SectionType::SHT_FINI_ARRAY
    } else if v == 16 {
        SectionType::SHT_PREINIT_ARRAY
    } else if v == 17 {
        SectionType::SHT_GROUP
    } else if v == 18 {
        SectionType::SHT_SYMTAB_SHNDX
    } else if v == 0x6ffffffa {
        SectionType::SHT_LOOS
    } else {
        SectionType::SHT_NUM
    }
}

/// The end of the zero-terminated string starting at `j`: its first zero byte, or the end of
/// the file.
pub open spec fn string_end(f: Seq<u8>, j: int) -> int
    decreases f.len() - j,
{
    if j >= f.len() || j < 0 {
        f.len() as int
    } else if f[j] == 0 {
        j
    } else {
        string_end(f, j + 1)
    }
}

/// Offset in the file of the section-name string table.
pub open spec fn strtab_offset(f: Seq<u8>, h: ELFHeader) -> u64 {
    let off = entry_offset(h.section_header_table_offset, h.section_header_string_table_index as int, h.section_header_size);
    word_at(f, h.word_size, off + 0x10, off + 0x18)
}

/// The header of the section-name string table can be read.
pub open spec fn strtab_ok(f: Seq<u8>, h: ELFHeader) -> bool {
    let off = entry_offset(h.section_header_table_offset, h.section_header_string_table_index as int, h.section_header_size);
    &&& off <= u64::MAX
    &&& in_file(f, off, if h.word_size == WordSize::W32 { 0x14 } else { 0x20 })
}

/// The section header at `off` can be read: its name inside the file, its fields and its data.
pub open spec fn section_ok(f: Seq<u8>, ws: WordSize, off: int, strtab: u64) -> bool {
    let start = strtab + le_at(f, off, 4);
    &&& off <= u64::MAX
    &&& in_file(f, off, if ws == WordSize::W32 { 0x18 } else { 0x28 })
    &&& start <= f.len()
    &&& word_at(f, ws, off + 0x10, off + 0x18) + word_at(f, ws, off + 0x14, off + 0x20) <= f.len()
}

/// `s` is the section at `off` of `f`.
pub open spec fn section_matches(f: Seq<u8>, ws: WordSize, off: int, strtab: u64, s: Section) -> bool {
    let start = strtab + le_at(f, off, 4);
    &&& s.name@ == f.subrange(start, string_end(f, start))
    &&& s.section_type == spec_section_type(le_at(f, off + 4, 4) as u32)
    &&& s.flags.0 == word_at(f, ws, off + 8, off + 8) & SECTION_FLAGS_KNOWN
    &&& s.addr == word_at(f, ws, off + 0xc, off + 0x10)
    &&& s.offset == word_at(f, ws, off + 0x10, off + 0x18)
    &&& s.size == word_at(f, ws, off + 0x14, off + 0x20)
    &&& s.data@ == f.subrange(s.offset as int, s.offset + s.size)
}

/// `f` is an ELF file the decoder accepts.
pub open spec fn elf_ok(f: Seq<u8>) -> bool {
    match spec_header(f) {
        None => false,
        Some(h) => {
            &&& forall|i: int|
                0 <= i < h.program_header_count ==> #[trigger] ph_ok(
                    f,
                    h.word_size,
                    entry_offset(h.program_header_table_offset, i, h.program_header_size),
                )
            &&& strtab_ok(f, h)
            &&& forall|i: int|
                0 <= i < h.section_header_count ==> #[trigger] section_ok(
                    f,
                    h.word_size,
                    entry_offset(h.section_header_table_offset, i, h.section_header_size),
                    strtab_offset(f, h),
                )
        },
    }
}

/// `e` is the decoding of `f`.
pub open spec fn elf_matches(f: Seq<u8>, e: ElfFile) -> bool {
    let h = e.header;
    &&& spec_header(f) == Some(h)
    &&& e.program_headers@.len() == h.program_header_count
    &&& forall|i: int|
        0 <= i < h.program_header_count ==> ph_matches(
            f,
            h.word_size,
            entry_offset(h.program_header_table_offset, i, h.program_header_size),
            #[trigger] e.program_headers@[i],
        )
    &&& e.section_headers@.len() == h.section_header_count
    &&& forall|i: int|
        0 <= i < h.section_header_count ==> section_matches(
            f,
            h.word_size,
            entry_offset(h.section_header_table_offset, i, h.section_header_size),
            strtab_offset(f, h),
            #[trigger] e.section_headers@[i],
        )
}

/// Reads the little-endian field of `w` bytes at `off`.
fn field(f: &[u8], off: u64, w: usize) -> (r: Result<u64, ElfError>)
    requires
        w <= 8,
    ensures
        r is Ok <==> in_file(f@, off as int, w as int),
        r is Ok ==> r->Ok_0 == le_at(f@, off as int, w as nat),
{
    let n = f.len() as u64;
    if off > n || n - off < w as u64 {
        return Err(ElfError::Truncated);
    }
    Ok(le_load(f, off as usize, w))
}

/// Reads a word-size field: 4 bytes at `off32` in a 32-bit file, 8 bytes at `off64` in a
/// 64-bit one.
fn word_field(f: &[u8], ws: WordSize, off32: u64, off64: u64) -> (r: Result<u64, ElfError>)
    ensures
        r is Ok <==> (if ws == WordSize::W32 { in_file(f@, off32 as int, 4) } else { in_file(f@, off64 as int, 8) }),
        r is Ok ==> r->Ok_0 == word_at(f@, ws, off32 as int, off64 as int),
{
    match ws {
        WordSize::W32 => field(f, off32, 4),
        WordSize::W64 => field(f, off64, 8),
    }
}

/// The bytes `start..start + len` of the file.
fn copy_range(f: &[u8], start: u64, len: u64) -> (r: Vec<u8>)
    requires
        start + len <= f.len(),
    ensures
        r@ == f@.subrange(start as int, start + len),
{
    let mut v: Vec<u8> = Vec::new();
    let mut i: u64 = 0;
    while i < len
        invariant
            start + len <= f.len(),
            i <= len,
            v@ == f@.subrange(start as int, start + i),
        decreases len - i,
    {
        v.push(f[(start + i) as usize]);
        i = i + 1;
        assert(v@ =~= f@.subrange(start as int, start + i));
    }
    v
}

/// The header fields of a decodable file.
fn decode_header(f: &[u8]) -> (r: Result<ELFHeader, ElfError>)
    ensures
        match r {
            Ok(h) => spec_header(f@) == Some(h),
            Err(_) => spec_header(f@) is None,
        },
{
    if f.len() < 8 {
        return Err(ElfError::Truncated);
    }
    if f[0] != 0x7f || f[1] != 0x45 || f[2] != 0x4c || f[3] != 0x46 {
        return Err(ElfError::BadMagic);
    }
    let ws = if f[4] == 1 {
        WordSize::W32
    } else if f[4] == 2 {
        WordSize::W64
    } else {
        return Err(ElfError::InvalidWordSize(f[4]));
    };
    let endian = if f[5] == 1 {
        Endian::Little
    } else if f[5] == 2 {
        Endian::Big
    } else {
        return Err(ElfError::InvalidEndian(f[5]));
    };
    let end: usize = if ws == WordSize::W32 { 0x34 } else { 0x40 };
    if f.len() < end {
        return Err(ElfError::Truncated);
    }
    let t = field(f, 0x10, 2)? as u16;
    let elf_type = if t == 0 {
        ELFType::Unknown
    } else if t == 1 {
        ELFType::Relocatable
    } else if t == 2 {
        ELFType::Executable
    } else if t == 3 {
        ELFType::Shared
    } else if t == 4 {
        ELFType::Core
    } else {
        return Err(ElfError::InvalidElfType(t));
    };
    let m = field(f, 0x12, 2)? as u16;
    let isa = if m == 0xf3 {
        ISA::RISCV
    } else if m == 0x3e {
        ISA::X86
    } else if m == 0xb7 {
        ISA::ARM
    } else if m == 0x8c {
        ISA::MIPS
    } else if m == 0x14 {
        ISA::PPC
    } else if m == 0x2b {
        ISA::SPARC
    } else {
        ISA::OTHER
    };
    let w32 = ws == WordSize::W32;
    let half = |o32: u64, o64: u64| -> (r: Result<u16, ElfError>)
        requires
            o32 + 2 <= 0x34,
            o64 + 2 <= 0x40,
            f@.len() >= (if w32 { 0x34int } else { 0x40int }),
        ensures
            r is Ok,
            r->Ok_0 == half_at(f@, ws, o32 as int, o64 as int),
    {
        if w32 {
            Ok(field(f, o32, 2)? as u16)
        } else {
            Ok(field(f, o64, 2)? as u16)
        }
    };
    Ok(ELFHeader {
        word_size: ws,
        endian,
        version: f[6],
        abi: if f[7] == 0 { ABI::SystemV } else { ABI::Other },
        elf_type,
        isa,
        entry_point: word_field(f, ws, 0x18, 0x18)?,
        program_header_table_offset: word_field(f, ws, 0x1c, 0x20)?,
        section_header_table_offset: word_field(f, ws, 0x20, 0x28)?,
        header_size: half(0x28, 0x34)?,
        program_header_size: half(0x2a, 0x36)?,
        program_header_count: half(0x2c, 0x38)?,
        section_header_size: half(0x2e, 0x3a)?,
        section_header_count: half(0x30, 0x3c)?,
        section_header_string_table_index: half(0x32, 0x3e)?,
    })
}

/// Reads the program header at `off` of a file of word size `ws`.
fn decode_program_header(f: &[u8], ws: WordSize, off: u64) -> (r: Result<ProgramHeader, ElfError>)
    ensures
        r is Ok <==> ph_ok(f@, ws, off as int),
        r is Ok ==> ph_matches(f@, ws, off as int, r->Ok_0),
{
    let n = f.len() as u64;
    let size: u64 = if ws == WordSize::W32 { 0x20 } else { 0x38 };
    if off > n || n - off < size {
        return Err(ElfError::Truncated);
    }
    let t = field(f, off, 4)? as u32;
    let header_type = if t == 1 {
        ProgramHeaderType::Load
    } else if t == 2 {
        ProgramHeaderType::Dynamic
    } else if t == 3 {
        ProgramHeaderType::Interp
    } else if t == 4 {
        ProgramHeaderType::Note
    } else if t == 5 {
        ProgramHeaderType::Shlib
    } else if t == 6 {
        ProgramHeaderType::Phdr
    } else if t == 7 {
        ProgramHeaderType::Tls
    } else if t == 0x60000000 {
        ProgramHeaderType::Loos
    } else if t == 0x6fffffff {
        ProgramHeaderType::Hios
    } else if t == 0x70000000 {
        ProgramHeaderType::Loproc
    } else if t == 0x7fffffff {
        ProgramHeaderType::Hiproc
    } else {
        ProgramHeaderType::Unknown(t)
    };
    let flags = if ws == WordSize::W32 { field(f, off + 0x18, 4)? } else { field(f, off + 4, 4)? } as u32;
    let segment_offset = word_field(f, ws, off + 4, off + 8)?;
    let virtual_address = word_field(f, ws, off + 8, off + 0x10)?;
    let physical_address = word_field(f, ws, off + 0xc, off + 0x18)?;
    let file_size = word_field(f, ws, off + 0x10, off + 0x20)?;
    let memory_size = if ws == WordSize::W32 { field(f, off + 0x14, 4)? } else { field(f, off + 0x28, 8)? };
    let alignment = if ws == WordSize::W32 { field(f, off + 0x1c, 4)? } else { field(f, off + 0x30, 8)? };
    let data = if header_type == ProgramHeaderType::Load {
        if segment_offset > n || n - segment_offset < file_size {
            return Err(ElfError::Truncated);
        }
        copy_range(f, segment_offset, file_size)
    } else {
        Vec::new()
    };
    Ok(ProgramHeader {
        header_type,
        flags,
        segment_offset,
        virtual_address,
        physical_address,
        file_size,
        memory_size,
        alignment,
        data,
    })
}

/// The position just past the zero-terminated string at `start`.
fn find_string_end(f: &[u8], start: u64) -> (r: u64)
    requires
        start <= f@.len(),
    ensures
        r == string_end(f@, start as int),
        start <= r <= f@.len(),
{
    let n = f.len() as u64;
    let mut j = start;
    while j < n
        invariant
            start <= j <= n,
            n == f@.len(),
            string_end(f@, j as int) == string_end(f@, start as int),
        decreases n - j,
    {
        if f[j as usize] == 0 {
            return j;
        }
        j = j + 1;
    }
    n
}

/// Reads the section header at `off`, naming it from the string table at `strtab`.
fn decode_section(f: &[u8], ws: WordSize, off: u64, strtab: u64) -> (r: Result<Section, ElfError>)
    ensures
        r is Ok <==> section_ok(f@, ws, off as int, strtab),
        r is Ok ==> section_matches(f@, ws, off as int, strtab, r->Ok_0),
{
    let n = f.len() as u64;
    let need: u64 = if ws == WordSize::W32 { 0x18 } else { 0x28 };
    if off > n || n - off < need {
        return Err(ElfError::Truncated);
    }
    let name_off = field(f, off, 4)?;
    if strtab > n || n - strtab < name_off {
        return Err(ElfError::Truncated);
    }
    let start = strtab + name_off;
    let end = find_string_end(f, start);
    let name = copy_range(f, start, end - start);
    let t = field(f, off + 4, 4)? as u32;
    let section_type = if t == 0 {
        SectionType::SHT_NULL
    } else if t == 1 {
        SectionType::SHT_PROGBITS
    } else if t == 2 {
        SectionType::SHT_SYMTAB
    } else if t == 3 {
        SectionType::SHT_STRTAB
    } else if t == 4 {
        SectionType::SHT_RELA
    } else if t == 5 {
        SectionType::SHT_HASH
    } else if t == 6 {
        SectionType::SHT_DYNAMIC
    } else if t == 7 {
        SectionType::SHT_NOTE
    } else if t == 8 {
        SectionType::SHT_NOBITS
    } else if t == 9 {
        SectionType::SHT_REL
    } else if t == 10 {
        SectionType::SHT_SHLIB
    } else if t == 11 {
        SectionType::SHT_DYNSYM
    } else if t == 14 {
        SectionType::SHT_INIT_ARRAY
    } else if t == 15 {
        SectionType::SHT_FINI_ARRAY
    } else if t == 16 {
        SectionType::SHT_PREINIT_ARRAY
    } else if t == 17 {
        SectionType::SHT_GROUP
    } else if t == 18 {
        SectionType::SHT_SYMTAB_SHNDX
    } else if t == 0x6ffffffa {
        SectionType::SHT_LOOS
    } else {
        SectionType::SHT_NUM
    };
    let (raw_flags, addr, offset, size) = match ws {
        WordSize::W32 => (field(f, off + 8, 4)?, field(f, off + 0xc, 4)?, field(f, off + 0x10, 4)?, field(f, off + 0x14, 4)?),
        WordSize::W64 => (field(f, off + 8, 8)?, field(f, off + 0x10, 8)?, field(f, off + 0x18, 8)?, field(f, off + 0x20, 8)?),
    };
    let flags = SectionFlags::from_bits_truncate(raw_flags);
    if offset > n || n - offset < size {
        return Err(ElfError::Truncated);
    }
    let data = copy_range(f, offset, size);
    Ok(Section { name, section_type, flags, addr, offset, size, data })
}

/// Decodes an ELF file: the file header, then every program header (with the data of
/// loadable segments) and every section (named from the section-name string table, with its
/// data); program headers are read at the field widths of the file's class. A file with a
/// field or data range past its end, a wrong magic number, or an unknown class, byte order or
/// type is refused.
pub fn decode_elf(f: &[u8]) -> (r: Result<ElfFile, ElfError>)
    ensures
        r is Ok <==> elf_ok(f@),
        r is Ok ==> elf_matches(f@, r->Ok_0),
{
    let h = decode_header(f)?;
    let ws = h.word_size;
    let mut program_headers: Vec<ProgramHeader> = Vec::new();
    let mut i: u16 = 0;
    while i < h.program_header_count
        invariant
            spec_header(f@) == Some(h),
            ws == h.word_size,
            i <= h.program_header_count,
            program_headers@.len() == i,
            forall|j: int|
                0 <= j < i ==> #[trigger] ph_ok(f@, ws, entry_offset(h.program_header_table_offset, j, h.program_header_size)),
            forall|j: int|
                0 <= j < i ==> ph_matches(
                    f@,
                    ws,
                    entry_offset(h.program_header_table_offset, j, h.program_header_size),
                    #[trigger] program_headers@[j],
                ),
        decreases h.program_header_count - i,
    {
        assert((i as int) * (h.program_header_size as int) < 0x1_0000_0000) by (nonlinear_arith)
            requires
                i < 0x10000,
                h.program_header_size < 0x10000,
        ;
        let step = (i as u64) * (h.program_header_size as u64);
        if h.program_header_table_offset > u64::MAX - step {
            assert(!ph_ok(f@, ws, entry_offset(h.program_header_table_offset, i as int, h.program_header_size)));
            return Err(ElfError::Truncated);
        }
        let off = h.program_header_table_offset + step;
        let ph = match decode_program_header(f, ws, off) {
            Ok(ph) => ph,
            Err(e) => {
                assert(!ph_ok(f@, ws, entry_offset(h.program_header_table_offset, i as int, h.program_header_size)));
                return Err(e);
            },
        };
        program_headers.push(ph);
        i = i + 1;
    }
    assert((h.section_header_string_table_index as int) * (h.section_header_size as int) < 0x1_0000_0000) by (nonlinear_arith)
        requires
            h.section_header_string_table_index < 0x10000,
            h.section_header_size < 0x10000,
    ;
    let sstep = (h.section_header_string_table_index as u64) * (h.section_header_size as u64);
    if h.section_header_table_offset > u64::MAX - sstep {
        return Err(ElfError::Truncated);
    }
    let soff = h.section_header_table_offset + sstep;
    let n = f.len() as u64;
    let need: u64 = if ws == WordSize::W32 { 0x14 } else { 0x20 };
    if soff > n || n - soff < need {
        return Err(ElfError::Truncated);
    }
    let strtab = match ws {
        WordSize::W32 => field(f, soff + 0x10, 4)?,
        WordSize::W64 => field(f, soff + 0x18, 8)?,
    };
    let mut section_headers: Vec<Section> = Vec::new();
    let mut k: u16 = 0;
    while k < h.section_header_count
        invariant
            spec_header(f@) == Some(h),
            ws == h.word_size,
            strtab == strtab_offset(f@, h),
            strtab_ok(f@, h),
            k <= h.section_header_count,
            section_headers@.len() == k,
            forall|j: int|
                0 <= j < h.program_header_count ==> #[trigger] ph_ok(f@, ws, entry_offset(h.program_header_table_offset, j, h.program_header_size)),
            forall|j: int|
                0 <= j < k ==> #[trigger] section_ok(
                    f@,
                    ws,
                    entry_offset(h.section_header_table_offset, j, h.section_header_size),
                    strtab,
                ),
            forall|j: int|
                0 <= j < k ==> section_matches(
                    f@,
                    ws,
                    entry_offset(h.section_header_table_offset, j, h.section_header_size),
                    strtab,
                    #[trigger] section_headers@[j],
                ),
        decreases h.section_header_count - k,
    {
        assert((k as int) * (h.section_header_size as int) < 0x1_0000_0000) by (nonlinear_arith)
            requires
                k < 0x10000,
                h.section_header_size < 0x10000,
        ;
        let step = (k as u64) * (h.section_header_size as u64);
        if h.section_header_table_offset > u64::MAX - step {
            assert(!section_ok(f@, ws, entry_offset(h.section_header_table_offset, k as int, h.section_header_size), strtab));
            return Err(ElfError::Truncated);
        }
        let off = h.section_header_table_offset + step;
        let sec = match decode_section(f, ws, off, strtab) {
            Ok(s) => s,
            Err(e) => {
                assert(!section_ok(f@, ws, entry_offset(h.section_header_table_offset, k as int, h.section_header_size), strtab));
                return Err(e);
            },
        };
        section_headers.push(sec);
        k = k + 1;
    }
    Ok(ElfFile { header: h, program_headers, section_headers })
}

/// Where a program was loaded and what it holds.
pub struct ProgramFile {
    pub entry_point: u64,
    pub program_memory_offset: u64,
    pub lines: Vec<ProgramLine>,
    pub program_size: u64,
    pub end_of_data_addr: u64,
}

/// The byte stores that put `data` at `addr` on.
pub open spec fn bytes_at(addr: u64, data: Seq<u8>) -> Seq<(u64, u8)> {
    Seq::new(data.len(), |i: int| (addr.wrapping_add(i as u64), data[i]))
}

/// The byte stores of the loadable segments, in order.
pub open spec fn segment_stores(phs: Seq<ProgramHeader>) -> Seq<(u64, u8)>
    decreases phs.len(),
{
    if phs.len() == 0 {
        Seq::empty()
    } else {
        let last = phs.last();
        segment_stores(phs.drop_last()) + if last.header_type == ProgramHeaderType::Load {
            bytes_at(last.virtual_address, last.data@)
        } else {
            Seq::empty()
        }
    }
}

/// The first `n` bytes of `d`, or all of them when it is shorter.
pub open spec fn first_bytes(d: Seq<u8>, n: u64) -> Seq<u8> {
    if n < d.len() { d.take(n as int) } else { d }
}

/// The byte stores of the allocated sections, in order.
pub open spec fn section_stores(ss: Seq<Section>) -> Seq<(u64, u8)>
    decreases ss.len(),
{
    if ss.len() == 0 {
        Seq::empty()
    } else {
        let last = ss.last();
        section_stores(ss.drop_last()) + if last.flags.0 & SHF_ALLOC == SHF_ALLOC {
            bytes_at(last.addr, first_bytes(last.data@, last.size))
        } else {
            Seq::empty()
        }
    }
}

/// `ms` is a run of memories, each the one before with one byte store of `stores` applied.
pub open spec fn stores_applied<M: Memory>(ms: Seq<M>, stores: Seq<(u64, u8)>) -> bool {
    &&& ms.len() == stores.len() + 1
    &&& forall|k: int| 0 <= k < stores.len() ==> #[trigger] ms[k].stored(stores[k].0, 1, stores[k].1 as u64, ms[k + 1])
}

/// Some run of memories from `m0` applies a prefix of `stores` and then reaches a store that its
/// last memory refuses.
pub open spec fn refused_in<M: Memory>(m0: M, stores: Seq<(u64, u8)>) -> bool {
    exists|ms: Seq<M>, k: int|
        #![trigger stores_applied(ms, stores.take(k))]
        0 <= k < stores.len() && stores_applied(ms, stores.take(k)) && ms[0] == m0 && !ms.last().store_ok(
            stores[k].0,
            1,
        )
}

/// A refusal within a prefix of `t` is a refusal within `t`.
proof fn lemma_refused_prefix<M: Memory>(m0: M, s: Seq<(u64, u8)>, t: Seq<(u64, u8)>)
    requires
        refused_in(m0, s),
        s.len() <= t.len(),
        t.take(s.len() as int) == s,
    ensures
        refused_in(m0, t),
{
    let (ms, k) = choose|ms: Seq<M>, k: int|
        #![trigger stores_applied(ms, s.take(k))]
        0 <= k < s.len() && stores_applied(ms, s.take(k)) && ms[0] == m0 && !ms.last().store_ok(s[k].0, 1);
    assert(t.take(k) =~= s.take(k));
    assert(t[k] == t.take(s.len() as int)[k]);
    assert(stores_applied(ms, t.take(k)));
}

/// The stores of the first `i` program headers begin the stores of all of them.
proof fn lemma_segment_prefix(phs: Seq<ProgramHeader>, i: int)
    requires
        0 <= i <= phs.len(),
    ensures
        segment_stores(phs.take(i)).len() <= segment_stores(phs).len(),
        segment_stores(phs).take(segment_stores(phs.take(i)).len() as int) == segment_stores(phs.take(i)),
    decreases phs.len(),
{
    if i == phs.len() {
        assert(phs.take(i) =~= phs);
        assert(segment_stores(phs).take(segment_stores(phs).len() as int) =~= segment_stores(phs));
    } else {
        lemma_segment_prefix(phs.drop_last(), i);
        assert(phs.drop_last().take(i) =~= phs.take(i));
        let a = segment_stores(phs.drop_last());
        let l = segment_stores(phs.take(i)).len() as int;
        assert(segment_stores(phs).take(l) =~= a.take(l));
    }
}

/// The stores of the first `j` sections begin the stores of all of them.
proof fn lemma_section_prefix(ss: Seq<Section>, j: int)
    requires
        0 <= j <= ss.len(),
    ensures
        section_stores(ss.take(j)).len() <= section_stores(ss).len(),
        section_stores(ss).take(section_stores(ss.take(j)).len() as int) == section_stores(ss.take(j)),
    decreases ss.len(),
{
    if j == ss.len() {
        assert(ss.take(j) =~= ss);
        assert(section_stores(ss).take(section_stores(ss).len() as int) =~= section_stores(ss));
    } else {
        lemma_section_prefix(ss.drop_last(), j);
        assert(ss.drop_last().take(j) =~= ss.take(j));
        let a = section_stores(ss.drop_last());
        let l = section_stores(ss.take(j)).len() as int;
        assert(section_stores(ss).take(l) =~= a.take(l));
    }
}

/// The name of the text section.
pub open spec fn is_text_name(n: Seq<u8>) -> bool {
    n == seq![0x2eu8, 0x74u8, 0x65u8, 0x78u8, 0x74u8]
}

/// The end of the data of `ss`: the largest end of a section that is allocated, executable or
/// writable, or zero.
pub open spec fn data_end(ss: Seq<Section>) -> u64
    decreases ss.len(),
{
    if ss.len() == 0 {
        0
    } else {
        let last = ss.last();
        let prev = data_end(ss.drop_last());
        if last.flags.0 & (SHF_ALLOC | SHF_EXECINSTR | SHF_WRITE) != 0 && last.addr.wrapping_add(last.size) > prev {
            last.addr.wrapping_add(last.size)
        } else {
            prev
        }
    }
}

/// A section other than `.text`, or a `.text` section whose size is a whole number of words
/// within its data.
pub open spec fn text_ok(sec: Section) -> bool {
    is_text_name(sec.name@) ==> sec.size % 4 == 0 && sec.size <= sec.data@.len()
}

/// The place and size of the last `.text` section of `ss`, or zeros when there is none.
pub open spec fn text_section(ss: Seq<Section>) -> (u64, u64)
    decreases ss.len(),
{
    if ss.len() == 0 {
        (0, 0)
    } else if is_text_name(ss.last().name@) {
        (ss.last().addr, ss.last().size)
    } else {
        text_section(ss.drop_last())
    }
}

/// The words among the first `n` bytes of `d`, in order, that some instruction of `mode`
/// matches.
pub open spec fn decodable_words(mode: CpuMode, d: Seq<u8>, n: nat) -> Seq<u32>
    decreases n,
{
    if n < 4 {
        Seq::empty()
    } else {
        let prev = decodable_words(mode, d, (n - 4) as nat);
        let w = le_value(d, n - 4, 4) as u32;
        if no_match(spec_all_instructions(mode), w) {
            prev
        } else {
            prev.push(w)
        }
    }
}

/// The decodable words of the `.text` sections of `ss`, in order.
pub open spec fn text_words(mode: CpuMode, ss: Seq<Section>) -> Seq<u32>
    decreases ss.len(),
{
    if ss.len() == 0 {
        Seq::empty()
    } else {
        let last = ss.last();
        text_words(mode, ss.drop_last()) + if is_text_name(last.name@) {
            decodable_words(mode, last.data@, last.size as nat)
        } else {
            Seq::empty()
        }
    }
}

/// The words of `lines`, in order.
pub open spec fn words_of(lines: Seq<ProgramLine>) -> Seq<u32> {
    lines.map_values(|l: ProgramLine| l.word.0)
}

/// Loading `elf` onto `m0` can be refused: a byte store of its segments and sections is refused,
/// or a `.text` section's size is not a whole number of words within its data.
pub open spec fn load_refused<M: Memory>(m0: M, phs: Seq<ProgramHeader>, ss: Seq<Section>) -> bool {
    ||| refused_in(m0, segment_stores(phs) + section_stores(ss))
    ||| exists|j: int| 0 <= j < ss.len() && !text_ok(#[trigger] ss[j])
}

/// Whether the byte string `name` is `.text`.
fn is_text(name: &Vec<u8>) -> (r: bool)
    ensures
        r == is_text_name(name@),
{
    let r = name.len() == 5 && name[0] == 0x2e && name[1] == 0x74 && name[2] == 0x65 && name[3] == 0x78 && name[4] == 0x74;
    assert(r ==> name@ =~= seq![0x2eu8, 0x74u8, 0x65u8, 0x78u8, 0x74u8]);
    r
}

/// Stores `data` byte by byte from `addr` on, extending the run of memories `ms`.
fn store_bytes<M: Memory>(memory: &mut M, addr: u64, data: &Vec<u8>, n: usize, Ghost(ms): Ghost<Seq<M>>, Ghost(done): Ghost<Seq<(u64, u8)>>) -> (r: Result<Ghost<Seq<M>>, EmuError>)
    requires
        old(memory).wf(),
        n <= data@.len(),
        stores_applied(ms, done),
        ms.last() == *old(memory),
    ensures
        final(memory).wf(),
        r matches Ok(g) ==> stores_applied(g@, done + bytes_at(addr, data@.take(n as int))) && g@.last() == *final(memory)
            && g@[0] == ms[0],
        r is Err ==> refused_in(ms[0], done + bytes_at(addr, data@.take(n as int))),
{
    let mut i: usize = 0;
    let ghost mut cur = ms;
    while i < n
        invariant
            memory.wf(),
            n <= data@.len(),
            i <= n,
            stores_applied(cur, done + bytes_at(addr, data@.take(i as int))),
            cur.last() == *memory,
            cur[0] == ms[0],
            cur.len() >= 1,
        decreases n - i,
    {
        let a = addr.wrapping_add(i as u64);
        let ghost before = *memory;
        match memory.write_mem_u8(a, data[i]) {
            Ok(()) => {},
            Err(e) => {
                proof {
                    let all = done + bytes_at(addr, data@.take(n as int));
                    let k = done.len() + i;
                    assert(all.take(k) =~= done + bytes_at(addr, data@.take(i as int)));
                    assert(all[k] == (a, data@[i as int]));
                    assert(stores_applied(cur, all.take(k)));
                }
                return Err(e);
            },
        }
        proof {
            let s_old = done + bytes_at(addr, data@.take(i as int));
            let s_new = done + bytes_at(addr, data@.take(i + 1));
            assert(s_new =~= s_old.push((a, data@[i as int])));
            let next = cur.push(*memory);
            assert forall|k: int| 0 <= k < s_new.len() implies #[trigger] next[k].stored(s_new[k].0, 1, s_new[k].1 as u64, next[k + 1]) by {
                if k < s_old.len() {
                    assert(next[k] == cur[k] && next[k + 1] == cur[k + 1] && s_new[k] == s_old[k]);
                } else {
                    assert(next[k] == before && next[k + 1] == *memory);
                }
            }
            cur = next;
        }
        i = i + 1;
    }
    Ok(Ghost(cur))
}

/// Loads a decoded ELF file: the data of the loadable segments and then of the allocated
/// sections is stored byte by byte, the words of the `.text` section are decoded with the table
/// of `mode` (undecodable words are skipped), and the entry point, the place and size of the
/// text and the end of the data are reported. A refused store, or a text section whose size
/// is not a whole number of words, is reported as an error.
pub fn load_program_to_memory<M: Memory>(elf: ElfFile, memory: &mut M, mode: CpuMode) -> (r: Result<ProgramFile, EmuError>)
    requires
        old(memory).wf(),
    ensures
        final(memory).wf(),
        r is Err ==> load_refused(*old(memory), elf.program_headers@, elf.section_headers@),
        r matches Ok(p) ==> {
            &&& p.entry_point == elf.header.entry_point
            &&& p.end_of_data_addr == data_end(elf.section_headers@)
            &&& (p.program_memory_offset, p.program_size) == text_section(elf.section_headers@)
            &&& words_of(p.lines@) == text_words(mode, elf.section_headers@)
            &&& forall|j: int| 0 <= j < elf.section_headers@.len() ==> text_ok(#[trigger] elf.section_headers@[j])
            &&& exists|ms: Seq<M>|
                #![trigger stores_applied(ms, segment_stores(elf.program_headers@) + section_stores(elf.section_headers@))]
                stores_applied(ms, segment_stores(elf.program_headers@) + section_stores(elf.section_headers@))
                    && ms[0] == *old(memory) && ms.last() == *final(memory)
            &&& forall|k: int| 0 <= k < p.lines@.len() ==> decodes_to(mode, (#[trigger] p.lines@[k]).word.0, p.lines@[k].instruction)
        },
{
    let ghost mut ms: Seq<M> = seq![*memory];
    let ghost mut done: Seq<(u64, u8)> = Seq::empty();
    let mut i: usize = 0;
    while i < elf.program_headers.len()
        invariant
            memory.wf(),
            i <= elf.program_headers@.len(),
            done == segment_stores(elf.program_headers@.take(i as int)),
            stores_applied(ms, done),
            ms[0] == *old(memory),
            ms.last() == *memory,
        decreases elf.program_headers@.len() - i,
    {
        let ph = &elf.program_headers[i];
        proof {
            assert(elf.program_headers@.take(i + 1).drop_last() =~= elf.program_headers@.take(i as int));
        }
        if ph.header_type == ProgramHeaderType::Load {
            let g = match store_bytes(memory, ph.virtual_address, &ph.data, ph.data.len(), Ghost(ms), Ghost(done)) {
                Ok(g) => g,
                Err(e) => {
                    proof {
                        let phs = elf.program_headers@;
                        let ss = elf.section_headers@;
                        let s1 = done + bytes_at(ph.virtual_address, ph.data@.take(ph.data@.len() as int));
                        assert(ph.data@.take(ph.data@.len() as int) =~= ph.data@);
                        assert(s1 == segment_stores(phs.take(i + 1)));
                        lemma_segment_prefix(phs, i + 1);
                        lemma_refused_prefix(ms[0], s1, segment_stores(phs));
                        let full = segment_stores(phs) + section_stores(ss);
                        assert(full.take(segment_stores(phs).len() as int) =~= segment_stores(phs));
                        lemma_refused_prefix(ms[0], segment_stores(phs), full);
                    }
                    return Err(e);
                },
            };
            proof {
                assert(ph.data@.take(ph.data@.len() as int) =~= ph.data@);
                ms = g@;
                done = done + bytes_at(ph.virtual_address, ph.data@);
            }
        }
        i = i + 1;
    }
    proof {
        assert(elf.program_headers@.take(elf.program_headers@.len() as int) =~= elf.program_headers@);
    }
    let ghost seg = done;
    let mut text_addr: u64 = 0;
    let mut text_size: u64 = 0;
    let mut end_of_data: u64 = 0;
    let mut lines: Vec<ProgramLine> = Vec::new();
    let mut j: usize = 0;
    while j < elf.section_headers.len()
        invariant
            memory.wf(),
            j <= elf.section_headers@.len(),
            seg == segment_stores(elf.program_headers@),
            done == seg + section_stores(elf.section_headers@.take(j as int)),
            stores_applied(ms, done),
            ms[0] == *old(memory),
            ms.last() == *memory,
            end_of_data == data_end(elf.section_headers@.take(j as int)),
            (text_addr, text_size) == text_section(elf.section_headers@.take(j as int)),
            words_of(lines@) == text_words(mode, elf.section_headers@.take(j as int)),
            forall|k: int| 0 <= k < j ==> text_ok(#[trigger] elf.section_headers@[k]),
            forall|k: int| 0 <= k < lines@.len() ==> decodes_to(mode, (#[trigger] lines@[k]).word.0, lines@[k].instruction),
        decreases elf.section_headers@.len() - j,
    {
        let sec = &elf.section_headers[j];
        proof {
            assert(elf.section_headers@.take(j + 1).drop_last() =~= elf.section_headers@.take(j as int));
        }
        if sec.flags.contains(SHF_ALLOC) {
            let n: usize = if (sec.size as u128) < (sec.data.len() as u128) { sec.size as usize } else { sec.data.len() };
            let g = match store_bytes(memory, sec.addr, &sec.data, n, Ghost(ms), Ghost(done)) {
                Ok(g) => g,
                Err(e) => {
                    proof {
                        let ss = elf.section_headers@;
                        assert(sec.data@.take(n as int) =~= first_bytes(sec.data@, sec.size));
                        let s1 = done + bytes_at(sec.addr, sec.data@.take(n as int));
                        assert(s1 =~= seg + section_stores(ss.take(j + 1)));
                        lemma_section_prefix(ss, j + 1);
                        let full = seg + section_stores(ss);
                        assert(full.take(s1.len() as int) =~= s1);
                        lemma_refused_prefix(ms[0], s1, full);
                    }
                    return Err(e);
                },
            };
            proof {
                assert(sec.data@.take(n as int) =~= first_bytes(sec.data@, sec.size));
                ms = g@;
                done = done + bytes_at(sec.addr, first_bytes(sec.data@, sec.size));
                assert(done =~= seg + section_stores(elf.section_headers@.take(j + 1)));
            }
        } else {
            proof {
                assert(done =~= seg + section_stores(elf.section_headers@.take(j + 1)));
            }
        }
        if sec.flags.0 & (SHF_ALLOC | SHF_EXECINSTR | SHF_WRITE) != 0 {
            let e = sec.addr.wrapping_add(sec.size);
            if e > end_of_data {
                end_of_data = e;
            }
        }
        if is_text(&sec.name) {
            text_addr = sec.addr;
            text_size = sec.size;
            if sec.size % 4 != 0 || sec.size > sec.data.len() as u64 {
                assert(!text_ok(elf.section_headers@[j as int]));
                return Err(EmuError::OutOfBounds(sec.addr));
            }
            let mut pc: usize = 0;
            let size = sec.size as usize;
            let ghost before = text_words(mode, elf.section_headers@.take(j as int));
            while pc < size
                invariant
                    size <= sec.data@.len(),
                    size % 4 == 0,
                    pc % 4 == 0,
                    pc <= size,
                    forall|k: int| 0 <= k < lines@.len() ==> decodes_to(mode, (#[trigger] lines@[k]).word.0, lines@[k].instruction),
                    words_of(lines@) == before + decodable_words(mode, sec.data@, pc as nat),
                decreases size - pc,
            {
                let w = le_load(sec.data.as_slice(), pc, 4) as u32;
                let ghost old_lines = lines@;
                pc = pc + 4;
                match decode_program_line(Word(w), mode) {
                    Ok(line) => {
                        lines.push(line);
                        proof {
                            assert(words_of(lines@) =~= words_of(old_lines).push(w));
                        }
                    },
                    Err(_) => {},
                }
                proof {
                    assert(words_of(lines@) =~= before + decodable_words(mode, sec.data@, pc as nat));
                }
            }
            proof {
                assert(size as nat == sec.size as nat);
                assert(words_of(lines@) =~= text_words(mode, elf.section_headers@.take(j + 1)));
            }
        } else {
            proof {
                assert(words_of(lines@) =~= text_words(mode, elf.section_headers@.take(j + 1)));
            }
        }
        j = j + 1;
    }
    proof {
        assert(elf.section_headers@.take(elf.section_headers@.len() as int) =~= elf.section_headers@);
    }
    Ok(ProgramFile {
        entry_point: elf.header.entry_point,
        program_memory_offset: text_addr,
        program_size: text_size,
        lines,
        end_of_data_addr: end_of_data,
    })
}

/// Decodes each word of `binary` with the table of `mode`; a word no instruction matches is
/// reported.
pub fn decode_program_from_binary(binary: &[u32], mode: CpuMode) -> (r: Result<Vec<ProgramLine>, EmuError>)
    ensures
        r matches Ok(lines) ==> lines@.len() == binary@.len() && forall|k: int|
            0 <= k < lines@.len() ==> (#[trigger] lines@[k]).word.0 == binary@[k] && decodes_to(mode, binary@[k], lines@[k].instruction),
        r is Err <==> exists|k: int| 0 <= k < binary@.len() && no_match(spec_all_instructions(mode), #[trigger] binary@[k]),
{
    let mut lines: Vec<ProgramLine> = Vec::new();
    let mut i: usize = 0;
    while i < binary.len()
        invariant
            i <= binary@.len(),
            lines@.len() == i,
            forall|k: int|
                0 <= k < i ==> (#[trigger] lines@[k]).word.0 == binary@[k] && decodes_to(mode, binary@[k], lines@[k].instruction),
            forall|k: int| 0 <= k < i ==> !no_match(spec_all_instructions(mode), #[trigger] binary@[k]),
        decreases binary@.len() - i,
    {
        match decode_program_line(Word(binary[i]), mode) {
            Ok(line) => {
                lines.push(line);
            },
            Err(e) => {
                return Err(e);
            },
        }
        i = i + 1;
    }
    Ok(lines)
}

} // verus!
