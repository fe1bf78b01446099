use vstd::prelude::*;

use crate::cpu::cpu_core::{Cpu, CpuMode};
use crate::error::EmuError;

use super::memory_core::Memory;

verus! {

/// Size of an Sv39 page.
pub const MMU_PAGE_SIZE: usize = 4096;

/// Address-translation schemes named by `satp.MODE`.
#[derive(Clone, Copy, PartialEq, Eq, Structural, Debug)]
pub enum MemoryMode {
    Bare,
    Sv32,
    Sv39,
    Sv48,
    Sv57,
}

/// Whether `csr` names a translation scheme of a hart of width `cpu_mode`.
pub open spec fn valid_memory_mode(csr: u64, cpu_mode: CpuMode) -> bool {
    match cpu_mode {
        CpuMode::RV32 => csr == 0 || csr == 1,
        CpuMode::RV64 => csr == 0 || csr == 8 || csr == 9 || csr == 10,
    }
}

/// The translation scheme named by `csr`; other values are not accepted.
pub fn read_memory_mode(csr: u64, cpu_mode: CpuMode) -> (r: MemoryMode)
    requires
        valid_memory_mode(csr, cpu_mode),
    ensures
        csr == 0 ==> r == MemoryMode::Bare,
        cpu_mode == CpuMode::RV32 && csr == 1 ==> r == MemoryMode::Sv32,
        cpu_mode == CpuMode::RV64 && csr == 8 ==> r == MemoryMode::Sv39,
        cpu_mode == CpuMode::RV64 && csr == 9 ==> r == MemoryMode::Sv48,
        cpu_mode == CpuMode::RV64 && csr == 10 ==> r == MemoryMode::Sv57,
{
    match cpu_mode {
        CpuMode::RV32 => {
            if csr == 0 {
                MemoryMode::Bare
            } else {
                MemoryMode::Sv32
            }
        },
        CpuMode::RV64 => {
            if csr == 0 {
                MemoryMode::Bare
            } else if csr == 8 {
                MemoryMode::Sv39
            } else if csr == 9 {
                MemoryMode::Sv48
            } else {
                MemoryMode::Sv57
            }
        },
    }
}

/// The physical address of the root page table named by `satp` (RV64 only).
pub open spec fn spec_root_page_table(satp: u64) -> u64 {
    (satp & 0xfff_ffff_ffff) << 12u64
}

/// The physical address of the root page table named by `satp`.
pub fn read_root_page_table_pointer(satp: u64, cpu_mode: CpuMode) -> (r: u64)
    requires
        cpu_mode == CpuMode::RV64,
    ensures
        r == spec_root_page_table(satp),
        r < 0x100_0000_0000_0000,
{
    let mask: u64 = 0xfff_ffff_ffff;
    let r = (satp & mask) << 12u64;
    assert(r < 0x100_0000_0000_0000) by (bit_vector)
        requires
            r == (satp & 0xfff_ffff_ffffu64) << 12u64,
    ;
    r
}

/// The physical page number field of a page-table entry, as a byte address.
pub open spec fn pte_target(pte: u64) -> u64 {
    ((pte >> 10u64) & 0xfff_ffff_ffff) << 12u64
}

/// Valid bit of a page-table entry.
pub open spec fn pte_valid(pte: u64) -> bool {
    pte & 1 == 1
}

/// Whether a valid entry is a leaf (readable or executable).
pub open spec fn pte_leaf(pte: u64) -> bool {
    (pte >> 1u64) & 1 == 1 || (pte >> 3u64) & 1 == 1
}

/// Index of the page-table entry of level `level` (2, 1 or 0) for virtual address `va`.
pub open spec fn vpn(va: u64, level: u64) -> u64 {
    (va >> (12 + 9 * level) as u64) & 0x1ff
}

/// The result of walking the Sv39 page table for `va` in memory `mem`: the physical
/// address, or why the walk stopped.
pub open spec fn spec_walk_sv39<M: Memory>(mem: M, va: u64, satp: u64) -> Result<u64, EmuError> {
    let l2_addr = (spec_root_page_table(satp) + vpn(va, 2) * 8) as u64;
    match mem.load(l2_addr, 8) {
        None => Err(EmuError::OutOfBounds(l2_addr)),
        Some(l2) => if !pte_valid(l2) {
            Err(EmuError::InvalidPte(2, va))
        } else if pte_leaf(l2) {
            Err(EmuError::SuperpageLeaf(2, va))
        } else {
            let l1_addr = (pte_target(l2) + vpn(va, 1) * 8) as u64;
            match mem.load(l1_addr, 8) {
                None => Err(EmuError::OutOfBounds(l1_addr)),
                Some(l1) => if !pte_valid(l1) {
                    Err(EmuError::InvalidPte(1, va))
                } else if pte_leaf(l1) {
                    Err(EmuError::SuperpageLeaf(1, va))
                } else {
                    let l0_addr = (pte_target(l1) + vpn(va, 0) * 8) as u64;
                    match mem.load(l0_addr, 8) {
                        None => Err(EmuError::OutOfBounds(l0_addr)),
                        Some(l0) => if !pte_valid(l0) {
                            Err(EmuError::InvalidPte(0, va))
                        } else {
                            Ok(pte_target(l0) | (va & 0xfff))
                        },
                    }
                },
            }
        },
    }
}

/// Reads one page-table entry.
fn read_pte<M: Memory>(memory: &mut M, addr: u64) -> (r: Result<u64, EmuError>)
    requires
        old(memory).wf(),
    ensures
        *final(memory) == *old(memory),
        match r {
            Ok(v) => old(memory).load(addr, 8) == Some(v),
            Err(e) => old(memory).load(addr, 8) is None && e == EmuError::OutOfBounds(addr),
        },
{
    match memory.read_mem_u64(addr) {
        Ok(v) => Ok(v),
        Err(_) => Err(EmuError::OutOfBounds(addr)),
    }
}

/// Facts about the fields of an entry used by the walk.
proof fn lemma_pte_fields(pte: u64, va: u64)
    ensures
        pte_target(pte) < 0x100_0000_0000_0000,
        vpn(va, 2) < 512,
        vpn(va, 1) < 512,
        vpn(va, 0) < 512,
{
    assert(((pte >> 10u64) & 0xfff_ffff_ffffu64) << 12u64 < 0x100_0000_0000_0000u64) by (bit_vector);
    assert((va >> 30u64) & 0x1ffu64 < 512) by (bit_vector);
    assert((va >> 21u64) & 0x1ffu64 < 512) by (bit_vector);
    assert((va >> 12u64) & 0x1ffu64 < 512) by (bit_vector);
}

/// Translates a virtual address through the three-level Sv39 page table rooted at `satp`.
/// Superpage leaves are not supported.
pub fn walk_page_table_sv39<M: Memory>(va: u64, satp: u64, cpu: &mut Cpu<M>) -> (r: Result<u64, EmuError>)
    requires
        old(cpu).memory.wf(),
    ensures
        *final(cpu) == *old(cpu),
        r == spec_walk_sv39(old(cpu).memory, va, satp),
{
    proof {
        lemma_pte_fields(0, va);
    }
    let vpn0 = (va >> 12u64) & 0x1ff;
    let vpn1 = (va >> 21u64) & 0x1ff;
    let vpn2 = (va >> 30u64) & 0x1ff;
    let offset = va & 0xfff;
    let l2_page_table_addr = read_root_page_table_pointer(satp, CpuMode::RV64);
    let l2_pte = read_pte(&mut cpu.memory, l2_page_table_addr + vpn2 * 8)?;
    if l2_pte & 1 != 1 {
        return Err(EmuError::InvalidPte(2, va));
    }
    if (l2_pte >> 1u64) & 1 == 1 || (l2_pte >> 3u64) & 1 == 1 {
        return Err(EmuError::SuperpageLeaf(2, va));
    }
    proof {
        lemma_pte_fields(l2_pte, va);
    }
    let l1_page_table_addr = ((l2_pte >> 10u64) & 0xfff_ffff_ffff) << 12u64;
    let l1_pte = read_pte(&mut cpu.memory, l1_page_table_addr + vpn1 * 8)?;
    if l1_pte & 1 != 1 {
        return Err(EmuError::InvalidPte(1, va));
    }
    if (l1_pte >> 1u64) & 1 == 1 || (l1_pte >> 3u64) & 1 == 1 {
        return Err(EmuError::SuperpageLeaf(1, va));
    }
    proof {
        lemma_pte_fields(l1_pte, va);
    }
    let l0_page_table_addr = ((l1_pte >> 10u64) & 0xfff_ffff_ffff) << 12u64;
    let l0_pte = read_pte(&mut cpu.memory, l0_page_table_addr + vpn0 * 8)?;
    if l0_pte & 1 != 1 {
        return Err(EmuError::InvalidPte(0, va));
    }
    let physical_address = (((l0_pte >> 10u64) & 0xfff_ffff_ffff) << 12u64) | offset;
    Ok(physical_address)
}

} // verus!
