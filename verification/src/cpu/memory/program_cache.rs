use vstd::prelude::*;

use crate::cpu::cpu_core::CpuMode;
use crate::error::EmuError;
use crate::types::{decode_program_line, decodes_to, no_match, spec_all_instructions, ProgramLine, Word};

use super::memory_core::Memory;

verus! {

/// Instructions decoded ahead of time for the address range `[start_addr, end_addr)`.
pub struct ProgramCache {
    start_addr: u64,
    end_addr: u64,
    data: Vec<ProgramLine>,
}

/// The number of words from `start` up to (not including) `end`, stepping by four.
pub open spec fn word_count(start: u64, end: u64) -> int {
    if end <= start {
        0
    } else {
        (end - start + 3) / 4
    }
}

/// Each line of `c` holds the word that `m` has at its address and the instruction that the
/// table of `mode` decodes that word to.
pub open spec fn cache_decodes<M: Memory>(c: ProgramCache, m: M, mode: CpuMode) -> bool {
    forall|k: int|
        0 <= k < c.lines().len() ==> {
            &&& m.load((c.start() + 4 * k) as u64, 4) == Some((#[trigger] c.lines()[k]).word.0 as u64)
            &&& decodes_to(mode, c.lines()[k].word.0, c.lines()[k].instruction)
        }
}

/// Some word of `[start, end)` cannot be read from `m` or matches no instruction of `mode`.
pub open spec fn cache_refused<M: Memory>(m: M, start: u64, end: u64, mode: CpuMode) -> bool {
    exists|k: int|
        0 <= k < word_count(start, end) && (#[trigger] m.load((start + 4 * k) as u64, 4) is None || no_match(
            spec_all_instructions(mode),
            m.load((start + 4 * k) as u64, 4).unwrap() as u32,
        ))
}

impl ProgramCache {
    /// First cached address.
    pub closed spec fn start(&self) -> u64 {
        self.start_addr
    }

    /// End of the cached range.
    pub closed spec fn end(&self) -> u64 {
        self.end_addr
    }

    /// The cached lines, one per word.
    pub closed spec fn lines(&self) -> Seq<ProgramLine> {
        self.data@
    }

    /// A cache that holds nothing.
    pub fn empty() -> (r: ProgramCache)
        ensures
            r.start() == 0,
            r.end() == 0,
            r.lines() == Seq::<ProgramLine>::empty(),
    {
        ProgramCache { start_addr: 0, end_addr: 0, data: Vec::new() }
    }

    /// Decodes every word of `[start_addr, end_addr)` in `mode`; stops at the first read or
    /// decode error.
    pub fn new<M: Memory>(start_addr: u64, end_addr: u64, memory: &mut M, mode: CpuMode) -> (r:
        Result<ProgramCache, EmuError>)
        requires
            old(memory).wf(),
            end_addr <= u64::MAX - 4,
        ensures
            *final(memory) == *old(memory),
            match r {
                Ok(c) => cache_decodes(c, *old(memory), mode) && c.start() == start_addr && c.end() == end_addr && c.lines().len()
                    == word_count(start_addr, end_addr) && forall|k: int|
                    0 <= k < c.lines().len() ==> {
                        &&& old(memory).load((start_addr + 4 * k) as u64, 4) == Some(
                            (#[trigger] c.lines()[k]).word.0 as u64,
                        )
                        &&& decodes_to(mode, c.lines()[k].word.0, c.lines()[k].instruction)
                    },
                Err(_) => exists|k: int|
                    0 <= k < word_count(start_addr, end_addr) && (#[trigger] old(memory).load(
                        (start_addr + 4 * k) as u64,
                        4,
                    ) is None || no_match(
                        spec_all_instructions(mode),
                        old(memory).load((start_addr + 4 * k) as u64, 4).unwrap() as u32,
                    )),
            },
    {
        let mut data: Vec<ProgramLine> = Vec::new();
        let mut i: u64 = start_addr;
        while i < end_addr
            invariant
                memory.wf(),
                *memory == *old(memory),
                end_addr <= u64::MAX - 4,
                i == start_addr + 4 * data@.len(),
                data@.len() <= word_count(start_addr, end_addr),
                data@.len() > 0 ==> i <= end_addr + 3,
                forall|k: int|
                    0 <= k < data@.len() ==> {
                        &&& old(memory).load((start_addr + 4 * k) as u64, 4) == Some(
                            (#[trigger] data@[k]).word.0 as u64,
                        )
                        &&& decodes_to(mode, data@[k].word.0, data@[k].instruction)
                    },
            decreases end_addr + 4 - i,
        {
            let k = data.len();
            let word = match memory.read_mem_u32(i) {
                Ok(w) => w,
                Err(e) => {
                    assert(0 <= k < word_count(start_addr, end_addr));
                    assert(old(memory).load((start_addr + 4 * k) as u64, 4) is None);
                    return Err(e);
                },
            };
            let line = match decode_program_line(Word(word), mode) {
                Ok(l) => l,
                Err(e) => {
                    assert(0 <= k < word_count(start_addr, end_addr));
                    assert(old(memory).load((start_addr + 4 * k) as u64, 4) == Some(word as u64));
                    assert(no_match(spec_all_instructions(mode), old(memory).load((start_addr + 4 * k) as u64, 4).unwrap() as u32));
                    return Err(e);
                },
            };
            data.push(line);
            i = i + 4;
        }
        Ok(ProgramCache { start_addr, end_addr, data })
    }

    /// The line cached for `addr`, if `addr` lies in the cached range.
    pub fn try_get_line(&self, addr: u64) -> (r: Option<ProgramLine>)
        requires
            self.lines().len() == word_count(self.start(), self.end()),
        ensures
            match r {
                Some(l) => self.start() <= addr < self.end() && l == self.lines()[(addr - self.start())
                    / 4],
                None => addr < self.start() || addr >= self.end(),
            },
    {
        if addr < self.start_addr || addr >= self.end_addr {
            return None;
        }
        let idx = (addr - self.start_addr) / 4;
        assert(idx < self.data.len());
        Some(self.data[idx as usize])
    }

    /// The line cached for `addr`, which must lie in the cached range.
    pub fn get_line_unchecked(&self, addr: u64) -> (r: ProgramLine)
        requires
            self.start() <= addr,
            (addr - self.start()) / 4 < self.lines().len(),
        ensures
            r == self.lines()[(addr - self.start()) / 4],
    {
        let idx = (addr - self.start_addr) / 4;
        assert(idx < self.data.len());
        self.data[idx as usize]
    }
}

} // verus!
