//! Resource memory: one byte arena split into segments by the loader.
use vstd::prelude::*;

verus! {

/// The byte at `addr` of `mem`, if it lies inside the arena.
pub open spec fn byte_at(mem: Seq<u8>, addr: int) -> Option<u8> {
    if 0 <= addr < mem.len() {
        Some(mem[addr])
    } else {
        None
    }
}

/// The big-endian word at `addr` of `mem`, if both bytes lie inside the arena.
pub open spec fn word_at(mem: Seq<u8>, addr: int) -> Option<u16> {
    if 0 <= addr && addr + 1 < mem.len() {
        Some((mem[addr] as int * 256 + mem[addr + 1] as int) as u16)
    } else {
        None
    }
}

/// The arena and the base offsets of its segments. The loader places data
/// and sets the bases; the engine only reads through them.
pub struct Resource {
    pub memory: Vec<u8>,
    pub seg_bytecode: usize,
    pub seg_cinematic: usize,
    pub seg_video2: usize,
    pub seg_palettes: usize,
}

impl Resource {
    pub fn new(
        memory: Vec<u8>,
        seg_bytecode: usize,
        seg_cinematic: usize,
        seg_video2: usize,
        seg_palettes: usize,
    ) -> (r: Resource)
        ensures
            r.memory@ == memory@,
            r.seg_bytecode == seg_bytecode,
            r.seg_cinematic == seg_cinematic,
            r.seg_video2 == seg_video2,
            r.seg_palettes == seg_palettes,
    {
        Resource { memory, seg_bytecode, seg_cinematic, seg_video2, seg_palettes }
    }

    /// Reads one byte of the arena; `None` outside it.
    pub fn read_byte(&self, addr: usize) -> (r: Option<u8>)
        ensures
            r == byte_at(self.memory@, addr as int),
    {
        if addr < self.memory.len() {
            Some(self.memory[addr])
        } else {
            None
        }
    }

    /// Reads a big-endian word of the arena; `None` unless both bytes are inside.
    pub fn read_word(&self, addr: usize) -> (r: Option<u16>)
        ensures
            r == word_at(self.memory@, addr as int),
    {
        if addr < self.memory.len() && addr + 1 < self.memory.len() {
            let hi = self.memory[addr] as u16;
            let lo = self.memory[addr + 1] as u16;
            Some(hi * 256 + lo)
        } else {
            None
        }
    }

    /// Reads the byte at `base + pos`, refusing a sum that leaves the arena.
    pub fn read_byte_at(&self, base: usize, pos: usize) -> (r: Option<u8>)
        ensures
            r == byte_at(self.memory@, base + pos),
    {
        if base < self.memory.len() && pos < self.memory.len() - base {
            Some(self.memory[base + pos])
        } else {
            None
        }
    }

    /// Reads the big-endian word at `base + pos`, refusing a sum that leaves the arena.
    pub fn read_word_at(&self, base: usize, pos: usize) -> (r: Option<u16>)
        ensures
            r == word_at(self.memory@, base + pos),
    {
        if base < self.memory.len() && pos < self.memory.len() - base {
            self.read_word(base + pos)
        } else {
            None
        }
    }
}

/// A read cursor into one segment: reads go to `base + pos` of the arena.
#[derive(Clone, Copy, Debug, PartialEq, Eq)]
pub struct Buffer {
    pub base: usize,
    pub pos: usize,
}

impl Buffer {
    pub fn with_offset(base: usize, pos: usize) -> (r: Buffer)
        ensures
            r.base == base,
            r.pos == pos,
    {
        Buffer { base, pos }
    }

    /// Reads the next byte and advances by one.
    pub fn fetch_byte(&mut self, res: &Resource) -> (r: Option<u8>)
        ensures
            r == byte_at(res.memory@, old(self).base + old(self).pos),
            final(self).base == old(self).base,
            final(self).pos == if r is Some { old(self).pos + 1 } else { old(self).pos as int },
    {
        let r = res.read_byte_at(self.base, self.pos);
        if let Some(_) = r {
            let n: usize = res.memory.len();
            assert(self.pos + 1 <= n);
            self.pos = self.pos + 1;
        }
        r
    }

    /// Reads the next big-endian word and advances by two.
    pub fn fetch_word(&mut self, res: &Resource) -> (r: Option<u16>)
        ensures
            r == word_at(res.memory@, old(self).base + old(self).pos),
            final(self).base == old(self).base,
            final(self).pos == if r is Some { old(self).pos + 2 } else { old(self).pos as int },
    {
        let r = res.read_word_at(self.base, self.pos);
        if let Some(_) = r {
            let n: usize = res.memory.len();
            assert(self.pos + 2 <= n);
            self.pos = self.pos + 2;
        }
        r
    }
}

} // verus!
