//! The memory bus: a flat byte-addressable space of 65536 addresses.
//!
//! Two addresses are special.  The interrupt-flag register at `0xFF0F`
//! stores only its low 5 bits and reads back with its top 3 bits forced to
//! one.  The interrupt-enable register at `0xFFFF` also stores only its low
//! 5 bits, and reads back as stored.  Every other address is plain byte
//! storage.
use vstd::prelude::*;

use crate::words::{hi16, lo16, word16, high_byte, low_byte, join_word};

verus! {

/// Address of the interrupt-flag register IF.
pub const IF_ADDR: u16 = 0xFF0F;

/// Address of the interrupt-enable register IE.
pub const IE_ADDR: u16 = 0xFFFF;

/// Flat byte-addressable memory with the two special interrupt registers.
#[derive(Clone)]
pub struct Bus {
    memory: Vec<u8>,
}

impl View for Bus {
    type V = Seq<u8>;

    closed spec fn view(&self) -> Seq<u8> {
        self.memory@
    }
}

/// What one byte read returns: stored bytes, except that IF reads back with
/// its top 3 bits forced to one.
pub open spec fn spec_read(mem: Seq<u8>, addr: u16) -> u8 {
    if addr == IF_ADDR {
        mem[addr as int] | 0xE0
    } else {
        mem[addr as int]
    }
}

/// The memory after one byte write: stores the byte, except that the two
/// interrupt registers IF and IE keep only its low 5 bits.
pub open spec fn spec_write(mem: Seq<u8>, addr: u16, value: u8) -> Seq<u8> {
    mem.update(
        addr as int,
        if addr == IF_ADDR || addr == IE_ADDR {
            value & 0x1F
        } else {
            value
        },
    )
}

/// A little-endian word read: low byte at `addr`, high byte one address up,
/// wrapping at the top of the address space.
pub open spec fn spec_read_word(mem: Seq<u8>, addr: u16) -> u16 {
    word16(spec_read(mem, addr.wrapping_add(1)), spec_read(mem, addr))
}

/// The memory after a little-endian word write.
pub open spec fn spec_write_word(mem: Seq<u8>, addr: u16, value: u16) -> Seq<u8> {
    spec_write(spec_write(mem, addr, lo16(value)), addr.wrapping_add(1), hi16(value))
}

/// The memory a reset leaves behind: 65536 zero bytes.
pub open spec fn spec_mem_new() -> Seq<u8> {
    Seq::new(0x10000, |i: int| 0u8)
}

impl Bus {
    /// The bus covers the full 16-bit address space.
    pub open spec fn wf(&self) -> bool {
        self@.len() == 0x10000
    }

    /// A bus of 65536 zero bytes.
    pub fn new() -> (b: Bus)
        ensures
            b.wf(),
            b@ == spec_mem_new(),
    {
        let mut memory: Vec<u8> = Vec::new();
        let mut i: usize = 0;
        while i < 0x10000
            invariant
                i == memory@.len(),
                i <= 0x10000,
                forall|j: int| 0 <= j < i ==> memory@[j] == 0u8,
            decreases 0x10000 - i,
        {
            memory.push(0);
            i = i + 1;
        }
        let b = Bus { memory };
        proof {
            assert(b@ =~= spec_mem_new());
        }
        b
    }

    pub fn read_byte(&self, addr: u16) -> (r: u8)
        requires
            self.wf(),
        ensures
            r == spec_read(self@, addr),
    {
        let b = self.memory[addr as usize];
        if addr == IF_ADDR {
            b | 0xE0
        } else {
            b
        }
    }

    pub fn write_byte(&mut self, addr: u16, value: u8)
        requires
            old(self).wf(),
        ensures
            final(self).wf(),
            final(self)@ == spec_write(old(self)@, addr, value),
    {
        let stored = if addr == IF_ADDR || addr == IE_ADDR {
            value & 0x1F
        } else {
            value
        };
        self.memory.set(addr as usize, stored);
    }

    pub fn read_word(&self, addr: u16) -> (r: u16)
        requires
            self.wf(),
        ensures
            r == spec_read_word(self@, addr),
    {
        let lo = self.read_byte(addr);
        let hi = self.read_byte(addr.wrapping_add(1));
        join_word(hi, lo)
    }

    pub fn write_word(&mut self, addr: u16, value: u16)
        requires
            old(self).wf(),
        ensures
            final(self).wf(),
            final(self)@ == spec_write_word(old(self)@, addr, value),
    {
        self.write_byte(addr, low_byte(value));
        self.write_byte(addr.wrapping_add(1), high_byte(value));
    }
}

} // verus!
