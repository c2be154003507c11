//! The interrupt controller: the master enable IME, its delayed-enable
//! schedule, and the five priority-ordered interrupt sources with their
//! fixed service vectors.
use vstd::prelude::*;

verus! {

/// The five interrupt sources, highest priority first.
#[derive(Copy, Clone, Debug, PartialEq, Eq)]
pub enum Interrupt {
    VBlank,
    LCDStat,
    Timer,
    Serial,
    Joypad,
}

/// The IE/IF bit of a source: bit 0 is VBlank, the highest priority.
pub open spec fn spec_bit(i: Interrupt) -> u8 {
    match i {
        Interrupt::VBlank => 0x01,
        Interrupt::LCDStat => 0x02,
        Interrupt::Timer => 0x04,
        Interrupt::Serial => 0x08,
        Interrupt::Joypad => 0x10,
    }
}

/// The fixed service vector of a source.
pub open spec fn spec_vector(i: Interrupt) -> u16 {
    match i {
        Interrupt::VBlank => 0x0040,
        Interrupt::LCDStat => 0x0048,
        Interrupt::Timer => 0x0050,
        Interrupt::Serial => 0x0058,
        Interrupt::Joypad => 0x0060,
    }
}

/// The highest-priority source among a 5-bit pending mask, lowest bit first.
pub open spec fn spec_highest(p: u8) -> Option<Interrupt> {
    if p & 0x01 != 0 {
        Some(Interrupt::VBlank)
    } else if p & 0x02 != 0 {
        Some(Interrupt::LCDStat)
    } else if p & 0x04 != 0 {
        Some(Interrupt::Timer)
    } else if p & 0x08 != 0 {
        Some(Interrupt::Serial)
    } else if p & 0x10 != 0 {
        Some(Interrupt::Joypad)
    } else {
        None
    }
}

/// A nonzero 5-bit pending mask always names a source to service.
pub proof fn lemma_pending_nonzero_has_source(q: u8)
    ensures
        q & 0x1F != 0 ==> spec_highest(q & 0x1F) is Some,
{
    assert(q & 0x1F != 0 ==> ((q & 0x1F) & 0x01 != 0 || (q & 0x1F) & 0x02 != 0 || (q & 0x1F)
        & 0x04 != 0 || (q & 0x1F) & 0x08 != 0 || (q & 0x1F) & 0x10 != 0)) by (bit_vector);
}

impl Interrupt {
    pub fn bit(self) -> (r: u8)
        ensures
            r == spec_bit(self),
    {
        match self {
            Interrupt::VBlank => 0x01,
            Interrupt::LCDStat => 0x02,
            Interrupt::Timer => 0x04,
            Interrupt::Serial => 0x08,
            Interrupt::Joypad => 0x10,
        }
    }

    pub fn vector(self) -> (r: u16)
        ensures
            r == spec_vector(self),
    {
        match self {
            Interrupt::VBlank => 0x0040,
            Interrupt::LCDStat => 0x0048,
            Interrupt::Timer => 0x0050,
            Interrupt::Serial => 0x0058,
            Interrupt::Joypad => 0x0060,
        }
    }
}

/// Interrupt state: the master enable IME, its pending-enable schedule, and copies of
/// the IE and IF registers.
pub struct Interrupts {
    pub ime: bool,
    pub ime_scheduled: bool,
    pub ie: u8,
    pub i_flag: u8,
}

impl Interrupts {
    /// Reset state: IME off, nothing scheduled, nothing enabled or
    /// requested.
    pub fn new() -> (r: Interrupts)
        ensures
            r == (Interrupts { ime: false, ime_scheduled: false, ie: 0u8, i_flag: 0u8 }),
    {
        Interrupts { ime: false, ime_scheduled: false, ie: 0, i_flag: 0 }
    }

    /// The 5-bit mask of sources both enabled and requested.
    pub fn pending_mask(&self) -> (r: u8)
        ensures
            r == (self.ie & self.i_flag) & 0x1F,
    {
        (self.ie & self.i_flag) & 0x1F
    }

    pub fn has_pending(&self) -> (r: bool)
        ensures
            r == ((self.ie & self.i_flag) & 0x1F != 0),
    {
        self.pending_mask() != 0
    }

    /// The source to service next: the lowest set bit of the pending mask.
    pub fn highest_priority(&self) -> (r: Option<Interrupt>)
        ensures
            r == spec_highest((self.ie & self.i_flag) & 0x1F),
    {
        let p = self.pending_mask();
        if p & 0x01 != 0 {
            Some(Interrupt::VBlank)
        } else if p & 0x02 != 0 {
            Some(Interrupt::LCDStat)
        } else if p & 0x04 != 0 {
            Some(Interrupt::Timer)
        } else if p & 0x08 != 0 {
            Some(Interrupt::Serial)
        } else if p & 0x10 != 0 {
            Some(Interrupt::Joypad)
        } else {
            None
        }
    }

    /// Raises a source's request bit in IF.
    pub fn request(&mut self, intr: Interrupt)
        ensures
            *final(self) == (Interrupts {
                i_flag: old(self).i_flag | spec_bit(intr),
                ..*old(self)
            }),
    {
        let b = intr.bit();
        self.i_flag = self.i_flag | b;
    }

    /// Drops a source's request bit from IF.
    pub fn clear_request(&mut self, intr: Interrupt)
        ensures
            *final(self) == (Interrupts {
                i_flag: old(self).i_flag & !spec_bit(intr),
                ..*old(self)
            }),
    {
        let b = intr.bit();
        self.i_flag = self.i_flag & !b;
    }
}

} // verus!
