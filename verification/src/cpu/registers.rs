//! The register file: eight 8-bit registers with the four condition flags
//! Z, N, H, C, and the big-endian 16-bit pair views AF, BC, DE, HL.
//!
//! The flags are held as four booleans, so the packed flag byte `F` is
//! synthesized on demand and its low nibble is zero in every reachable and
//! unreachable state alike: writing garbage bits through `set_f` or `set_af`
//! simply drops bits 0 to 3.
use vstd::prelude::*;

use crate::words::{hi16, lo16, word16, high_byte, low_byte, join_word};

verus! {

/// Eight 8-bit registers; the flag register is kept unpacked.
pub struct Registers {
    pub a_reg: u8,
    pub b_reg: u8,
    pub c_reg: u8,
    pub d_reg: u8,
    pub e_reg: u8,
    pub h_reg: u8,
    pub l_reg: u8,
    pub zf: bool,
    pub nf: bool,
    pub hf: bool,
    pub cf: bool,
}

/// The packed flag byte: bits 7..4 are Z, N, H, C; bits 3..0 are zero.
pub open spec fn flags_byte(z: bool, n: bool, h: bool, c: bool) -> u8 {
    ((if z { 128int } else { 0 }) + (if n { 64int } else { 0 }) + (if h { 32int } else { 0 }) + (
    if c {
        16int
    } else {
        0int
    })) as u8
}

/// Bit 7 of a byte written to `F` selects Z.
pub open spec fn z_bit(v: u8) -> bool {
    v & 0x80 != 0
}

/// Bit 6 of a byte written to `F` selects N.
pub open spec fn n_bit(v: u8) -> bool {
    v & 0x40 != 0
}

/// Bit 5 of a byte written to `F` selects H.
pub open spec fn h_bit(v: u8) -> bool {
    v & 0x20 != 0
}

/// Bit 4 of a byte written to `F` selects C.
pub open spec fn c_bit(v: u8) -> bool {
    v & 0x10 != 0
}

/// The AF pair: A in the high byte, the packed flags in the low byte.
pub open spec fn af_of(r: Registers) -> u16 {
    word16(r.a_reg, flags_byte(r.zf, r.nf, r.hf, r.cf))
}

/// The BC pair.
pub open spec fn bc_of(r: Registers) -> u16 {
    word16(r.b_reg, r.c_reg)
}

/// The DE pair.
pub open spec fn de_of(r: Registers) -> u16 {
    word16(r.d_reg, r.e_reg)
}

/// The HL pair.
pub open spec fn hl_of(r: Registers) -> u16 {
    word16(r.h_reg, r.l_reg)
}

/// The register file a reset leaves behind: everything zero, all flags clear.
pub open spec fn spec_regs_new() -> Registers {
    Registers {
        a_reg: 0,
        b_reg: 0,
        c_reg: 0,
        d_reg: 0,
        e_reg: 0,
        h_reg: 0,
        l_reg: 0,
        zf: false,
        nf: false,
        hf: false,
        cf: false,
    }
}

/// Flag-nibble invariant: however the four flags stand, the packed flag byte
/// has a zero low nibble.  Every state of `Registers` satisfies it, so it
/// holds after any sequence of flag-setting operations.
pub proof fn lemma_flags_low_nibble_zero(z: bool, n: bool, h: bool, c: bool)
    ensures
        flags_byte(z, n, h, c) & 0x0F == 0,
{
    let v: u8 = flags_byte(z, n, h, c);
    assert(v % 16 == 0);
    assert(v % 16 == 0 ==> v & 0x0F == 0) by (bit_vector);
}

/// Flag-nibble invariant seen through the AF pair: the low nibble of AF is
/// zero in every state, even right after `set_af` was handed garbage bits.
pub proof fn lemma_af_low_nibble_zero(r: Registers)
    ensures
        af_of(r) & 0x000F == 0,
{
    let f: u8 = flags_byte(r.zf, r.nf, r.hf, r.cf);
    lemma_flags_low_nibble_zero(r.zf, r.nf, r.hf, r.cf);
    let a: u8 = r.a_reg;
    let v: u16 = word16(a, f);
    assert(v == a * 256 + f && f & 0x0F == 0 ==> v & 0x000F == 0) by (bit_vector);
}

impl Registers {
    /// A zeroed register file.
    pub fn new() -> (r: Registers)
        ensures
            r == spec_regs_new(),
    {
        Registers {
            a_reg: 0,
            b_reg: 0,
            c_reg: 0,
            d_reg: 0,
            e_reg: 0,
            h_reg: 0,
            l_reg: 0,
            zf: false,
            nf: false,
            hf: false,
            cf: false,
        }
    }

    pub fn a(&self) -> (r: u8)
        ensures
            r == self.a_reg,
    {
        self.a_reg
    }

    pub fn set_a(&mut self, value: u8)
        ensures
            *final(self) == (Registers { a_reg: value, ..*old(self) }),
    {
        self.a_reg = value;
    }

    /// The packed flag byte `F`.
    pub fn f(&self) -> (r: u8)
        ensures
            r == flags_byte(self.zf, self.nf, self.hf, self.cf),
    {
        (if self.zf { 128u8 } else { 0u8 }) + (if self.nf { 64u8 } else { 0u8 }) + (if self.hf {
            32u8
        } else {
            0u8
        }) + (if self.cf { 16u8 } else { 0u8 })
    }

    /// Writes the packed flag byte; bits 3..0 of the argument are dropped.
    pub fn set_f(&mut self, value: u8)
        ensures
            *final(self) == (Registers {
                zf: z_bit(value),
                nf: n_bit(value),
                hf: h_bit(value),
                cf: c_bit(value),
                ..*old(self)
            }),
    {
        self.zf = value & 0x80 != 0;
        self.nf = value & 0x40 != 0;
        self.hf = value & 0x20 != 0;
        self.cf = value & 0x10 != 0;
    }

    pub fn b(&self) -> (r: u8)
        ensures
            r == self.b_reg,
    {
        self.b_reg
    }

    pub fn set_b(&mut self, value: u8)
        ensures
            *final(self) == (Registers { b_reg: value, ..*old(self) }),
    {
        self.b_reg = value;
    }

    pub fn c(&self) -> (r: u8)
        ensures
            r == self.c_reg,
    {
        self.c_reg
    }

    pub fn set_c(&mut self, value: u8)
        ensures
            *final(self) == (Registers { c_reg: value, ..*old(self) }),
    {
        self.c_reg = value;
    }

    pub fn d(&self) -> (r: u8)
        ensures
            r == self.d_reg,
    {
        self.d_reg
    }

    pub fn set_d(&mut self, value: u8)
        ensures
            *final(self) == (Registers { d_reg: value, ..*old(self) }),
    {
        self.d_reg = value;
    }

    pub fn e(&self) -> (r: u8)
        ensures
            r == self.e_reg,
    {
        self.e_reg
    }

    pub fn set_e(&mut self, value: u8)
        ensures
            *final(self) == (Registers { e_reg: value, ..*old(self) }),
    {
        self.e_reg = value;
    }

    pub fn h(&self) -> (r: u8)
        ensures
            r == self.h_reg,
    {
        self.h_reg
    }

    pub fn set_h(&mut self, value: u8)
        ensures
            *final(self) == (Registers { h_reg: value, ..*old(self) }),
    {
        self.h_reg = value;
    }

    pub fn l(&self) -> (r: u8)
        ensures
            r == self.l_reg,
    {
        self.l_reg
    }

    pub fn set_l(&mut self, value: u8)
        ensures
            *final(self) == (Registers { l_reg: value, ..*old(self) }),
    {
        self.l_reg = value;
    }

    /// Alias of `get_bc`, kept under its historical name.
    pub fn get_pc(&self) -> (r: u16)
        ensures
            r == bc_of(*self),
    {
        join_word(self.b_reg, self.c_reg)
    }

    /// Alias of `set_bc`, kept under its historical name.
    pub fn set_pc(&mut self, value: u16)
        ensures
            *final(self) == (Registers {
                b_reg: hi16(value),
                c_reg: lo16(value),
                ..*old(self)
            }),
    {
        self.b_reg = high_byte(value);
        self.c_reg = low_byte(value);
    }

    pub fn get_af(&self) -> (r: u16)
        ensures
            r == af_of(*self),
            r & 0x000F == 0,
    {
        let f = self.f();
        proof {
            lemma_af_low_nibble_zero(*self);
        }
        join_word(self.a_reg, f)
    }

    /// Writes the AF pair; the low nibble of the synthesized `F` is dropped.
    pub fn set_af(&mut self, value: u16)
        ensures
            *final(self) == (Registers {
                a_reg: hi16(value),
                zf: z_bit(lo16(value)),
                nf: n_bit(lo16(value)),
                hf: h_bit(lo16(value)),
                cf: c_bit(lo16(value)),
                ..*old(self)
            }),
    {
        self.a_reg = high_byte(value);
        let lo = low_byte(value);
        self.set_f(lo);
    }

    pub fn get_bc(&self) -> (r: u16)
        ensures
            r == bc_of(*self),
    {
        join_word(self.b_reg, self.c_reg)
    }

    pub fn set_bc(&mut self, value: u16)
        ensures
            *final(self) == (Registers {
                b_reg: hi16(value),
                c_reg: lo16(value),
                ..*old(self)
            }),
    {
        self.b_reg = high_byte(value);
        self.c_reg = low_byte(value);
    }

    pub fn get_de(&self) -> (r: u16)
        ensures
            r == de_of(*self),
    {
        join_word(self.d_reg, self.e_reg)
    }

    pub fn set_de(&mut self, value: u16)
        ensures
            *final(self) == (Registers {
                d_reg: hi16(value),
                e_reg: lo16(value),
                ..*old(self)
            }),
    {
        self.d_reg = high_byte(value);
        self.e_reg = low_byte(value);
    }

    pub fn get_hl(&self) -> (r: u16)
        ensures
            r == hl_of(*self),
    {
        join_word(self.h_reg, self.l_reg)
    }

    pub fn set_hl(&mut self, value: u16)
        ensures
            *final(self) == (Registers {
                h_reg: hi16(value),
                l_reg: lo16(value),
                ..*old(self)
            }),
    {
        self.h_reg = high_byte(value);
        self.l_reg = low_byte(value);
    }

    pub fn get_z(&self) -> (r: bool)
        ensures
            r == self.zf,
    {
        self.zf
    }

    pub fn get_n(&self) -> (r: bool)
        ensures
            r == self.nf,
    {
        self.nf
    }

    pub fn get_hc(&self) -> (r: bool)
        ensures
            r == self.hf,
    {
        self.hf
    }

    pub fn get_carry(&self) -> (r: bool)
        ensures
            r == self.cf,
    {
        self.cf
    }

    pub fn set_z(&mut self, zf: bool)
        ensures
            *final(self) == (Registers { zf, ..*old(self) }),
    {
        self.zf = zf;
    }

    pub fn set_n(&mut self, nf: bool)
        ensures
            *final(self) == (Registers { nf, ..*old(self) }),
    {
        self.nf = nf;
    }

    pub fn set_hc(&mut self, hf: bool)
        ensures
            *final(self) == (Registers { hf, ..*old(self) }),
    {
        self.hf = hf;
    }

    pub fn set_carry(&mut self, cf: bool)
        ensures
            *final(self) == (Registers { cf, ..*old(self) }),
    {
        self.cf = cf;
    }
}

} // verus!
