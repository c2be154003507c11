//! The arithmetic/logic unit as mathematics: one spec function per 8-bit
//! operation, each giving the result byte and the four condition flags, and
//! the 16-bit `ADD HL,rr` and `SP+e8` carry rules.
use vstd::prelude::*;

verus! {

/// Result and flags of one 8-bit operation.
pub ghost struct Alu8 {
    pub value: u8,
    pub z: bool,
    pub n: bool,
    pub h: bool,
    pub c: bool,
}

/// Result and flags of one 16-bit operation.
pub ghost struct Alu16 {
    pub value: u16,
    pub z: bool,
    pub n: bool,
    pub h: bool,
    pub c: bool,
}

/// `ADD`: wrapping sum; H from the low-nibble sum, C from unsigned overflow.
pub open spec fn add8(a: u8, v: u8) -> Alu8 {
    Alu8 {
        value: a.wrapping_add(v),
        z: a.wrapping_add(v) == 0,
        n: false,
        h: (a & 0xF) + (v & 0xF) > 0xF,
        c: a + v > 0xFF,
    }
}

/// `ADC`: as `ADD` with the carry flag added in.
pub open spec fn adc8(a: u8, v: u8, cin: bool) -> Alu8 {
    let ci: u8 = if cin {
        1
    } else {
        0
    };
    Alu8 {
        value: a.wrapping_add(v).wrapping_add(ci),
        z: a.wrapping_add(v).wrapping_add(ci) == 0,
        n: false,
        h: (a & 0xF) + (v & 0xF) + ci > 0xF,
        c: a + v + ci > 0xFF,
    }
}

/// `SUB`: wrapping difference; H from the low-nibble borrow, C from the
/// unsigned borrow.
pub open spec fn sub8(a: u8, v: u8) -> Alu8 {
    Alu8 {
        value: a.wrapping_sub(v),
        z: a.wrapping_sub(v) == 0,
        n: true,
        h: (a & 0xF) < (v & 0xF),
        c: a < v,
    }
}

/// `SBC`: as `SUB` with the carry flag borrowed in.
pub open spec fn sbc8(a: u8, v: u8, cin: bool) -> Alu8 {
    let ci: u8 = if cin {
        1
    } else {
        0
    };
    Alu8 {
        value: a.wrapping_sub(v).wrapping_sub(ci),
        z: a.wrapping_sub(v).wrapping_sub(ci) == 0,
        n: true,
        h: (a & 0xF) < (v & 0xF) + ci,
        c: (a as int) < v + ci,
    }
}

/// `CP`: the flags of `SUB`, with the accumulator kept.
pub open spec fn cp8(a: u8, v: u8) -> Alu8 {
    Alu8 { value: a, ..sub8(a, v) }
}

/// `AND`: forces H set, clears N and C.
pub open spec fn and8(a: u8, v: u8) -> Alu8 {
    Alu8 { value: a & v, z: (a & v) == 0, n: false, h: true, c: false }
}

/// `OR`: clears N, H and C.
pub open spec fn or8(a: u8, v: u8) -> Alu8 {
    Alu8 { value: a | v, z: (a | v) == 0, n: false, h: false, c: false }
}

/// `XOR`: clears N, H and C.
pub open spec fn xor8(a: u8, v: u8) -> Alu8 {
    Alu8 { value: a ^ v, z: (a ^ v) == 0, n: false, h: false, c: false }
}

/// `INC r`: the carry flag rides through unchanged.
pub open spec fn inc8(v: u8, cin: bool) -> Alu8 {
    Alu8 {
        value: v.wrapping_add(1),
        z: v.wrapping_add(1) == 0,
        n: false,
        h: (v & 0xF) + 1 > 0xF,
        c: cin,
    }
}

/// `DEC r`: the carry flag rides through unchanged.
pub open spec fn dec8(v: u8, cin: bool) -> Alu8 {
    Alu8 {
        value: v.wrapping_sub(1),
        z: v.wrapping_sub(1) == 0,
        n: true,
        h: (v & 0xF) == 0,
        c: cin,
    }
}

/// `DAA`: binary-coded-decimal adjust of the accumulator.  After an additive
/// operation the carry test reads the original accumulator; after a
/// subtractive one only the flags steer the adjustment.  H is always
/// cleared, N is never touched, Z reflects the final byte.
pub open spec fn daa8(a: u8, n: bool, h: bool, c: bool) -> Alu8 {
    if !n {
        let cout = c || a > 0x99;
        let a1 = if h || (a & 0xF) > 9 {
            a.wrapping_add(0x06)
        } else {
            a
        };
        let a2 = if cout {
            a1.wrapping_add(0x60)
        } else {
            a1
        };
        Alu8 { value: a2, z: a2 == 0, n: n, h: false, c: cout }
    } else {
        let a1 = if h {
            a.wrapping_sub(0x06)
        } else {
            a
        };
        let a2 = if c {
            a1.wrapping_sub(0x60)
        } else {
            a1
        };
        Alu8 { value: a2, z: a2 == 0, n: n, h: false, c: c }
    }
}

/// `RLCA`: circular rotate left; C takes the old bit 7; Z, N, H forced clear.
pub open spec fn rlca8(a: u8) -> Alu8 {
    Alu8 {
        value: ((a % 0x80) * 2 + a / 0x80) as u8,
        z: false,
        n: false,
        h: false,
        c: a >= 0x80,
    }
}

/// `RLA`: rotate left through the carry flag.
pub open spec fn rla8(a: u8, cin: bool) -> Alu8 {
    let ci: u8 = if cin {
        1
    } else {
        0
    };
    Alu8 { value: ((a % 0x80) * 2 + ci) as u8, z: false, n: false, h: false, c: a >= 0x80 }
}

/// `RRCA`: circular rotate right; C takes the old bit 0.
pub open spec fn rrca8(a: u8) -> Alu8 {
    Alu8 {
        value: (a / 2 + (a % 2) * 0x80) as u8,
        z: false,
        n: false,
        h: false,
        c: a % 2 == 1,
    }
}

/// `RRA`: rotate right through the carry flag.
pub open spec fn rra8(a: u8, cin: bool) -> Alu8 {
    let ci: u8 = if cin {
        1
    } else {
        0
    };
    Alu8 { value: (a / 2 + ci * 0x80) as u8, z: false, n: false, h: false, c: a % 2 == 1 }
}

/// `CPL`: complement the accumulator; sets N and H, keeps Z and C.
pub open spec fn cpl8(a: u8, z: bool, c: bool) -> Alu8 {
    Alu8 { value: !a, z: z, n: true, h: true, c: c }
}

/// `ADD HL,rr`: wrapping 16-bit sum; H from bit 11, C from bit 15, Z kept.
pub open spec fn add16(hl: u16, rr: u16, zin: bool) -> Alu16 {
    Alu16 {
        value: hl.wrapping_add(rr),
        z: zin,
        n: false,
        h: (hl % 0x1000) + (rr % 0x1000) > 0xFFF,
        c: hl + rr > 0xFFFF,
    }
}

/// `LD HL,SP+e8`: wrapping sum of SP and the sign-extended offset; C and H
/// come from the unsigned low-byte and low-nibble sums, Z and N are cleared.
pub open spec fn sp_offset(sp: u16, off: u8) -> Alu16 {
    Alu16 {
        value: sp.wrapping_add(crate::words::sext8(off)),
        z: false,
        n: false,
        h: (sp % 0x10) + (off % 0x10) > 0xF,
        c: (sp % 0x100) + off > 0xFF,
    }
}

/// CP purity: comparing never changes the accumulator, and its four flags
/// are exactly the flags `SUB` would leave, on every pair of operands.
pub proof fn lemma_cp_is_flag_only_sub(a: u8, v: u8)
    ensures
        cp8(a, v).value == a,
        cp8(a, v).z == sub8(a, v).z,
        cp8(a, v).n == sub8(a, v).n,
        cp8(a, v).h == sub8(a, v).h,
        cp8(a, v).c == sub8(a, v).c,
{
}

} // verus!
