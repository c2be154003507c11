//! The CPU: the owned machine state (register file, program counter, stack
//! pointer, bus, halt and interrupt-enable flags), the arithmetic helpers that
//! set the condition flags, and the fetch/decode/execute step.
use vstd::prelude::*;

pub mod alu;
pub mod execute;
pub mod instructions;
pub mod registers;

use crate::bus::{Bus, spec_read, spec_read_word, spec_write, spec_mem_new, IF_ADDR, IE_ADDR};
use crate::words::{hi16, lo16, word16, high_byte, low_byte, join_word};
use crate::cpu::registers::{Registers, flags_byte};
use crate::cpu::alu::{add8, adc8, sub8, sbc8, add16};
use crate::cpu::instructions::{Instruction, spec_decode};
use crate::cpu::execute::{execute, spec_execute, push_view};
use crate::interrupts::{Interrupts, spec_bit, spec_vector, spec_highest,
    lemma_pending_nonzero_has_source};

verus! {

/// The fatal condition of the instruction stream: an opcode outside the
/// decode tables, with the byte, the address it was fetched from, and
/// whether it sat in the CB-prefixed table.
#[derive(Copy, Clone, Debug, PartialEq, Eq)]
pub struct DecodeError {
    pub opcode: u8,
    pub addr: u16,
    pub prefixed: bool,
}

/// The mathematical state of the machine: registers and flags unpacked,
/// memory as a byte sequence.
#[verifier::ext_equal]
pub ghost struct CpuView {
    pub a: u8,
    pub b: u8,
    pub c: u8,
    pub d: u8,
    pub e: u8,
    pub h: u8,
    pub l: u8,
    pub zf: bool,
    pub nf: bool,
    pub hf: bool,
    pub cf: bool,
    pub pc: u16,
    pub sp: u16,
    pub mem: Seq<u8>,
    pub halted: bool,
    pub ime: bool,
    pub ime_scheduled: bool,
    pub halt_bug: bool,
}

impl CpuView {
    /// The AF pair, with the packed flag byte in the low half.
    pub open spec fn af(self) -> u16 {
        word16(self.a, flags_byte(self.zf, self.nf, self.hf, self.cf))
    }

    pub open spec fn bc(self) -> u16 {
        word16(self.b, self.c)
    }

    pub open spec fn de(self) -> u16 {
        word16(self.d, self.e)
    }

    pub open spec fn hl(self) -> u16 {
        word16(self.h, self.l)
    }

    /// The 5-bit mask of interrupts both enabled and requested, as the step
    /// function reads it off the bus.
    pub open spec fn pending(self) -> u8 {
        (spec_read(self.mem, IE_ADDR) & spec_read(self.mem, IF_ADDR)) & 0x1F
    }
}

/// One CPU: register file, committed program counter, stack pointer, the
/// bus it owns, and the halt/interrupt state machine.
pub struct Cpu {
    pub regs: Registers,
    pub pc: u16,
    pub sp: u16,
    pub bus: Bus,
    pub halted: bool,
    pub ime: bool,
    pub ime_scheduled: bool,
    pub halt_bug: bool,
}

impl View for Cpu {
    type V = CpuView;

    open spec fn view(&self) -> CpuView {
        CpuView {
            a: self.regs.a_reg,
            b: self.regs.b_reg,
            c: self.regs.c_reg,
            d: self.regs.d_reg,
            e: self.regs.e_reg,
            h: self.regs.h_reg,
            l: self.regs.l_reg,
            zf: self.regs.zf,
            nf: self.regs.nf,
            hf: self.regs.hf,
            cf: self.regs.cf,
            pc: self.pc,
            sp: self.sp,
            mem: self.bus@,
            halted: self.halted,
            ime: self.ime,
            ime_scheduled: self.ime_scheduled,
            halt_bug: self.halt_bug,
        }
    }
}

/// The four state-machine flags are untouched.
pub open spec fn ctrl_unchanged(pre: Cpu, post: Cpu) -> bool {
    &&& post.halted == pre.halted
    &&& post.ime == pre.ime
    &&& post.ime_scheduled == pre.ime_scheduled
    &&& post.halt_bug == pre.halt_bug
}

/// The register file after a flag-only update.
pub open spec fn flags_set(
    pre: Registers,
    post: Registers,
    z: bool,
    n: bool,
    h: bool,
    c: bool,
) -> bool {
    post == (Registers { zf: z, nf: n, hf: h, cf: c, ..pre })
}

/// Servicing the highest-priority pending interrupt: push the current
/// `PC`, clear IME, drop the source's request bit from IF, and
/// jump to the source's vector.
pub open spec fn spec_dispatch(s: CpuView) -> CpuView {
    match spec_highest(s.pending()) {
        Some(i) => {
            let pushed = push_view(s, s.pc);
            CpuView {
                pc: spec_vector(i),
                ime: false,
                mem: spec_write(pushed.mem, IF_ADDR, spec_read(pushed.mem, IF_ADDR) & !spec_bit(i)),
                ..pushed
            }
        },
        None => s,
    }
}

/// One call of `Cpu::step`: wake on a pending interrupt, do nothing while
/// halted, dispatch one interrupt when IME allows it, else fetch, decode
/// and execute one instruction.  A set `halt_bug` flag makes this fetch read
/// its opcode without advancing past it, so the byte after `HALT` is seen
/// twice; a scheduled interrupt enable takes effect once the instruction has
/// completed.  An opcode outside the decode tables changes nothing and is
/// reported with its address.
pub open spec fn spec_step(pre: CpuView) -> (CpuView, Result<(), DecodeError>) {
    let pending = pre.pending();
    let s = if pre.halted && pending != 0 {
        CpuView { halted: false, ..pre }
    } else {
        pre
    };
    if s.halted {
        (s, Ok(()))
    } else if s.ime && pending != 0 {
        (spec_dispatch(s), Ok(()))
    } else {
        spec_fetch_execute(s)
    }
}

/// The fetch/decode/execute portion of one step, for a running machine with
/// no interrupt to dispatch.
pub open spec fn spec_fetch_execute(s: CpuView) -> (CpuView, Result<(), DecodeError>) {
    let op0 = spec_read(s.mem, s.pc);
    let prefixed = op0 == 0xCB;
    let op = if prefixed {
        spec_read(s.mem, s.pc.wrapping_add(1))
    } else {
        op0
    };
    match spec_decode(op, prefixed) {
        Option::None => (s, Err(DecodeError { opcode: op, addr: s.pc, prefixed })),
        Option::Some(instr) => (spec_run_decoded(s, instr), Ok(())),
    }
}

/// Executing one decoded instruction within a step: a pending halt bug
/// backs the fetch base up one byte and clears, the instruction effect is
/// applied with the next `PC` committed, and a scheduled interrupt enable
/// takes effect.
pub open spec fn spec_run_decoded(s: CpuView, instr: Instruction) -> CpuView {
    let base = if s.halt_bug {
        s.pc.wrapping_sub(1)
    } else {
        s.pc
    };
    let executed = spec_execute(CpuView { pc: base, halt_bug: false, ..s }, instr);
    if s.ime_scheduled {
        CpuView { ime: true, ime_scheduled: false, ..executed }
    } else {
        executed
    }
}

/// Stack round trip: for every 16-bit word, pushing it and popping again
/// yields the word back and leaves `SP` where it started, and after the
/// push the memory holds the low byte at the new `SP` and the high byte
/// right above it.  The two pushed addresses must miss the IF and IE
/// registers, whose write masks would clip a stored byte.
pub proof fn lemma_push_pop_round_trip(s: CpuView, v: u16)
    requires
        s.mem.len() == 0x10000,
        s.sp.wrapping_sub(1) != IF_ADDR,
        s.sp.wrapping_sub(2) != IF_ADDR,
        s.sp.wrapping_sub(1) != IE_ADDR,
        s.sp.wrapping_sub(2) != IE_ADDR,
    ensures
        crate::cpu::execute::pop_val(push_view(s, v)) == v,
        push_view(s, v).sp == s.sp.wrapping_sub(2),
        push_view(s, v).sp.wrapping_add(2) == s.sp,
        spec_read(push_view(s, v).mem, push_view(s, v).sp) == lo16(v),
        spec_read(push_view(s, v).mem, push_view(s, v).sp.wrapping_add(1)) == hi16(v),
{
    let hi_addr = s.sp.wrapping_sub(1);
    let lo_addr = s.sp.wrapping_sub(2);
    assert(lo_addr.wrapping_add(1) == hi_addr);
    assert(lo_addr != hi_addr);
    crate::words::lemma_word16_roundtrip(v);
}

/// `n` calls of `Cpu::step`, stopping at the first decode failure.
pub open spec fn spec_run(s: CpuView, n: nat) -> (CpuView, Result<(), DecodeError>)
    decreases n,
{
    if n == 0 {
        (s, Ok(()))
    } else {
        let stepped = spec_step(s);
        match stepped.1 {
            Result::Ok(_) => spec_run(stepped.0, (n - 1) as nat),
            Result::Err(e) => stepped,
        }
    }
}

impl Cpu {
    /// The bus behind this CPU covers the full address space.
    pub open spec fn wf(&self) -> bool {
        self.bus.wf()
    }

    /// The reset state: zeroed registers, `PC = 0`, `SP = 0xFFFE`, running,
    /// interrupts masked off, zeroed memory.
    pub open spec fn spec_new() -> CpuView {
        CpuView {
            a: 0,
            b: 0,
            c: 0,
            d: 0,
            e: 0,
            h: 0,
            l: 0,
            zf: false,
            nf: false,
            hf: false,
            cf: false,
            pc: 0,
            sp: 0xFFFE,
            mem: spec_mem_new(),
            halted: false,
            ime: false,
            ime_scheduled: false,
            halt_bug: false,
        }
    }

    pub fn new() -> (r: Cpu)
        ensures
            r.wf(),
            r@ == Cpu::spec_new(),
    {
        let r = Cpu {
            regs: Registers::new(),
            pc: 0x0000,
            sp: 0xFFFE,
            bus: Bus::new(),
            halted: false,
            ime: false,
            ime_scheduled: false,
            halt_bug: false,
        };
        proof {
            assert(r@ =~= Cpu::spec_new());
        }
        r
    }

    /// The byte right after the opcode, read without moving `PC`.
    pub fn next_byte(&self) -> (r: u8)
        requires
            self.wf(),
        ensures
            r == spec_read(self@.mem, self.pc.wrapping_add(1)),
    {
        self.bus.read_byte(self.pc.wrapping_add(1))
    }

    /// The little-endian word right after the opcode, read without moving
    /// `PC`.
    pub fn next_word(&self) -> (r: u16)
        requires
            self.wf(),
        ensures
            r == spec_read_word(self@.mem, self.pc.wrapping_add(1)),
    {
        self.bus.read_word(self.pc.wrapping_add(1))
    }

    /// Pushes a word: the stack grows down, high byte first, so the final
    /// layout is low byte at `SP`, high byte at `SP + 1`.  `PC` and the
    /// registers stay put.
    pub fn push_word(&mut self, value: u16)
        requires
            old(self).wf(),
        ensures
            final(self).wf(),
            final(self).sp == old(self).sp.wrapping_sub(2),
            final(self).bus@ == spec_write(
                spec_write(old(self).bus@, old(self).sp.wrapping_sub(1), hi16(value)),
                old(self).sp.wrapping_sub(2),
                lo16(value),
            ),
            final(self).regs == old(self).regs,
            final(self).pc == old(self).pc,
            ctrl_unchanged(*old(self), *final(self)),
    {
        self.sp = self.sp.wrapping_sub(1);
        let hi = high_byte(value);
        self.bus.write_byte(self.sp, hi);
        self.sp = self.sp.wrapping_sub(1);
        let lo = low_byte(value);
        self.bus.write_byte(self.sp, lo);
    }

    /// Pops a word: low byte at `SP`, high byte at `SP + 1`, then `SP`
    /// moves up by two.  Memory is only read.
    pub fn pop_word(&mut self) -> (r: u16)
        requires
            old(self).wf(),
        ensures
            final(self).wf(),
            r == word16(
                spec_read(old(self).bus@, old(self).sp.wrapping_add(1)),
                spec_read(old(self).bus@, old(self).sp),
            ),
            final(self).sp == old(self).sp.wrapping_add(2),
            final(self).bus@ == old(self).bus@,
            final(self).regs == old(self).regs,
            final(self).pc == old(self).pc,
            ctrl_unchanged(*old(self), *final(self)),
    {
        let lo = self.bus.read_byte(self.sp);
        self.sp = self.sp.wrapping_add(1);
        let hi = self.bus.read_byte(self.sp);
        self.sp = self.sp.wrapping_add(1);
        join_word(hi, lo)
    }

    /// Copies an image (at most 32 KiB of it) to the bottom of the address
    /// space and points `PC` at the conventional entry `0x0100`.
    pub fn load_rom(&mut self, rom: &[u8])
        requires
            old(self).wf(),
        ensures
            final(self).wf(),
            final(self).pc == 0x0100,
            final(self).bus@.len() == old(self).bus@.len(),
            forall|i: int|
                0 <= i < old(self).bus@.len() ==> final(self).bus@[i] == (if i < rom@.len() && i
                    < 0x8000 {
                    rom@[i]
                } else {
                    old(self).bus@[i]
                }),
            final(self).sp == old(self).sp,
            final(self).regs == old(self).regs,
            ctrl_unchanged(*old(self), *final(self)),
    {
        let len = if rom.len() < 0x8000 {
            rom.len()
        } else {
            0x8000
        };
        let mut i: usize = 0;
        while i < len
            invariant
                i <= len,
                len <= rom@.len(),
                len <= 0x8000,
                self.wf(),
                self.bus@.len() == old(self).bus@.len(),
                forall|j: int|
                    0 <= j < old(self).bus@.len() ==> self.bus@[j] == (if j < i {
                        rom@[j]
                    } else {
                        old(self).bus@[j]
                    }),
                self.sp == old(self).sp,
                self.regs == old(self).regs,
                self.pc == old(self).pc,
                ctrl_unchanged(*old(self), *self),
            decreases len - i,
        {
            let b = rom[i];
            self.bus.write_byte(i as u16, b);
            i = i + 1;
        }
        self.pc = 0x0100;
    }

    /// `ADD`-family flag helper: computes `A + value`, sets the four flags,
    /// and hands the sum back without writing any register.
    pub fn add(&mut self, value: u8) -> (r: u8)
        ensures
            r == add8(old(self).regs.a_reg, value).value,
            flags_set(
                old(self).regs,
                final(self).regs,
                add8(old(self).regs.a_reg, value).z,
                add8(old(self).regs.a_reg, value).n,
                add8(old(self).regs.a_reg, value).h,
                add8(old(self).regs.a_reg, value).c,
            ),
            final(self).pc == old(self).pc,
            final(self).sp == old(self).sp,
            final(self).bus == old(self).bus,
            ctrl_unchanged(*old(self), *final(self)),
    {
        let a = self.regs.a_reg;
        let new_value = a.wrapping_add(value);
        self.regs.set_z(new_value == 0);
        self.regs.set_n(false);
        self.regs.set_carry((a as u16) + (value as u16) > 0xFF);
        self.regs.set_hc(((a & 0xF) as u16) + ((value & 0xF) as u16) > 0xF);
        new_value
    }

    /// `ADC` flag helper: as `add`, with the carry flag added in.
    pub(crate) fn adc(&mut self, value: u8) -> (r: u8)
        ensures
            r == adc8(old(self).regs.a_reg, value, old(self).regs.cf).value,
            flags_set(
                old(self).regs,
                final(self).regs,
                adc8(old(self).regs.a_reg, value, old(self).regs.cf).z,
                adc8(old(self).regs.a_reg, value, old(self).regs.cf).n,
                adc8(old(self).regs.a_reg, value, old(self).regs.cf).h,
                adc8(old(self).regs.a_reg, value, old(self).regs.cf).c,
            ),
            final(self).pc == old(self).pc,
            final(self).sp == old(self).sp,
            final(self).bus == old(self).bus,
            ctrl_unchanged(*old(self), *final(self)),
    {
        let a = self.regs.a_reg;
        let ci: u8 = if self.regs.cf {
            1
        } else {
            0
        };
        let new_value = a.wrapping_add(value).wrapping_add(ci);
        self.regs.set_z(new_value == 0);
        self.regs.set_n(false);
        self.regs.set_carry((a as u16) + (value as u16) + (ci as u16) > 0xFF);
        self.regs.set_hc(((a & 0xF) as u16) + ((value & 0xF) as u16) + (ci as u16) > 0xF);
        new_value
    }

    /// `SUB`-family flag helper: computes `A - value`, sets the four flags,
    /// and hands the difference back without writing any register.
    pub fn sub(&mut self, value: u8) -> (r: u8)
        ensures
            r == sub8(old(self).regs.a_reg, value).value,
            flags_set(
                old(self).regs,
                final(self).regs,
                sub8(old(self).regs.a_reg, value).z,
                sub8(old(self).regs.a_reg, value).n,
                sub8(old(self).regs.a_reg, value).h,
                sub8(old(self).regs.a_reg, value).c,
            ),
            final(self).pc == old(self).pc,
            final(self).sp == old(self).sp,
            final(self).bus == old(self).bus,
            ctrl_unchanged(*old(self), *final(self)),
    {
        let a = self.regs.a_reg;
        let new_value = a.wrapping_sub(value);
        self.regs.set_z(new_value == 0);
        self.regs.set_n(true);
        self.regs.set_carry(a < value);
        self.regs.set_hc((a & 0xF) < (value & 0xF));
        new_value
    }

    /// `SBC` flag helper: as `sub`, with the carry flag borrowed in.
    pub(crate) fn sbc(&mut self, value: u8) -> (r: u8)
        ensures
            r == sbc8(old(self).regs.a_reg, value, old(self).regs.cf).value,
            flags_set(
                old(self).regs,
                final(self).regs,
                sbc8(old(self).regs.a_reg, value, old(self).regs.cf).z,
                sbc8(old(self).regs.a_reg, value, old(self).regs.cf).n,
                sbc8(old(self).regs.a_reg, value, old(self).regs.cf).h,
                sbc8(old(self).regs.a_reg, value, old(self).regs.cf).c,
            ),
            final(self).pc == old(self).pc,
            final(self).sp == old(self).sp,
            final(self).bus == old(self).bus,
            ctrl_unchanged(*old(self), *final(self)),
    {
        let a = self.regs.a_reg;
        let ci: u8 = if self.regs.cf {
            1
        } else {
            0
        };
        let new_value = a.wrapping_sub(value).wrapping_sub(ci);
        self.regs.set_z(new_value == 0);
        self.regs.set_n(true);
        self.regs.set_carry((a as u16) < (value as u16) + (ci as u16));
        self.regs.set_hc(((a & 0xF) as u16) < ((value & 0xF) as u16) + (ci as u16));
        new_value
    }

    /// `ADD HL,rr` flag helper: computes the wrapping 16-bit sum and sets
    /// N, H, C; Z is untouched.  The caller writes the sum back to HL.
    pub fn add_hl_rr(&mut self, register: u16) -> (r: u16)
        ensures
            r == add16(
                word16(old(self).regs.h_reg, old(self).regs.l_reg),
                register,
                old(self).regs.zf,
            ).value,
            flags_set(
                old(self).regs,
                final(self).regs,
                old(self).regs.zf,
                add16(
                    word16(old(self).regs.h_reg, old(self).regs.l_reg),
                    register,
                    old(self).regs.zf,
                ).n,
                add16(
                    word16(old(self).regs.h_reg, old(self).regs.l_reg),
                    register,
                    old(self).regs.zf,
                ).h,
                add16(
                    word16(old(self).regs.h_reg, old(self).regs.l_reg),
                    register,
                    old(self).regs.zf,
                ).c,
            ),
            final(self).pc == old(self).pc,
            final(self).sp == old(self).sp,
            final(self).bus == old(self).bus,
            ctrl_unchanged(*old(self), *final(self)),
    {
        let hl = self.regs.get_hl();
        let sum: u32 = (hl as u32) + (register as u32);
        let res = hl.wrapping_add(register);
        self.regs.set_n(false);
        self.regs.set_hc((hl % 0x1000) + (register % 0x1000) > 0xFFF);
        self.regs.set_carry(sum > 0xFFFF);
        res
    }

    /// One step of the machine: wake on a pending interrupt, stay put while
    /// halted, dispatch one interrupt when IME is open, else fetch, decode
    /// and execute exactly one instruction and commit the next `PC` at its
    /// boundary.  An opcode outside the decode tables is fatal for the
    /// instruction stream: nothing changes and the offending byte comes
    /// back with its address and prefix flag.
    #[verifier::rlimit(60)]
    pub fn step(&mut self) -> (r: Result<(), DecodeError>)
        requires
            old(self).wf(),
        ensures
            final(self).wf(),
            final(self)@ == spec_step(old(self)@).0,
            r == spec_step(old(self)@).1,
    {
        let ie = self.bus.read_byte(IE_ADDR);
        let iff = self.bus.read_byte(IF_ADDR);
        let pending = (ie & iff) & 0x1F;
        if self.halted && pending != 0 {
            self.halted = false;
        }
        proof {
            assert(self@ =~= (if old(self)@.halted && old(self)@.pending() != 0 {
                CpuView { halted: false, ..old(self)@ }
            } else {
                old(self)@
            }));
        }
        if self.halted {
            return Ok(());
        }
        if self.ime && pending != 0 {
            self.service_interrupt(ie, iff);
            return Ok(());
        }
        self.fetch_execute()
    }

    /// Services the highest-priority pending interrupt: pushes `PC`, closes
    /// IME, drops the request bit, jumps to the vector.
    #[verifier::rlimit(60)]
    fn service_interrupt(&mut self, ie: u8, iff: u8)
        requires
            old(self).wf(),
            ie == spec_read(old(self)@.mem, IE_ADDR),
            iff == spec_read(old(self)@.mem, IF_ADDR),
            old(self)@.pending() != 0,
        ensures
            final(self).wf(),
            final(self)@ == spec_dispatch(old(self)@),
    {
        let ints = Interrupts {
            ime: self.ime,
            ime_scheduled: self.ime_scheduled,
            ie: ie,
            i_flag: iff,
        };
        match ints.highest_priority() {
            Some(intr) => {
                let pc = self.pc;
                self.push_word(pc);
                self.ime = false;
                let cur_if = self.bus.read_byte(IF_ADDR);
                let b = intr.bit();
                self.bus.write_byte(IF_ADDR, cur_if & !b);
                self.pc = intr.vector();
                proof {
                    assert(self@ =~= spec_dispatch(old(self)@));
                }
            },
            None => {
                proof {
                    lemma_pending_nonzero_has_source(ie & iff);
                    assert(false);
                }
            },
        }
    }

    /// Fetches, decodes and executes one instruction; the glitched fetch of
    /// a pending halt bug re-reads the opcode byte as the first operand.
    #[verifier::rlimit(100)]
    fn fetch_execute(&mut self) -> (r: Result<(), DecodeError>)
        requires
            old(self).wf(),
        ensures
            final(self).wf(),
            final(self)@ == spec_fetch_execute(old(self)@).0,
            r == spec_fetch_execute(old(self)@).1,
    {
        let pc = self.pc;
        let op0 = self.bus.read_byte(pc);
        let prefixed = op0 == 0xCB;
        let op = if prefixed {
            self.bus.read_byte(pc.wrapping_add(1))
        } else {
            op0
        };
        match Instruction::decode(op, prefixed) {
            None => Err(DecodeError { opcode: op, addr: pc, prefixed }),
            Some(instr) => {
                self.run_decoded(instr, prefixed);
                Ok(())
            },
        }
    }

    /// Executes one decoded instruction and commits the next `PC` at the
    /// instruction boundary, honoring a pending halt bug and a scheduled
    /// interrupt enable.
    #[verifier::rlimit(60)]
    fn run_decoded(&mut self, instr: Instruction, prefixed: bool)
        requires
            old(self).wf(),
        ensures
            final(self).wf(),
            final(self)@ == spec_run_decoded(old(self)@, instr),
    {
        let scheduled = self.ime_scheduled;
        if self.halt_bug {
            self.halt_bug = false;
            self.pc = self.pc.wrapping_sub(1);
        }
        proof {
            assert(self@ =~= (CpuView {
                pc: if old(self)@.halt_bug {
                    old(self)@.pc.wrapping_sub(1)
                } else {
                    old(self)@.pc
                },
                halt_bug: false,
                ..old(self)@
            }));
        }
        let next_pc = execute(self, instr, prefixed);
        self.pc = next_pc;
        if scheduled {
            self.ime = true;
            self.ime_scheduled = false;
        }
        proof {
            assert(self@ =~= spec_run_decoded(old(self)@, instr));
        }
    }

    /// Runs up to `steps` machine steps, stopping at the first decode
    /// failure and handing it on.
    pub fn run_steps(&mut self, steps: usize) -> (r: Result<(), DecodeError>)
        requires
            old(self).wf(),
        ensures
            final(self).wf(),
            final(self)@ == spec_run(old(self)@, steps as nat).0,
            r == spec_run(old(self)@, steps as nat).1,
    {
        let mut i: usize = 0;
        while i < steps
            invariant
                i <= steps,
                self.wf(),
                spec_run(old(self)@, steps as nat) == spec_run(self@, (steps - i) as nat),
            decreases steps - i,
        {
            match self.step() {
                Ok(_) => {},
                Err(e) => {
                    return Err(e);
                },
            }
            i = i + 1;
        }
        Ok(())
    }
}

} // verus!
