//! The execution engine: the semantics of every instruction as a function
//! on `CpuView`, and the executable `execute` proved against it.
//!
//! `spec_execute(s, instr)` takes the machine state whose `pc` is the fetch
//! base of the instruction and returns the state after the instruction,
//! whose `pc` is the committed next program counter.  The executable
//! `execute` performs the same transition on the real machine except that it
//! hands the next program counter back to the caller instead of writing it;
//! `Cpu::step` commits it at the instruction boundary.
use vstd::prelude::*;

use crate::bus::{spec_read, spec_read_word, spec_write, IF_ADDR, IE_ADDR};
use crate::words::{hi16, lo16, word16, sext8, high_byte, low_byte, sign_extend};
use crate::cpu::{Cpu, CpuView};
use crate::cpu::registers::{z_bit, n_bit, h_bit, c_bit};
use crate::cpu::alu::{Alu8, add8, adc8, sub8, sbc8, and8, or8, xor8, cp8, inc8, dec8, daa8,
    rlca8, rla8, rrca8, rra8, cpl8, add16, sp_offset};
use crate::cpu::instructions::{Instruction, ArithmeticTarget, Add16Target, BigRegisterTarget,
    JumpTest, LoadByteTarget, LoadByteSource, BigLoadByteTarget, LoadType, StackTargets};

verus! {

/// Whether a control-flow condition holds in a state.
pub open spec fn cond_holds(s: CpuView, t: JumpTest) -> bool {
    match t {
        JumpTest::NotZero => !s.zf,
        JumpTest::Zero => s.zf,
        JumpTest::NotCarry => !s.cf,
        JumpTest::Carry => s.cf,
        JumpTest::Always => true,
    }
}

/// How many bytes an arithmetic operand adds to the instruction: one extra
/// for an immediate.
pub open spec fn arith_len(t: ArithmeticTarget) -> u16 {
    match t {
        ArithmeticTarget::D8 => 2,
        _ => 1,
    }
}

/// The value of an arithmetic operand: a register, the byte behind `HL`, or
/// the immediate after the opcode.
pub open spec fn arith_val(s: CpuView, t: ArithmeticTarget) -> u8 {
    match t {
        ArithmeticTarget::A => s.a,
        ArithmeticTarget::B => s.b,
        ArithmeticTarget::C => s.c,
        ArithmeticTarget::D => s.d,
        ArithmeticTarget::E => s.e,
        ArithmeticTarget::H => s.h,
        ArithmeticTarget::L => s.l,
        ArithmeticTarget::HLI => spec_read(s.mem, s.hl()),
        ArithmeticTarget::D8 => spec_read(s.mem, s.pc.wrapping_add(1)),
    }
}

/// Writes an `INC`/`DEC` result back: to the register, or through `HL`; the
/// immediate form has nowhere to write.
pub open spec fn write_arith_target(s: CpuView, t: ArithmeticTarget, v: u8) -> CpuView {
    match t {
        ArithmeticTarget::A => CpuView { a: v, ..s },
        ArithmeticTarget::B => CpuView { b: v, ..s },
        ArithmeticTarget::C => CpuView { c: v, ..s },
        ArithmeticTarget::D => CpuView { d: v, ..s },
        ArithmeticTarget::E => CpuView { e: v, ..s },
        ArithmeticTarget::H => CpuView { h: v, ..s },
        ArithmeticTarget::L => CpuView { l: v, ..s },
        ArithmeticTarget::HLI => CpuView { mem: spec_write(s.mem, s.hl(), v), ..s },
        ArithmeticTarget::D8 => s,
    }
}

/// The value of a 16-bit arithmetic operand.
pub open spec fn r16_val(s: CpuView, t: Add16Target) -> u16 {
    match t {
        Add16Target::BC => s.bc(),
        Add16Target::DE => s.de(),
        Add16Target::HL => s.hl(),
        Add16Target::SP => s.sp,
    }
}

/// Writes a 16-bit arithmetic operand back.
pub open spec fn write_r16(s: CpuView, t: Add16Target, v: u16) -> CpuView {
    match t {
        Add16Target::BC => CpuView { b: hi16(v), c: lo16(v), ..s },
        Add16Target::DE => CpuView { d: hi16(v), e: lo16(v), ..s },
        Add16Target::HL => CpuView { h: hi16(v), l: lo16(v), ..s },
        Add16Target::SP => CpuView { sp: v, ..s },
    }
}

/// The pair a `PUSH` reads.
pub open spec fn stack_val(s: CpuView, t: StackTargets) -> u16 {
    match t {
        StackTargets::AF => s.af(),
        StackTargets::BC => s.bc(),
        StackTargets::DE => s.de(),
        StackTargets::HL => s.hl(),
    }
}

/// The pair a `POP` writes; popping into AF drops the low nibble of the
/// flag byte, as every write to `F` does.
pub open spec fn write_stack(s: CpuView, t: StackTargets, v: u16) -> CpuView {
    match t {
        StackTargets::AF => CpuView {
            a: hi16(v),
            zf: z_bit(lo16(v)),
            nf: n_bit(lo16(v)),
            hf: h_bit(lo16(v)),
            cf: c_bit(lo16(v)),
            ..s
        },
        StackTargets::BC => CpuView { b: hi16(v), c: lo16(v), ..s },
        StackTargets::DE => CpuView { d: hi16(v), e: lo16(v), ..s },
        StackTargets::HL => CpuView { h: hi16(v), l: lo16(v), ..s },
    }
}

/// The value of an 8-bit load source.
pub open spec fn load_src_val(s: CpuView, t: LoadByteSource) -> u8 {
    match t {
        LoadByteSource::A => s.a,
        LoadByteSource::B => s.b,
        LoadByteSource::C => s.c,
        LoadByteSource::D => s.d,
        LoadByteSource::E => s.e,
        LoadByteSource::H => s.h,
        LoadByteSource::L => s.l,
        LoadByteSource::HLI => spec_read(s.mem, s.hl()),
        LoadByteSource::D8 => spec_read(s.mem, s.pc.wrapping_add(1)),
    }
}

/// How many bytes an 8-bit load occupies: two with an immediate source.
pub open spec fn load_len(t: LoadByteSource) -> u16 {
    match t {
        LoadByteSource::D8 => 2,
        _ => 1,
    }
}

/// Writes an 8-bit load target: a register, or the byte behind `HL`.
pub open spec fn write_load_target(s: CpuView, t: LoadByteTarget, v: u8) -> CpuView {
    match t {
        LoadByteTarget::A => CpuView { a: v, ..s },
        LoadByteTarget::B => CpuView { b: v, ..s },
        LoadByteTarget::C => CpuView { c: v, ..s },
        LoadByteTarget::D => CpuView { d: v, ..s },
        LoadByteTarget::E => CpuView { e: v, ..s },
        LoadByteTarget::H => CpuView { h: v, ..s },
        LoadByteTarget::L => CpuView { l: v, ..s },
        LoadByteTarget::HLI => CpuView { mem: spec_write(s.mem, s.hl(), v), ..s },
    }
}

/// Writes a 16-bit immediate-load target.
pub open spec fn write_big_load(s: CpuView, t: BigLoadByteTarget, v: u16) -> CpuView {
    match t {
        BigLoadByteTarget::AF => CpuView {
            a: hi16(v),
            zf: z_bit(lo16(v)),
            nf: n_bit(lo16(v)),
            hf: h_bit(lo16(v)),
            cf: c_bit(lo16(v)),
            ..s
        },
        BigLoadByteTarget::BC => CpuView { b: hi16(v), c: lo16(v), ..s },
        BigLoadByteTarget::DE => CpuView { d: hi16(v), e: lo16(v), ..s },
        BigLoadByteTarget::HL => CpuView { h: hi16(v), l: lo16(v), ..s },
        BigLoadByteTarget::SP => CpuView { sp: v, ..s },
    }
}

/// The pair read by `LD SP,rr`.
pub open spec fn big_reg_val(s: CpuView, t: BigRegisterTarget) -> u16 {
    match t {
        BigRegisterTarget::AF => s.af(),
        BigRegisterTarget::BC => s.bc(),
        BigRegisterTarget::DE => s.de(),
        BigRegisterTarget::HL => s.hl(),
    }
}

/// The state after pushing a word: stack grows down, high byte first, so
/// the low byte lands at the new `SP`.
pub open spec fn push_view(s: CpuView, v: u16) -> CpuView {
    CpuView {
        sp: s.sp.wrapping_sub(2),
        mem: spec_write(
            spec_write(s.mem, s.sp.wrapping_sub(1), hi16(v)),
            s.sp.wrapping_sub(2),
            lo16(v),
        ),
        ..s
    }
}

/// The word a `POP` or `RET` reads at `SP`.
pub open spec fn pop_val(s: CpuView) -> u16 {
    word16(spec_read(s.mem, s.sp.wrapping_add(1)), spec_read(s.mem, s.sp))
}

/// Accumulator write plus the four flags plus the program-counter advance:
/// the shape shared by the whole 8-bit arithmetic family.
pub open spec fn apply_acc(s: CpuView, out: Alu8, len: u16) -> CpuView {
    CpuView {
        a: out.value,
        zf: out.z,
        nf: out.n,
        hf: out.h,
        cf: out.c,
        pc: s.pc.wrapping_add(len),
        ..s
    }
}

/// The semantics of one instruction.  The incoming `pc` is the address the
/// opcode was fetched from; the outgoing `pc` is the next program counter.
/// A halted CPU executes nothing.  Marked opaque: callers reason through
/// `execute`'s contract, and reveal the definition to read one arm off.
#[verifier::opaque]
pub open spec fn spec_execute(s: CpuView, instr: Instruction) -> CpuView {
    if s.halted {
        s
    } else {
        match instr {
            Instruction::NOP => CpuView { pc: s.pc.wrapping_add(1), ..s },
            Instruction::HALT => {
                let s1 = if s.ime {
                    CpuView { halted: true, ..s }
                } else if s.pending() == 0 {
                    CpuView { halted: true, ..s }
                } else {
                    CpuView { halt_bug: true, ..s }
                };
                CpuView { pc: s.pc.wrapping_add(1), ..s1 }
            },
            Instruction::ADD(t) => apply_acc(s, add8(s.a, arith_val(s, t)), arith_len(t)),
            Instruction::ADC(t) => apply_acc(s, adc8(s.a, arith_val(s, t), s.cf), arith_len(t)),
            Instruction::SUB(t) => apply_acc(s, sub8(s.a, arith_val(s, t)), arith_len(t)),
            Instruction::SBC(t) => apply_acc(s, sbc8(s.a, arith_val(s, t), s.cf), arith_len(t)),
            Instruction::AND(t) => apply_acc(s, and8(s.a, arith_val(s, t)), arith_len(t)),
            Instruction::OR(t) => apply_acc(s, or8(s.a, arith_val(s, t)), arith_len(t)),
            Instruction::XOR(t) => apply_acc(s, xor8(s.a, arith_val(s, t)), arith_len(t)),
            Instruction::CP(t) => apply_acc(s, cp8(s.a, arith_val(s, t)), arith_len(t)),
            Instruction::INC(t) => {
                let out = inc8(arith_val(s, t), s.cf);
                let s1 = write_arith_target(s, t, out.value);
                CpuView {
                    zf: out.z,
                    nf: out.n,
                    hf: out.h,
                    pc: s.pc.wrapping_add(arith_len(t)),
                    ..s1
                }
            },
            Instruction::DEC(t) => {
                let out = dec8(arith_val(s, t), s.cf);
                let s1 = write_arith_target(s, t, out.value);
                CpuView {
                    zf: out.z,
                    nf: out.n,
                    hf: out.h,
                    pc: s.pc.wrapping_add(arith_len(t)),
                    ..s1
                }
            },
            Instruction::INC16(t) => CpuView {
                pc: s.pc.wrapping_add(1),
                ..write_r16(s, t, r16_val(s, t).wrapping_add(1))
            },
            Instruction::DEC16(t) => CpuView {
                pc: s.pc.wrapping_add(1),
                ..write_r16(s, t, r16_val(s, t).wrapping_sub(1))
            },
            Instruction::ADD16(t) => {
                let out = add16(s.hl(), r16_val(s, t), s.zf);
                CpuView {
                    h: hi16(out.value),
                    l: lo16(out.value),
                    nf: out.n,
                    hf: out.h,
                    cf: out.c,
                    pc: s.pc.wrapping_add(1),
                    ..s
                }
            },
            Instruction::JP(t) => CpuView {
                pc: if cond_holds(s, t) {
                    spec_read_word(s.mem, s.pc.wrapping_add(1))
                } else {
                    s.pc.wrapping_add(3)
                },
                ..s
            },
            Instruction::JR(t) => CpuView {
                pc: if cond_holds(s, t) {
                    s.pc.wrapping_add(2).wrapping_add(sext8(spec_read(s.mem, s.pc.wrapping_add(1))))
                } else {
                    s.pc.wrapping_add(2)
                },
                ..s
            },
            Instruction::CALL(t) => {
                if cond_holds(s, t) {
                    CpuView {
                        pc: spec_read_word(s.mem, s.pc.wrapping_add(1)),
                        ..push_view(s, s.pc.wrapping_add(3))
                    }
                } else {
                    CpuView { pc: s.pc.wrapping_add(3), ..s }
                }
            },
            Instruction::RET(t) => {
                if cond_holds(s, t) {
                    CpuView { pc: pop_val(s), sp: s.sp.wrapping_add(2), ..s }
                } else {
                    CpuView { pc: s.pc.wrapping_add(1), ..s }
                }
            },
            Instruction::PUSH(t) => CpuView {
                pc: s.pc.wrapping_add(1),
                ..push_view(s, stack_val(s, t))
            },
            Instruction::POP(t) => CpuView {
                sp: s.sp.wrapping_add(2),
                pc: s.pc.wrapping_add(1),
                ..write_stack(s, t, pop_val(s))
            },
            Instruction::LD(lt) => match lt {
                LoadType::R8ToR8(t, src) => CpuView {
                    pc: s.pc.wrapping_add(load_len(src)),
                    ..write_load_target(s, t, load_src_val(s, src))
                },
                LoadType::D16toR16(t) => CpuView {
                    pc: s.pc.wrapping_add(3),
                    ..write_big_load(s, t, spec_read_word(s.mem, s.pc.wrapping_add(1)))
                },
                LoadType::HLtoSP => CpuView { sp: s.hl(), pc: s.pc.wrapping_add(1), ..s },
                LoadType::SPtoA16 => {
                    let addr = spec_read_word(s.mem, s.pc.wrapping_add(1));
                    CpuView {
                        mem: spec_write(
                            spec_write(s.mem, addr, lo16(s.sp)),
                            addr.wrapping_add(1),
                            hi16(s.sp),
                        ),
                        pc: s.pc.wrapping_add(3),
                        ..s
                    }
                },
                LoadType::R16toSP(t) => CpuView {
                    sp: big_reg_val(s, t),
                    pc: s.pc.wrapping_add(1),
                    ..s
                },
                LoadType::SP8toHL => {
                    let out = sp_offset(s.sp, spec_read(s.mem, s.pc.wrapping_add(1)));
                    CpuView {
                        h: hi16(out.value),
                        l: lo16(out.value),
                        zf: out.z,
                        nf: out.n,
                        hf: out.h,
                        cf: out.c,
                        pc: s.pc.wrapping_add(2),
                        ..s
                    }
                },
            },
            Instruction::RLCA(_) => apply_acc(s, rlca8(s.a), 1),
            Instruction::RLA(_) => apply_acc(s, rla8(s.a, s.cf), 1),
            Instruction::RRCA(_) => apply_acc(s, rrca8(s.a), 1),
            Instruction::RRA(_) => apply_acc(s, rra8(s.a, s.cf), 1),
            Instruction::DAA => {
                let out = daa8(s.a, s.nf, s.hf, s.cf);
                CpuView {
                    a: out.value,
                    zf: out.z,
                    hf: out.h,
                    cf: out.c,
                    pc: s.pc.wrapping_add(1),
                    ..s
                }
            },
            Instruction::CPL => {
                let out = cpl8(s.a, s.zf, s.cf);
                CpuView {
                    a: out.value,
                    nf: out.n,
                    hf: out.h,
                    pc: s.pc.wrapping_add(1),
                    ..s
                }
            },
            Instruction::SCF => CpuView {
                cf: true,
                nf: false,
                hf: false,
                pc: s.pc.wrapping_add(1),
                ..s
            },
            Instruction::CCF => CpuView {
                cf: !s.cf,
                nf: false,
                hf: false,
                pc: s.pc.wrapping_add(1),
                ..s
            },
        }
    }
}

fn cond_check(cpu: &Cpu, t: JumpTest) -> (r: bool)
    ensures
        r == cond_holds(cpu@, t),
{
    match t {
        JumpTest::NotZero => !cpu.regs.get_z(),
        JumpTest::Zero => cpu.regs.get_z(),
        JumpTest::NotCarry => !cpu.regs.get_carry(),
        JumpTest::Carry => cpu.regs.get_carry(),
        JumpTest::Always => true,
    }
}

fn arith_value(cpu: &Cpu, t: ArithmeticTarget) -> (r: u8)
    requires
        cpu.wf(),
    ensures
        r == arith_val(cpu@, t),
{
    match t {
        ArithmeticTarget::A => cpu.regs.a(),
        ArithmeticTarget::B => cpu.regs.b(),
        ArithmeticTarget::C => cpu.regs.c(),
        ArithmeticTarget::D => cpu.regs.d(),
        ArithmeticTarget::E => cpu.regs.e(),
        ArithmeticTarget::H => cpu.regs.h(),
        ArithmeticTarget::L => cpu.regs.l(),
        ArithmeticTarget::HLI => cpu.bus.read_byte(cpu.regs.get_hl()),
        ArithmeticTarget::D8 => cpu.next_byte(),
    }
}

fn arith_advance(t: ArithmeticTarget) -> (r: u16)
    ensures
        r == arith_len(t),
{
    match t {
        ArithmeticTarget::D8 => 2,
        _ => 1,
    }
}

fn write_arith(cpu: &mut Cpu, t: ArithmeticTarget, v: u8)
    requires
        old(cpu).wf(),
    ensures
        final(cpu).wf(),
        final(cpu)@ == write_arith_target(old(cpu)@, t, v),
{
    match t {
        ArithmeticTarget::A => cpu.regs.set_a(v),
        ArithmeticTarget::B => cpu.regs.set_b(v),
        ArithmeticTarget::C => cpu.regs.set_c(v),
        ArithmeticTarget::D => cpu.regs.set_d(v),
        ArithmeticTarget::E => cpu.regs.set_e(v),
        ArithmeticTarget::H => cpu.regs.set_h(v),
        ArithmeticTarget::L => cpu.regs.set_l(v),
        ArithmeticTarget::HLI => {
            let hl = cpu.regs.get_hl();
            cpu.bus.write_byte(hl, v);
        },
        ArithmeticTarget::D8 => {},
    }
    proof {
        assert(cpu@ =~= write_arith_target(old(cpu)@, t, v));
    }
}

fn r16_value(cpu: &Cpu, t: Add16Target) -> (r: u16)
    ensures
        r == r16_val(cpu@, t),
{
    match t {
        Add16Target::BC => cpu.regs.get_bc(),
        Add16Target::DE => cpu.regs.get_de(),
        Add16Target::HL => cpu.regs.get_hl(),
        Add16Target::SP => cpu.sp,
    }
}

fn write_r16_back(cpu: &mut Cpu, t: Add16Target, v: u16)
    ensures
        final(cpu)@ == write_r16(old(cpu)@, t, v),
        final(cpu).bus == old(cpu).bus,
{
    match t {
        Add16Target::BC => cpu.regs.set_bc(v),
        Add16Target::DE => cpu.regs.set_de(v),
        Add16Target::HL => cpu.regs.set_hl(v),
        Add16Target::SP => cpu.sp = v,
    }
    proof {
        assert(cpu@ =~= write_r16(old(cpu)@, t, v));
    }
}

fn stack_value(cpu: &Cpu, t: StackTargets) -> (r: u16)
    ensures
        r == stack_val(cpu@, t),
{
    match t {
        StackTargets::AF => cpu.regs.get_af(),
        StackTargets::BC => cpu.regs.get_bc(),
        StackTargets::DE => cpu.regs.get_de(),
        StackTargets::HL => cpu.regs.get_hl(),
    }
}

fn write_stack_back(cpu: &mut Cpu, t: StackTargets, v: u16)
    ensures
        final(cpu)@ == write_stack(old(cpu)@, t, v),
        final(cpu).bus == old(cpu).bus,
{
    match t {
        StackTargets::AF => cpu.regs.set_af(v),
        StackTargets::BC => cpu.regs.set_bc(v),
        StackTargets::DE => cpu.regs.set_de(v),
        StackTargets::HL => cpu.regs.set_hl(v),
    }
    proof {
        assert(cpu@ =~= write_stack(old(cpu)@, t, v));
    }
}

fn load_value(cpu: &Cpu, t: LoadByteSource) -> (r: u8)
    requires
        cpu.wf(),
    ensures
        r == load_src_val(cpu@, t),
{
    match t {
        LoadByteSource::A => cpu.regs.a(),
        LoadByteSource::B => cpu.regs.b(),
        LoadByteSource::C => cpu.regs.c(),
        LoadByteSource::D => cpu.regs.d(),
        LoadByteSource::E => cpu.regs.e(),
        LoadByteSource::H => cpu.regs.h(),
        LoadByteSource::L => cpu.regs.l(),
        LoadByteSource::HLI => cpu.bus.read_byte(cpu.regs.get_hl()),
        LoadByteSource::D8 => cpu.next_byte(),
    }
}

fn load_advance(t: LoadByteSource) -> (r: u16)
    ensures
        r == load_len(t),
{
    match t {
        LoadByteSource::D8 => 2,
        _ => 1,
    }
}

fn write_load(cpu: &mut Cpu, t: LoadByteTarget, v: u8)
    requires
        old(cpu).wf(),
    ensures
        final(cpu).wf(),
        final(cpu)@ == write_load_target(old(cpu)@, t, v),
{
    match t {
        LoadByteTarget::A => cpu.regs.set_a(v),
        LoadByteTarget::B => cpu.regs.set_b(v),
        LoadByteTarget::C => cpu.regs.set_c(v),
        LoadByteTarget::D => cpu.regs.set_d(v),
        LoadByteTarget::E => cpu.regs.set_e(v),
        LoadByteTarget::H => cpu.regs.set_h(v),
        LoadByteTarget::L => cpu.regs.set_l(v),
        LoadByteTarget::HLI => {
            let hl = cpu.regs.get_hl();
            cpu.bus.write_byte(hl, v);
        },
    }
    proof {
        assert(cpu@ =~= write_load_target(old(cpu)@, t, v));
    }
}

fn write_big_load_back(cpu: &mut Cpu, t: BigLoadByteTarget, v: u16)
    ensures
        final(cpu)@ == write_big_load(old(cpu)@, t, v),
        final(cpu).bus == old(cpu).bus,
{
    match t {
        BigLoadByteTarget::AF => cpu.regs.set_af(v),
        BigLoadByteTarget::BC => cpu.regs.set_bc(v),
        BigLoadByteTarget::DE => cpu.regs.set_de(v),
        BigLoadByteTarget::HL => cpu.regs.set_hl(v),
        BigLoadByteTarget::SP => cpu.sp = v,
    }
    proof {
        assert(cpu@ =~= write_big_load(old(cpu)@, t, v));
    }
}

fn big_reg_value(cpu: &Cpu, t: BigRegisterTarget) -> (r: u16)
    ensures
        r == big_reg_val(cpu@, t),
{
    match t {
        BigRegisterTarget::AF => cpu.regs.get_af(),
        BigRegisterTarget::BC => cpu.regs.get_bc(),
        BigRegisterTarget::DE => cpu.regs.get_de(),
        BigRegisterTarget::HL => cpu.regs.get_hl(),
    }
}


/// The 8-bit operations that land in the accumulator, `CP` included.
pub open spec fn is_acc_alu(i: Instruction) -> bool {
    match i {
        Instruction::ADD(_) => true,
        Instruction::ADC(_) => true,
        Instruction::SUB(_) => true,
        Instruction::SBC(_) => true,
        Instruction::AND(_) => true,
        Instruction::OR(_) => true,
        Instruction::XOR(_) => true,
        Instruction::CP(_) => true,
        _ => false,
    }
}

/// The 8-bit read-modify-write operations.
pub open spec fn is_inc_dec(i: Instruction) -> bool {
    match i {
        Instruction::INC(_) => true,
        Instruction::DEC(_) => true,
        _ => false,
    }
}

/// The 16-bit arithmetic operations.
pub open spec fn is_arith16(i: Instruction) -> bool {
    match i {
        Instruction::INC16(_) => true,
        Instruction::DEC16(_) => true,
        Instruction::ADD16(_) => true,
        _ => false,
    }
}

/// The conditional control-flow operations.
pub open spec fn is_flow(i: Instruction) -> bool {
    match i {
        Instruction::JP(_) => true,
        Instruction::JR(_) => true,
        Instruction::CALL(_) => true,
        Instruction::RET(_) => true,
        _ => false,
    }
}

/// The stack operations.
pub open spec fn is_stack(i: Instruction) -> bool {
    match i {
        Instruction::PUSH(_) => true,
        Instruction::POP(_) => true,
        _ => false,
    }
}

/// Rotates, the BCD adjust, the bare flag operations, `NOP` and `HALT`.
pub open spec fn is_misc(i: Instruction) -> bool {
    match i {
        Instruction::RLCA(_) => true,
        Instruction::RLA(_) => true,
        Instruction::RRCA(_) => true,
        Instruction::RRA(_) => true,
        Instruction::DAA => true,
        Instruction::CPL => true,
        Instruction::SCF => true,
        Instruction::CCF => true,
        Instruction::NOP => true,
        Instruction::HALT => true,
        _ => false,
    }
}

#[verifier::rlimit(100)]
fn exec_acc_alu(cpu: &mut Cpu, instr: Instruction) -> (r: u16)
    requires
        old(cpu).wf(),
        !old(cpu).halted,
        is_acc_alu(instr),
    ensures
        final(cpu).wf(),
        r == spec_execute(old(cpu)@, instr).pc,
        final(cpu)@ == (CpuView { pc: old(cpu)@.pc, ..spec_execute(old(cpu)@, instr) }),
{
    let next: u16 = match instr {
        Instruction::ADD(t) => {
            let value = arith_value(cpu, t);
            let new_value = cpu.add(value);
            cpu.regs.set_a(new_value);
            cpu.pc.wrapping_add(arith_advance(t))
        },
        Instruction::ADC(t) => {
            let value = arith_value(cpu, t);
            let new_value = cpu.adc(value);
            cpu.regs.set_a(new_value);
            cpu.pc.wrapping_add(arith_advance(t))
        },
        Instruction::SUB(t) => {
            let value = arith_value(cpu, t);
            let new_value = cpu.sub(value);
            cpu.regs.set_a(new_value);
            cpu.pc.wrapping_add(arith_advance(t))
        },
        Instruction::SBC(t) => {
            let value = arith_value(cpu, t);
            let new_value = cpu.sbc(value);
            cpu.regs.set_a(new_value);
            cpu.pc.wrapping_add(arith_advance(t))
        },
        Instruction::AND(t) => {
            let value = arith_value(cpu, t);
            let a = cpu.regs.a_reg;
            let new_value = a & value;
            cpu.regs.set_a(new_value);
            cpu.regs.set_z(new_value == 0);
            cpu.regs.set_n(false);
            cpu.regs.set_hc(true);
            cpu.regs.set_carry(false);
            cpu.pc.wrapping_add(arith_advance(t))
        },
        Instruction::OR(t) => {
            let value = arith_value(cpu, t);
            let a = cpu.regs.a_reg;
            let new_value = a | value;
            cpu.regs.set_a(new_value);
            cpu.regs.set_z(new_value == 0);
            cpu.regs.set_n(false);
            cpu.regs.set_hc(false);
            cpu.regs.set_carry(false);
            cpu.pc.wrapping_add(arith_advance(t))
        },
        Instruction::XOR(t) => {
            let value = arith_value(cpu, t);
            let a = cpu.regs.a_reg;
            let new_value = a ^ value;
            cpu.regs.set_a(new_value);
            cpu.regs.set_z(new_value == 0);
            cpu.regs.set_n(false);
            cpu.regs.set_hc(false);
            cpu.regs.set_carry(false);
            cpu.pc.wrapping_add(arith_advance(t))
        },
        Instruction::CP(t) => {
            let value = arith_value(cpu, t);
            let _discarded = cpu.sub(value);
            cpu.pc.wrapping_add(arith_advance(t))
        },
        // ruled out by the precondition
        _ => {
            proof {
                assert(false);
            }
            cpu.pc
        },
    };
    proof {
        reveal(spec_execute);
        assert(cpu@ =~= (CpuView { pc: old(cpu)@.pc, ..spec_execute(old(cpu)@, instr) }));
    }
    next
}

#[verifier::rlimit(100)]
fn exec_inc_dec(cpu: &mut Cpu, instr: Instruction) -> (r: u16)
    requires
        old(cpu).wf(),
        !old(cpu).halted,
        is_inc_dec(instr),
    ensures
        final(cpu).wf(),
        r == spec_execute(old(cpu)@, instr).pc,
        final(cpu)@ == (CpuView { pc: old(cpu)@.pc, ..spec_execute(old(cpu)@, instr) }),
{
    let next: u16 = match instr {
        Instruction::INC(t) => {
            let value = arith_value(cpu, t);
            let new_value = value.wrapping_add(1);
            cpu.regs.set_z(new_value == 0);
            cpu.regs.set_n(false);
            cpu.regs.set_hc(((value & 0xF) as u16) + 1 > 0xF);
            write_arith(cpu, t, new_value);
            cpu.pc.wrapping_add(arith_advance(t))
        },
        Instruction::DEC(t) => {
            let value = arith_value(cpu, t);
            let new_value = value.wrapping_sub(1);
            cpu.regs.set_z(new_value == 0);
            cpu.regs.set_n(true);
            cpu.regs.set_hc((value & 0xF) == 0);
            write_arith(cpu, t, new_value);
            cpu.pc.wrapping_add(arith_advance(t))
        },
        // ruled out by the precondition
        _ => {
            proof {
                assert(false);
            }
            cpu.pc
        },
    };
    proof {
        reveal(spec_execute);
        assert(cpu@ =~= (CpuView { pc: old(cpu)@.pc, ..spec_execute(old(cpu)@, instr) }));
    }
    next
}

#[verifier::rlimit(100)]
fn exec_arith16(cpu: &mut Cpu, instr: Instruction) -> (r: u16)
    requires
        old(cpu).wf(),
        !old(cpu).halted,
        is_arith16(instr),
    ensures
        final(cpu).wf(),
        r == spec_execute(old(cpu)@, instr).pc,
        final(cpu)@ == (CpuView { pc: old(cpu)@.pc, ..spec_execute(old(cpu)@, instr) }),
{
    let next: u16 = match instr {
        Instruction::INC16(t) => {
            let value = r16_value(cpu, t);
            write_r16_back(cpu, t, value.wrapping_add(1));
            cpu.pc.wrapping_add(1)
        },
        Instruction::DEC16(t) => {
            let value = r16_value(cpu, t);
            write_r16_back(cpu, t, value.wrapping_sub(1));
            cpu.pc.wrapping_add(1)
        },
        Instruction::ADD16(t) => {
            let value = r16_value(cpu, t);
            let res = cpu.add_hl_rr(value);
            cpu.regs.set_hl(res);
            cpu.pc.wrapping_add(1)
        },
        // ruled out by the precondition
        _ => {
            proof {
                assert(false);
            }
            cpu.pc
        },
    };
    proof {
        reveal(spec_execute);
        assert(cpu@ =~= (CpuView { pc: old(cpu)@.pc, ..spec_execute(old(cpu)@, instr) }));
    }
    next
}

#[verifier::rlimit(100)]
fn exec_flow(cpu: &mut Cpu, instr: Instruction) -> (r: u16)
    requires
        old(cpu).wf(),
        !old(cpu).halted,
        is_flow(instr),
    ensures
        final(cpu).wf(),
        r == spec_execute(old(cpu)@, instr).pc,
        final(cpu)@ == (CpuView { pc: old(cpu)@.pc, ..spec_execute(old(cpu)@, instr) }),
{
    let next: u16 = match instr {
        Instruction::JP(t) => {
            let taken = cond_check(cpu, t);
            if taken {
                cpu.next_word()
            } else {
                cpu.pc.wrapping_add(3)
            }
        },
        Instruction::JR(t) => {
            let taken = cond_check(cpu, t);
            let off = cpu.next_byte();
            let base = cpu.pc.wrapping_add(2);
            if taken {
                base.wrapping_add(sign_extend(off))
            } else {
                base
            }
        },
        Instruction::CALL(t) => {
            let taken = cond_check(cpu, t);
            let target = cpu.next_word();
            let ret_addr = cpu.pc.wrapping_add(3);
            if taken {
                cpu.push_word(ret_addr);
                target
            } else {
                ret_addr
            }
        },
        Instruction::RET(t) => {
            let taken = cond_check(cpu, t);
            if taken {
                cpu.pop_word()
            } else {
                cpu.pc.wrapping_add(1)
            }
        },
        // ruled out by the precondition
        _ => {
            proof {
                assert(false);
            }
            cpu.pc
        },
    };
    proof {
        reveal(spec_execute);
        assert(cpu@ =~= (CpuView { pc: old(cpu)@.pc, ..spec_execute(old(cpu)@, instr) }));
    }
    next
}

#[verifier::rlimit(100)]
fn exec_stack(cpu: &mut Cpu, instr: Instruction) -> (r: u16)
    requires
        old(cpu).wf(),
        !old(cpu).halted,
        is_stack(instr),
    ensures
        final(cpu).wf(),
        r == spec_execute(old(cpu)@, instr).pc,
        final(cpu)@ == (CpuView { pc: old(cpu)@.pc, ..spec_execute(old(cpu)@, instr) }),
{
    let next: u16 = match instr {
        Instruction::PUSH(t) => {
            let value = stack_value(cpu, t);
            cpu.push_word(value);
            cpu.pc.wrapping_add(1)
        },
        Instruction::POP(t) => {
            let value = cpu.pop_word();
            write_stack_back(cpu, t, value);
            cpu.pc.wrapping_add(1)
        },
        // ruled out by the precondition
        _ => {
            proof {
                assert(false);
            }
            cpu.pc
        },
    };
    proof {
        reveal(spec_execute);
        assert(cpu@ =~= (CpuView { pc: old(cpu)@.pc, ..spec_execute(old(cpu)@, instr) }));
    }
    next
}

#[verifier::rlimit(100)]
fn exec_load(cpu: &mut Cpu, lt: LoadType) -> (r: u16)
    requires
        old(cpu).wf(),
        !old(cpu).halted,
    ensures
        final(cpu).wf(),
        r == spec_execute(old(cpu)@, Instruction::LD(lt)).pc,
        final(cpu)@ == (CpuView {
            pc: old(cpu)@.pc,
            ..spec_execute(old(cpu)@, Instruction::LD(lt))
        }),
{
    let next: u16 = match lt {
        LoadType::R8ToR8(t, src) => {
            let value = load_value(cpu, src);
            write_load(cpu, t, value);
            cpu.pc.wrapping_add(load_advance(src))
        },
        LoadType::D16toR16(t) => {
            let value = cpu.next_word();
            write_big_load_back(cpu, t, value);
            cpu.pc.wrapping_add(3)
        },
        LoadType::HLtoSP => {
            cpu.sp = cpu.regs.get_hl();
            cpu.pc.wrapping_add(1)
        },
        LoadType::SPtoA16 => {
            let addr = cpu.next_word();
            let sp = cpu.sp;
            cpu.bus.write_byte(addr, low_byte(sp));
            cpu.bus.write_byte(addr.wrapping_add(1), high_byte(sp));
            cpu.pc.wrapping_add(3)
        },
        LoadType::R16toSP(t) => {
            let value = big_reg_value(cpu, t);
            cpu.sp = value;
            cpu.pc.wrapping_add(1)
        },
        LoadType::SP8toHL => {
            let off = cpu.next_byte();
            let sp = cpu.sp;
            let res = sp.wrapping_add(sign_extend(off));
            cpu.regs.set_hl(res);
            cpu.regs.set_z(false);
            cpu.regs.set_n(false);
            cpu.regs.set_carry((sp % 0x100) + (off as u16) > 0xFF);
            cpu.regs.set_hc((sp % 0x10) + ((off % 0x10) as u16) > 0xF);
            cpu.pc.wrapping_add(2)
        },
    };
    proof {
        reveal(spec_execute);
        assert(cpu@ =~= (CpuView {
            pc: old(cpu)@.pc,
            ..spec_execute(old(cpu)@, Instruction::LD(lt))
        }));
    }
    next
}

#[verifier::rlimit(100)]
fn exec_misc(cpu: &mut Cpu, instr: Instruction) -> (r: u16)
    requires
        old(cpu).wf(),
        !old(cpu).halted,
        is_misc(instr),
    ensures
        final(cpu).wf(),
        r == spec_execute(old(cpu)@, instr).pc,
        final(cpu)@ == (CpuView { pc: old(cpu)@.pc, ..spec_execute(old(cpu)@, instr) }),
{
    let next: u16 = match instr {
        Instruction::NOP => cpu.pc.wrapping_add(1),
        Instruction::HALT => {
            let ie = cpu.bus.read_byte(IE_ADDR);
            let iff = cpu.bus.read_byte(IF_ADDR);
            let pending = (ie & iff) & 0x1F;
            if cpu.ime {
                cpu.halted = true;
            } else if pending == 0 {
                cpu.halted = true;
            } else {
                cpu.halt_bug = true;
            }
            cpu.pc.wrapping_add(1)
        },
        Instruction::RLCA(_) => {
            let a = cpu.regs.a_reg;
            let r = (a % 0x80) * 2 + a / 0x80;
            cpu.regs.set_a(r);
            cpu.regs.set_z(false);
            cpu.regs.set_n(false);
            cpu.regs.set_hc(false);
            cpu.regs.set_carry(a >= 0x80);
            cpu.pc.wrapping_add(1)
        },
        Instruction::RLA(_) => {
            let a = cpu.regs.a_reg;
            let ci: u8 = if cpu.regs.cf {
                1
            } else {
                0
            };
            let r = (a % 0x80) * 2 + ci;
            cpu.regs.set_a(r);
            cpu.regs.set_z(false);
            cpu.regs.set_n(false);
            cpu.regs.set_hc(false);
            cpu.regs.set_carry(a >= 0x80);
            cpu.pc.wrapping_add(1)
        },
        Instruction::RRCA(_) => {
            let a = cpu.regs.a_reg;
            let r = a / 2 + (a % 2) * 0x80;
            cpu.regs.set_a(r);
            cpu.regs.set_z(false);
            cpu.regs.set_n(false);
            cpu.regs.set_hc(false);
            cpu.regs.set_carry(a % 2 == 1);
            cpu.pc.wrapping_add(1)
        },
        Instruction::RRA(_) => {
            let a = cpu.regs.a_reg;
            let ci: u8 = if cpu.regs.cf {
                1
            } else {
                0
            };
            let r = a / 2 + ci * 0x80;
            cpu.regs.set_a(r);
            cpu.regs.set_z(false);
            cpu.regs.set_n(false);
            cpu.regs.set_hc(false);
            cpu.regs.set_carry(a % 2 == 1);
            cpu.pc.wrapping_add(1)
        },
        Instruction::DAA => {
            let a = cpu.regs.a_reg;
            let adjusted: u8 = if !cpu.regs.nf {
                let cout = cpu.regs.cf || a > 0x99;
                let a1 = if cpu.regs.hf || (a & 0xF) > 9 {
                    a.wrapping_add(0x06)
                } else {
                    a
                };
                let a2 = if cout {
                    a1.wrapping_add(0x60)
                } else {
                    a1
                };
                cpu.regs.set_carry(cout);
                a2
            } else {
                let a1 = if cpu.regs.hf {
                    a.wrapping_sub(0x06)
                } else {
                    a
                };
                let a2 = if cpu.regs.cf {
                    a1.wrapping_sub(0x60)
                } else {
                    a1
                };
                a2
            };
            cpu.regs.set_a(adjusted);
            cpu.regs.set_z(adjusted == 0);
            cpu.regs.set_hc(false);
            cpu.pc.wrapping_add(1)
        },
        Instruction::CPL => {
            let a = cpu.regs.a_reg;
            cpu.regs.set_a(!a);
            cpu.regs.set_n(true);
            cpu.regs.set_hc(true);
            cpu.pc.wrapping_add(1)
        },
        Instruction::SCF => {
            cpu.regs.set_carry(true);
            cpu.regs.set_n(false);
            cpu.regs.set_hc(false);
            cpu.pc.wrapping_add(1)
        },
        Instruction::CCF => {
            let c = cpu.regs.cf;
            cpu.regs.set_carry(!c);
            cpu.regs.set_n(false);
            cpu.regs.set_hc(false);
            cpu.pc.wrapping_add(1)
        },
        // ruled out by the precondition
        _ => {
            proof {
                assert(false);
            }
            cpu.pc
        },
    };
    proof {
        reveal(spec_execute);
        assert(cpu@ =~= (CpuView { pc: old(cpu)@.pc, ..spec_execute(old(cpu)@, instr) }));
    }
    next
}

/// Executes one decoded instruction.  `cpu.pc` must still point at the
/// fetch base; the committed next program counter is returned, not written,
/// so that the caller commits it atomically at the instruction boundary.
/// A halted CPU executes nothing and keeps its program counter.  The
/// prefix flag is part of the decoded form and adds nothing here.
pub fn execute(cpu: &mut Cpu, instr: Instruction, prefixed: bool) -> (r: u16)
    requires
        old(cpu).wf(),
    ensures
        final(cpu).wf(),
        r == spec_execute(old(cpu)@, instr).pc,
        final(cpu)@ == (CpuView { pc: old(cpu)@.pc, ..spec_execute(old(cpu)@, instr) }),
{
    let _ = prefixed;
    if cpu.halted {
        let r = cpu.pc;
        proof {
            reveal(spec_execute);
            assert(cpu@ =~= (CpuView { pc: old(cpu)@.pc, ..spec_execute(old(cpu)@, instr) }));
        }
        return r;
    }
    match instr {
        Instruction::ADD(_)
        | Instruction::ADC(_)
        | Instruction::SUB(_)
        | Instruction::SBC(_)
        | Instruction::AND(_)
        | Instruction::OR(_)
        | Instruction::XOR(_)
        | Instruction::CP(_) => exec_acc_alu(cpu, instr),
        Instruction::INC(_) | Instruction::DEC(_) => exec_inc_dec(cpu, instr),
        Instruction::INC16(_) | Instruction::DEC16(_) | Instruction::ADD16(_) => exec_arith16(
            cpu,
            instr,
        ),
        Instruction::JP(_) | Instruction::JR(_) | Instruction::CALL(_) | Instruction::RET(_) => {
            exec_flow(cpu, instr)
        },
        Instruction::PUSH(_) | Instruction::POP(_) => exec_stack(cpu, instr),
        Instruction::LD(lt) => exec_load(cpu, lt),
        Instruction::RLCA(_)
        | Instruction::RLA(_)
        | Instruction::RRCA(_)
        | Instruction::RRA(_)
        | Instruction::DAA
        | Instruction::CPL
        | Instruction::SCF
        | Instruction::CCF
        | Instruction::NOP
        | Instruction::HALT => exec_misc(cpu, instr),
    }
}

} // verus!
