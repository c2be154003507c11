//! A verified interpreter core for the Sharp SM83 (Game Boy) CPU.
//!
//! The crate models the register file with its packed flag byte, the
//! instruction decoder for the base and CB-prefixed opcode tables, and the
//! fetch/decode/execute step with interrupt dispatch, the delayed
//! interrupt-enable schedule, and the HALT fetch glitch.  Every executable
//! function carries a contract; `Cpu::step` and `execute` are proved
//! against the specification-level interpreter `spec_step` over `CpuView`.
use vstd::prelude::*;

pub mod bus;
pub mod cpu;
pub mod interrupts;
pub mod words;

pub use cpu::Cpu;
pub use cpu::DecodeError;

verus! {

/// A whole machine: one CPU that owns its bus.  The host loads an image
/// and then drives `Cpu::step`.
pub struct Emulator {
    pub cpu: Cpu,
}

impl Emulator {
    /// A machine in the reset state.
    pub fn new() -> (e: Emulator)
        ensures
            e.cpu.wf(),
            e.cpu@ == Cpu::spec_new(),
    {
        Emulator { cpu: Cpu::new() }
    }

    /// Copies a 256-byte image to the bottom of the address space; nothing
    /// else changes.
    pub fn load(&mut self, data: &[u8])
        requires
            old(self).cpu.wf(),
            data@.len() == 0x100,
        ensures
            final(self).cpu.wf(),
            final(self).cpu@.mem.len() == old(self).cpu@.mem.len(),
            forall|i: int|
                0 <= i < old(self).cpu@.mem.len() ==> final(self).cpu@.mem[i] == (if i < 0x100 {
                    data@[i]
                } else {
                    old(self).cpu@.mem[i]
                }),
            final(self).cpu.regs == old(self).cpu.regs,
            final(self).cpu.pc == old(self).cpu.pc,
            final(self).cpu.sp == old(self).cpu.sp,
            cpu::ctrl_unchanged(old(self).cpu, final(self).cpu),
    {
        let mut i: usize = 0;
        while i < 0x100
            invariant
                i <= 0x100,
                data@.len() == 0x100,
                self.cpu.wf(),
                self.cpu@.mem.len() == old(self).cpu@.mem.len(),
                forall|j: int|
                    0 <= j < old(self).cpu@.mem.len() ==> self.cpu@.mem[j] == (if j < i {
                        data@[j]
                    } else {
                        old(self).cpu@.mem[j]
                    }),
                self.cpu.regs == old(self).cpu.regs,
                self.cpu.pc == old(self).cpu.pc,
                self.cpu.sp == old(self).cpu.sp,
                cpu::ctrl_unchanged(old(self).cpu, self.cpu),
            decreases 0x100 - i,
        {
            let b = data[i];
            self.cpu.bus.write_byte(i as u16, b);
            i = i + 1;
        }
    }
}

} // verus!
