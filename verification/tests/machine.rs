use gb_core::{Cpu, Emulator};

#[test]
fn halt_with_no_pending_interrupt_advances_pc_then_stays() {
    let mut cpu = Cpu::new();
    cpu.pc = 0x0100;
    cpu.bus.write_byte(0x0100, 0x76); // HALT

    cpu.step();
    assert!(cpu.halted);
    assert_eq!(cpu.pc, 0x0101);

    cpu.step();
    assert!(cpu.halted);
    assert_eq!(cpu.pc, 0x0101);
}

#[test]
fn halted_cpu_wakes_when_an_interrupt_becomes_pending() {
    let mut cpu = Cpu::new();
    cpu.pc = 0x0100;
    cpu.ime = false;
    cpu.bus.write_byte(0x0100, 0x76); // HALT
    cpu.bus.write_byte(0x0101, 0x00); // NOP

    cpu.step();
    assert!(cpu.halted);

    // a peripheral raises VBlank between steps
    cpu.bus.write_byte(0xFFFF, 0x01);
    cpu.bus.write_byte(0xFF0F, 0x01);

    // wakes and, with IME off, executes the NOP in the same step
    cpu.step();
    assert!(!cpu.halted);
    assert_eq!(cpu.pc, 0x0102);
}

#[test]
fn interrupt_dispatch_pushes_pc_and_jumps_to_vector() {
    let mut cpu = Cpu::new();
    cpu.pc = 0x0150;
    cpu.sp = 0xFFFE;
    cpu.ime = true;
    cpu.bus.write_byte(0xFFFF, 0x01); // IE: VBlank
    cpu.bus.write_byte(0xFF0F, 0x01); // IF: VBlank

    cpu.step();

    assert_eq!(cpu.pc, 0x0040);
    assert_eq!(cpu.sp, 0xFFFC);
    assert_eq!(cpu.bus.read_byte(0xFFFC), 0x50); // lo of pushed PC
    assert_eq!(cpu.bus.read_byte(0xFFFD), 0x01); // hi of pushed PC
    assert!(!cpu.ime, "dispatch clears IME");
    assert_eq!(cpu.bus.read_byte(0xFF0F) & 0x01, 0, "request bit is cleared");
}

#[test]
fn interrupt_dispatch_picks_the_highest_priority_source() {
    let mut cpu = Cpu::new();
    cpu.pc = 0x0150;
    cpu.sp = 0xFFFE;
    cpu.ime = true;
    cpu.bus.write_byte(0xFFFF, 0x1F); // all sources enabled
    cpu.bus.write_byte(0xFF0F, 0x06); // LCDStat + Timer requested

    cpu.step();

    assert_eq!(cpu.pc, 0x0048, "LCDStat outranks Timer");
    assert_eq!(cpu.bus.read_byte(0xFF0F) & 0x1F, 0x04, "only the serviced bit clears");
}

#[test]
fn interrupts_stay_masked_while_ime_is_off() {
    let mut cpu = Cpu::new();
    cpu.pc = 0x0100;
    cpu.ime = false;
    cpu.bus.write_byte(0xFFFF, 0x01);
    cpu.bus.write_byte(0xFF0F, 0x01);
    cpu.bus.write_byte(0x0100, 0x00); // NOP

    cpu.step();

    assert_eq!(cpu.pc, 0x0101, "the NOP runs; nothing is dispatched");
    assert_eq!(cpu.bus.read_byte(0xFF0F) & 0x1F, 0x01, "the request stays");
}

#[test]
fn scheduled_interrupt_enable_takes_effect_after_one_instruction() {
    let mut cpu = Cpu::new();
    cpu.pc = 0x0100;
    cpu.ime = false;
    cpu.ime_scheduled = true;
    cpu.bus.write_byte(0xFFFF, 0x01);
    cpu.bus.write_byte(0xFF0F, 0x01);
    cpu.bus.write_byte(0x0100, 0x00); // NOP
    cpu.bus.write_byte(0x0101, 0x00); // NOP

    // the instruction after the schedule still runs unmasked
    cpu.step();
    assert_eq!(cpu.pc, 0x0101);
    assert!(cpu.ime);
    assert!(!cpu.ime_scheduled);

    // now IME is on and the pending interrupt is dispatched
    cpu.step();
    assert_eq!(cpu.pc, 0x0040);
}

#[test]
fn if_register_reads_back_with_top_bits_forced() {
    let mut cpu = Cpu::new();
    cpu.bus.write_byte(0xFF0F, 0x05);
    assert_eq!(cpu.bus.read_byte(0xFF0F), 0xE5);

    cpu.bus.write_byte(0xFF0F, 0xAB); // only the low 5 bits store
    assert_eq!(cpu.bus.read_byte(0xFF0F), 0xEB);
}

#[test]
fn ie_register_masks_writes_and_reads_back_as_stored() {
    let mut cpu = Cpu::new();
    cpu.bus.write_byte(0xFFFF, 0xAA); // only the low 5 bits store
    assert_eq!(cpu.bus.read_byte(0xFFFF), 0x0A);

    cpu.bus.write_byte(0xFFFF, 0x15);
    assert_eq!(cpu.bus.read_byte(0xFFFF), 0x15);
}

#[test]
fn nop_at_top_of_memory_wraps_pc_to_zero() {
    let mut cpu = Cpu::new();
    cpu.pc = 0xFFFE;
    cpu.bus.write_byte(0xFFFE, 0x00); // NOP

    cpu.step();
    assert_eq!(cpu.pc, 0xFFFF);

    // 0xFFFF is the IE register; 0x00 there decodes as NOP and PC wraps
    cpu.step();
    assert_eq!(cpu.pc, 0x0000);
}

#[test]
fn stack_wraps_through_the_bottom_of_the_address_space() {
    let mut cpu = Cpu::new();
    cpu.sp = 0x0001;
    cpu.push_word(0xBEEF);
    assert_eq!(cpu.sp, 0xFFFF);
    // the low byte lands on the IE register, which keeps only its low
    // 5 bits: 0xEF stores as 0x0F, so this round trip clips
    assert_eq!(cpu.bus.read_byte(0xFFFF), 0x0F);
    assert_eq!(cpu.bus.read_byte(0x0000), 0xBE);

    let v = cpu.pop_word();
    assert_eq!(v, 0xBE0F);
    assert_eq!(cpu.sp, 0x0001);
}

#[test]
fn unknown_opcode_reports_byte_address_and_prefix() {
    let mut cpu = Cpu::new();
    cpu.pc = 0x0100;
    cpu.bus.write_byte(0x0100, 0xD3); // not in the base table

    let err = cpu.step().unwrap_err();
    assert_eq!(err.opcode, 0xD3);
    assert_eq!(err.addr, 0x0100);
    assert!(!err.prefixed);
    assert_eq!(cpu.pc, 0x0100, "nothing changes on a decode failure");
}

#[test]
fn unknown_cb_opcode_reports_the_second_byte_as_prefixed() {
    let mut cpu = Cpu::new();
    cpu.pc = 0x0100;
    cpu.bus.write_byte(0x0100, 0xCB);
    cpu.bus.write_byte(0x0101, 0x00); // not in the CB table

    let err = cpu.step().unwrap_err();
    assert_eq!(err.opcode, 0x00);
    assert_eq!(err.addr, 0x0100);
    assert!(err.prefixed);
}

#[test]
fn cb_prefixed_ret_pops_the_return_address() {
    let mut cpu = Cpu::new();
    cpu.pc = 0x0100;
    cpu.sp = 0xFFFC;
    cpu.bus.write_byte(0xFFFC, 0x34);
    cpu.bus.write_byte(0xFFFD, 0x12);
    cpu.bus.write_byte(0x0100, 0xCB);
    cpu.bus.write_byte(0x0101, 0xC9); // the one CB-table entry

    cpu.step();
    assert_eq!(cpu.pc, 0x1234);
    assert_eq!(cpu.sp, 0xFFFE);
}

#[test]
fn run_steps_executes_that_many_instructions() {
    let mut cpu = Cpu::new();
    cpu.pc = 0x0100;
    for i in 0..5u16 {
        cpu.bus.write_byte(0x0100 + i, 0x00); // NOPs
    }
    let r = cpu.run_steps(4);
    assert!(r.is_ok());
    assert_eq!(cpu.pc, 0x0104);
}

#[test]
fn run_steps_stops_at_the_first_decode_failure() {
    let mut cpu = Cpu::new();
    cpu.pc = 0x0100;
    cpu.bus.write_byte(0x0100, 0x00); // NOP
    cpu.bus.write_byte(0x0101, 0xD3); // illegal

    let err = cpu.run_steps(10).unwrap_err();
    assert_eq!(err.opcode, 0xD3);
    assert_eq!(err.addr, 0x0101);
    assert_eq!(cpu.pc, 0x0101);
}

#[test]
fn emulator_loads_an_image_at_the_bottom() {
    let mut emu = Emulator::new();
    let mut image = vec![0u8; 0x100];
    image[0] = 0x3E; // LD A,d8
    image[1] = 0x42;
    emu.load(&image);

    assert_eq!(emu.cpu.bus.read_byte(0x0000), 0x3E);
    assert_eq!(emu.cpu.bus.read_byte(0x0001), 0x42);
    assert_eq!(emu.cpu.pc, 0x0000);

    emu.cpu.step();
    assert_eq!(emu.cpu.regs.a(), 0x42);
    assert_eq!(emu.cpu.pc, 0x0002);
}

#[test]
fn load_rom_copies_and_points_pc_at_the_entry() {
    let mut cpu = Cpu::new();
    let rom = vec![0x11u8, 0x22, 0x33];
    cpu.load_rom(&rom);
    assert_eq!(cpu.bus.read_byte(0x0000), 0x11);
    assert_eq!(cpu.bus.read_byte(0x0002), 0x33);
    assert_eq!(cpu.bus.read_byte(0x0003), 0x00);
    assert_eq!(cpu.pc, 0x0100);
}

#[test]
fn decode_is_a_pure_function_of_its_inputs() {
    for prefixed in [false, true] {
        for byte in 0..=0xFFu8 {
            let first = gb_core::cpu::instructions::Instruction::decode(byte, prefixed);
            let second = gb_core::cpu::instructions::Instruction::decode(byte, prefixed);
            assert_eq!(first, second);
        }
    }
}
