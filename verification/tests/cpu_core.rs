use gb_core::Cpu;
use gb_core::cpu::instructions::Instruction;

#[test]
fn decode_nop() {
    let i = Instruction::decode(0x00, false).unwrap();
    matches!(i, Instruction::NOP);
}

#[test]
fn decode_halt() {
    let i = Instruction::decode(0x76, false).unwrap();
    matches!(i, Instruction::HALT);
}

#[test]
fn step_nop_advances_pc() {
    let mut cpu = Cpu::new();
    cpu.pc = 0x0100;
    cpu.bus.write_byte(0x0100, 0x00); // NOP

    cpu.step();

    assert_eq!(cpu.pc, 0x0101);
}

#[test]
fn step_halt_stops_advancing() {
    let mut cpu = Cpu::new();
    cpu.pc = 0x0100;
    cpu.bus.write_byte(0x0100, 0x76); // HALT

    cpu.step();
    assert!(cpu.halted);

    let pc_after = cpu.pc;
    cpu.step(); // should do nothing
    assert_eq!(cpu.pc, pc_after);
}

#[test]
fn execute_call_then_ret_returns_to_next_instruction() {
    let mut cpu = Cpu::new();
    cpu.pc = 0x0100;
    cpu.sp = 0xFFFE;

    // Program:
    // 0100: CD 00 02   CALL 0x0200
    // 0103: 00         NOP   (should execute after RET)
    // 0200: C9         RET
    cpu.bus.write_byte(0x0100, 0xCD);
    cpu.bus.write_byte(0x0101, 0x00);
    cpu.bus.write_byte(0x0102, 0x02);
    cpu.bus.write_byte(0x0103, 0x00);

    cpu.bus.write_byte(0x0200, 0xC9);

    cpu.step();
    assert_eq!(cpu.pc, 0x0200, "CALL should jump to target");
    assert_eq!(cpu.sp, 0xFFFC, "CALL should push return address");

    cpu.step();
    assert_eq!(cpu.pc, 0x0103, "RET should return to next instruction after CALL");
    assert_eq!(cpu.sp, 0xFFFE, "RET should restore SP");

    cpu.step();
    assert_eq!(cpu.pc, 0x0104, "NOP after return should run");
}

#[test]
fn mod_push_pop_word_roundtrip_and_endianness() {
    let mut cpu = Cpu::new();
    cpu.sp = 0xFFFE;
    cpu.pc = 0x1234;

    cpu.push_word(0xBEEF);

    // PC must not change due to stack operations
    assert_eq!(cpu.pc, 0x1234);

    // Stack grows down by 2
    assert_eq!(cpu.sp, 0xFFFC);

    assert_eq!(cpu.bus.read_byte(cpu.sp), 0xEF); // lo
    assert_eq!(cpu.bus.read_byte(cpu.sp + 1), 0xBE); // hi

    let v = cpu.pop_word();
    assert_eq!(v, 0xBEEF);
    assert_eq!(cpu.sp, 0xFFFE);
}

#[test]
fn pop_word_reads_in_correct_order() {
    let mut cpu = Cpu::new();
    cpu.sp = 0xFFFC;
    cpu.bus.write_byte(0xFFFC, 0x34); // lo
    cpu.bus.write_byte(0xFFFD, 0x12); // hi

    let v = cpu.pop_word();
    assert_eq!(v, 0x1234);
    assert_eq!(cpu.sp, 0xFFFE);
}
