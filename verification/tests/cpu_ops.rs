use nes::rom::{Mirroring, Rom};
use nes::{AddrMode, Bus, Cpu, EmuError, Flags};

/// A CPU whose PRG ROM holds `program` at the ROM base 0x8000, with the
/// reset vector pointing there.
fn cpu_with_program(program: &[u8]) -> Cpu {
    let mut prg = vec![0u8; 0x8000];
    prg[..program.len()].copy_from_slice(program);
    prg[0x7FFC] = 0x00;
    prg[0x7FFD] = 0x80;
    let rom = Rom { prg_rom: prg, chr_rom: Vec::new(), mapper: 0, mirroring: Mirroring::Horizontal };
    Cpu::new(Bus::new(rom))
}

#[test]
fn adc_signed_overflow_example() {
    // A=0x50 plus operand 0x50 with carry-in 0.
    let mut cpu = cpu_with_program(&[0x69, 0x50]);
    cpu.reg_a = 0x50;
    cpu.step().unwrap();
    assert_eq!(cpu.reg_a, 0xA0);
    assert!(cpu.status.contains(Flags::OVERFLOW));
    assert!(!cpu.status.contains(Flags::CARRY));
    assert!(cpu.status.contains(Flags::NEGATIVE));
    assert!(!cpu.status.contains(Flags::ZERO));
    assert_eq!(cpu.pc, 0x8002);
}

#[test]
fn adc_carry_and_zero() {
    let mut cpu = cpu_with_program(&[0x69, 0x01]);
    cpu.reg_a = 0xFF;
    cpu.step().unwrap();
    assert_eq!(cpu.reg_a, 0x00);
    assert!(cpu.status.contains(Flags::CARRY));
    assert!(cpu.status.contains(Flags::ZERO));
    assert!(!cpu.status.contains(Flags::OVERFLOW));
}

#[test]
fn adc_uses_carry_in() {
    let mut cpu = cpu_with_program(&[0x38, 0x69, 0x10]);
    cpu.reg_a = 0x05;
    cpu.step().unwrap(); // SEC
    cpu.step().unwrap(); // ADC #0x10
    assert_eq!(cpu.reg_a, 0x16);
}

#[test]
fn sbc_is_adc_of_complement() {
    // SEC then SBC #0x10 computes 0x50 - 0x10 exactly.
    let mut cpu = cpu_with_program(&[0x38, 0xE9, 0x10]);
    cpu.reg_a = 0x50;
    cpu.step().unwrap();
    cpu.step().unwrap();
    assert_eq!(cpu.reg_a, 0x40);
    assert!(cpu.status.contains(Flags::CARRY));
}

#[test]
fn zero_and_negative_recomputation() {
    let mut cpu = cpu_with_program(&[0xA9, 0x00, 0xA9, 0x80, 0xA9, 0x7F]);
    cpu.step().unwrap();
    assert!(cpu.status.contains(Flags::ZERO));
    assert!(!cpu.status.contains(Flags::NEGATIVE));
    cpu.step().unwrap();
    assert!(!cpu.status.contains(Flags::ZERO));
    assert!(cpu.status.contains(Flags::NEGATIVE));
    cpu.step().unwrap();
    assert!(!cpu.status.contains(Flags::ZERO));
    assert!(!cpu.status.contains(Flags::NEGATIVE));
}

#[test]
fn logic_ops_combine_into_accumulator() {
    let mut cpu = cpu_with_program(&[0x29, 0x0F, 0x09, 0xF0, 0x49, 0xFF]);
    cpu.reg_a = 0x3C;
    cpu.step().unwrap(); // AND
    assert_eq!(cpu.reg_a, 0x0C);
    cpu.step().unwrap(); // ORA
    assert_eq!(cpu.reg_a, 0xFC);
    cpu.step().unwrap(); // EOR
    assert_eq!(cpu.reg_a, 0x03);
}

#[test]
fn shifts_on_accumulator() {
    let mut cpu = cpu_with_program(&[0x0A]);
    cpu.reg_a = 0x81;
    cpu.step().unwrap(); // ASL A
    assert_eq!(cpu.reg_a, 0x02);
    assert!(cpu.status.contains(Flags::CARRY));

    let mut cpu = cpu_with_program(&[0x4A]);
    cpu.reg_a = 0x01;
    cpu.step().unwrap(); // LSR A
    assert_eq!(cpu.reg_a, 0x00);
    assert!(cpu.status.contains(Flags::CARRY));
    assert!(cpu.status.contains(Flags::ZERO));
}

#[test]
fn rotates_feed_carry_into_vacated_bit() {
    // SEC, ROL A: carry-in lands in bit 0, bit 7 leaves into carry.
    let mut cpu = cpu_with_program(&[0x38, 0x2A]);
    cpu.reg_a = 0x80;
    cpu.step().unwrap();
    cpu.step().unwrap();
    assert_eq!(cpu.reg_a, 0x01);
    assert!(cpu.status.contains(Flags::CARRY));

    // SEC, ROR A: carry-in lands in bit 7, bit 0 leaves into carry.
    let mut cpu = cpu_with_program(&[0x38, 0x6A]);
    cpu.reg_a = 0x01;
    cpu.step().unwrap();
    cpu.step().unwrap();
    assert_eq!(cpu.reg_a, 0x80);
    assert!(cpu.status.contains(Flags::CARRY));
}

#[test]
fn shift_on_memory_cell() {
    // ASL $10 on RAM.
    let mut cpu = cpu_with_program(&[0x06, 0x10]);
    cpu.memory.write(0x0010, 0xC0).unwrap();
    cpu.step().unwrap();
    assert_eq!(cpu.memory.read(0x0010), Ok(0x80));
    assert!(cpu.status.contains(Flags::CARRY));
    assert!(cpu.status.contains(Flags::NEGATIVE));
}

#[test]
fn compare_sets_carry_zero_negative() {
    let mut cpu = cpu_with_program(&[0xC9, 0x10]);
    cpu.reg_a = 0x20;
    cpu.step().unwrap();
    assert!(cpu.status.contains(Flags::CARRY));
    assert!(!cpu.status.contains(Flags::ZERO));

    let mut cpu = cpu_with_program(&[0xC9, 0x20]);
    cpu.reg_a = 0x20;
    cpu.step().unwrap();
    assert!(cpu.status.contains(Flags::CARRY));
    assert!(cpu.status.contains(Flags::ZERO));

    let mut cpu = cpu_with_program(&[0xE0, 0x30]);
    cpu.reg_x = 0x20;
    cpu.step().unwrap(); // CPX
    assert!(!cpu.status.contains(Flags::CARRY));
    assert!(cpu.status.contains(Flags::NEGATIVE));
}

#[test]
fn increments_and_decrements_wrap() {
    let mut cpu = cpu_with_program(&[0xE8, 0xC8, 0xCA, 0x88]);
    cpu.reg_x = 0xFF;
    cpu.reg_y = 0xFF;
    cpu.step().unwrap(); // INX
    assert_eq!(cpu.reg_x, 0x00);
    assert!(cpu.status.contains(Flags::ZERO));
    cpu.step().unwrap(); // INY
    assert_eq!(cpu.reg_y, 0x00);
    cpu.step().unwrap(); // DEX
    assert_eq!(cpu.reg_x, 0xFF);
    assert!(cpu.status.contains(Flags::NEGATIVE));
    cpu.step().unwrap(); // DEY decrements Y itself
    assert_eq!(cpu.reg_y, 0xFF);
}

#[test]
fn inc_dec_memory() {
    let mut cpu = cpu_with_program(&[0xE6, 0x10, 0xC6, 0x11]);
    cpu.memory.write(0x0010, 0xFF).unwrap();
    cpu.memory.write(0x0011, 0x00).unwrap();
    cpu.step().unwrap(); // INC $10
    assert_eq!(cpu.memory.read(0x0010), Ok(0x00));
    assert!(cpu.status.contains(Flags::ZERO));
    cpu.step().unwrap(); // DEC $11
    assert_eq!(cpu.memory.read(0x0011), Ok(0xFF));
    assert!(cpu.status.contains(Flags::NEGATIVE));
}

#[test]
fn bit_tests_operand_against_accumulator() {
    let mut cpu = cpu_with_program(&[0x24, 0x10]);
    cpu.memory.write(0x0010, 0xC0).unwrap();
    cpu.reg_a = 0x3F;
    cpu.step().unwrap();
    assert!(cpu.status.contains(Flags::OVERFLOW));
    assert!(cpu.status.contains(Flags::NEGATIVE));
    assert!(cpu.status.contains(Flags::ZERO));
}

#[test]
fn transfers_copy_registers() {
    let mut cpu = cpu_with_program(&[0xAA, 0xA8, 0x8A, 0x98, 0xBA, 0x9A]);
    cpu.reg_a = 0x80;
    cpu.step().unwrap(); // TAX
    assert_eq!(cpu.reg_x, 0x80);
    assert!(cpu.status.contains(Flags::NEGATIVE));
    cpu.step().unwrap(); // TAY
    assert_eq!(cpu.reg_y, 0x80);
    cpu.step().unwrap(); // TXA
    assert_eq!(cpu.reg_a, 0x80);
    cpu.step().unwrap(); // TYA
    assert_eq!(cpu.reg_a, 0x80);
    cpu.step().unwrap(); // TSX
    assert_eq!(cpu.reg_x, 0xFD);
    // TXS copies X to the stack pointer and, unlike the others, leaves the
    // flags alone.
    cpu.reg_x = 0x00;
    let before = cpu.status.bits();
    cpu.step().unwrap();
    assert_eq!(cpu.stack_ptr, 0x00);
    assert_eq!(cpu.status.bits(), before);
}

#[test]
fn flag_instructions_set_and_clear_single_bits() {
    let mut cpu = cpu_with_program(&[0x38, 0xF8, 0x78, 0x18, 0xD8, 0x58, 0xB8]);
    cpu.step().unwrap(); // SEC
    assert!(cpu.status.contains(Flags::CARRY));
    cpu.step().unwrap(); // SED
    assert!(cpu.status.contains(Flags::DECIMAL));
    cpu.step().unwrap(); // SEI
    assert!(cpu.status.contains(Flags::INTERRUPTDISABLE));
    cpu.step().unwrap(); // CLC
    assert!(!cpu.status.contains(Flags::CARRY));
    cpu.step().unwrap(); // CLD
    assert!(!cpu.status.contains(Flags::DECIMAL));
    cpu.step().unwrap(); // CLI
    assert!(!cpu.status.contains(Flags::INTERRUPTDISABLE));
    cpu.status.insert(Flags::OVERFLOW);
    cpu.step().unwrap(); // CLV
    assert!(!cpu.status.contains(Flags::OVERFLOW));
}

#[test]
fn stores_write_registers_to_memory() {
    let mut cpu = cpu_with_program(&[0x85, 0x10, 0x86, 0x11, 0x84, 0x12]);
    cpu.reg_a = 1;
    cpu.reg_x = 2;
    cpu.reg_y = 3;
    cpu.step().unwrap();
    cpu.step().unwrap();
    cpu.step().unwrap();
    assert_eq!(cpu.memory.read(0x0010), Ok(1));
    assert_eq!(cpu.memory.read(0x0011), Ok(2));
    assert_eq!(cpu.memory.read(0x0012), Ok(3));
}

#[test]
fn loads_through_indexed_modes() {
    // LDA $10,X with X=2 reads $12; LDX $20,Y with Y=1 reads $21.
    let mut cpu = cpu_with_program(&[0xB5, 0x10, 0xB6, 0x20]);
    cpu.memory.write(0x0012, 0x55).unwrap();
    cpu.memory.write(0x0021, 0x66).unwrap();
    cpu.reg_x = 2;
    cpu.reg_y = 1;
    cpu.step().unwrap();
    assert_eq!(cpu.reg_a, 0x55);
    cpu.step().unwrap();
    assert_eq!(cpu.reg_x, 0x66);
}

#[test]
fn zero_page_x_wraps_at_256() {
    // base=0x80 indexed with X=0xFF resolves to 0x7F, not 0x017F.
    let mut cpu = cpu_with_program(&[0xB5, 0x80]);
    cpu.reg_x = 0xFF;
    assert_eq!(cpu.get_addr_mode_dest(AddrMode::ZeroPageX), Ok(0x7F));
    cpu.memory.write(0x007F, 0x77).unwrap();
    cpu.step().unwrap();
    assert_eq!(cpu.reg_a, 0x77);
}

#[test]
fn resolver_rejects_operand_free_modes() {
    let cpu = cpu_with_program(&[0xEA]);
    assert_eq!(cpu.get_addr_mode_dest(AddrMode::Implicit), Err(EmuError::NoOperand));
    assert_eq!(cpu.get_addr_mode_dest(AddrMode::Accumulator), Err(EmuError::NoOperand));
    assert_eq!(cpu.get_addr_mode_dest(AddrMode::Indirect), Err(EmuError::NoOperand));
}

#[test]
fn absolute_indexed_resolution() {
    let mut cpu = cpu_with_program(&[0xBD, 0x00, 0x02]);
    cpu.reg_x = 5;
    assert_eq!(cpu.get_addr_mode_dest(AddrMode::AbsoluteX), Ok(0x0205));
    cpu.memory.write(0x0205, 0x42).unwrap();
    cpu.step().unwrap();
    assert_eq!(cpu.reg_a, 0x42);
}

#[test]
fn indexed_indirect_wraps_in_zero_page() {
    // ($FE,X) with X=1: the pointer is read from $FF and $00, both in page zero.
    let mut cpu = cpu_with_program(&[0xA1, 0xFE]);
    cpu.reg_x = 1;
    cpu.memory.write(0x00FF, 0x34).unwrap();
    cpu.memory.write(0x0000, 0x02).unwrap();
    assert_eq!(cpu.get_addr_mode_dest(AddrMode::IndexedIndirect), Ok(0x0234));
    cpu.memory.write(0x0234, 0x99).unwrap();
    cpu.step().unwrap();
    assert_eq!(cpu.reg_a, 0x99);
}

#[test]
fn indirect_indexed_adds_y_after_the_pointer() {
    // ($10),Y: the pointer at $10/$11 is 0x0300, plus Y=4.
    let mut cpu = cpu_with_program(&[0xB1, 0x10]);
    cpu.reg_y = 4;
    cpu.memory.write(0x0010, 0x00).unwrap();
    cpu.memory.write(0x0011, 0x03).unwrap();
    assert_eq!(cpu.get_addr_mode_dest(AddrMode::IndirectIndexed), Ok(0x0304));
    cpu.memory.write(0x0304, 0x21).unwrap();
    cpu.step().unwrap();
    assert_eq!(cpu.reg_a, 0x21);
}

#[test]
fn branch_taken_and_not_taken() {
    // BNE +2 with Zero clear: branch adds 2, then the size advance adds 2.
    let mut cpu = cpu_with_program(&[0xD0, 0x02]);
    cpu.step().unwrap();
    assert_eq!(cpu.pc, 0x8004);

    // BNE with Zero set falls through to the next instruction.
    let mut cpu = cpu_with_program(&[0xD0, 0x02]);
    cpu.status.insert(Flags::ZERO);
    cpu.step().unwrap();
    assert_eq!(cpu.pc, 0x8002);
}

#[test]
fn branch_with_negative_displacement() {
    // BEQ -4 from 0x8004: taken branch lands at 0x8000 plus the 2-byte
    // advance, so execution resumes at 0x8002.
    let mut cpu = cpu_with_program(&[0xEA, 0xEA, 0xEA, 0xEA, 0xF0, 0xFC]);
    cpu.pc = 0x8004;
    cpu.status.insert(Flags::ZERO);
    cpu.step().unwrap();
    assert_eq!(cpu.pc, 0x8002);
}

#[test]
fn undocumented_opcode_is_fatal_and_preserves_state() {
    let mut cpu = cpu_with_program(&[0x02]);
    let pc = cpu.pc;
    let st = cpu.status.bits();
    assert_eq!(cpu.step(), Err(EmuError::InvalidOpcode(0x02)));
    assert_eq!(cpu.pc, pc);
    assert_eq!(cpu.status.bits(), st);
}

#[test]
fn write_into_rom_is_fatal() {
    // STA $8000.
    let mut cpu = cpu_with_program(&[0x8D, 0x00, 0x80]);
    cpu.reg_a = 1;
    assert_eq!(cpu.step(), Err(EmuError::RomWrite(0x8000)));
    assert_eq!(cpu.pc, 0x8000);
}

#[test]
fn open_bus_accesses_are_tallied() {
    // LDA $4100 reads the unmapped region: the value floats to 0 and the
    // access lands in the diagnostics tally for the host to log.
    let mut cpu = cpu_with_program(&[0xAD, 0x00, 0x41, 0x8D, 0x01, 0x41, 0xA5, 0x10]);
    assert_eq!(cpu.diag.events, 0);
    cpu.step().unwrap();
    assert_eq!(cpu.reg_a, 0);
    assert_eq!(cpu.diag.events, 1);
    assert_eq!(cpu.diag.last_addr, Some(0x4100));
    // STA $4101: the write vanishes but is tallied too.
    cpu.step().unwrap();
    assert_eq!(cpu.diag.events, 2);
    assert_eq!(cpu.diag.last_addr, Some(0x4101));
    // A RAM access adds nothing.
    cpu.step().unwrap();
    assert_eq!(cpu.diag.events, 2);
}

#[test]
fn reserved_window_access_is_fatal() {
    // LDA $2000.
    let mut cpu = cpu_with_program(&[0xAD, 0x00, 0x20]);
    assert_eq!(cpu.step(), Err(EmuError::ReservedRegion(0x2000)));
    assert_eq!(cpu.pc, 0x8000);
}
