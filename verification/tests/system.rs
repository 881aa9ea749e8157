use nes::rom::{Mirroring, Rom};
use nes::{color, read_screen_state, Bus, Cpu, EmuError, Flags, NoopCallback, StepCallback};

fn cpu_with_program(program: &[u8]) -> Cpu {
    let mut prg = vec![0u8; 0x8000];
    prg[..program.len()].copy_from_slice(program);
    prg[0x7FFC] = 0x00;
    prg[0x7FFD] = 0x80;
    let rom = Rom { prg_rom: prg, chr_rom: Vec::new(), mapper: 0, mirroring: Mirroring::Horizontal };
    Cpu::new(Bus::new(rom))
}

#[test]
fn reset_state() {
    let cpu = cpu_with_program(&[]);
    assert_eq!(cpu.reg_a, 0);
    assert_eq!(cpu.reg_x, 0);
    assert_eq!(cpu.reg_y, 0);
    assert_eq!(cpu.stack_ptr, 0xFD);
    assert_eq!(cpu.pc, 0x8000);
    // InterruptDisable and the always-on bit.
    assert_eq!(cpu.status.bits(), 0x24);
}

#[test]
fn reset_reads_the_vector() {
    let mut prg = vec![0u8; 0x8000];
    prg[0x7FFC] = 0x34;
    prg[0x7FFD] = 0x92;
    let rom = Rom { prg_rom: prg, chr_rom: Vec::new(), mapper: 0, mirroring: Mirroring::Horizontal };
    let cpu = Cpu::new(Bus::new(rom));
    assert_eq!(cpu.pc, 0x9234);
}

#[test]
fn end_to_end_three_steps() {
    // LDA #$05; STA $0200; JMP $8000 — an infinite loop back to the base.
    let mut cpu = cpu_with_program(&[0xA9, 0x05, 0x8D, 0x00, 0x02, 0x4C, 0x00, 0x80]);
    cpu.step().unwrap();
    cpu.step().unwrap();
    cpu.step().unwrap();
    assert_eq!(cpu.reg_a, 0x05);
    assert_eq!(cpu.memory.read(0x0200), Ok(0x05));
    assert_eq!(cpu.pc, 0x8000);
}

#[test]
fn stack_is_lifo_across_wraparound() {
    let mut cpu = cpu_with_program(&[]);
    // 256 pushes wrap the 8-bit stack pointer all the way around.
    for b in 0..=255u8 {
        cpu.push_stack(b);
    }
    assert_eq!(cpu.stack_ptr, 0xFD);
    for b in (0..=255u8).rev() {
        assert_eq!(cpu.pop_stack(), b);
    }
    assert_eq!(cpu.stack_ptr, 0xFD);
}

#[test]
fn stack_u16_roundtrip() {
    let mut cpu = cpu_with_program(&[]);
    cpu.push_stack_u16(0xBEEF);
    assert_eq!(cpu.pop_stack_u16(), 0xBEEF);
    assert_eq!(cpu.stack_ptr, 0xFD);
}

#[test]
fn pha_pla_php_plp() {
    // PHA; PLP then PHP; PLA move bytes between A and the status register.
    let mut cpu = cpu_with_program(&[0x48, 0x28, 0x08, 0x68]);
    cpu.reg_a = 0xC3;
    cpu.step().unwrap(); // PHA
    assert_eq!(cpu.stack_ptr, 0xFC);
    cpu.step().unwrap(); // PLP
    assert_eq!(cpu.status.bits(), 0xC3);
    cpu.step().unwrap(); // PHP
    cpu.step().unwrap(); // PLA
    assert_eq!(cpu.reg_a, 0xC3);
}

#[test]
fn jsr_and_rts_roundtrip() {
    // JSR $8010 ... RTS at $8010 resumes right after the JSR.
    let mut program = vec![0x20, 0x10, 0x80];
    program.resize(0x10, 0xEA);
    program.push(0x60);
    let mut cpu = cpu_with_program(&program);
    cpu.step().unwrap();
    assert_eq!(cpu.pc, 0x8010);
    assert_eq!(cpu.stack_ptr, 0xFB);
    cpu.step().unwrap();
    assert_eq!(cpu.pc, 0x8003);
    assert_eq!(cpu.stack_ptr, 0xFD);
}

#[test]
fn rti_restores_status_and_program_counter() {
    let mut cpu = cpu_with_program(&[0x40]);
    cpu.push_stack_u16(0x8044);
    cpu.push_stack(0x81);
    cpu.step().unwrap();
    assert_eq!(cpu.status.bits(), 0x81);
    // RTI resumes at the popped address exactly, with no advance on top.
    assert_eq!(cpu.pc, 0x8044);
}

#[test]
fn jmp_absolute_sets_pc_exactly() {
    let mut cpu = cpu_with_program(&[0x4C, 0x34, 0x92]);
    cpu.step().unwrap();
    assert_eq!(cpu.pc, 0x9234);
}

#[test]
fn jmp_indirect_page_wrap_bug() {
    // Pointer 0x02FF ends in 0xFF: the high byte comes from 0x0200 (start
    // of the same page), not from 0x0300.
    let mut cpu = cpu_with_program(&[0x6C, 0xFF, 0x02]);
    cpu.memory.write(0x02FF, 0x34).unwrap();
    cpu.memory.write(0x0200, 0x12).unwrap();
    cpu.memory.write(0x0300, 0x55).unwrap();
    cpu.step().unwrap();
    assert_eq!(cpu.pc, 0x1234);
}

#[test]
fn jmp_indirect_without_wrap() {
    let mut cpu = cpu_with_program(&[0x6C, 0x10, 0x02]);
    cpu.memory.write(0x0210, 0x78).unwrap();
    cpu.memory.write(0x0211, 0x56).unwrap();
    cpu.step().unwrap();
    assert_eq!(cpu.pc, 0x5678);
}

#[test]
fn brk_sets_break_and_stops_run() {
    let mut cpu = cpu_with_program(&[0xE8, 0xE8, 0x00]);
    cpu.run().unwrap();
    assert!(cpu.status.contains(Flags::BREAK));
    assert_eq!(cpu.reg_x, 2);
    // BRK leaves the program counter at the BRK instruction itself.
    assert_eq!(cpu.pc, 0x8002);
}

struct CountingHook {
    steps: u32,
}

impl StepCallback for CountingHook {
    fn on_step(&mut self, _cpu: &mut Cpu) {
        self.steps += 1;
    }
}

#[test]
fn callback_runs_before_every_step() {
    let mut cpu = cpu_with_program(&[0xE8, 0xE8, 0xE8, 0x00]);
    let mut hook = CountingHook { steps: 0 };
    cpu.run_with_callback(&mut hook).unwrap();
    assert_eq!(hook.steps, 4);
    assert_eq!(cpu.reg_x, 3);
}

#[test]
fn noop_callback_behaves_like_plain_run() {
    let mut cpu = cpu_with_program(&[0xE8, 0x00]);
    let mut noop = NoopCallback;
    cpu.run_with_callback(&mut noop).unwrap();
    assert_eq!(cpu.reg_x, 1);
}

#[test]
fn run_surfaces_fatal_steps() {
    let mut cpu = cpu_with_program(&[0x02]);
    assert_eq!(cpu.run(), Err(EmuError::InvalidOpcode(0x02)));
}

#[test]
fn cpu_load_to_stages_ram_but_cannot_write_the_vector() {
    let mut cpu = cpu_with_program(&[]);
    let r = cpu.load_to(0x0600, &[0xA9, 0x05]);
    assert_eq!(r, Err(EmuError::RomWrite(0xFFFC)));
    assert_eq!(cpu.memory.read(0x0600), Ok(0xA9));
    assert_eq!(cpu.memory.read(0x0601), Ok(0x05));
}

#[test]
fn palette_colors() {
    assert_eq!(color(0), 0x000000);
    assert_eq!(color(1), 0xFFFFFF);
    assert_eq!(color(2), color(9));
    assert_eq!(color(7), 0xFFCC00);
    assert_eq!(color(255), 0x00FFCC);
}

#[test]
fn screen_state_reports_changes_once() {
    let mut cpu = cpu_with_program(&[]);
    let mut frame = vec![0u32; 1024];
    // A fresh frame buffer differs from the all-zero screen: every cell
    // maps to color(0) == 0, so nothing changes on the first poll ...
    assert!(!read_screen_state(&cpu, &mut frame));
    // ... until the program paints a pixel.
    cpu.memory.write(0x0200, 1).unwrap();
    assert!(read_screen_state(&cpu, &mut frame));
    assert_eq!(frame[0], 0xFFFFFF);
    // A second poll with no paints reports no change.
    assert!(!read_screen_state(&cpu, &mut frame));
}
