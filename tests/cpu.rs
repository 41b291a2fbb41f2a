use nesemu::bus::Bus;
use nesemu::cartridge::{create, LoadError, TestROM, ROM};
use nesemu::cpu::{Memory, StepOutcome, CPU};
use nesemu::joypad::JoypadButton;
use nesemu::trace::trace;

/// An NROM cartridge with one 16 KiB PRG bank; `prg` is placed at 0x8000
/// and the reset vector points there.
fn cartridge(prg: &[u8], mapper: u8) -> ROM {
    let mut bank = vec![0u8; 16384];
    bank[..prg.len()].copy_from_slice(prg);
    bank[0x3FFC] = 0x00;
    bank[0x3FFD] = 0x80;
    let mut header = vec![0x4E, 0x45, 0x53, 0x1A, 1, 1, mapper << 4, 0];
    header.extend(vec![0u8; 8]);
    let image = create(TestROM { nes_header: header, trainer: None, prg_rom: bank, chr_rom: vec![0; 8192] });
    ROM::new(&image).unwrap()
}

fn cpu_with(prg: &[u8]) -> CPU {
    let mut cpu = CPU::new(Bus::new(cartridge(prg, 0)).unwrap());
    cpu.reset();
    cpu
}

#[test]
fn reset_vector_then_nop() {
    let mut cpu = cpu_with(&[0xEA]);
    assert_eq!(cpu.reg_pc, 0x8000);
    let before = cpu.bus.cycles;
    let r = cpu.step();
    assert_eq!(r, StepOutcome::Executed { opcode: 0xEA, frame_ready: false });
    assert_eq!(cpu.reg_pc, 0x8001);
    assert_eq!(cpu.bus.cycles - before, 2);
    assert_eq!((cpu.reg_a, cpu.reg_x, cpu.reg_y), (0, 0, 0));
    assert_eq!(cpu.reg_sp, 0xFD);
    assert_eq!(cpu.reg_status, 0x24);
    assert_eq!(cpu.bus.ppu.cycles, 6);
}

#[test]
fn lda_immediate_flags() {
    let mut cpu = cpu_with(&[0xA9, 0x00, 0xA9, 0x80, 0xA9, 0x01, 0x00]);
    cpu.step();
    assert_eq!(cpu.reg_a, 0);
    assert_eq!(cpu.reg_status & 0x02, 0x02);
    cpu.step();
    assert_eq!(cpu.reg_a, 0x80);
    assert_eq!(cpu.reg_status & 0x80, 0x80);
    assert_eq!(cpu.reg_status & 0x02, 0);
    cpu.step();
    assert_eq!(cpu.reg_a, 0x01);
    assert_eq!(cpu.reg_status & 0x82, 0);
    assert!(matches!(cpu.step(), StepOutcome::Break { .. }));
}

#[test]
fn run_stops_at_brk() {
    let mut cpu = cpu_with(&[0xA9, 0x05, 0xAA, 0xE8, 0x00]);
    let r = cpu.run(100);
    assert!(matches!(r, StepOutcome::Break { .. }));
    assert_eq!(cpu.reg_x, 6);
}

#[test]
fn indirect_jump_page_bug() {
    // The pointer sits at the end of a RAM page: 0x02FF, with 0x0200 and
    // 0x0300 beside it.
    let mut cpu = cpu_with(&[0x6C, 0xFF, 0x02]);
    cpu.mem_write(0x02FF, 0x80);
    cpu.mem_write(0x0200, 0x50);
    cpu.mem_write(0x0300, 0x40);
    cpu.step();
    assert_eq!(cpu.reg_pc, 0x5080);
}

#[test]
fn indirect_jump_within_page() {
    let mut cpu = cpu_with(&[0x6C, 0x10, 0x02]);
    cpu.mem_write(0x0210, 0x34);
    cpu.mem_write(0x0211, 0x12);
    cpu.step();
    assert_eq!(cpu.reg_pc, 0x1234);
}

#[test]
fn stack_round_trip() {
    let mut cpu = cpu_with(&[0x48, 0x08, 0x28, 0x68, 0x00]);
    cpu.reg_a = 0xAA;
    cpu.reg_status = 0xC3;
    cpu.step();
    cpu.step();
    cpu.reg_a = 0;
    cpu.step();
    // PLP: B cleared, U set.
    assert_eq!(cpu.reg_status, 0xE3);
    cpu.step();
    assert_eq!(cpu.reg_a, 0xAA);
    // PLA sets N and clears Z from the byte it pulls.
    assert_eq!(cpu.reg_status, 0xE1);
    assert_eq!(cpu.reg_sp, 0xFD);
    assert_eq!(cpu.mem_read(0x01FD), 0xAA);
    assert_eq!(cpu.mem_read(0x01FC), 0xF3);
}

#[test]
fn push_then_pop_each_stack_pointer() {
    let mut cpu = cpu_with(&[]);
    for sp in 0..=255u8 {
        cpu.reg_sp = sp;
        cpu.stack_push(sp ^ 0x5A);
        assert_eq!(cpu.mem_read(0x0100 | sp as u16), sp ^ 0x5A);
        assert_eq!(cpu.stack_pop(), sp ^ 0x5A);
        assert_eq!(cpu.reg_sp, sp);
    }
}

#[test]
fn php_plp_keeps_flags() {
    let mut cpu = cpu_with(&[0x08, 0x28]);
    cpu.reg_status = 0b1101_1111;
    cpu.step();
    cpu.step();
    assert_eq!(cpu.reg_status, 0b1110_1111);
}

#[test]
fn adc_then_sbc() {
    // CLC; LDA #$50; ADC #$F0; SEC; SBC #$F0
    let mut cpu = cpu_with(&[0x18, 0xA9, 0x50, 0x69, 0xF0, 0x38, 0xE9, 0xF0, 0x00]);
    cpu.step();
    cpu.step();
    cpu.step();
    assert_eq!(cpu.reg_a, 0x40);
    assert_eq!(cpu.reg_status & 0x01, 1);
    cpu.step();
    cpu.step();
    assert_eq!(cpu.reg_a, 0x50);
    for a in [0u8, 1, 0x7F, 0x80, 0xFF] {
        for b in [0u8, 1, 0x7F, 0x80, 0xFF] {
            for c in [false, true] {
                let carry_in = if c { 0x38 } else { 0x18 };
                let carry_back = if c { 0x18 } else { 0x38 };
                let mut cpu = cpu_with(&[carry_in, 0xA9, a, 0x69, b, carry_back, 0xE9, b]);
                for _ in 0..5 {
                    cpu.step();
                }
                assert_eq!(cpu.reg_a, a);
            }
        }
    }
}

#[test]
fn adc_overflow_flag() {
    let mut cpu = cpu_with(&[0xA9, 0x50, 0x69, 0x50, 0x00]);
    cpu.step();
    cpu.step();
    assert_eq!(cpu.reg_a, 0xA0);
    assert_eq!(cpu.reg_status & 0x40, 0x40);
    assert_eq!(cpu.reg_status & 0x01, 0);
}

#[test]
fn compare_and_branch() {
    // LDX #$03; DEX; CPX #$00; BNE -5; BRK
    let mut cpu = cpu_with(&[0xA2, 0x03, 0xCA, 0xE0, 0x00, 0xD0, 0xFB, 0x00]);
    let r = cpu.run(50);
    assert!(matches!(r, StepOutcome::Break { .. }));
    assert_eq!(cpu.reg_x, 0);
    assert_eq!(cpu.reg_status & 0x03, 0x03);
}

#[test]
fn jsr_and_rts() {
    // JSR $8005; BRK; NOP; NOP; LDA #$07; RTS
    let mut cpu = cpu_with(&[0x20, 0x05, 0x80, 0x00, 0xEA, 0xA9, 0x07, 0x60]);
    cpu.step();
    assert_eq!(cpu.reg_pc, 0x8005);
    assert_eq!(cpu.reg_sp, 0xFB);
    cpu.step();
    cpu.step();
    assert_eq!(cpu.reg_pc, 0x8003);
    assert_eq!(cpu.reg_a, 7);
}

#[test]
fn unofficial_lax_and_dcp() {
    // LAX $10; DCP $10
    let mut cpu = cpu_with(&[0xA7, 0x10, 0xC7, 0x10]);
    cpu.mem_write(0x10, 0x42);
    cpu.step();
    assert_eq!((cpu.reg_a, cpu.reg_x), (0x42, 0x42));
    cpu.step();
    assert_eq!(cpu.mem_read(0x10), 0x41);
    assert_eq!(cpu.reg_status & 0x01, 0x01);
}

#[test]
fn shifts_and_rotates() {
    // LDA #$81; ASL A; ROL A; LSR A; ROR A
    let mut cpu = cpu_with(&[0xA9, 0x81, 0x0A, 0x2A, 0x4A, 0x6A]);
    cpu.step();
    cpu.step();
    assert_eq!(cpu.reg_a, 0x02);
    assert_eq!(cpu.reg_status & 1, 1);
    cpu.step();
    assert_eq!(cpu.reg_a, 0x05);
    assert_eq!(cpu.reg_status & 1, 0);
    cpu.step();
    assert_eq!(cpu.reg_a, 0x02);
    assert_eq!(cpu.reg_status & 1, 1);
    cpu.step();
    assert_eq!(cpu.reg_a, 0x81);
    assert_eq!(cpu.reg_status & 0x80, 0x80);
}

#[test]
fn unknown_opcode_stops() {
    let mut cpu = cpu_with(&[0x02]);
    assert_eq!(cpu.step(), StepOutcome::UnknownOpcode(0x02));
}

#[test]
fn write_to_status_register_is_reported() {
    // STA $2002
    let mut cpu = cpu_with(&[0x8D, 0x02, 0x20]);
    assert_eq!(cpu.step(), StepOutcome::IllegalWrite);
}

#[test]
fn ram_is_mirrored() {
    let mut cpu = cpu_with(&[]);
    cpu.mem_write(0x0123, 0x99);
    for k in 0..4u16 {
        assert_eq!(cpu.mem_read(0x0123 + 0x800 * k), 0x99);
    }
    cpu.mem_write(0x1FFF, 0x12);
    assert_eq!(cpu.mem_read(0x07FF), 0x12);
}

#[test]
fn sixteen_kib_prg_shows_twice() {
    let mut cpu = cpu_with(&[0x5A]);
    assert_eq!(cpu.mem_read(0x8000), 0x5A);
    assert_eq!(cpu.mem_read(0xC000), 0x5A);
    assert_eq!(cpu.mem_read(0x4015), 0);
}

#[test]
fn oam_dma_copies_a_page() {
    let mut cpu = cpu_with(&[]);
    for i in 0..256u16 {
        cpu.mem_write(0x0300 + i, i as u8 ^ 0xFF);
    }
    cpu.mem_write(0x4014, 0x03);
    assert_eq!(cpu.bus.ppu.oam_data[0], 0xFF);
    assert_eq!(cpu.bus.ppu.oam_data[255], 0x00);
}

#[test]
fn ppu_registers_through_the_bus() {
    let mut cpu = cpu_with(&[]);
    cpu.mem_write(0x2006, 0x21);
    cpu.mem_write(0x200E, 0x00);
    cpu.mem_write(0x2007, 0x44);
    cpu.mem_write(0x2006, 0x21);
    cpu.mem_write(0x2006, 0x00);
    cpu.mem_read(0x2007);
    assert_eq!(cpu.mem_read(0x3FFF), 0x44);
    assert_eq!(cpu.mem_read(0x2000), 0);
}

#[test]
fn joypad_serial_reads() {
    let mut cpu = cpu_with(&[]);
    cpu.bus.joypad.set_pressed(JoypadButton::A, true);
    cpu.bus.joypad.set_pressed(JoypadButton::Start, true);
    cpu.mem_write(0x4016, 1);
    assert_eq!(cpu.mem_read(0x4016), 1);
    assert_eq!(cpu.mem_read(0x4016), 1);
    cpu.mem_write(0x4016, 0);
    let bits: Vec<u8> = (0..8).map(|_| cpu.mem_read(0x4016)).collect();
    assert_eq!(bits, vec![1, 0, 0, 1, 0, 0, 0, 0]);
    assert_eq!(cpu.mem_read(0x4016), 1);
}

#[test]
fn uxrom_bank_switch_through_the_bus() {
    let mut image = vec![0x4E, 0x45, 0x53, 0x1A, 4, 0, 0x20, 0];
    image.extend(vec![0u8; 8]);
    for bank in 0..4u8 {
        image.extend(vec![bank; 16384]);
    }
    let rom = ROM::new(&image).unwrap();
    let mut cpu = CPU::new(Bus::new(rom).unwrap());
    assert_eq!(cpu.mem_read(0x8000), 0);
    assert_eq!(cpu.mem_read(0xC000), 3);
    cpu.mem_write(0x8000, 2);
    assert_eq!(cpu.mem_read(0x8000), 2);
    assert_eq!(cpu.mem_read(0xFFFF), 3);
}

#[test]
fn unsupported_mapper_is_refused() {
    assert!(matches!(Bus::new(cartridge(&[], 3)), Err(LoadError::UnsupportedMapper(3))));
}

#[test]
fn nmi_is_served_at_vblank() {
    // LDA #$80; STA $2000; loop: JMP loop
    let mut prg = vec![0xA9, 0x80, 0x8D, 0x00, 0x20, 0x4C, 0x05, 0x80];
    prg.resize(0x100, 0);
    prg[0x80] = 0xE8; // INX; RTI at 0x8080
    prg[0x81] = 0x40;
    let mut rom = cartridge(&prg, 0);
    rom.rom_prg[0x3FFA] = 0x80;
    rom.rom_prg[0x3FFB] = 0x80;
    let mut cpu = CPU::new(Bus::new(rom).unwrap());
    cpu.reset();
    let mut frames = 0;
    for _ in 0..20000 {
        if let StepOutcome::Executed { frame_ready: true, .. } = cpu.step() {
            frames += 1;
            break;
        }
    }
    assert_eq!(frames, 1);
    assert!(cpu.bus.ppu.nmi_interrupt.is_some());
    cpu.step();
    assert_eq!(cpu.reg_x, 1);
    assert_eq!(cpu.reg_pc, 0x8081);
    assert_eq!(cpu.reg_sp, 0xFA);
    assert_eq!(cpu.reg_status & 0x04, 0x04);
    cpu.step();
    assert_eq!(cpu.reg_pc, 0x8005);
    assert_eq!(cpu.reg_sp, 0xFD);
}

#[test]
fn trace_line_format() {
    let mut cpu = cpu_with(&[]);
    for (i, b) in [0xA2u8, 0x01, 0xCA, 0x88, 0x00].iter().enumerate() {
        cpu.mem_write(0x0064 + i as u16, *b);
    }
    cpu.reg_pc = 0x0064;
    cpu.reg_a = 1;
    cpu.reg_x = 2;
    cpu.reg_y = 3;
    cpu.reg_status = 0x24;
    cpu.reg_sp = 0xFD;
    let line = trace(&mut cpu);
    assert_eq!(line, "0064  A2 01     LDX #$01                        A:01 X:02 Y:03 P:24 SP:FD");
    cpu.step();
    assert_eq!(cpu.reg_pc, 0x0066);
    assert_eq!(trace(&mut cpu), "0066  CA        DEX                             A:01 X:01 Y:03 P:24 SP:FD");
}

#[test]
fn trace_shows_memory_operands() {
    let mut cpu = cpu_with(&[]);
    for (i, b) in [0xB5u8, 0x10, 0xAD, 0x34, 0x02].iter().enumerate() {
        cpu.mem_write(0x0040 + i as u16, *b);
    }
    cpu.mem_write(0x0012, 0x77);
    cpu.mem_write(0x0234, 0x66);
    cpu.reg_pc = 0x0040;
    cpu.reg_x = 2;
    assert_eq!(
        trace(&mut cpu),
        "0040  B5 10     LDA $10,X @ 12 = 77             A:00 X:02 Y:00 P:24 SP:FD"
    );
    cpu.reg_pc = 0x0042;
    assert_eq!(
        trace(&mut cpu),
        "0042  AD 34 02  LDA $0234 = 66                  A:00 X:02 Y:00 P:24 SP:FD"
    );
}

#[test]
fn load_places_a_program_and_runs_it() {
    let mut cpu = CPU::new(Bus::new(cartridge(&[], 0)).unwrap());
    let r = cpu.mem_run_prg(vec![0xA9, 0x42, 0xAA, 0xE8, 0x00], 100);
    assert!(matches!(r, StepOutcome::Break { .. }));
    assert_eq!(cpu.reg_a, 0x42);
    assert_eq!(cpu.reg_x, 0x43);
    assert_eq!(cpu.mem_read(0xFFFC), 0x00);
    assert_eq!(cpu.mem_read(0xFFFD), 0x86);
    assert_eq!(cpu.mem_read(0x8600), 0xA9);
}
