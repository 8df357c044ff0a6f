use ferrisnes::{Fault, RunExit, StepOutcome, CPU};

const CARRY: u8 = 0x01;
const ZERO: u8 = 0x02;
const INTERRUPT: u8 = 0x04;
const OVERFLOW: u8 = 0x40;
const NEGATIVE: u8 = 0x80;

/// A CPU whose ROM starts with `program` and whose reset and interrupt
/// vectors are given.
fn cpu_with_rom(program: &[u8], reset: u16, irq: u16) -> CPU {
    let mut cpu = CPU::new();
    for (i, b) in program.iter().enumerate() {
        cpu.rom[i] = *b;
    }
    cpu.rom[0x7FFC] = (reset & 0xFF) as u8;
    cpu.rom[0x7FFD] = (reset >> 8) as u8;
    cpu.rom[0x7FFE] = (irq & 0xFF) as u8;
    cpu.rom[0x7FFF] = (irq >> 8) as u8;
    cpu
}

#[test]
fn new_cpu_is_all_zero() {
    let cpu = CPU::new();
    assert_eq!(cpu.program_counter, 0);
    assert_eq!(cpu.register_a, 0);
    assert_eq!(cpu.register_x, 0);
    assert_eq!(cpu.register_y, 0);
    assert_eq!(cpu.status, 0);
    assert_eq!(cpu.stack_pointer, 0);
    assert_eq!(cpu.cycles, 0);
    assert_eq!(cpu.read_debug(0x07FF), 0);
    assert_eq!(cpu.read_debug(0xFFFF), 0);
}

#[test]
fn reset_loads_vector_and_stack_pointer() {
    let mut cpu = cpu_with_rom(&[], 0x8123, 0);
    cpu.reset();
    assert_eq!(cpu.program_counter, 0x8123);
    assert_eq!(cpu.stack_pointer, 0xFD);
    assert_ne!(cpu.status & INTERRUPT, 0);
}

#[test]
fn load_rom_image_skips_header() {
    let mut image = vec![0u8; 0x8010];
    image[0x10] = 0xA9;
    image[0x11] = 0x5A;
    image[0x800F] = 0x80;
    image[0x0F] = 0x77;
    let mut cpu = CPU::new();
    cpu.load_rom_image(&image);
    assert_eq!(cpu.read_debug(0x8000), 0xA9);
    assert_eq!(cpu.read_debug(0x8001), 0x5A);
    assert_eq!(cpu.read_debug(0xFFFF), 0x80);
}

#[test]
fn ram_is_mirrored_every_2k() {
    let mut cpu = CPU::new();
    // STA $0810, then LDA $1010 reads the same byte
    let exit = cpu.interpret(vec![0xA9, 0x42, 0x8D, 0x10, 0x08, 0xA9, 0x00, 0xAD, 0x10, 0x10, 0x00]);
    assert_eq!(exit, RunExit::Halted);
    assert_eq!(cpu.register_a, 0x42);
    assert_eq!(cpu.read_debug(0x0010), 0x42);
    assert_eq!(cpu.read_debug(0x1810), 0x42);
}

#[test]
fn writes_to_rom_are_dropped() {
    let mut cpu = cpu_with_rom(&[0xA9, 0x11, 0x8D, 0x00, 0x80, 0x02], 0x8000, 0);
    cpu.reset();
    assert_eq!(cpu.run(), RunExit::Halted);
    assert_eq!(cpu.read_debug(0x8000), 0xA9);
}

#[test]
fn pla_gives_back_what_pha_pushed() {
    let mut cpu = CPU::new();
    cpu.stack_pointer = 0xFD;
    cpu.interpret(vec![0xA9, 0x37, 0x48, 0xA9, 0x00, 0x68, 0x00]);
    assert_eq!(cpu.register_a, 0x37);
    assert_eq!(cpu.stack_pointer, 0xFD);
    assert_eq!(cpu.read_debug(0x01FD), 0x37);
    assert_eq!(cpu.status & ZERO, 0);
}

#[test]
fn plp_restores_what_php_pushed() {
    let mut cpu = CPU::new();
    cpu.stack_pointer = 0xFD;
    // SEC, PHP, CLC, PLP
    cpu.interpret(vec![0x38, 0x08, 0x18, 0x28, 0x00]);
    assert_eq!(cpu.status, CARRY);
    assert_eq!(cpu.read_debug(0x01FD), CARRY | 0x30);
    assert_eq!(cpu.stack_pointer, 0xFD);
}

#[test]
fn rti_returns_from_brk() {
    // 0x8000: BRK; 0x8002: HLT; 0x8010: RTI
    let mut program = vec![0u8; 0x11];
    program[0] = 0x00;
    program[2] = 0x02;
    program[0x10] = 0x40;
    let mut cpu = cpu_with_rom(&program, 0x8000, 0x8010);
    cpu.reset();
    cpu.status = 0xC5;
    assert_eq!(cpu.step(), StepOutcome::Continue);
    assert_eq!(cpu.program_counter, 0x8010);
    assert_eq!(cpu.stack_pointer, 0xFA);
    assert_eq!(cpu.read_debug(0x01FD), 0x80);
    assert_eq!(cpu.read_debug(0x01FC), 0x02);
    assert_eq!(cpu.read_debug(0x01FB), 0xF5);
    assert_eq!(cpu.cycles, 7);
    assert_eq!(cpu.run(), RunExit::Halted);
    assert_eq!(cpu.program_counter, 0x8003);
    assert_eq!(cpu.status, 0xC5);
    assert_eq!(cpu.stack_pointer, 0xFD);
}

#[test]
fn rts_returns_to_the_instruction_after_jsr() {
    // 0x8000: JSR $8010; 0x8003: LDA #$02; 0x8005: HLT; 0x8010: RTS
    let mut program = vec![0u8; 0x11];
    program[0] = 0x20;
    program[1] = 0x10;
    program[2] = 0x80;
    program[3] = 0xA9;
    program[4] = 0x02;
    program[5] = 0x02;
    program[0x10] = 0x60;
    let mut cpu = cpu_with_rom(&program, 0x8000, 0);
    cpu.reset();
    assert_eq!(cpu.step(), StepOutcome::Continue);
    assert_eq!(cpu.program_counter, 0x8010);
    // the address of the last byte of the JSR
    assert_eq!(cpu.read_debug(0x01FD), 0x80);
    assert_eq!(cpu.read_debug(0x01FC), 0x02);
    assert_eq!(cpu.stack_pointer, 0xFB);
    assert_eq!(cpu.step(), StepOutcome::Continue);
    assert_eq!(cpu.program_counter, 0x8003);
    assert_eq!(cpu.stack_pointer, 0xFD);
    assert_eq!(cpu.run(), RunExit::Halted);
    assert_eq!(cpu.program_counter, 0x8006);
    assert_eq!(cpu.register_a, 0x02);
}

#[test]
fn adc_sets_carry_and_overflow() {
    let mut cpu = CPU::new();
    // SEC, LDA #$7F, ADC #$00: 0x7F + 0 + 1 = 0x80, signed overflow
    cpu.interpret(vec![0x38, 0xA9, 0x7F, 0x69, 0x00, 0x00]);
    assert_eq!(cpu.register_a, 0x80);
    assert_ne!(cpu.status & OVERFLOW, 0);
    assert_ne!(cpu.status & NEGATIVE, 0);
    assert_eq!(cpu.status & CARRY, 0);

    let mut cpu = CPU::new();
    // LDA #$80, ADC #$80: 0x100, carry out, signed overflow, zero
    cpu.interpret(vec![0xA9, 0x80, 0x69, 0x80, 0x00]);
    assert_eq!(cpu.register_a, 0x00);
    assert_ne!(cpu.status & CARRY, 0);
    assert_ne!(cpu.status & OVERFLOW, 0);
    assert_ne!(cpu.status & ZERO, 0);
}

#[test]
fn sbc_borrows() {
    let mut cpu = CPU::new();
    // SEC, LDA #$10, SBC #$20 = 0xF0 with a borrow
    cpu.interpret(vec![0x38, 0xA9, 0x10, 0xE9, 0x20, 0x00]);
    assert_eq!(cpu.register_a, 0xF0);
    assert_eq!(cpu.status & CARRY, 0);
    assert_ne!(cpu.status & NEGATIVE, 0);
    assert_eq!(cpu.status & OVERFLOW, 0);

    let mut cpu = CPU::new();
    // carry clear: LDA #$50, SBC #$B0 = 0x50 - 0xB0 - 1 = 0x9F, signed overflow
    cpu.interpret(vec![0xA9, 0x50, 0xE9, 0xB0, 0x00]);
    assert_eq!(cpu.register_a, 0x9F);
    assert_ne!(cpu.status & OVERFLOW, 0);
    assert_eq!(cpu.status & CARRY, 0);
}

#[test]
fn sbc_matches_adc_of_complement() {
    for a in [0x00u8, 0x01, 0x7F, 0x80, 0xC3, 0xFF] {
        for m in [0x00u8, 0x01, 0x7F, 0x80, 0x3C, 0xFF] {
            for carry in [0u8, 1] {
                let mut x = CPU::new();
                x.status = carry;
                x.interpret(vec![0xA9, a, 0xE9, m, 0x00]);
                let mut y = CPU::new();
                y.status = carry;
                y.interpret(vec![0xA9, a, 0x69, !m, 0x00]);
                assert_eq!(x.register_a, y.register_a);
                assert_eq!(x.status, y.status);
            }
        }
    }
}

#[test]
fn compare_registers() {
    let mut cpu = CPU::new();
    // LDX #$05, CPX #$03
    cpu.interpret(vec![0xA2, 0x05, 0xE0, 0x03, 0x00]);
    assert_ne!(cpu.status & CARRY, 0);
    assert_eq!(cpu.status & ZERO, 0);
    assert_eq!(cpu.status & NEGATIVE, 0);
    assert_eq!(cpu.register_x, 0x05);

    let mut cpu = CPU::new();
    // LDY #$03, CPY #$05
    cpu.interpret(vec![0xA0, 0x03, 0xC0, 0x05, 0x00]);
    assert_eq!(cpu.status & CARRY, 0);
    assert_ne!(cpu.status & NEGATIVE, 0);
}

#[test]
fn ror_undoes_rol() {
    let mut cpu = CPU::new();
    // SEC, LDA #$81, ROL A, ROR A
    cpu.interpret(vec![0x38, 0xA9, 0x81, 0x2A, 0x6A, 0x00]);
    assert_eq!(cpu.register_a, 0x81);
    assert_ne!(cpu.status & CARRY, 0);

    let mut cpu = CPU::new();
    // LDA #$81, ROL A: 0x02, carry out
    cpu.interpret(vec![0xA9, 0x81, 0x2A, 0x00]);
    assert_eq!(cpu.register_a, 0x02);
    assert_ne!(cpu.status & CARRY, 0);
}

#[test]
fn shifts_on_memory() {
    let mut cpu = CPU::new();
    // LDA #$81, STA $40, ASL $40, LSR $0040 twice, INC $40, DEC $0040 x2
    cpu.interpret(vec![
        0xA9, 0x81, 0x85, 0x40, 0x06, 0x40, 0x4E, 0x40, 0x00, 0x4E, 0x40, 0x00, 0xE6, 0x40, 0xCE,
        0x40, 0x00, 0xCE, 0x40, 0x00, 0x00,
    ]);
    // 0x81 -> asl 0x02 -> lsr 0x01 -> lsr 0x00 (carry) -> inc 0x01 -> dec 0x00 -> dec 0xFF
    assert_eq!(cpu.read_debug(0x0040), 0xFF);
    assert_ne!(cpu.status & NEGATIVE, 0);
    assert_eq!(cpu.address_bus, 0x0040);
    assert_eq!(cpu.cycles, 6);
}

#[test]
fn rotate_memory_through_carry() {
    let mut cpu = CPU::new();
    // SEC, LDA #$80, STA $20, ROL $20 -> 0x01 with carry; ROL $20 -> 0x03, carry clear
    cpu.interpret(vec![0x38, 0xA9, 0x80, 0x85, 0x20, 0x26, 0x20, 0x26, 0x20]);
    assert_eq!(cpu.read_debug(0x0020), 0x03);
    assert_eq!(cpu.status & CARRY, 0);
    let mut cpu = CPU::new();
    // SEC, LDA #$01, STA $20, ROR $0020 -> 0x80 with carry
    cpu.interpret(vec![0x38, 0xA9, 0x01, 0x85, 0x20, 0x6E, 0x20, 0x00, 0x00]);
    assert_eq!(cpu.read_debug(0x0020), 0x80);
    assert_ne!(cpu.status & CARRY, 0);
    assert_ne!(cpu.status & NEGATIVE, 0);
}

#[test]
fn dey_undoes_iny_and_transfers() {
    let mut cpu = CPU::new();
    cpu.register_y = 0x7F;
    // INY, DEY, TYA, TAY, TXS, TSX
    cpu.interpret(vec![0xC8, 0xC8, 0x88, 0x98, 0xA2, 0x44, 0x9A, 0xA2, 0x00, 0xBA, 0x00]);
    assert_eq!(cpu.register_y, 0x80);
    assert_eq!(cpu.register_a, 0x80);
    assert_eq!(cpu.stack_pointer, 0x44);
    assert_eq!(cpu.register_x, 0x44);
}

#[test]
fn backward_branch_loops() {
    let mut cpu = CPU::new();
    // LDX #$03, loop: INY, DEX, BNE loop
    cpu.interpret(vec![0xA2, 0x03, 0xC8, 0xCA, 0xD0, 0xFC, 0x00]);
    assert_eq!(cpu.register_x, 0);
    assert_eq!(cpu.register_y, 3);
    assert_eq!(cpu.cycles, 2);
}

#[test]
fn logic_and_bit_test() {
    let mut cpu = CPU::new();
    // LDA #$F0, AND #$3C, ORA #$01, EOR #$FF
    cpu.interpret(vec![0xA9, 0xF0, 0x29, 0x3C, 0x09, 0x01, 0x49, 0xFF, 0x00]);
    assert_eq!(cpu.register_a, 0xCE);
    let mut cpu = CPU::new();
    // LDA #$C0, STA $10, LDA #$01, BIT $10
    cpu.interpret(vec![0xA9, 0xC0, 0x85, 0x10, 0xA9, 0x01, 0x24, 0x10, 0x00]);
    assert_ne!(cpu.status & ZERO, 0);
    assert_ne!(cpu.status & NEGATIVE, 0);
    assert_ne!(cpu.status & OVERFLOW, 0);
    assert_eq!(cpu.register_a, 0x01);
}

#[test]
fn flag_instructions() {
    let mut cpu = CPU::new();
    // SEC SEI SED CLC
    cpu.interpret(vec![0x38, 0x78, 0xF8, 0x18, 0x00]);
    assert_eq!(cpu.status, 0x0C);
    let mut cpu = CPU::new();
    cpu.status = 0xFF;
    // CLV CLI CLD NOP
    cpu.interpret(vec![0xB8, 0x58, 0xD8, 0xEA, 0x00]);
    assert_eq!(cpu.status, 0xB3);
    assert_eq!(cpu.cycles, 2);
}

#[test]
fn unmapped_jump_target_faults() {
    let mut cpu = CPU::new();
    let exit = cpu.interpret(vec![0x4C, 0x00, 0x30]);
    assert_eq!(exit, RunExit::Faulted(Fault::UnmappedRead(0x3000)));
    assert_eq!(cpu.program_counter, 0x3000);
}

#[test]
fn unmapped_operand_read_faults_without_effect() {
    let mut cpu = CPU::new();
    cpu.register_a = 0x12;
    let exit = cpu.interpret(vec![0xAD, 0x00, 0x40, 0x00]);
    assert_eq!(exit, RunExit::Faulted(Fault::UnmappedRead(0x4000)));
    assert_eq!(cpu.program_counter, 0x0001);
    assert_eq!(cpu.register_a, 0x12);
}

#[test]
fn unknown_opcode_leaves_state() {
    let mut cpu = cpu_with_rom(&[0xA9, 0x05, 0xFF], 0x8000, 0);
    cpu.reset();
    assert_eq!(cpu.step(), StepOutcome::Continue);
    assert_eq!(cpu.step(), StepOutcome::Faulted(Fault::UnknownOpcode(0xFF)));
    assert_eq!(cpu.program_counter, 0x8002);
    assert_eq!(cpu.register_a, 0x05);
}

#[test]
fn halt_opcode_stops_run() {
    let mut cpu = cpu_with_rom(&[0xEA, 0x02, 0xA9, 0x01], 0x8000, 0);
    cpu.reset();
    assert_eq!(cpu.run(), RunExit::Halted);
    assert_eq!(cpu.program_counter, 0x8002);
    assert_eq!(cpu.register_a, 0);
}

#[test]
fn loads_from_zero_page_and_absolute_set_flags() {
    let mut cpu = CPU::new();
    // LDA #$90, STA $30, LDA #$01, LDA $30: A = 0x90, negative set
    cpu.interpret(vec![0xA9, 0x90, 0x85, 0x30, 0xA9, 0x01, 0xA5, 0x30, 0x00]);
    assert_eq!(cpu.register_a, 0x90);
    assert_ne!(cpu.status & NEGATIVE, 0);
    assert_eq!(cpu.status & ZERO, 0);
    assert_eq!(cpu.cycles, 3);

    let mut cpu = CPU::new();
    // LDA #$80, LDA $0040 (holds 0): A = 0, zero set, negative clear
    cpu.interpret(vec![0xA9, 0x80, 0xAD, 0x40, 0x00, 0x00]);
    assert_eq!(cpu.register_a, 0x00);
    assert_ne!(cpu.status & ZERO, 0);
    assert_eq!(cpu.status & NEGATIVE, 0);
    assert_eq!(cpu.cycles, 4);
}

#[test]
fn stores_of_x_and_y() {
    let mut cpu = CPU::new();
    cpu.register_x = 0x11;
    cpu.register_y = 0x22;
    cpu.interpret(vec![0x86, 0x50, 0x84, 0x51, 0x8E, 0x52, 0x00, 0x8C, 0x53, 0x00, 0x00]);
    assert_eq!(cpu.read_debug(0x0050), 0x11);
    assert_eq!(cpu.read_debug(0x0051), 0x22);
    assert_eq!(cpu.read_debug(0x0052), 0x11);
    assert_eq!(cpu.read_debug(0x0053), 0x22);
    assert_eq!(cpu.cycles, 4);
}

#[test]
fn eor_twice_gives_accumulator_back() {
    let mut cpu = CPU::new();
    // LDA #$00, EOR #$5A, EOR #$5A
    cpu.interpret(vec![0xA9, 0x00, 0x49, 0x5A, 0x49, 0x5A, 0x00]);
    assert_eq!(cpu.register_a, 0x00);
    assert_ne!(cpu.status & ZERO, 0);
}

#[test]
fn asl_is_rol_with_carry_cleared() {
    let mut asl = CPU::new();
    asl.status = CARRY;
    asl.interpret(vec![0xA9, 0xC1, 0x0A, 0x00]);
    let mut rol = CPU::new();
    rol.status = CARRY;
    rol.interpret(vec![0xA9, 0xC1, 0x18, 0x2A, 0x00]);
    assert_eq!(asl.register_a, 0x82);
    assert_eq!(asl.register_a, rol.register_a);
    assert_eq!(asl.status, rol.status);
}

#[test]
fn dec_after_inc_gives_byte_back() {
    let mut cpu = CPU::new();
    // LDA #$FF, STA $60, INC $60 (wraps to 0), DEC $60
    cpu.interpret(vec![0xA9, 0xFF, 0x85, 0x60, 0xE6, 0x60, 0xC6, 0x60, 0x00]);
    assert_eq!(cpu.read_debug(0x0060), 0xFF);
    assert_ne!(cpu.status & NEGATIVE, 0);
    assert_eq!(cpu.status & ZERO, 0);
}

#[test]
fn compare_keeps_overflow_and_registers() {
    let mut cpu = CPU::new();
    cpu.status = OVERFLOW;
    // LDA #$20, CMP #$20
    cpu.interpret(vec![0xA9, 0x20, 0xC9, 0x20, 0x00]);
    assert_eq!(cpu.register_a, 0x20);
    assert_eq!(cpu.status, OVERFLOW | CARRY | ZERO);
}

#[test]
fn arithmetic_and_compares_record_cycles() {
    let mut cpu = CPU::new();
    // LDA $0040 (4 cycles), ADC #$01 (2 cycles)
    cpu.interpret(vec![0xAD, 0x40, 0x00, 0x69, 0x01, 0x00]);
    assert_eq!(cpu.register_a, 0x01);
    assert_eq!(cpu.cycles, 2);

    let mut cpu = CPU::new();
    // LDA #$05, STA $40, SBC $40 (3 cycles)
    cpu.interpret(vec![0xA9, 0x05, 0x85, 0x40, 0xE5, 0x40, 0x00]);
    assert_eq!(cpu.cycles, 3);

    let mut cpu = CPU::new();
    // CPY $0040 (4 cycles)
    cpu.interpret(vec![0xCC, 0x40, 0x00, 0x00]);
    assert_eq!(cpu.cycles, 4);
}
