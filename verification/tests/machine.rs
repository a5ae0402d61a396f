use chip8_core::cpu::Cpu;
use chip8_core::cpu::CpuError;

const START: usize = 0x200;

#[test]
fn new_machine_initial_state() {
    let cpu = Cpu::new();
    assert_eq!(cpu.pc, 0x200);
    assert_eq!(cpu.sp, 0);
    assert_eq!(cpu.i_reg, 0);
    assert_eq!(cpu.dt, 0);
    assert_eq!(cpu.st, 0);
    assert_eq!(cpu.memory.len(), 4096);
    assert_eq!(cpu.reg.len(), 16);
    assert_eq!(cpu.display.len(), 64 * 32);
    assert_eq!(cpu.keys.len(), 16);
    assert_eq!(cpu.stack.len(), 16);
    // glyph table at the bottom of memory
    assert_eq!(cpu.memory[0], 0xF0);
    assert_eq!(cpu.memory[1], 0x90);
    assert_eq!(cpu.memory[79], 0x80);
    // everything after the glyph table is zero
    for i in 80..4096 {
        assert_eq!(cpu.memory[i], 0);
    }
    for i in 0..16 {
        assert_eq!(cpu.reg[i], 0);
        assert_eq!(cpu.stack[i], 0);
        assert!(!cpu.keys[i]);
    }
    assert!(cpu.display.iter().all(|p| !p));
}

#[test]
fn load_copies_image_at_origin() {
    let mut cpu = Cpu::new();
    let image = vec![0x11u8, 0x22, 0x33];
    assert!(cpu.load(&image).is_ok());
    assert_eq!(cpu.memory[START], 0x11);
    assert_eq!(cpu.memory[START + 1], 0x22);
    assert_eq!(cpu.memory[START + 2], 0x33);
    assert_eq!(cpu.memory[START + 3], 0);
    assert_eq!(cpu.memory[START - 1], 0);
    // glyph table untouched
    assert_eq!(cpu.memory[0], 0xF0);
    assert_eq!(cpu.pc, 0x200);
}

#[test]
fn load_rejects_image_past_end_of_memory() {
    let mut cpu = Cpu::new();
    let too_long = vec![0xAAu8; 4096 - START + 1];
    assert_eq!(cpu.load(&too_long), Err(CpuError::OutOfBounds));
    assert_eq!(cpu.memory[START], 0);
    let just_fits = vec![0xBBu8; 4096 - START];
    assert!(cpu.load(&just_fits).is_ok());
    assert_eq!(cpu.memory[START], 0xBB);
    assert_eq!(cpu.memory[4095], 0xBB);
}

#[test]
fn fetch_combines_low_byte_first_and_advances() {
    let mut cpu = Cpu::new();
    // the byte at pc is the low byte of the word, the byte at pc + 1 the high
    cpu.memory[START] = 0x34;
    cpu.memory[START + 1] = 0x12;
    assert_eq!(cpu.fetch(), Ok(0x1234));
    assert_eq!(cpu.pc, 0x202);
}

#[test]
fn fetch_rejects_counter_at_end_of_memory() {
    let mut cpu = Cpu::new();
    cpu.pc = 4095;
    assert_eq!(cpu.fetch(), Err(CpuError::OutOfBounds));
    assert_eq!(cpu.pc, 4095);
    cpu.pc = 4094;
    assert_eq!(cpu.fetch(), Ok(0));
    assert_eq!(cpu.pc, 4096);
}

#[test]
fn run_rejects_counter_out_of_bounds() {
    let mut cpu = Cpu::new();
    cpu.pc = 4095;
    assert_eq!(cpu.run(), Err(CpuError::OutOfBounds));
    assert_eq!(cpu.pc, 4095);
}

#[test]
fn noop_changes_nothing_but_the_counter() {
    let mut cpu = Cpu::new();
    assert!(cpu.run().is_ok());
    assert_eq!(cpu.pc, 0x202);
    assert_eq!(cpu.sp, 0);
    assert!(cpu.reg.iter().all(|&r| r == 0));
}

#[test]
fn load_immediate_is_exact() {
    let mut cpu = Cpu::new();
    assert!(cpu.execute(0x60FF).is_ok());
    assert_eq!(cpu.reg[0], 0xFF);
    assert!(cpu.execute(0x6A07).is_ok());
    assert_eq!(cpu.reg[0xA], 0x07);
    assert!(cpu.execute(0x6F00).is_ok());
    assert_eq!(cpu.reg[0xF], 0x00);
    assert_eq!(cpu.pc, 0x200);
}

#[test]
fn add_immediate_wraps_without_flag_effect() {
    let mut cpu = Cpu::new();
    assert!(cpu.execute(0x6FAA).is_ok()); // mark the flag register
    assert!(cpu.execute(0x60FA).is_ok()); // reg0 := 250
    assert!(cpu.execute(0x7010).is_ok()); // reg0 += 16, wrapping
    assert_eq!(cpu.reg[0], ((250u16 + 16) % 256) as u8);
    assert_eq!(cpu.reg[0xF], 0xAA); // flag untouched
}

#[test]
fn add_with_carry_no_carry() {
    let mut cpu = Cpu::new();
    cpu.reg[0] = 5;
    cpu.reg[1] = 3;
    assert!(cpu.execute(0x8014).is_ok());
    assert_eq!(cpu.reg[0], 8);
    assert_eq!(cpu.reg[1], 3);
    assert_eq!(cpu.reg[0xF], 0);
}

#[test]
fn add_with_carry_sets_flag_on_overflow() {
    let mut cpu = Cpu::new();
    cpu.reg[2] = 200;
    cpu.reg[3] = 100;
    assert!(cpu.execute(0x8234).is_ok());
    assert_eq!(cpu.reg[2], ((200u16 + 100) % 256) as u8);
    assert_eq!(cpu.reg[0xF], 1);
}

#[test]
fn add_with_carry_boundary_values() {
    let mut cpu = Cpu::new();
    cpu.reg[4] = 255;
    cpu.reg[5] = 1;
    assert!(cpu.execute(0x8454).is_ok());
    assert_eq!(cpu.reg[4], 0);
    assert_eq!(cpu.reg[0xF], 1);
    cpu.reg[6] = 255;
    cpu.reg[7] = 0;
    assert!(cpu.execute(0x8674).is_ok());
    assert_eq!(cpu.reg[6], 255);
    assert_eq!(cpu.reg[0xF], 0);
}

#[test]
fn move_or_and_xor() {
    let mut cpu = Cpu::new();
    cpu.reg[1] = 0b1100;
    cpu.reg[2] = 0b1010;
    assert!(cpu.execute(0x8120).is_ok()); // move
    assert_eq!(cpu.reg[1], 0b1010);
    cpu.reg[1] = 0b1100;
    assert!(cpu.execute(0x8121).is_ok()); // or
    assert_eq!(cpu.reg[1], 0b1110);
    cpu.reg[1] = 0b1100;
    assert!(cpu.execute(0x8122).is_ok()); // and
    assert_eq!(cpu.reg[1], 0b1000);
    cpu.reg[1] = 0b1100;
    assert!(cpu.execute(0x8123).is_ok()); // xor
    assert_eq!(cpu.reg[1], 0b0110);
    assert_eq!(cpu.reg[2], 0b1010);
}

#[test]
fn jump_sets_counter_to_low_12_bits() {
    let mut cpu = Cpu::new();
    assert!(cpu.execute(0x1ABC).is_ok());
    assert_eq!(cpu.pc, 0xABC);
}

#[test]
fn skip_equal_immediate_strides() {
    // condition holds: the counter advances by 4 over the whole cycle
    let mut cpu = Cpu::new();
    cpu.reg[0] = 0x05;
    cpu.memory[START] = 0x05; // low byte of 0x3005
    cpu.memory[START + 1] = 0x30;
    assert!(cpu.run().is_ok());
    assert_eq!(cpu.pc, 0x204);
    // condition fails: the counter advances by 2
    let mut cpu = Cpu::new();
    cpu.reg[0] = 0x06;
    cpu.memory[START] = 0x05;
    cpu.memory[START + 1] = 0x30;
    assert!(cpu.run().is_ok());
    assert_eq!(cpu.pc, 0x202);
}

#[test]
fn skip_not_equal_immediate_strides() {
    let mut cpu = Cpu::new();
    cpu.reg[7] = 0x11;
    cpu.memory[START] = 0x22; // low byte of 0x4722
    cpu.memory[START + 1] = 0x47;
    assert!(cpu.run().is_ok());
    assert_eq!(cpu.pc, 0x204);
    let mut cpu = Cpu::new();
    cpu.reg[7] = 0x22;
    cpu.memory[START] = 0x22;
    cpu.memory[START + 1] = 0x47;
    assert!(cpu.run().is_ok());
    assert_eq!(cpu.pc, 0x202);
}

#[test]
fn skip_registers_equal_strides() {
    let mut cpu = Cpu::new();
    cpu.reg[1] = 9;
    cpu.reg[2] = 9;
    cpu.memory[START] = 0x20; // low byte of 0x5120
    cpu.memory[START + 1] = 0x51;
    assert!(cpu.run().is_ok());
    assert_eq!(cpu.pc, 0x204);
    let mut cpu = Cpu::new();
    cpu.reg[1] = 9;
    cpu.reg[2] = 8;
    cpu.memory[START] = 0x20;
    cpu.memory[START + 1] = 0x51;
    assert!(cpu.run().is_ok());
    assert_eq!(cpu.pc, 0x202);
}

#[test]
fn skip_family_with_nonzero_low_nibble_is_unknown() {
    let mut cpu = Cpu::new();
    assert_eq!(cpu.execute(0x5121), Err(CpuError::UnknownOpcode(0x5121)));
}

#[test]
fn clear_display_blanks_every_cell() {
    let mut cpu = Cpu::new();
    cpu.display[0] = true;
    cpu.display[1000] = true;
    cpu.display[64 * 32 - 1] = true;
    assert!(cpu.execute(0x00E0).is_ok());
    assert_eq!(cpu.display.len(), 64 * 32);
    assert!(cpu.display.iter().all(|p| !p));
}

#[test]
fn unknown_opcode_is_a_defined_failure() {
    let mut cpu = Cpu::new();
    assert_eq!(cpu.execute(0xF123), Err(CpuError::UnknownOpcode(0xF123)));
    assert_eq!(cpu.execute(0x00E1), Err(CpuError::UnknownOpcode(0x00E1)));
    assert_eq!(cpu.execute(0x0100), Err(CpuError::UnknownOpcode(0x0100)));
    // a failing cycle leaves the machine unchanged, counter included
    cpu.memory[START] = 0x23; // low byte of 0xF123
    cpu.memory[START + 1] = 0xF1;
    assert_eq!(cpu.run(), Err(CpuError::UnknownOpcode(0xF123)));
    assert_eq!(cpu.pc, 0x200);
}

#[test]
fn push_pop_round_trip() {
    let mut cpu = Cpu::new();
    assert!(cpu.push(0x123).is_ok());
    assert!(cpu.push(0x456).is_ok());
    assert_eq!(cpu.sp, 2);
    assert_eq!(cpu.pop(), Ok(0x456));
    assert_eq!(cpu.pop(), Ok(0x123));
    assert_eq!(cpu.sp, 0);
}

#[test]
fn stack_fails_exactly_at_the_boundary() {
    let mut cpu = Cpu::new();
    // capacity pushes succeed, the one past capacity fails
    for i in 0..16u16 {
        assert_eq!(cpu.push(0x300 + i), Ok(()));
        assert_eq!(cpu.sp, i + 1);
    }
    assert_eq!(cpu.push(0x999), Err(CpuError::StackOverflow));
    assert_eq!(cpu.sp, 16);
    // capacity pops succeed, the one past empty fails
    for i in (0..16u16).rev() {
        assert_eq!(cpu.pop(), Ok(0x300 + i));
        assert_eq!(cpu.sp, i);
    }
    assert_eq!(cpu.pop(), Err(CpuError::StackUnderflow));
    assert_eq!(cpu.sp, 0);
}

#[test]
fn pop_empty_stack_never_fabricates_an_address() {
    let mut cpu = Cpu::new();
    assert_eq!(cpu.pop(), Err(CpuError::StackUnderflow));
    assert_eq!(cpu.sp, 0);
    assert_eq!(cpu.execute(0x00EE), Err(CpuError::StackUnderflow));
    assert_eq!(cpu.pc, 0x200);
}

#[test]
fn call_with_full_stack_overflows_and_changes_nothing() {
    let mut cpu = Cpu::new();
    for _ in 0..16 {
        assert!(cpu.push(0x300).is_ok());
    }
    assert_eq!(cpu.execute(0x2210), Err(CpuError::StackOverflow));
    assert_eq!(cpu.pc, 0x200);
    assert_eq!(cpu.sp, 16);
}

#[test]
fn call_then_return_restores_counter_and_stack() {
    let mut cpu = Cpu::new();
    assert!(cpu.execute(0x2210).is_ok()); // call 0x210
    assert_eq!(cpu.pc, 0x210);
    assert_eq!(cpu.sp, 1);
    assert_eq!(cpu.stack[0], 0x200);
    assert!(cpu.execute(0x00EE).is_ok()); // return
    assert_eq!(cpu.pc, 0x200);
    assert_eq!(cpu.sp, 0);
}

#[test]
fn program_add_with_carry_end_to_end() {
    // load 5 into reg0, load 3 into reg1, add reg1 into reg0 with carry:
    // opcodes 0x6005, 0x6103, 0x8014, each stored low byte first
    let mut cpu = Cpu::new();
    let image = vec![0x05u8, 0x60, 0x03, 0x61, 0x14, 0x80];
    assert!(cpu.load(&image).is_ok());
    for _ in 0..3 {
        assert!(cpu.run().is_ok());
    }
    assert_eq!(cpu.reg[0], 8);
    assert_eq!(cpu.reg[0xF], 0);
    assert_eq!(cpu.pc, 0x200 + 6);
}

#[test]
fn program_call_return_end_to_end() {
    // a call to address 0x210 (opcode 0x2210, stored low byte first) and a
    // return instruction (opcode 0x00EE) at address 0x210
    let mut cpu = Cpu::new();
    let image = vec![0x10u8, 0x22];
    assert!(cpu.load(&image).is_ok());
    cpu.memory[0x210] = 0xEE;
    cpu.memory[0x211] = 0x00;
    assert!(cpu.run().is_ok());
    assert_eq!(cpu.pc, 0x210);
    assert_eq!(cpu.sp, 1);
    assert!(cpu.run().is_ok());
    assert_eq!(cpu.pc, 0x202);
    assert_eq!(cpu.sp, 0);
}

#[test]
fn timers_saturate_at_zero() {
    let mut cpu = Cpu::new();
    cpu.dt = 2;
    cpu.st = 1;
    cpu.tick_delay_timer();
    cpu.tick_sound_timer();
    assert_eq!(cpu.dt, 1);
    assert_eq!(cpu.st, 0);
    cpu.tick_delay_timer();
    cpu.tick_sound_timer();
    assert_eq!(cpu.dt, 0);
    assert_eq!(cpu.st, 0);
    cpu.tick_delay_timer();
    cpu.tick_sound_timer();
    assert_eq!(cpu.dt, 0);
    assert_eq!(cpu.st, 0);
}
