use chip8::instruction::Instruction;
use chip8::model::{ExecError, LoadError};
use chip8::vm::Chip8;

const MEMORY_CAPACITY: usize = 4096 - 0x200;

fn machine() -> Chip8 {
    Chip8::new()
}

#[test]
fn new_machine_initial_state() {
    let vm = machine();
    assert_eq!(vm.pc, 0x200);
    assert_eq!(vm.index, 0);
    assert!(vm.stack.is_empty());
    assert_eq!(vm.dt, 0);
    assert_eq!(vm.st, 0);
    assert!(!vm.paused);
    assert!(vm.v.iter().all(|&r| r == 0));
    assert!(vm.keys.iter().all(|&k| !k));
    assert!(vm.screen.iter().all(|&p| !p));
    assert!(!vm.sound_active());
    // Font glyph for 0 sits at the bottom of memory.
    assert_eq!(vm.memory[0], 0xF0);
    assert_eq!(vm.memory[4], 0xF0);
    // Last byte of the glyph for F, then zeroes.
    assert_eq!(vm.memory[79], 0x80);
    assert_eq!(vm.memory[80], 0);
    assert_eq!(vm.memory[0x200], 0);
}

#[test]
fn load_program_of_exact_capacity_succeeds() {
    let mut vm = machine();
    let program = vec![0xABu8; MEMORY_CAPACITY];
    assert_eq!(vm.load_program(&program), Ok(()));
    assert_eq!(vm.memory[0x200], 0xAB);
    assert_eq!(vm.memory[4095], 0xAB);
}

#[test]
fn load_program_one_byte_larger_fails() {
    let mut vm = machine();
    let program = vec![0xABu8; MEMORY_CAPACITY + 1];
    assert_eq!(vm.load_program(&program), Err(LoadError::ProgramTooLarge));
    // The machine is unchanged.
    assert_eq!(vm.memory[0x200], 0);
    assert_eq!(vm.pc, 0x200);
}

#[test]
fn load_empty_program_succeeds() {
    let mut vm = machine();
    let program: Vec<u8> = Vec::new();
    assert_eq!(vm.load_program(&program), Ok(()));
}

#[test]
fn register_add_sets_carry_flag() {
    let mut vm = machine();
    vm.v[1] = 200;
    vm.v[2] = 100;
    vm.execute_instruction(Instruction::ADDVxVy(1, 2)).unwrap();
    assert_eq!(vm.v[1], 44); // (200 + 100) mod 256
    assert_eq!(vm.v[0xF], 1);

    vm.v[3] = 10;
    vm.v[4] = 20;
    vm.execute_instruction(Instruction::ADDVxVy(3, 4)).unwrap();
    assert_eq!(vm.v[3], 30);
    assert_eq!(vm.v[0xF], 0);
}

#[test]
fn subtract_borrow_convention_is_consistent() {
    let mut vm = machine();
    // SUB: flag is 1 exactly when the minuend (v[x]) is greater.
    vm.v[1] = 50;
    vm.v[2] = 20;
    vm.execute_instruction(Instruction::SUBVxVy(1, 2)).unwrap();
    assert_eq!(vm.v[1], 30);
    assert_eq!(vm.v[0xF], 1);

    vm.v[3] = 20;
    vm.v[4] = 50;
    vm.execute_instruction(Instruction::SUBVxVy(3, 4)).unwrap();
    assert_eq!(vm.v[3], 226); // (20 - 50) mod 256
    assert_eq!(vm.v[0xF], 0);

    // SUBN: same convention, minuend is v[y].
    vm.v[5] = 20;
    vm.v[6] = 50;
    vm.execute_instruction(Instruction::SUBNVxVy(5, 6)).unwrap();
    assert_eq!(vm.v[5], 30);
    assert_eq!(vm.v[0xF], 1);

    vm.v[7] = 50;
    vm.v[8] = 20;
    vm.execute_instruction(Instruction::SUBNVxVy(7, 8)).unwrap();
    assert_eq!(vm.v[7], 226);
    assert_eq!(vm.v[0xF], 0);
}

#[test]
fn shift_right_flags_low_bit() {
    let mut vm = machine();
    vm.v[1] = 5;
    vm.execute_instruction(Instruction::SHRVx(1)).unwrap();
    assert_eq!(vm.v[1], 2);
    assert_eq!(vm.v[0xF], 1);

    vm.v[2] = 4;
    vm.execute_instruction(Instruction::SHRVx(2)).unwrap();
    assert_eq!(vm.v[2], 2);
    assert_eq!(vm.v[0xF], 0);
}

#[test]
fn shift_left_flags_high_bit() {
    let mut vm = machine();
    vm.v[1] = 0x81;
    vm.execute_instruction(Instruction::SHLVx(1)).unwrap();
    assert_eq!(vm.v[1], 0x02);
    assert_eq!(vm.v[0xF], 1);

    vm.v[2] = 0x41;
    vm.execute_instruction(Instruction::SHLVx(2)).unwrap();
    assert_eq!(vm.v[2], 0x82);
    assert_eq!(vm.v[0xF], 0);
}

#[test]
fn clear_display_blanks_and_is_idempotent() {
    let mut vm = machine();
    // Put some pixels on: draw the glyph for 0 at the origin.
    vm.execute_instruction(Instruction::DRWVxVyNibble(0, 0, 5)).unwrap();
    assert!(vm.screen.iter().any(|&p| p));
    // 0x00E0 decodes to clear-display; executing it blanks everything.
    let cls = Instruction::from_opcode(0x00E0);
    assert_eq!(cls, Instruction::CLS);
    vm.execute_instruction(cls).unwrap();
    assert!(vm.screen.iter().all(|&p| !p));
    // Clearing again changes nothing.
    vm.execute_instruction(Instruction::CLS).unwrap();
    assert!(vm.screen.iter().all(|&p| !p));
}

#[test]
fn call_then_return_resumes_after_call() {
    let mut vm = machine();
    assert_eq!(vm.pc, 0x200);
    vm.execute_instruction(Instruction::CALL(0x300)).unwrap();
    assert_eq!(vm.pc, 0x300);
    assert_eq!(vm.stack, vec![0x200]);
    vm.execute_instruction(Instruction::RET).unwrap();
    assert_eq!(vm.pc, 0x202); // the instruction following the call
    assert!(vm.stack.is_empty());
}

#[test]
fn return_on_empty_stack_underflows() {
    let mut vm = machine();
    assert_eq!(vm.execute_instruction(Instruction::RET), Err(ExecError::StackUnderflow));
    assert_eq!(vm.pc, 0x200);
}

#[test]
fn unimplemented_instructions_fail_loudly() {
    let mut vm = machine();
    let sys = Instruction::from_opcode(0x0123);
    assert_eq!(vm.execute_instruction(sys), Err(ExecError::Unimplemented));
    let key_wait = Instruction::from_opcode(0xF50A);
    assert_eq!(vm.execute_instruction(key_wait), Err(ExecError::Unimplemented));
    assert_eq!(vm.pc, 0x200);
}

#[test]
fn unknown_opcode_is_a_no_op_that_advances() {
    let mut vm = machine();
    vm.execute_instruction(Instruction::from_opcode(0x800F)).unwrap();
    assert_eq!(vm.pc, 0x202);
    assert!(vm.v.iter().all(|&r| r == 0));
}

#[test]
fn load_immediate_cycle_advances_pc() {
    let mut vm = machine();
    vm.load_program(&vec![0x6A, 0x3C]).unwrap();
    vm.run_cycle().unwrap();
    assert_eq!(vm.v[0xA], 0x3C);
    assert_eq!(vm.pc, 0x202);
}

#[test]
fn font_glyph_draw_renders_zero() {
    let mut vm = machine();
    // 0xA200 loads the index register; 0xF029 then points it at the glyph
    // for the low nibble of V0, which holds 0x0.
    vm.execute_instruction(Instruction::from_opcode(0xA200)).unwrap();
    assert_eq!(vm.index, 0x200);
    vm.execute_instruction(Instruction::from_opcode(0xF029)).unwrap();
    assert_eq!(vm.index, 0);
    // Draw the five-row glyph at (3, 4), taken from V1 and V2.
    vm.v[1] = 3;
    vm.v[2] = 4;
    vm.execute_instruction(Instruction::from_opcode(0xD125)).unwrap();
    let glyph_zero: [u8; 5] = [0xF0, 0x90, 0x90, 0x90, 0xF0];
    for (row, &bits) in glyph_zero.iter().enumerate() {
        for col in 0..8 {
            let expected = bits & (0x80 >> col) != 0;
            assert_eq!(vm.pixel(3 + col, 4 + row), expected);
        }
    }
}

#[test]
fn sprite_draw_clamps_to_display_edge() {
    let mut vm = machine();
    // The glyph for 0 starts at memory offset 0; draw it at (60, 28) so its
    // last row and nothing else falls off the bottom edge and is clamped
    // onto row 31.
    vm.index = 0;
    vm.v[1] = 60;
    vm.v[2] = 28;
    vm.execute_instruction(Instruction::DRWVxVyNibble(1, 2, 5)).unwrap();
    // Rows 0 to 3 land on rows 28 to 31; row 4 (0xF0) clamps onto row 31,
    // toggling columns 60 to 63 on top of row 3 (0x90: columns 60 and 63).
    assert!(vm.pixel(60, 28) && vm.pixel(61, 28) && vm.pixel(62, 28) && vm.pixel(63, 28));
    assert!(vm.pixel(60, 29) && !vm.pixel(61, 29) && !vm.pixel(62, 29) && vm.pixel(63, 29));
    assert!(!vm.pixel(60, 31) && vm.pixel(61, 31) && vm.pixel(62, 31) && !vm.pixel(63, 31));
}

#[test]
fn sprite_draw_collision_flag_reports_lit_pixels() {
    let mut vm = machine();
    vm.index = 0;
    // Drawing onto a blank screen turns pixels on, which this machine's
    // documented convention reports as a collision.
    vm.execute_instruction(Instruction::DRWVxVyNibble(0, 0, 5)).unwrap();
    assert_eq!(vm.v[0xF], 1);
    // Drawing the same glyph again erases every pixel it set: no toggled
    // pixel is left on, so the flag drops to zero.
    vm.execute_instruction(Instruction::DRWVxVyNibble(0, 0, 5)).unwrap();
    assert_eq!(vm.v[0xF], 0);
    assert!(vm.screen.iter().all(|&p| !p));
}

#[test]
fn sound_timer_transition_after_five_cycles() {
    let mut vm = machine();
    // A program of load-immediate instructions that touch nothing else.
    vm.load_program(&vec![0x60, 0x00, 0x60, 0x00, 0x60, 0x00, 0x60, 0x00, 0x60, 0x00]).unwrap();
    vm.st = 5;
    assert!(vm.sound_active());
    for cycle in 1..=5 {
        vm.run_cycle().unwrap();
        if cycle < 5 {
            assert!(vm.sound_active(), "timer still nonzero after cycle {cycle}");
        } else {
            assert!(!vm.sound_active(), "timer reached zero exactly at cycle {cycle}");
        }
    }
}

#[test]
fn fetch_wraps_at_the_top_of_memory() {
    let mut vm = machine();
    // An opcode whose two bytes straddle the end of memory: the second
    // byte is fetched from address 0, masked back into memory.
    vm.pc = 4095;
    vm.memory[4095] = 0x6A;
    vm.memory[0] = 0x3C;
    vm.run_cycle().unwrap();
    assert_eq!(vm.v[0xA], 0x3C);
    assert_eq!(vm.pc, 1); // (4095 + 2) masked to twelve bits
}

#[test]
fn index_additions_wrap_into_memory() {
    let mut vm = machine();
    vm.index = 0xFFF;
    vm.v[1] = 5;
    vm.execute_instruction(Instruction::ADDIVx(1)).unwrap();
    assert_eq!(vm.index, 4);
    vm.v[0] = 0x10;
    vm.execute_instruction(Instruction::JP0(0xFFF)).unwrap();
    assert_eq!(vm.pc, 0xF);
}

#[test]
fn delay_timer_reads_and_writes() {
    let mut vm = machine();
    vm.v[3] = 7;
    vm.execute_instruction(Instruction::LDDTVx(3)).unwrap();
    assert_eq!(vm.dt, 7);
    vm.execute_instruction(Instruction::LDVxDT(4)).unwrap();
    assert_eq!(vm.v[4], 7);
    vm.v[5] = 9;
    vm.execute_instruction(Instruction::LDSTVx(5)).unwrap();
    assert_eq!(vm.st, 9);
}

#[test]
fn timers_decay_once_per_cycle_and_stop_at_zero() {
    let mut vm = machine();
    vm.load_program(&vec![0x60, 0x00, 0x60, 0x00, 0x60, 0x00]).unwrap();
    vm.dt = 2;
    vm.run_cycle().unwrap();
    assert_eq!(vm.dt, 1);
    vm.run_cycle().unwrap();
    assert_eq!(vm.dt, 0);
    vm.run_cycle().unwrap();
    assert_eq!(vm.dt, 0);
}

#[test]
fn conditional_skips() {
    let mut vm = machine();
    vm.v[1] = 5;
    vm.execute_instruction(Instruction::SEVxByte(1, 5)).unwrap();
    assert_eq!(vm.pc, 0x204);
    vm.execute_instruction(Instruction::SEVxByte(1, 6)).unwrap();
    assert_eq!(vm.pc, 0x206);
    vm.execute_instruction(Instruction::SNEVxByte(1, 6)).unwrap();
    assert_eq!(vm.pc, 0x20A);
    vm.v[2] = 5;
    vm.execute_instruction(Instruction::SEVxVy(1, 2)).unwrap();
    assert_eq!(vm.pc, 0x20E);
    vm.execute_instruction(Instruction::SNEVxVy(1, 2)).unwrap();
    assert_eq!(vm.pc, 0x210);
}

#[test]
fn key_skips_read_the_pad() {
    let mut vm = machine();
    let mut keys = vec![false; 16];
    keys[7] = true;
    vm.update_controls(&keys, false);
    vm.v[1] = 7;
    vm.execute_instruction(Instruction::SKPVx(1)).unwrap();
    assert_eq!(vm.pc, 0x204);
    vm.execute_instruction(Instruction::SKNPVx(1)).unwrap();
    assert_eq!(vm.pc, 0x206);
    vm.v[2] = 8;
    vm.execute_instruction(Instruction::SKPVx(2)).unwrap();
    assert_eq!(vm.pc, 0x208);
}

#[test]
fn pause_toggle_skips_cycles() {
    let mut vm = machine();
    vm.load_program(&vec![0x6A, 0x3C]).unwrap();
    let keys = vec![false; 16];
    vm.update_controls(&keys, true);
    assert!(vm.paused);
    vm.st = 3;
    vm.run_cycle().unwrap();
    // Nothing happened: no fetch, no timer decay.
    assert_eq!(vm.pc, 0x200);
    assert_eq!(vm.v[0xA], 0);
    assert_eq!(vm.st, 3);
    // Unpause; the cycle now runs.
    vm.update_controls(&keys, true);
    assert!(!vm.paused);
    vm.run_cycle().unwrap();
    assert_eq!(vm.v[0xA], 0x3C);
    assert_eq!(vm.st, 2);
}

#[test]
fn random_byte_is_masked() {
    let mut vm = machine();
    for _ in 0..50 {
        vm.execute_instruction(Instruction::from_opcode(0xC50F)).unwrap();
        assert_eq!(vm.v[5] & 0xF0, 0);
    }
}

#[test]
fn index_register_operations() {
    let mut vm = machine();
    vm.execute_instruction(Instruction::LDI(0x300)).unwrap();
    assert_eq!(vm.index, 0x300);
    vm.v[1] = 0x20;
    vm.execute_instruction(Instruction::ADDIVx(1)).unwrap();
    assert_eq!(vm.index, 0x320);
    // The font address of the glyph for the low nibble of V2.
    vm.v[2] = 0xA7;
    vm.execute_instruction(Instruction::LDFVx(2)).unwrap();
    assert_eq!(vm.index, 7 * 5);
}

#[test]
fn indexed_jump_adds_register_zero() {
    let mut vm = machine();
    vm.v[0] = 0x10;
    vm.execute_instruction(Instruction::JP0(0x300)).unwrap();
    assert_eq!(vm.pc, 0x310);
}

#[test]
fn jump_sets_pc_exactly() {
    let mut vm = machine();
    vm.execute_instruction(Instruction::JP(0x456)).unwrap();
    assert_eq!(vm.pc, 0x456);
}

#[test]
fn decimal_decomposition_writes_three_digits() {
    let mut vm = machine();
    vm.v[7] = 234;
    vm.index = 0x300;
    vm.execute_instruction(Instruction::LDBVx(7)).unwrap();
    assert_eq!(vm.memory[0x300], 2);
    assert_eq!(vm.memory[0x301], 3);
    assert_eq!(vm.memory[0x302], 4);
}

#[test]
fn bulk_store_and_load_round_trip() {
    let mut vm = machine();
    vm.v[0] = 11;
    vm.v[1] = 22;
    vm.v[2] = 33;
    vm.v[3] = 44;
    vm.index = 0x400;
    vm.execute_instruction(Instruction::LDIVx(3)).unwrap();
    assert_eq!(&vm.memory[0x400..0x404], &[11, 22, 33, 44]);
    // Register 4 and the index register are untouched.
    assert_eq!(vm.memory[0x404], 0);
    assert_eq!(vm.index, 0x400);
    for r in 0..4 {
        vm.v[r] = 0;
    }
    vm.execute_instruction(Instruction::LDVxMem(3)).unwrap();
    assert_eq!(&vm.v[0..4], &[11, 22, 33, 44]);
}

#[test]
fn byte_arithmetic_wraps() {
    let mut vm = machine();
    vm.v[1] = 250;
    vm.execute_instruction(Instruction::ADDVxByte(1, 10)).unwrap();
    assert_eq!(vm.v[1], 4);
    vm.v[2] = 0b1100;
    vm.v[3] = 0b1010;
    vm.execute_instruction(Instruction::ORVxVy(2, 3)).unwrap();
    assert_eq!(vm.v[2], 0b1110);
    vm.v[4] = 0b1100;
    vm.execute_instruction(Instruction::ANDVxVy(4, 3)).unwrap();
    assert_eq!(vm.v[4], 0b1000);
    vm.v[5] = 0b1100;
    vm.execute_instruction(Instruction::XORVxVy(5, 3)).unwrap();
    assert_eq!(vm.v[5], 0b0110);
}

#[test]
fn frame_bytes_maps_pixels_to_colors() {
    let mut vm = machine();
    let background = [0x11, 0x11, 0x11, 0xff];
    let foreground = [0x5e, 0x48, 0xe8, 0xff];
    let frame = vm.frame_bytes();
    assert_eq!(frame.len(), 64 * 32 * 4);
    assert_eq!(&frame[0..4], &background);
    // Light the pixel at (3, 4) by drawing, then check its colour cell.
    vm.index = 0;
    vm.v[1] = 3;
    vm.v[2] = 4;
    vm.execute_instruction(Instruction::DRWVxVyNibble(1, 2, 1)).unwrap();
    assert!(vm.pixel(3, 4));
    let frame = vm.frame_bytes();
    let cell = (4 * 64 + 3) * 4;
    assert_eq!(&frame[cell..cell + 4], &foreground);
    assert_eq!(&frame[cell + 4..cell + 8], &foreground); // (4, 4) is lit too
    assert_eq!(&frame[cell - 4..cell], &background);
}
