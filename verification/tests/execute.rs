use chip8::fault::Fault;
use chip8::instruction::Instruction;
use chip8::machine::VM;

#[test]
fn new_machine_starts_at_the_program_area() {
    let mut vm = VM::new();
    assert_eq!(vm.pc, 0x200);
    assert_eq!(vm.ir, 0);
    assert!(vm.stack.is_empty());
    assert_eq!(vm.v, [0u8; 16]);
    assert_eq!(vm.keys_pressed, [false; 16]);
    assert_eq!(vm.delay_timer, 0);
    assert_eq!(vm.sound_timer, 0);
    assert!(vm.memory.iter().all(|b| *b == 0));
    assert!(!vm.display.take_dirty());
}

#[test]
fn every_instruction_moves_the_counter_by_two() {
    let mut vm = VM::new();
    assert_eq!(vm.execute(Instruction::SetVxNn { x: 3, nn: 0x42 }, 0), Ok(()));
    assert_eq!(vm.pc, 0x202);
    assert_eq!(vm.v[3], 0x42);
}

#[test]
fn add_wraps_and_sets_carry_for_all_register_pairs() {
    for x in 0..15 {
        for y in 0..15 {
            if x == y {
                continue;
            }
            let mut vm = VM::new();
            vm.v[x] = 250;
            vm.v[y] = 10;
            assert_eq!(vm.execute(Instruction::SetVxPlusVy { x, y }, 0), Ok(()));
            assert_eq!(vm.v[x], 4, "x {} y {}", x, y);
            assert_eq!(vm.v[0xF], 1, "x {} y {}", x, y);
            assert_eq!(vm.v[y], 10);
        }
    }
}

#[test]
fn add_without_carry_clears_the_flag() {
    let mut vm = VM::new();
    vm.v[1] = 20;
    vm.v[2] = 30;
    vm.v[0xF] = 1;
    assert_eq!(vm.execute(Instruction::SetVxPlusVy { x: 1, y: 2 }, 0), Ok(()));
    assert_eq!(vm.v[1], 50);
    assert_eq!(vm.v[0xF], 0);
}

#[test]
fn add_at_the_edge_of_a_byte() {
    let mut vm = VM::new();
    vm.v[1] = 255;
    vm.v[2] = 0;
    assert_eq!(vm.execute(Instruction::SetVxPlusVy { x: 1, y: 2 }, 0), Ok(()));
    assert_eq!((vm.v[1], vm.v[0xF]), (255, 0));
    vm.v[2] = 1;
    assert_eq!(vm.execute(Instruction::SetVxPlusVy { x: 1, y: 2 }, 0), Ok(()));
    assert_eq!((vm.v[1], vm.v[0xF]), (0, 1));
}

#[test]
fn add_that_reads_the_flag_register_sees_the_new_flag() {
    let mut vm = VM::new();
    vm.v[1] = 250;
    vm.v[0xF] = 10;
    assert_eq!(vm.execute(Instruction::SetVxPlusVy { x: 1, y: 0xF }, 0), Ok(()));
    assert_eq!(vm.v[0xF], 1);
    assert_eq!(vm.v[1], 251);
}

#[test]
fn sub_wraps_and_clears_flag_when_not_greater() {
    let mut vm = VM::new();
    vm.v[1] = 5;
    vm.v[2] = 10;
    vm.v[0xF] = 1;
    assert_eq!(vm.execute(Instruction::SetVxMinusVy { x: 1, y: 2 }, 0), Ok(()));
    assert_eq!(vm.v[1], 251);
    assert_eq!(vm.v[0xF], 0);
}

#[test]
fn sub_sets_flag_only_when_strictly_greater() {
    let mut vm = VM::new();
    vm.v[1] = 10;
    vm.v[2] = 5;
    assert_eq!(vm.execute(Instruction::SetVxMinusVy { x: 1, y: 2 }, 0), Ok(()));
    assert_eq!((vm.v[1], vm.v[0xF]), (5, 1));

    let mut vm = VM::new();
    vm.v[1] = 7;
    vm.v[2] = 7;
    vm.v[0xF] = 1;
    assert_eq!(vm.execute(Instruction::SetVxMinusVy { x: 1, y: 2 }, 0), Ok(()));
    assert_eq!((vm.v[1], vm.v[0xF]), (0, 0));
}

#[test]
fn reversed_sub_takes_vx_from_vy() {
    let mut vm = VM::new();
    vm.v[1] = 5;
    vm.v[2] = 10;
    assert_eq!(vm.execute(Instruction::SetVyMinusVx { x: 1, y: 2 }, 0), Ok(()));
    assert_eq!((vm.v[1], vm.v[2], vm.v[0xF]), (5, 10, 1));

    let mut vm = VM::new();
    vm.v[1] = 10;
    vm.v[2] = 5;
    assert_eq!(vm.execute(Instruction::SetVyMinusVx { x: 1, y: 2 }, 0), Ok(()));
    assert_eq!((vm.v[1], vm.v[0xF]), (251, 0));
}

#[test]
fn add_immediate_wraps_and_leaves_the_flag() {
    let mut vm = VM::new();
    vm.v[4] = 0xFF;
    vm.v[0xF] = 7;
    assert_eq!(vm.execute(Instruction::AddNnVx { x: 4, nn: 2 }, 0), Ok(()));
    assert_eq!(vm.v[4], 1);
    assert_eq!(vm.v[0xF], 7);
}

#[test]
fn shift_right_puts_the_low_bit_in_the_flag() {
    let mut vm = VM::new();
    vm.v[0xA] = 0b1000_0101;
    assert_eq!(vm.execute(Instruction::ShiftVxRight { x: 0xA }, 0), Ok(()));
    assert_eq!((vm.v[0xA], vm.v[0xF]), (0b0100_0010, 1));
    assert_eq!(vm.execute(Instruction::ShiftVxRight { x: 0xA }, 0), Ok(()));
    assert_eq!((vm.v[0xA], vm.v[0xF]), (0b0010_0001, 0));
}

#[test]
fn shift_left_puts_the_high_bit_in_the_flag() {
    let mut vm = VM::new();
    vm.v[0xA] = 0b1100_0001;
    assert_eq!(vm.execute(Instruction::ShiftVxLeft { x: 0xA }, 0), Ok(()));
    assert_eq!((vm.v[0xA], vm.v[0xF]), (0b1000_0010, 1));
    vm.v[0xA] = 0b0100_0001;
    assert_eq!(vm.execute(Instruction::ShiftVxLeft { x: 0xA }, 0), Ok(()));
    assert_eq!((vm.v[0xA], vm.v[0xF]), (0b1000_0010, 0));
}

#[test]
fn bitwise_and_copy() {
    let mut vm = VM::new();
    vm.v[1] = 0b1100;
    vm.v[2] = 0b1010;
    assert_eq!(vm.execute(Instruction::SetVxOrVy { x: 1, y: 2 }, 0), Ok(()));
    assert_eq!(vm.v[1], 0b1110);
    vm.v[1] = 0b1100;
    assert_eq!(vm.execute(Instruction::SetVxAndVy { x: 1, y: 2 }, 0), Ok(()));
    assert_eq!(vm.v[1], 0b1000);
    vm.v[1] = 0b1100;
    assert_eq!(vm.execute(Instruction::SetVxXorVy { x: 1, y: 2 }, 0), Ok(()));
    assert_eq!(vm.v[1], 0b0110);
    assert_eq!(vm.execute(Instruction::SetVxVy { x: 1, y: 2 }, 0), Ok(()));
    assert_eq!(vm.v[1], 0b1010);
    assert_eq!(vm.pc, 0x208);
}

#[test]
fn index_add_wraps_and_flags_overflow() {
    let mut vm = VM::new();
    vm.ir = 0xFFFE;
    vm.v[3] = 5;
    assert_eq!(vm.execute(Instruction::AddVxI { x: 3 }, 0), Ok(()));
    assert_eq!(vm.ir, 3);
    assert_eq!(vm.v[0xF], 1);
}

#[test]
fn index_add_without_overflow_keeps_the_flag() {
    let mut vm = VM::new();
    vm.ir = 0x300;
    vm.v[3] = 5;
    vm.v[0xF] = 9;
    assert_eq!(vm.execute(Instruction::AddVxI { x: 3 }, 0), Ok(()));
    assert_eq!(vm.ir, 0x305);
    assert_eq!(vm.v[0xF], 9);
}

#[test]
fn set_index_and_font_address() {
    let mut vm = VM::new();
    assert_eq!(vm.execute(Instruction::SetIndexNnn { nnn: 0xABC }, 0), Ok(()));
    assert_eq!(vm.ir, 0xABC);
    vm.v[8] = 0xA;
    assert_eq!(vm.execute(Instruction::SetIFontVx { x: 8 }, 0), Ok(()));
    assert_eq!(vm.ir, 0x050 + 50);
    vm.v[8] = 0;
    assert_eq!(vm.execute(Instruction::SetIFontVx { x: 8 }, 0), Ok(()));
    assert_eq!(vm.ir, 0x050);
    vm.v[8] = 255;
    assert_eq!(vm.execute(Instruction::SetIFontVx { x: 8 }, 0), Ok(()));
    assert_eq!(vm.ir, 0x050 + 1275);
}

#[test]
fn random_is_masked() {
    let mut vm = VM::new();
    assert_eq!(vm.execute(Instruction::SetVxRandNn { x: 2, nn: 0x0F }, 0xFF), Ok(()));
    assert_eq!(vm.v[2], 0x0F);
    assert_eq!(vm.execute(Instruction::SetVxRandNn { x: 2, nn: 0xF0 }, 0xA5), Ok(()));
    assert_eq!(vm.v[2], 0xA0);
    assert_eq!(vm.execute(Instruction::SetVxRandNn { x: 2, nn: 0x00 }, 0xA5), Ok(()));
    assert_eq!(vm.v[2], 0x00);
    for random in 0..=255u8 {
        for nn in [0x00u8, 0x01, 0x3C, 0x80, 0xFF] {
            assert_eq!(vm.execute(Instruction::SetVxRandNn { x: 2, nn }, random), Ok(()));
            assert_eq!(vm.v[2] & !nn, 0);
            assert_eq!(vm.v[2], random & nn);
            vm.pc = 0x200;
        }
    }
}

#[test]
fn only_the_random_instruction_reads_the_random_byte() {
    let mut a = VM::new();
    let mut b = VM::new();
    a.v[1] = 3;
    b.v[1] = 3;
    assert_eq!(a.execute(Instruction::AddNnVx { x: 1, nn: 4 }, 0x00), Ok(()));
    assert_eq!(b.execute(Instruction::AddNnVx { x: 1, nn: 4 }, 0xFF), Ok(()));
    assert_eq!(a.v, b.v);
    assert_eq!(a.pc, b.pc);
}

#[test]
fn jumps() {
    let mut vm = VM::new();
    assert_eq!(vm.execute(Instruction::Jump { nnn: 0x345 }, 0), Ok(()));
    assert_eq!(vm.pc, 0x345);
    vm.v[0] = 0x10;
    assert_eq!(vm.execute(Instruction::JumpV0Nnn { nnn: 0xFFF }, 0), Ok(()));
    assert_eq!(vm.pc, 0x100F);
}

#[test]
fn skips_add_a_further_two() {
    let mut vm = VM::new();
    vm.v[1] = 7;
    vm.v[2] = 7;
    vm.v[3] = 8;
    assert_eq!(vm.execute(Instruction::SkipVxEqNn { x: 1, nn: 7 }, 0), Ok(()));
    assert_eq!(vm.pc, 0x204);
    assert_eq!(vm.execute(Instruction::SkipVxEqNn { x: 1, nn: 8 }, 0), Ok(()));
    assert_eq!(vm.pc, 0x206);
    assert_eq!(vm.execute(Instruction::SkipVxNeqNn { x: 1, nn: 8 }, 0), Ok(()));
    assert_eq!(vm.pc, 0x20A);
    assert_eq!(vm.execute(Instruction::SkipVxNeqNn { x: 1, nn: 7 }, 0), Ok(()));
    assert_eq!(vm.pc, 0x20C);
    assert_eq!(vm.execute(Instruction::SkipVxEqVy { x: 1, y: 2 }, 0), Ok(()));
    assert_eq!(vm.pc, 0x210);
    assert_eq!(vm.execute(Instruction::SkipVxEqVy { x: 1, y: 3 }, 0), Ok(()));
    assert_eq!(vm.pc, 0x212);
    assert_eq!(vm.execute(Instruction::SkipVxNeqVy { x: 1, y: 3 }, 0), Ok(()));
    assert_eq!(vm.pc, 0x216);
    assert_eq!(vm.execute(Instruction::SkipVxNeqVy { x: 1, y: 2 }, 0), Ok(()));
    assert_eq!(vm.pc, 0x218);
}

#[test]
fn key_skips() {
    let mut vm = VM::new();
    vm.v[1] = 0xF;
    vm.keys_pressed[0xF] = true;
    assert_eq!(vm.execute(Instruction::SkipIfVxPressed { x: 1 }, 0), Ok(()));
    assert_eq!(vm.pc, 0x204);
    assert_eq!(vm.execute(Instruction::SkipIfVxNotPressed { x: 1 }, 0), Ok(()));
    assert_eq!(vm.pc, 0x206);
    vm.keys_pressed[0xF] = false;
    assert_eq!(vm.execute(Instruction::SkipIfVxPressed { x: 1 }, 0), Ok(()));
    assert_eq!(vm.pc, 0x208);
    assert_eq!(vm.execute(Instruction::SkipIfVxNotPressed { x: 1 }, 0), Ok(()));
    assert_eq!(vm.pc, 0x20C);
}

#[test]
fn key_skip_on_a_value_that_is_no_key_faults() {
    let mut vm = VM::new();
    vm.v[1] = 16;
    assert_eq!(vm.execute(Instruction::SkipIfVxPressed { x: 1 }, 0), Err(Fault::Address));
    assert_eq!(vm.pc, 0x200);
    assert_eq!(vm.execute(Instruction::SkipIfVxNotPressed { x: 1 }, 0), Err(Fault::Address));
    assert_eq!(vm.pc, 0x200);
}

#[test]
fn timers_are_read_and_written() {
    let mut vm = VM::new();
    vm.v[4] = 60;
    assert_eq!(vm.execute(Instruction::SetDelayVx { x: 4 }, 0), Ok(()));
    assert_eq!(vm.delay_timer, 60);
    vm.v[5] = 30;
    assert_eq!(vm.execute(Instruction::SetSoundVx { x: 5 }, 0), Ok(()));
    assert_eq!(vm.sound_timer, 30);
    vm.delay_timer = 17;
    assert_eq!(vm.execute(Instruction::SetVxDelay { x: 3 }, 0), Ok(()));
    assert_eq!(vm.v[3], 17);
    assert_eq!(vm.sound_timer, 30);
}

#[test]
fn call_then_return_resumes_after_the_call() {
    let mut vm = VM::new();
    assert_eq!(vm.execute(Instruction::SubroutineCall { nnn: 0x300 }, 0), Ok(()));
    assert_eq!(vm.pc, 0x300);
    assert_eq!(vm.stack.len(), 1);
    assert_eq!(vm.stack.back(), Some(&0x202));
    assert_eq!(vm.execute(Instruction::SubroutineReturn, 0), Ok(()));
    assert_eq!(vm.pc, 0x202);
    assert!(vm.stack.is_empty());
}

#[test]
fn nested_calls_return_in_reverse_order() {
    let mut vm = VM::new();
    assert_eq!(vm.execute(Instruction::SubroutineCall { nnn: 0x300 }, 0), Ok(()));
    assert_eq!(vm.execute(Instruction::SubroutineCall { nnn: 0x400 }, 0), Ok(()));
    assert_eq!(vm.pc, 0x400);
    assert_eq!(vm.execute(Instruction::SubroutineReturn, 0), Ok(()));
    assert_eq!(vm.pc, 0x302);
    assert_eq!(vm.execute(Instruction::SubroutineReturn, 0), Ok(()));
    assert_eq!(vm.pc, 0x202);
}

#[test]
fn return_from_an_empty_stack_is_a_fault() {
    let mut vm = VM::new();
    assert_eq!(vm.execute(Instruction::SubroutineReturn, 0), Err(Fault::StackUnderflow));
    assert_eq!(vm.pc, 0x200);
    assert!(vm.stack.is_empty());
}

#[test]
fn call_on_a_full_stack_is_a_fault() {
    let mut vm = VM::new();
    for depth in 0..100 {
        assert_eq!(vm.execute(Instruction::SubroutineCall { nnn: 0x300 }, 0), Ok(()), "{}", depth);
    }
    assert_eq!(vm.stack.len(), 100);
    assert_eq!(vm.execute(Instruction::SubroutineCall { nnn: 0x300 }, 0), Err(Fault::StackOverflow));
    assert_eq!(vm.stack.len(), 100);
    assert_eq!(vm.pc, 0x300);
    assert_eq!(vm.execute(Instruction::SubroutineReturn, 0), Ok(()));
    assert_eq!(vm.stack.len(), 99);
}

#[test]
fn a_counter_that_cannot_advance_is_a_fault() {
    let mut vm = VM::new();
    vm.pc = 0xFFFE;
    assert_eq!(vm.execute(Instruction::SetVxNn { x: 1, nn: 1 }, 0), Err(Fault::Address));
    assert_eq!(vm.pc, 0xFFFE);
    assert_eq!(vm.v[1], 0);
    vm.pc = 0xFFFD;
    assert_eq!(vm.execute(Instruction::SetVxNn { x: 1, nn: 1 }, 0), Ok(()));
    assert_eq!(vm.pc, 0xFFFF);
}

#[test]
fn a_skip_that_cannot_advance_is_a_fault() {
    let mut vm = VM::new();
    vm.pc = 0xFFFC;
    assert_eq!(vm.execute(Instruction::SkipVxEqNn { x: 1, nn: 0 }, 0), Err(Fault::Address));
    assert_eq!(vm.pc, 0xFFFC);
    assert_eq!(vm.execute(Instruction::SkipVxEqNn { x: 1, nn: 1 }, 0), Ok(()));
    assert_eq!(vm.pc, 0xFFFE);
}

#[test]
fn clear_screen_turns_pixels_off_and_marks_dirty() {
    let mut vm = VM::new();
    vm.display.set(5, 5, true);
    assert!(vm.display.take_dirty());
    assert_eq!(vm.execute(Instruction::ClearScreen, 0), Ok(()));
    assert!(!vm.display.get(5, 5));
    assert!(vm.display.take_dirty());
    assert!(!vm.display.take_dirty());
}

#[test]
fn wait_for_key_repeats_while_nothing_is_pressed() {
    let mut vm = VM::new();
    vm.v[7] = 0x55;
    for _ in 0..10 {
        assert_eq!(vm.execute(Instruction::BlockUntilAnyKey { x: 7 }, 0), Ok(()));
        assert_eq!(vm.pc, 0x200);
        assert_eq!(vm.v[7], 0x55);
    }
}

#[test]
fn wait_for_key_takes_the_lowest_key_and_advances_once() {
    let mut vm = VM::new();
    vm.keys_pressed[9] = true;
    vm.keys_pressed[3] = true;
    vm.keys_pressed[0xC] = true;
    assert_eq!(vm.execute(Instruction::BlockUntilAnyKey { x: 7 }, 0), Ok(()));
    assert_eq!(vm.pc, 0x202);
    assert_eq!(vm.v[7], 3);
}

#[test]
fn wait_for_key_sees_the_first_and_the_last_key() {
    let mut vm = VM::new();
    vm.keys_pressed[0xF] = true;
    assert_eq!(vm.execute(Instruction::BlockUntilAnyKey { x: 1 }, 0), Ok(()));
    assert_eq!((vm.pc, vm.v[1]), (0x202, 0xF));

    let mut vm = VM::new();
    vm.v[1] = 9;
    vm.keys_pressed[0] = true;
    assert_eq!(vm.execute(Instruction::BlockUntilAnyKey { x: 1 }, 0), Ok(()));
    assert_eq!((vm.pc, vm.v[1]), (0x202, 0));
}

#[test]
fn decimal_digits() {
    let mut vm = VM::new();
    vm.ir = 0x300;
    vm.v[9] = 254;
    assert_eq!(vm.execute(Instruction::StoreVxDigitsI { x: 9 }, 0), Ok(()));
    assert_eq!(&vm.memory[0x300..0x304], &[2, 5, 4, 0]);
    vm.v[9] = 7;
    assert_eq!(vm.execute(Instruction::StoreVxDigitsI { x: 9 }, 0), Ok(()));
    assert_eq!(&vm.memory[0x300..0x303], &[0, 0, 7]);
    vm.v[9] = 100;
    assert_eq!(vm.execute(Instruction::StoreVxDigitsI { x: 9 }, 0), Ok(()));
    assert_eq!(&vm.memory[0x300..0x303], &[1, 0, 0]);
    assert_eq!(vm.ir, 0x300);
}

#[test]
fn decimal_digits_must_lie_in_memory() {
    let mut vm = VM::new();
    vm.v[9] = 123;
    vm.ir = 4093;
    assert_eq!(vm.execute(Instruction::StoreVxDigitsI { x: 9 }, 0), Ok(()));
    assert_eq!(&vm.memory[4093..4096], &[1, 2, 3]);
    vm.ir = 4094;
    vm.v[9] = 255;
    assert_eq!(vm.execute(Instruction::StoreVxDigitsI { x: 9 }, 0), Err(Fault::Address));
    assert_eq!(&vm.memory[4093..4096], &[1, 2, 3]);
    assert_eq!(vm.pc, 0x202);
}

#[test]
fn store_registers_includes_vx() {
    let mut vm = VM::new();
    for i in 0..16 {
        vm.v[i] = 0x10 + i as u8;
    }
    vm.ir = 0x400;
    assert_eq!(vm.execute(Instruction::StoreVxI { x: 3 }, 0), Ok(()));
    assert_eq!(&vm.memory[0x3FF..0x405], &[0, 0x10, 0x11, 0x12, 0x13, 0]);
    assert_eq!(vm.ir, 0x400);
    assert_eq!(vm.execute(Instruction::StoreVxI { x: 0 }, 0), Ok(()));
    assert_eq!(&vm.memory[0x400..0x402], &[0x10, 0x11]);
}

#[test]
fn store_all_registers() {
    let mut vm = VM::new();
    for i in 0..16 {
        vm.v[i] = 0xA0 + i as u8;
    }
    vm.ir = 4080;
    assert_eq!(vm.execute(Instruction::StoreVxI { x: 0xF }, 0), Ok(()));
    for i in 0..16 {
        assert_eq!(vm.memory[4080 + i], 0xA0 + i as u8);
    }
    vm.ir = 4081;
    assert_eq!(vm.execute(Instruction::StoreVxI { x: 0xF }, 0), Err(Fault::Address));
    assert_eq!(vm.memory[4095], 0xAF);
    assert_eq!(vm.memory[4081], 0xA1);
    assert_eq!(vm.pc, 0x202);
}

#[test]
fn load_registers_includes_vx() {
    let mut vm = VM::new();
    for i in 0..8 {
        vm.memory[0x500 + i] = 0x20 + i as u8;
    }
    for i in 0..16 {
        vm.v[i] = 0xEE;
    }
    vm.ir = 0x500;
    assert_eq!(vm.execute(Instruction::StoreIVx { x: 2 }, 0), Ok(()));
    assert_eq!(&vm.v[0..5], &[0x20, 0x21, 0x22, 0xEE, 0xEE]);
    assert_eq!(vm.ir, 0x500);
}

#[test]
fn load_registers_must_lie_in_memory() {
    let mut vm = VM::new();
    vm.memory[4095] = 9;
    vm.ir = 4095;
    assert_eq!(vm.execute(Instruction::StoreIVx { x: 0 }, 0), Ok(()));
    assert_eq!(vm.v[0], 9);
    vm.v[0] = 1;
    assert_eq!(vm.execute(Instruction::StoreIVx { x: 1 }, 0), Err(Fault::Address));
    assert_eq!(vm.v[0], 1);
    vm.ir = 0xFFFF;
    assert_eq!(vm.execute(Instruction::StoreIVx { x: 0 }, 0), Err(Fault::Address));
}

#[test]
fn store_then_load_round_trip() {
    let mut vm = VM::new();
    for i in 0..16 {
        vm.v[i] = 3 * i as u8 + 1;
    }
    let saved = vm.v;
    vm.ir = 0x600;
    assert_eq!(vm.execute(Instruction::StoreVxI { x: 0xF }, 0), Ok(()));
    vm.v = [0; 16];
    assert_eq!(vm.execute(Instruction::StoreIVx { x: 0xF }, 0), Ok(()));
    assert_eq!(vm.v, saved);
}

#[test]
fn a_bounded_stack_stays_bounded() {
    let mut vm = VM::new();
    for _ in 0..300 {
        let _ = vm.execute(Instruction::SubroutineCall { nnn: 0x200 }, 0);
        assert!(vm.stack.len() <= 100);
    }
}
