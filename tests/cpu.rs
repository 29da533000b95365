use chip8::cpu::{Status, CPU};
use chip8::decode::Instruction;
use chip8::error::ChipError;

#[test]
fn test_cpu_add_instruction() {
    let mut cpu = CPU::new();

    cpu.set_opcode(0x8324).unwrap();

    cpu.registers[3] = 3;
    cpu.registers[2] = 2;

    cpu.run().unwrap();

    assert_eq!(cpu.registers[3], 5);
    assert_eq!(cpu.registers[2], 2);
}

#[test]
fn test_cpu_add_overflow() {
    let mut cpu = CPU::new();

    cpu.set_opcode(0x8324).unwrap();

    cpu.registers[3] = 255;
    cpu.registers[2] = 1;

    cpu.run().unwrap();

    assert_eq!(cpu.registers[15], 1);
}

#[test]
fn test_cpu_call_instruction() {
    let mut cpu = CPU::new();

    cpu.set_opcode(0x8324).unwrap();

    cpu.registers[3] = 2;
    cpu.registers[2] = 1;

    // CALL 0x200 from 0x202 recurses into itself until the stack is full.
    cpu.set_opcode(0x2200).unwrap();

    assert_eq!(cpu.run(), Err(ChipError::StackOverflow));
    assert_eq!(cpu.stack_pointer(), 15);
}

#[test]
fn test_cpu_ret_instruction() {
    let mut cpu = CPU::new();

    // the subroutine at 0x300
    cpu.write_into(0x8324, 0x300).unwrap();

    cpu.set_opcode(0x8014).unwrap();

    cpu.registers[0] = 1;
    cpu.registers[1] = 2;

    cpu.registers[2] = 2;

    cpu.set_opcode(0x2300).unwrap();
    cpu.set_opcode(0x8424).unwrap();

    // the return that ends the subroutine
    cpu.write_into(0xEE, 0x302).unwrap();

    cpu.run().unwrap();

    assert_eq!(cpu.registers[3], 2);
    assert_eq!(cpu.registers[4], 2);
}

#[test]
fn test_cpu_set_value_to_register_instruction() {
    let mut cpu = CPU::new();

    cpu.set_opcode(0x6012).unwrap();

    cpu.run().unwrap();

    // 0x12 -> 18
    assert_eq!(cpu.registers[0], 18);
}

#[test]
fn test_cpu_jp_instruction() {
    let mut cpu = CPU::new();
    // 0x8014 at 0x200, which the appended words then overwrite
    cpu.write_into(0x8014, 0x200).unwrap();

    // LD V0, 1
    cpu.set_opcode(0x6001).unwrap();
    // JP 0x200
    cpu.set_opcode(0x1200).unwrap();

    // The program jumps back to its own start forever, so it is stepped.
    assert_eq!(cpu.step(), Ok(Status::Running));
    assert_eq!(cpu.step(), Ok(Status::Running));
    assert_eq!(cpu.read_cursor(), 0x200);

    assert_eq!(cpu.registers[0], 1);
}

#[test]
fn test_cpu_skip_instruction_if_equals() {
    let mut cpu = CPU::new();

    // LD V0, 0x01
    cpu.set_opcode(0x6001).unwrap();

    // If V0 == 0x01 -> Skip 1 instruction
    cpu.set_opcode(0x3001).unwrap();

    cpu.run().unwrap();

    // 8 = 2 bytes + 2 bytes + 2 bytes (skipped instruction) + 2 bytes (Halt)
    assert_eq!(cpu.read_cursor(), 0x200 + 8);
}

#[test]
fn test_cpu_skip_instruction_if_not_equals() {
    let mut cpu = CPU::new();

    // If V0 != 0x01 -> Skip 1 instruction
    cpu.set_opcode(0x4001).unwrap();

    cpu.run().unwrap();

    // 6 = 2 bytes + 2 bytes (skipped instruction) + 2 bytes (Halt)
    assert_eq!(cpu.read_cursor(), 0x200 + 6);
}

#[test]
fn test_cpu_skip_instruction_if_registers_equals() {
    let mut cpu = CPU::new();

    // LD V0, 0x01
    cpu.set_opcode(0x6001).unwrap();
    // LD V1, 0x01
    cpu.set_opcode(0x6101).unwrap();

    // If V0 == V1 -> Skip 1 instruction
    cpu.set_opcode(0x5010).unwrap();

    cpu.run().unwrap();

    // 10 = 2 bytes + 2 bytes + 2 bytes + 2 bytes (skipped instruction) + 2 bytes (Halt)
    assert_eq!(cpu.read_cursor(), 0x200 + 10);
}

#[test]
fn test_cpu_move_y_register_value_to_x() {
    let mut cpu = CPU::new();

    // LD V1, 0x01
    cpu.set_opcode(0x6101).unwrap();

    // LD V0, V1
    cpu.set_opcode(0x8010).unwrap();

    cpu.run().unwrap();

    assert_eq!(cpu.registers[0], 1);
}

#[test]
fn test_cpu_bitwise_or_operation() {
    let mut cpu = CPU::new();

    // LD V1, 0x01
    cpu.set_opcode(0x6101).unwrap();

    // OR V0, V1
    cpu.set_opcode(0x8011).unwrap();

    cpu.run().unwrap();

    assert_eq!(cpu.registers[0], 1);
}

#[test]
fn test_cpu_bitwise_and_operation() {
    let mut cpu = CPU::new();

    // LD V1, 0x01
    cpu.set_opcode(0x6101).unwrap();

    // AND V0, V1
    cpu.set_opcode(0x8012).unwrap();

    cpu.run().unwrap();

    assert_eq!(cpu.registers[0], 0);
}

#[test]
fn test_cpu_bitwise_xor_operation() {
    let mut cpu = CPU::new();

    // LD V1, 0x01
    cpu.set_opcode(0x6101).unwrap();

    // XOR V0, V1
    cpu.set_opcode(0x8013).unwrap();

    cpu.run().unwrap();

    assert_eq!(cpu.registers[0], 1);
}

#[test]
fn test_cpu_sub_operation() {
    let mut cpu = CPU::new();

    cpu.set_opcode(0x8015).unwrap();

    cpu.registers[0] = 2;
    cpu.registers[1] = 1;

    cpu.run().unwrap();

    assert_eq!(cpu.registers[0], 1);
}

#[test]
fn test_cpu_sub_overflow_operation() {
    let mut cpu = CPU::new();

    cpu.set_opcode(0x8015).unwrap();

    cpu.registers[1] = 1;

    cpu.run().unwrap();

    assert_eq!(cpu.registers[15], 1);
}

#[test]
fn test_cpu_add_value_to_register() {
    let mut cpu = CPU::new();

    cpu.set_opcode(0x7001).unwrap();

    cpu.run().unwrap();

    assert_eq!(cpu.registers[0], 1);
}

#[test]
fn test_cpu_shr_instruction() {
    let mut cpu = CPU::new();

    cpu.set_opcode(0x8016).unwrap();

    cpu.registers[0] = 4;

    cpu.run().unwrap();

    assert_eq!(cpu.registers[0], 2);
}

#[test]
fn test_cpu_shr_vf_set_instruction() {
    let mut cpu = CPU::new();

    cpu.set_opcode(0x8016).unwrap();

    cpu.registers[0] = 2;

    cpu.run().unwrap();

    assert_eq!(cpu.registers[15], 1);
}

#[test]
fn test_cpu_sub_y_minus_x_instruction() {
    let mut cpu = CPU::new();

    cpu.set_opcode(0x8017).unwrap();

    cpu.registers[0] = 2;
    cpu.registers[1] = 3;

    cpu.run().unwrap();

    assert_eq!(cpu.registers[0], 1);
}

#[test]
fn test_cpu_sub_y_minus_x_vf_set_instruction() {
    let mut cpu = CPU::new();

    cpu.set_opcode(0x8017).unwrap();

    cpu.registers[0] = 3;
    cpu.registers[1] = 2;

    cpu.run().unwrap();

    assert_eq!(cpu.registers[15], 1);
}

#[test]
fn test_cpu_shl_instruction() {
    let mut cpu = CPU::new();

    cpu.set_opcode(0x801E).unwrap();

    cpu.registers[0] = 72;

    cpu.run().unwrap();

    assert_eq!(cpu.registers[0], 144);
}

#[test]
fn test_cpu_shl_vf_instruction() {
    let mut cpu = CPU::new();

    cpu.set_opcode(0x801E).unwrap();

    cpu.registers[0] = 218;

    cpu.run().unwrap();

    // Due to registers size, the result is 180.
    assert_eq!(cpu.registers[0], 180);
    assert_eq!(cpu.registers[15], 1);
}

#[test]
fn test_cpu_skip_instruction_if_registers_not_equals() {
    let mut cpu = CPU::new();

    // LD V0, 0x01
    cpu.set_opcode(0x6001).unwrap();
    // If V0 != V1 -> Skip 1 instruction
    cpu.set_opcode(0x9010).unwrap();

    cpu.run().unwrap();

    // 8 = 2 bytes + 2 bytes + 2 bytes (skipped instruction) + 2 bytes (Halt)
    assert_eq!(cpu.read_cursor(), 0x200 + 8);
}

#[test]
fn new_machine_starts_at_program_origin() {
    let cpu = CPU::new();
    assert_eq!(cpu.registers, [0u8; 16]);
    assert_eq!(cpu.read_cursor(), 0x200);
    assert_eq!(cpu.write_cursor(), 0x200);
    assert_eq!(cpu.stack_pointer(), 0);
}

#[test]
fn add_without_carry_keeps_flag_and_source() {
    let mut cpu = CPU::new();
    cpu.registers[3] = 100;
    cpu.registers[2] = 155;
    cpu.registers[15] = 7;
    assert_eq!(cpu.execute(Instruction::Add { x: 3, y: 2 }), Ok(Status::Running));
    assert_eq!(cpu.registers[3], 255);
    assert_eq!(cpu.registers[2], 155);
    assert_eq!(cpu.registers[15], 7);
}

#[test]
fn add_with_carry_keeps_destination() {
    let mut cpu = CPU::new();
    cpu.registers[3] = 200;
    cpu.registers[2] = 56;
    assert_eq!(cpu.execute(Instruction::Add { x: 3, y: 2 }), Ok(Status::Running));
    assert_eq!(cpu.registers[3], 200);
    assert_eq!(cpu.registers[15], 1);
}

#[test]
fn load_value_sets_every_byte_exactly() {
    for nn in [0u16, 1, 0x12, 0x7F, 0x80, 0xFF] {
        let mut cpu = CPU::new();
        cpu.set_opcode(0x6A00 + nn).unwrap();
        cpu.run().unwrap();
        assert_eq!(cpu.registers[0xA] as u16, nn);
    }
}

#[test]
fn call_then_return_restores_pointer_and_cursor() {
    let mut cpu = CPU::new();
    cpu.write_into(0x00EE, 0x300).unwrap();
    cpu.set_opcode(0x2300).unwrap();
    assert_eq!(cpu.step(), Ok(Status::Running));
    assert_eq!(cpu.stack_pointer(), 1);
    assert_eq!(cpu.read_cursor(), 0x300);
    assert_eq!(cpu.step(), Ok(Status::Running));
    assert_eq!(cpu.stack_pointer(), 0);
    assert_eq!(cpu.read_cursor(), 0x202);
}

#[test]
fn skips_not_taken_advance_by_two() {
    for word in [0x3005u16, 0x4000, 0x5010, 0x9000] {
        let mut cpu = CPU::new();
        cpu.registers[1] = 9;
        cpu.set_opcode(word).unwrap();
        assert_eq!(cpu.step(), Ok(Status::Running));
        assert_eq!(cpu.read_cursor(), 0x202);
    }
}

#[test]
fn skips_taken_advance_by_four() {
    for word in [0x3000u16, 0x4005, 0x5020, 0x9010] {
        let mut cpu = CPU::new();
        cpu.registers[1] = 9;
        cpu.set_opcode(word).unwrap();
        assert_eq!(cpu.step(), Ok(Status::Running));
        assert_eq!(cpu.read_cursor(), 0x204);
    }
}

#[test]
fn shift_right_flag_values() {
    let mut cpu = CPU::new();
    cpu.registers[0] = 4;
    assert_eq!(cpu.execute(Instruction::ShiftRight { x: 0 }), Ok(Status::Running));
    assert_eq!(cpu.registers[0], 2);
    assert_eq!(cpu.registers[15], 0);

    let mut cpu = CPU::new();
    cpu.registers[0] = 2;
    assert_eq!(cpu.execute(Instruction::ShiftRight { x: 0 }), Ok(Status::Running));
    assert_eq!(cpu.registers[0], 1);
    assert_eq!(cpu.registers[15], 1);
}

#[test]
fn shift_left_on_flag_register_writes_flag_first() {
    let mut cpu = CPU::new();
    cpu.registers[15] = 0x81;
    assert_eq!(cpu.execute(Instruction::ShiftLeft { x: 15 }), Ok(Status::Running));
    assert_eq!(cpu.registers[15], 2);
}

#[test]
fn add_value_wraps_without_flag() {
    let mut cpu = CPU::new();
    cpu.registers[0] = 2;
    cpu.set_opcode(0x70FF).unwrap();
    cpu.run().unwrap();
    assert_eq!(cpu.registers[0], 1);
    assert_eq!(cpu.registers[15], 0);
}

#[test]
fn sub_reversed_clears_flag() {
    let mut cpu = CPU::new();
    cpu.registers[0] = 2;
    cpu.registers[1] = 7;
    cpu.registers[15] = 1;
    assert_eq!(cpu.execute(Instruction::SubReversed { x: 0, y: 1 }), Ok(Status::Running));
    assert_eq!(cpu.registers[0], 5);
    assert_eq!(cpu.registers[15], 0);
}

#[test]
fn call_runs_subroutine_and_returns_past_call() {
    let mut cpu = CPU::new();
    cpu.write_into(0x8014, 0x300).unwrap();
    cpu.write_into(0x00EE, 0x302).unwrap();
    cpu.set_opcode(0x2300).unwrap();
    cpu.registers[0] = 1;
    cpu.registers[1] = 2;

    assert_eq!(cpu.step(), Ok(Status::Running));
    assert_eq!(cpu.step(), Ok(Status::Running));
    assert_eq!(cpu.step(), Ok(Status::Running));
    assert_eq!(cpu.registers[0], 3);
    assert_eq!(cpu.read_cursor(), 0x202);

    assert_eq!(cpu.run(), Ok(()));
    assert_eq!(cpu.read_cursor(), 0x204);
}

#[test]
fn unrecognized_word_is_fatal() {
    let mut cpu = CPU::new();
    cpu.set_opcode(0xFFFF).unwrap();
    assert_eq!(cpu.run(), Err(ChipError::UnrecognizedInstruction(0xFFFF)));
    assert_eq!(cpu.read_cursor(), 0x202);
}

#[test]
fn halt_is_not_an_error() {
    let mut cpu = CPU::new();
    assert_eq!(cpu.step(), Ok(Status::Halted));
    assert_eq!(cpu.run(), Ok(()));
}

#[test]
fn return_with_empty_stack_underflows() {
    let mut cpu = CPU::new();
    cpu.set_opcode(0x00EE).unwrap();
    assert_eq!(cpu.run(), Err(ChipError::StackUnderflow));
}

#[test]
fn register_operand_out_of_range_is_refused() {
    let mut cpu = CPU::new();
    cpu.registers[0] = 5;
    assert_eq!(
        cpu.execute(Instruction::Move { x: 0, y: 16 }),
        Err(ChipError::RegisterIndexOutOfRange(16))
    );
    assert_eq!(
        cpu.execute(Instruction::LoadValue { x: 20, value: 1 }),
        Err(ChipError::RegisterIndexOutOfRange(20))
    );
    assert_eq!(cpu.registers[0], 5);
}

#[test]
fn jump_past_memory_is_refused() {
    let mut cpu = CPU::new();
    assert_eq!(
        cpu.execute(Instruction::Jump { address: 5000 }),
        Err(ChipError::AddressOutOfBounds(5000))
    );
    assert_eq!(cpu.read_cursor(), 0x200);
}

#[test]
fn fetch_at_end_of_memory_is_refused() {
    let mut cpu = CPU::new();
    cpu.write_into(0x1FFF, 0x200).unwrap();
    assert_eq!(cpu.run(), Err(ChipError::AddressOutOfBounds(0xFFF)));
}

#[test]
fn load_rom_places_image_at_origin() {
    let mut cpu = CPU::new();
    // LD V5,0x2A then halt, stored low byte first
    cpu.load_rom(&[0x2A, 0x65, 0x00, 0x00]).unwrap();
    cpu.run().unwrap();
    assert_eq!(cpu.registers[5], 0x2A);
    assert_eq!(cpu.write_cursor(), 0x200);
}

#[test]
fn load_rom_too_large_is_refused() {
    let mut cpu = CPU::new();
    let rom = vec![1u8; 4096 - 0x200 + 1];
    assert_eq!(cpu.load_rom(&rom), Err(ChipError::AddressOutOfBounds(0x200)));
    let fits = vec![0u8; 4096 - 0x200];
    assert_eq!(cpu.load_rom(&fits), Ok(()));
}
