use virtual_cpu::command::{opcode_width, OPCODE_ADD, OPCODE_JMP, OPCODE_NOP, OPCODE_SBC};
use virtual_cpu::{Command, Fault, CPU, MEMORY_SIZE, REGISTER_COUNT};

#[test]
fn opcodes_have_their_documented_values() {
    assert_eq!(OPCODE_ADD, 0x01);
    assert_eq!(OPCODE_SBC, 0x02);
    assert_eq!(OPCODE_NOP, 0x03);
    assert_eq!(OPCODE_JMP, 0x04);
}

#[test]
fn sizes_are_fixed() {
    assert_eq!(MEMORY_SIZE, 64);
    assert_eq!(REGISTER_COUNT, 2);
}

#[test]
fn add_encodes_as_opcode_and_two_operands() {
    assert_eq!(Command::ADD { x: 0, y: 1 }.encode(), vec![0x01, 0, 1]);
}

#[test]
fn sbc_encodes_as_opcode_and_two_operands() {
    assert_eq!(Command::SBC { x: 1, y: 0 }.encode(), vec![0x02, 1, 0]);
}

#[test]
fn nop_encodes_as_opcode_alone() {
    assert_eq!(Command::NOP.encode(), vec![0x03]);
}

#[test]
fn jmp_encodes_as_opcode_and_target() {
    assert_eq!(Command::JMP { address: 42 }.encode(), vec![0x04, 42]);
}

#[test]
fn operands_keep_their_low_byte_only() {
    assert_eq!(Command::ADD { x: 256, y: 257 }.encode(), vec![0x01, 0, 1]);
    assert_eq!(Command::SBC { x: 255, y: 511 }.encode(), vec![0x02, 255, 255]);
    assert_eq!(Command::JMP { address: 0x1234 }.encode(), vec![0x04, 0x34]);
}

#[test]
fn widths_are_three_one_and_two() {
    assert_eq!(Command::ADD { x: 0, y: 1 }.width(), 3);
    assert_eq!(Command::SBC { x: 0, y: 1 }.width(), 3);
    assert_eq!(Command::NOP.width(), 1);
    assert_eq!(Command::JMP { address: 7 }.width(), 2);
}

#[test]
fn width_equals_length_of_encoding() {
    let commands = [
        Command::ADD { x: 1, y: 1 },
        Command::SBC { x: 0, y: 0 },
        Command::NOP,
        Command::JMP { address: 63 },
    ];
    for command in commands {
        assert_eq!(command.encode().len(), command.width());
    }
}

#[test]
fn opcode_width_knows_the_four_opcodes() {
    assert_eq!(opcode_width(0x01), Some(3));
    assert_eq!(opcode_width(0x02), Some(3));
    assert_eq!(opcode_width(0x03), Some(1));
    assert_eq!(opcode_width(0x04), Some(2));
}

#[test]
fn opcode_width_rejects_every_other_byte() {
    assert_eq!(opcode_width(0x00), None);
    for byte in 5..=255u8 {
        assert_eq!(opcode_width(byte), None);
    }
}

#[test]
fn round_trip_of_every_variant() {
    let commands = [
        Command::ADD { x: 0, y: 1 },
        Command::SBC { x: 1, y: 0 },
        Command::NOP,
        Command::JMP { address: 17 },
    ];
    for command in commands {
        for address in 0..=(MEMORY_SIZE - command.width()) {
            let mut cpu = CPU::new();
            cpu.load_command(address, command);
            assert_eq!(cpu.fetch_command_at(address), command);
            assert_eq!(cpu.try_fetch_command_at(address), Ok(command));
        }
    }
}

#[test]
fn round_trip_keeps_operands_up_to_255() {
    let mut cpu = CPU::new();
    cpu.load_command(10, Command::ADD { x: 255, y: 128 });
    assert_eq!(cpu.fetch_command_at(10), Command::ADD { x: 255, y: 128 });
    cpu.load_command(20, Command::JMP { address: 255 });
    assert_eq!(cpu.fetch_command_at(20), Command::JMP { address: 255 });
}

#[test]
fn round_trip_loses_what_does_not_fit_in_a_byte() {
    let mut cpu = CPU::new();
    cpu.load_command(0, Command::ADD { x: 256, y: 1 });
    assert_eq!(cpu.fetch_command_at(0), Command::ADD { x: 0, y: 1 });
}

#[test]
fn load_overwrites_what_was_there() {
    let mut cpu = CPU::new();
    cpu.load_command(5, Command::ADD { x: 1, y: 1 });
    cpu.load_command(5, Command::SBC { x: 0, y: 0 });
    assert_eq!(cpu.fetch_command_at(5), Command::SBC { x: 0, y: 0 });
}

#[test]
fn load_touches_only_its_own_bytes() {
    let mut cpu = CPU::new();
    cpu.load_command(0, Command::ADD { x: 1, y: 0 });
    cpu.load_command(3, Command::JMP { address: 9 });
    cpu.load_command(5, Command::NOP);
    // A one-byte instruction written over the first operand of the ADD
    // changes that operand and nothing else.
    cpu.load_command(1, Command::NOP);
    assert_eq!(cpu.fetch_command_at(0), Command::ADD { x: 3, y: 0 });
    assert_eq!(cpu.fetch_command_at(3), Command::JMP { address: 9 });
    assert_eq!(cpu.fetch_command_at(5), Command::NOP);
    assert_eq!(cpu.try_fetch_command_at(6), Err(Fault::InvalidOpcode));
}

#[test]
fn load_leaves_registers_and_program_counter() {
    let mut cpu = CPU::new();
    cpu.set_register(0, 7);
    cpu.set_register(1, 9);
    cpu.load_command(40, Command::SBC { x: 1, y: 0 });
    assert_eq!(cpu.get_register(0), 7);
    assert_eq!(cpu.get_register(1), 9);
    assert_eq!(cpu.pc(), 0);
}

#[test]
fn operand_bytes_follow_the_opcode_directly() {
    let mut cpu = CPU::new();
    cpu.load_command(8, Command::ADD { x: 4, y: 3 });
    // The operand bytes 4 and 3 are themselves opcodes: JMP and NOP.
    assert_eq!(cpu.fetch_command_at(9), Command::JMP { address: 3 });
    assert_eq!(cpu.fetch_command_at(10), Command::NOP);
}
