use virtual_cpu::{Command, Fault, CPU};

#[test]
fn new_memory_holds_no_instruction() {
    let cpu = CPU::new();
    for address in 0..64 {
        assert_eq!(cpu.try_fetch_command_at(address), Err(Fault::InvalidOpcode));
    }
}

#[test]
fn fetch_behind_memory_is_out_of_range() {
    let cpu = CPU::new();
    assert_eq!(cpu.try_fetch_command_at(64), Err(Fault::IndexOutOfRange));
    assert_eq!(cpu.try_fetch_command_at(65), Err(Fault::IndexOutOfRange));
    assert_eq!(cpu.try_fetch_command_at(usize::MAX), Err(Fault::IndexOutOfRange));
}

#[test]
fn operand_behind_memory_is_out_of_range() {
    let mut cpu = CPU::new();
    // Bytes 62 and 63 become 0x04 and 0x01: at 63 stands the opcode of an ADD
    // whose operands would lie at 64 and 65.
    cpu.load_command(62, Command::JMP { address: 1 });
    assert_eq!(cpu.try_fetch_command_at(62), Ok(Command::JMP { address: 1 }));
    assert_eq!(cpu.try_fetch_command_at(63), Err(Fault::IndexOutOfRange));
}

#[test]
fn jump_target_behind_memory_is_out_of_range() {
    let mut cpu = CPU::new();
    // Byte 63 becomes 0x04: a JMP whose target byte would lie at 64.
    cpu.load_command(62, Command::JMP { address: 4 });
    assert_eq!(cpu.try_fetch_command_at(63), Err(Fault::IndexOutOfRange));
}

#[test]
fn one_missing_operand_is_out_of_range() {
    let mut cpu = CPU::new();
    // Bytes 61..64 become 0x01, 0x02, 0x00: at 62 stands the opcode of an SBC
    // with one operand inside memory and one behind it.
    cpu.load_command(61, Command::ADD { x: 2, y: 0 });
    assert_eq!(cpu.try_fetch_command_at(62), Err(Fault::IndexOutOfRange));
}

#[test]
fn instruction_may_end_exactly_at_the_end_of_memory() {
    let mut cpu = CPU::new();
    cpu.load_command(61, Command::SBC { x: 1, y: 1 });
    assert_eq!(cpu.try_fetch_command_at(61), Ok(Command::SBC { x: 1, y: 1 }));
    let mut cpu = CPU::new();
    cpu.load_command(63, Command::NOP);
    assert_eq!(cpu.try_fetch_command_at(63), Ok(Command::NOP));
}

#[test]
fn unknown_opcode_is_invalid() {
    let mut cpu = CPU::new();
    // The operand byte 5 is no opcode.
    cpu.load_command(0, Command::JMP { address: 5 });
    assert_eq!(cpu.try_fetch_command_at(1), Err(Fault::InvalidOpcode));
    cpu.load_command(0, Command::JMP { address: 255 });
    assert_eq!(cpu.try_fetch_command_at(1), Err(Fault::InvalidOpcode));
}

#[test]
fn decoding_does_not_check_register_indices() {
    let mut cpu = CPU::new();
    cpu.load_command(0, Command::ADD { x: 9, y: 200 });
    assert_eq!(cpu.try_fetch_command_at(0), Ok(Command::ADD { x: 9, y: 200 }));
}

#[test]
fn same_bytes_decode_alike_wherever_they_stand() {
    let command = Command::SBC { x: 1, y: 0 };
    let mut first = CPU::new();
    first.load_command(0, command);
    first.load_command(30, command);
    let mut second = CPU::new();
    second.set_register(1, 99);
    second.load_command(61, command);
    let decoded = first.fetch_command_at(0);
    assert_eq!(first.fetch_command_at(0), decoded);
    assert_eq!(first.fetch_command_at(30), decoded);
    assert_eq!(second.fetch_command_at(61), decoded);
    assert_eq!(decoded.width(), 3);
}

#[test]
fn fetch_changes_nothing() {
    let mut cpu = CPU::new();
    cpu.set_register(0, 3);
    cpu.load_command(0, Command::JMP { address: 20 });
    assert_eq!(cpu.fetch_command_at(0), Command::JMP { address: 20 });
    assert_eq!(cpu.pc(), 0);
    assert_eq!(cpu.get_register(0), 3);
    assert_eq!(cpu.fetch_command_at(0), Command::JMP { address: 20 });
}
