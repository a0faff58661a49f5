//! What holds of the machine's operations, proved over the model.
//!
//! The contracts of the executable code say that each method of
//! [`CPU`](crate::cpu::CPU) does to its model exactly what the function of
//! the same name on [`MachineState`] says. The theorems here are therefore
//! statements about the executable machine as well.

use vstd::prelude::*;
use crate::command::{decode, spec_opcode_width, Command, Fault};
use crate::machine::{MachineState, RunOutcome, Stop, MEMORY_SIZE, REGISTER_COUNT};

verus! {

/// An `ADD { x, y }` that was loaded at `address` and is executed there, in a
/// state whose registers `x` and `y` hold `a` and `b`, returns
/// `(a + b) mod 256` and leaves that value in register 0. Nothing else changes.
pub proof fn theorem_add_wraps(s: MachineState, address: int, x: usize, y: usize, a: u8, b: u8)
    requires
        s.wf(),
        0 <= address,
        address + 3 <= MEMORY_SIZE,
        x < REGISTER_COUNT,
        y < REGISTER_COUNT,
        s.register[x as int] == a,
        s.register[y as int] == b,
    ensures
        s.load(address, (Command::ADD { x, y })).execute_at(address) matches Ok((next, result))
            && result == (a + b) % 256
            && next.register[0] == (a + b) % 256
            && next == s.load(address, (Command::ADD { x, y })).set_register(0, result),
{
}

/// An `SBC { x, y }` that was loaded at `address` and is executed there, in a
/// state whose registers `x` and `y` hold `a` and `b`, returns
/// `(a - b) mod 256`, a value from 0 to 255 also where `a < b`, and leaves
/// that value in register 0. Nothing else changes.
pub proof fn theorem_sbc_wraps(s: MachineState, address: int, x: usize, y: usize, a: u8, b: u8)
    requires
        s.wf(),
        0 <= address,
        address + 3 <= MEMORY_SIZE,
        x < REGISTER_COUNT,
        y < REGISTER_COUNT,
        s.register[x as int] == a,
        s.register[y as int] == b,
    ensures
        s.load(address, (Command::SBC { x, y })).execute_at(address) matches Ok((next, result))
            && result == (a - b) % 256
            && next.register[0] == (a - b) % 256
            && next == s.load(address, (Command::SBC { x, y })).set_register(0, result),
{
}

/// Decoding the encoding of an instruction gives the instruction back,
/// provided that each operand fits in its byte.
pub proof fn theorem_decode_encoding(command: Command)
    requires
        command.fits_encoding(),
    ensures
        decode(command.encoding(), 0) == Ok::<Command, Fault>(command),
{
}

/// Fetching from the address at which an instruction was loaded gives the
/// instruction back, provided that each operand fits in its byte.
pub proof fn theorem_load_fetch_round_trip(s: MachineState, address: int, command: Command)
    requires
        s.wf(),
        0 <= address,
        address + command.spec_width() <= MEMORY_SIZE,
        command.fits_encoding(),
    ensures
        s.load(address, command).fetch(address) == Ok::<Command, Fault>(command),
{
}

/// Loading changes no byte outside the loaded instruction, no register and
/// not the program counter.
pub proof fn theorem_load_frame(s: MachineState, address: int, command: Command, other: int)
    requires
        s.wf(),
        0 <= address,
        address + command.spec_width() <= MEMORY_SIZE,
        0 <= other < MEMORY_SIZE,
        other < address || other >= address + command.spec_width(),
    ensures
        s.load(address, command).ram[other] == s.ram[other],
        s.load(address, command).register == s.register,
        s.load(address, command).pc == s.pc,
        s.load(address, command).wf(),
{
}

/// What decoding yields depends on nothing but the bytes of the instruction:
/// wherever the same bytes stand, the same instruction is decoded. Its width
/// is the one that belongs to its opcode: 3 for `ADD` and `SBC`, 1 for `NOP`,
/// 2 for `JMP`.
pub proof fn theorem_decode_is_determined_by_bytes(
    memory: Seq<u8>,
    address: int,
    other_memory: Seq<u8>,
    other_address: int,
    command: Command,
)
    requires
        decode(memory, address) == Ok::<Command, Fault>(command),
        0 <= other_address,
        other_address + command.spec_width() <= other_memory.len(),
        memory.subrange(address, address + command.spec_width()) == other_memory.subrange(
            other_address,
            other_address + command.spec_width(),
        ),
    ensures
        decode(other_memory, other_address) == Ok::<Command, Fault>(command),
        spec_opcode_width(memory[address]) == Some(command.spec_width()),
        command.spec_opcode() == memory[address],
        command is ADD || command is SBC ==> command.spec_width() == 3,
        command is NOP ==> command.spec_width() == 1,
        command is JMP ==> command.spec_width() == 2,
{
    let width = command.spec_width() as int;
    let bytes = memory.subrange(address, address + width);
    let other_bytes = other_memory.subrange(other_address, other_address + width);
    assert(bytes[0] == memory[address] && other_bytes[0] == other_memory[other_address]);
    if width >= 2 {
        assert(bytes[1] == memory[address + 1] && other_bytes[1] == other_memory[other_address + 1]);
    }
    if width >= 3 {
        assert(bytes[2] == memory[address + 2] && other_bytes[2] == other_memory[other_address + 2]);
    }
}

/// A `JMP` that was loaded at the program counter makes the next step set the
/// program counter to the jump's target, not to the address behind the `JMP`,
/// and return 0; the run goes on with the instruction at the target.
pub proof fn theorem_jump_sets_program_counter(s: MachineState, target: usize, fuel: nat)
    requires
        s.wf(),
        s.pc + 2 <= MEMORY_SIZE,
        target < 256,
    ensures
        s.load(s.pc as int, (Command::JMP { address: target })).step() == Ok::<
            (MachineState, u8),
            Fault,
        >((s.load(s.pc as int, (Command::JMP { address: target })).with_pc(target as nat), 0u8)),
        fuel > 0 ==> s.load(s.pc as int, (Command::JMP { address: target })).run(fuel) == s.load(
            s.pc as int,
            (Command::JMP { address: target }),
        ).with_pc(target as nat).run((fuel - 1) as nat).after(seq![0u8]),
{
}

/// Executing an instruction never changes memory or register 1, and changes
/// the program counter only if the instruction is a `JMP`.
pub proof fn theorem_execute_frame(s: MachineState, command: Command)
    requires
        s.wf(),
    ensures
        s.execute(command) matches Ok((next, _)) ==> next.wf() && next.ram == s.ram
            && next.register[1] == s.register[1] && (command is JMP || next.pc == s.pc),
{
}

/// A halted machine does not run: no instruction is decoded, whatever lies at
/// or behind the program counter, and nothing changes.
pub proof fn theorem_halted_machine_stays(s: MachineState, fuel: nat)
    requires
        s.halted(),
    ensures
        s.run(fuel) == (RunOutcome { state: s, trace: Seq::empty(), stop: Stop::Halted }),
{
}

/// A run whose next instruction ends exactly at the end of memory, and is no
/// `JMP`, executes that instruction and halts: nothing behind the end of
/// memory is decoded.
pub proof fn theorem_last_instruction_halts(s: MachineState, command: Command, fuel: nat)
    requires
        s.wf(),
        s.fetch(s.pc as int) == Ok::<Command, Fault>(command),
        s.execute(command) is Ok,
        !(command is JMP),
        s.pc + command.spec_width() == MEMORY_SIZE,
        fuel > 0,
    ensures
        s.step() matches Ok((next, result)) && next.pc == MEMORY_SIZE && s.run(fuel) == (RunOutcome {
            state: next,
            trace: seq![result],
            stop: Stop::Halted,
        }),
{
    let (next, result) = s.step()->Ok_0;
    assert(next.run((fuel - 1) as nat).after(seq![result]).trace =~= seq![result]);
}

/// What a run reports, for every state and every budget:
/// - it stops as halted exactly when it ends in a halted state;
/// - it stops with a fault only in a state that is not halted and whose next
///   step has that fault;
/// - it stops for want of steps only after exactly `fuel` steps, in a state
///   that is not halted;
/// - it never takes more than `fuel` steps;
/// - it leaves memory as it was, and the state well-formed.
pub proof fn theorem_run_outcome(s: MachineState, fuel: nat)
    requires
        s.wf(),
    ensures
        s.run(fuel).stop is Halted <==> s.run(fuel).state.halted(),
        s.run(fuel).stop matches Stop::Fault(fault) ==> s.run(fuel).state.step() == Err::<
            (MachineState, u8),
            Fault,
        >(fault),
        s.run(fuel).stop is OutOfSteps ==> s.run(fuel).trace.len() == fuel,
        s.run(fuel).trace.len() <= fuel,
        s.run(fuel).state.ram == s.ram,
        s.run(fuel).state.wf(),
    decreases fuel,
{
    if !s.halted() && fuel > 0 {
        if let Ok((next, result)) = s.step() {
            theorem_run_outcome(next, (fuel - 1) as nat);
        }
    }
}

/// A run that stopped for want of steps is continued by a second run: running
/// for `first + second` steps is running for `first` steps and, if the budget
/// ran out, for `second` more from where the first run stopped. A run that
/// stopped for another reason is not changed by a larger budget.
pub proof fn theorem_run_resumes(s: MachineState, first: nat, second: nat)
    ensures
        s.run(first).stop is OutOfSteps ==> s.run(first + second) == s.run(first).state.run(
            second,
        ).after(s.run(first).trace),
        !(s.run(first).stop is OutOfSteps) ==> s.run(first + second) == s.run(first),
    decreases first,
{
    if s.halted() {
    } else if first == 0 {
        assert(s.run(second).after(Seq::empty()).trace =~= s.run(second).trace);
    } else {
        match s.step() {
            Ok((next, result)) => {
                theorem_run_resumes(next, (first - 1) as nat, second);
                let head = next.run((first - 1) as nat);
                assert(first + second - 1 == (first - 1) as nat + second);
                if head.stop is OutOfSteps {
                    let tail = head.state.run(second);
                    assert(tail.after(head.trace).after(seq![result]).trace =~= tail.after(
                        head.after(seq![result]).trace,
                    ).trace);
                }
            },
            Err(fault) => {},
        }
    }
}

} // verus!
