//! The mathematical model of the machine.
//!
//! A [`MachineState`] is what a [`CPU`](crate::cpu::CPU) holds, as plain
//! mathematical values; the functions here say what each operation of the
//! machine does to it. The contracts of the executable code refer to them.

use vstd::prelude::*;
use crate::command::{decode, Command, Fault};

verus! {

/// Number of bytes of memory.
pub const MEMORY_SIZE: usize = 64;

/// Number of registers.
pub const REGISTER_COUNT: usize = 2;

/// The state of a machine: memory, registers and program counter.
pub ghost struct MachineState {
    /// The memory, one byte per address.
    pub ram: Seq<u8>,
    /// The registers.
    pub register: Seq<u8>,
    /// The address of the next instruction to fetch.
    pub pc: nat,
}

/// Why a run came to an end.
#[derive(Clone, Copy, Debug, PartialEq, Eq, Structural)]
pub enum Stop {
    /// The program counter reached or passed the end of memory.
    Halted,
    /// The step budget was used up while the machine was still running.
    OutOfSteps,
    /// The next instruction could not be decoded or executed.
    Fault(Fault),
}

/// What a run leaves behind.
pub ghost struct RunOutcome {
    /// The state in which the run ended.
    pub state: MachineState,
    /// The result byte of each executed instruction, in order.
    pub trace: Seq<u8>,
    /// Why the run ended.
    pub stop: Stop,
}

impl RunOutcome {
    /// The same outcome, reached after the steps that left `prefix` as their
    /// trace.
    pub open spec fn after(self, prefix: Seq<u8>) -> RunOutcome {
        RunOutcome { trace: prefix + self.trace, ..self }
    }
}

/// The sum of two bytes, modulo 256.
pub open spec fn wrapping_sum(a: u8, b: u8) -> u8 {
    ((a + b) % 256) as u8
}

/// The difference of two bytes, modulo 256.
pub open spec fn wrapping_difference(a: u8, b: u8) -> u8 {
    ((a - b) % 256) as u8
}

impl MachineState {
    /// Memory and register file have their fixed sizes.
    pub open spec fn wf(self) -> bool {
        &&& self.ram.len() == MEMORY_SIZE
        &&& self.register.len() == REGISTER_COUNT
    }

    /// The state of a new machine: everything zero.
    pub open spec fn initial() -> MachineState {
        MachineState {
            ram: Seq::new(MEMORY_SIZE as nat, |i: int| 0u8),
            register: Seq::new(REGISTER_COUNT as nat, |i: int| 0u8),
            pc: 0,
        }
    }

    /// The same state with the program counter at `pc`.
    pub open spec fn with_pc(self, pc: nat) -> MachineState {
        MachineState { pc, ..self }
    }

    /// The state after register `index` was set to `value`.
    pub open spec fn set_register(self, index: int, value: u8) -> MachineState {
        MachineState { register: self.register.update(index, value), ..self }
    }

    /// The state after the encoding of `command` was written to memory from
    /// `address` on. All other bytes keep their value.
    pub open spec fn load(self, address: int, command: Command) -> MachineState {
        MachineState {
            ram: Seq::new(
                self.ram.len(),
                |i: int|
                    if address <= i < address + command.spec_width() {
                        command.encoding()[i - address]
                    } else {
                        self.ram[i]
                    },
            ),
            ..self
        }
    }

    /// The instruction that memory holds at `address`.
    pub open spec fn fetch(self, address: int) -> Result<Command, Fault> {
        decode(self.ram, address)
    }

    /// The byte that executing `command` in this state returns.
    pub open spec fn result_of(self, command: Command) -> u8 {
        match command {
            Command::ADD { x, y } => wrapping_sum(self.register[x as int], self.register[y as int]),
            Command::SBC { x, y } => wrapping_difference(
                self.register[x as int],
                self.register[y as int],
            ),
            Command::NOP => 0,
            Command::JMP { .. } => 0,
        }
    }

    /// Executing `command` in this state: the state that follows and the
    /// result byte, or the fault if a register index is out of range.
    ///
    /// `ADD` and `SBC` write their result to register 0, `JMP` overwrites the
    /// program counter, `NOP` changes nothing. Memory never changes.
    pub open spec fn execute(self, command: Command) -> Result<(MachineState, u8), Fault> {
        match command {
            Command::ADD { x, y } | Command::SBC { x, y } => if x < REGISTER_COUNT && y
                < REGISTER_COUNT {
                Ok((self.set_register(0, self.result_of(command)), self.result_of(command)))
            } else {
                Err(Fault::IndexOutOfRange)
            },
            Command::NOP => Ok((self, 0)),
            Command::JMP { address } => Ok((self.with_pc(address as nat), 0)),
        }
    }

    /// Decoding the instruction at `address` and executing it. The program
    /// counter plays no part in this, and changes only through a `JMP`.
    pub open spec fn execute_at(self, address: int) -> Result<(MachineState, u8), Fault> {
        match self.fetch(address) {
            Ok(command) => self.execute(command),
            Err(fault) => Err(fault),
        }
    }

    /// One turn of the run loop: the instruction at the program counter is
    /// decoded and executed, then the program counter moves past it, unless
    /// the instruction was a `JMP`, which has already set it.
    pub open spec fn step(self) -> Result<(MachineState, u8), Fault> {
        match self.fetch(self.pc as int) {
            Ok(command) => match self.execute(command) {
                Ok((next, result)) => Ok(
                    (
                        if command is JMP {
                            next
                        } else {
                            next.with_pc(next.pc + command.spec_width())
                        },
                        result,
                    ),
                ),
                Err(fault) => Err(fault),
            },
            Err(fault) => Err(fault),
        }
    }

    /// The program counter has reached or passed the end of memory.
    pub open spec fn halted(self) -> bool {
        self.pc >= MEMORY_SIZE
    }

    /// Running the machine for at most `fuel` steps.
    ///
    /// The run ends as soon as the machine is halted, the budget is used up,
    /// or the next step faults, in this order of precedence. A faulting step
    /// leaves the state as it found it and adds nothing to the trace.
    pub open spec fn run(self, fuel: nat) -> RunOutcome
        decreases fuel,
    {
        if self.halted() {
            RunOutcome { state: self, trace: Seq::empty(), stop: Stop::Halted }
        } else if fuel == 0 {
            RunOutcome { state: self, trace: Seq::empty(), stop: Stop::OutOfSteps }
        } else {
            match self.step() {
                Ok((next, result)) => next.run((fuel - 1) as nat).after(seq![result]),
                Err(fault) => RunOutcome {
                    state: self,
                    trace: Seq::empty(),
                    stop: Stop::Fault(fault),
                },
            }
        }
    }
}

} // verus!
