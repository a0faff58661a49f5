//! The executable machine.

use vstd::prelude::*;
use crate::command::{opcode_width, Command, Fault, OPCODE_ADD, OPCODE_NOP, OPCODE_SBC};
use crate::machine::{MachineState, Stop, MEMORY_SIZE, REGISTER_COUNT};

verus! {

/// What a run of the machine reports.
#[derive(Debug, PartialEq, Eq)]
pub struct Execution {
    /// The result byte of each executed instruction, in order.
    pub trace: Vec<u8>,
    /// Why the run ended.
    pub stop: Stop,
}

/// A machine with 64 bytes of memory, two 8-bit registers and a program
/// counter.
pub struct CPU {
    ram: [u8; MEMORY_SIZE],
    register: [u8; REGISTER_COUNT],
    pc: usize,
}

impl View for CPU {
    type V = MachineState;

    closed spec fn view(&self) -> MachineState {
        MachineState { ram: self.ram@, register: self.register@, pc: self.pc as nat }
    }
}

impl CPU {
    /// The model of every machine has memory and registers of the fixed sizes.
    pub proof fn lemma_view_wf(&self)
        ensures
            self@.wf(),
    {
    }

    /// A machine with zeroed memory, zeroed registers and program counter 0.
    pub fn new() -> (cpu: CPU)
        ensures
            cpu@ == MachineState::initial(),
    {
        let cpu = CPU { ram: [0; MEMORY_SIZE], register: [0; REGISTER_COUNT], pc: 0 };
        assert(cpu@.ram =~= MachineState::initial().ram);
        assert(cpu@.register =~= MachineState::initial().register);
        cpu
    }

    /// Sets register `index` to `value`.
    pub fn set_register(&mut self, index: usize, value: u8)
        requires
            index < REGISTER_COUNT,
        ensures
            final(self)@ == old(self)@.set_register(index as int, value),
    {
        self.register[index] = value;
    }

    /// The value of register `index`.
    pub fn get_register(&self, index: usize) -> (value: u8)
        requires
            index < REGISTER_COUNT,
        ensures
            value == self@.register[index as int],
    {
        self.register[index]
    }

    /// The program counter: the address of the next instruction to fetch.
    pub fn pc(&self) -> (pc: usize)
        ensures
            pc == self@.pc,
    {
        self.pc
    }

    /// Whether the program counter has reached or passed the end of memory.
    pub fn is_halted(&self) -> (halted: bool)
        ensures
            halted == self@.halted(),
    {
        self.pc >= MEMORY_SIZE
    }

    /// Writes the encoding of `command` to memory, from `address` on, over
    /// whatever was stored there.
    pub fn load_command(&mut self, address: usize, command: Command)
        requires
            address + command.spec_width() <= MEMORY_SIZE,
        ensures
            final(self)@ == old(self)@.load(address as int, command),
    {
        let command_bytes = command.encode();
        let mut i: usize = 0;
        while i < command_bytes.len()
            invariant
                i <= command_bytes.len(),
                command_bytes@ == command.encoding(),
                command_bytes.len() == command.spec_width(),
                address + command.spec_width() <= MEMORY_SIZE,
                self.register == old(self).register,
                self.pc == old(self).pc,
                forall|j: int|
                    0 <= j < MEMORY_SIZE ==> self.ram@[j] == if address <= j < address + i {
                        command.encoding()[j - address]
                    } else {
                        old(self).ram@[j]
                    },
            decreases command_bytes.len() - i,
        {
            self.ram[address + i] = command_bytes[i];
            i += 1;
        }
        assert(self@.ram =~= old(self)@.load(address as int, command).ram);
    }

    /// Decodes the instruction that memory holds at `address`.
    ///
    /// The caller makes sure that an instruction can be decoded there; see
    /// [`CPU::try_fetch_command_at`] for the variant that checks.
    pub fn fetch_command_at(&self, address: usize) -> (command: Command)
        requires
            self@.fetch(address as int) is Ok,
        ensures
            self@.fetch(address as int) == Ok::<Command, Fault>(command),
    {
        let opcode = self.ram[address];
        if opcode == OPCODE_ADD {
            let x = self.ram[address + 1] as usize;
            let y = self.ram[address + 2] as usize;
            Command::ADD { x, y }
        } else if opcode == OPCODE_SBC {
            let x = self.ram[address + 1] as usize;
            let y = self.ram[address + 2] as usize;
            Command::SBC { x, y }
        } else if opcode == OPCODE_NOP {
            Command::NOP
        } else {
            let address = self.ram[address + 1] as usize;
            Command::JMP { address }
        }
    }

    /// Decodes the instruction that memory holds at `address`, or reports why
    /// none can be decoded there: the address, or the address of an operand,
    /// lies outside memory, or the byte at `address` is no opcode.
    pub fn try_fetch_command_at(&self, address: usize) -> (fetched: Result<Command, Fault>)
        ensures
            fetched == self@.fetch(address as int),
    {
        if address >= MEMORY_SIZE {
            return Err(Fault::IndexOutOfRange);
        }
        match opcode_width(self.ram[address]) {
            None => Err(Fault::InvalidOpcode),
            Some(width) => if width > MEMORY_SIZE - address {
                Err(Fault::IndexOutOfRange)
            } else {
                Ok(self.fetch_command_at(address))
            },
        }
    }

    /// Executes `command`: `ADD` and `SBC` write their result to register 0 and
    /// return it, `JMP` overwrites the program counter and returns 0, `NOP`
    /// returns 0.
    fn execute(&mut self, command: Command) -> (result: u8)
        requires
            old(self)@.execute(command) is Ok,
        ensures
            old(self)@.execute(command) == Ok::<(MachineState, u8), Fault>((final(self)@, result)),
    {
        match command {
            Command::ADD { x, y } => {
                let result = self.get_register(x).wrapping_add(self.get_register(y));
                self.set_register(0, result);
                result
            },
            Command::SBC { x, y } => {
                let result = self.get_register(x).wrapping_sub(self.get_register(y));
                self.set_register(0, result);
                result
            },
            Command::NOP => 0,
            Command::JMP { address } => {
                self.pc = address;
                0
            },
        }
    }

    /// Whether `command` can be executed: whether the registers it names exist.
    fn check_executable(&self, command: Command) -> (checked: Result<(), Fault>)
        ensures
            checked is Ok ==> self@.execute(command) is Ok,
            checked matches Err(fault) ==> self@.execute(command) == Err::<
                (MachineState, u8),
                Fault,
            >(fault),
    {
        match command {
            Command::ADD { x, y } | Command::SBC { x, y } => if x < REGISTER_COUNT && y
                < REGISTER_COUNT {
                Ok(())
            } else {
                Err(Fault::IndexOutOfRange)
            },
            Command::NOP => Ok(()),
            Command::JMP { .. } => Ok(()),
        }
    }

    /// Decodes the instruction at `address` and executes it; returns its
    /// result byte. Only a `JMP` changes the program counter.
    ///
    /// The caller makes sure that the instruction can be decoded and that the
    /// registers it names exist; see [`CPU::try_execute_command_at`] for the
    /// variant that checks.
    pub fn execute_command_at(&mut self, address: usize) -> (result: u8)
        requires
            old(self)@.execute_at(address as int) is Ok,
        ensures
            old(self)@.execute_at(address as int) == Ok::<(MachineState, u8), Fault>(
                (final(self)@, result),
            ),
    {
        let command = self.fetch_command_at(address);
        self.execute(command)
    }

    /// Decodes the instruction at `address` and executes it, or reports the
    /// fault that prevents this and leaves the machine as it was.
    pub fn try_execute_command_at(&mut self, address: usize) -> (executed: Result<u8, Fault>)
        ensures
            old(self)@.execute_at(address as int) matches Ok((next, result)) ==> executed == Ok::<
                u8,
                Fault,
            >(result) && final(self)@ == next,
            old(self)@.execute_at(address as int) matches Err(fault) ==> executed == Err::<
                u8,
                Fault,
            >(fault) && final(self)@ == old(self)@,
    {
        let command = self.try_fetch_command_at(address)?;
        self.check_executable(command)?;
        Ok(self.execute(command))
    }

    /// One turn of the run loop: decodes and executes the instruction at the
    /// program counter, then moves the program counter past it, unless the
    /// instruction was a `JMP`, which has set it already. Returns the
    /// instruction's result byte, or reports the fault that prevents the step
    /// and leaves the machine as it was. A halted machine has nothing to
    /// fetch: its step is `Fault::IndexOutOfRange`.
    pub fn step(&mut self) -> (stepped: Result<u8, Fault>)
        ensures
            old(self)@.step() matches Ok((next, result)) ==> stepped == Ok::<u8, Fault>(result)
                && final(self)@ == next,
            old(self)@.step() matches Err(fault) ==> stepped == Err::<u8, Fault>(fault)
                && final(self)@ == old(self)@,
    {
        let command = self.try_fetch_command_at(self.pc)?;
        self.check_executable(command)?;
        let result = self.execute(command);
        match command {
            Command::JMP { .. } => {},
            _ => {
                self.pc += command.width();
            },
        }
        Ok(result)
    }

    /// Runs the machine from the current program counter for at most
    /// `max_steps` instructions and reports the result byte of each executed
    /// instruction, in order, together with the reason for stopping.
    ///
    /// The run stops when the program counter has reached or passed the end of
    /// memory (`Stop::Halted`), when the next instruction cannot be decoded or
    /// executed (`Stop::Fault`; the machine stays as the last good step left
    /// it), or when `max_steps` instructions were executed and the machine is
    /// still running (`Stop::OutOfSteps`; a further call continues the run).
    /// Memory is never sanitized: a byte that is no opcode, such as the zero
    /// of untouched memory, is a fault and not an implicit halt.
    pub fn execute_command(&mut self, max_steps: usize) -> (execution: Execution)
        ensures
            final(self)@ == old(self)@.run(max_steps as nat).state,
            execution.trace@ == old(self)@.run(max_steps as nat).trace,
            execution.stop == old(self)@.run(max_steps as nat).stop,
    {
        let mut trace: Vec<u8> = Vec::new();
        let mut steps: usize = 0;
        assert(self@.run(max_steps as nat).after(trace@).trace =~= self@.run(
            max_steps as nat,
        ).trace);
        while self.pc < MEMORY_SIZE && steps < max_steps
            invariant
                steps <= max_steps,
                old(self)@.run(max_steps as nat) == self@.run((max_steps - steps) as nat).after(
                    trace@,
                ),
            decreases max_steps - steps,
        {
            let ghost before = self@;
            let ghost fuel = (max_steps - steps) as nat;
            match self.step() {
                Ok(result) => {
                    proof {
                        let rest = self@.run((fuel - 1) as nat);
                        assert(rest.after(seq![result]).after(trace@).trace =~= rest.after(
                            trace@.push(result),
                        ).trace);
                    }
                    trace.push(result);
                    steps += 1;
                },
                Err(fault) => {
                    assert(before.run(fuel).after(trace@).trace =~= trace@);
                    return Execution { trace, stop: Stop::Fault(fault) };
                },
            }
        }
        assert(self@.run((max_steps - steps) as nat).after(trace@).trace =~= trace@);
        let stop = if self.pc >= MEMORY_SIZE {
            Stop::Halted
        } else {
            Stop::OutOfSteps
        };
        Execution { trace, stop }
    }
}

} // verus!
