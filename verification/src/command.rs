//! Instructions and their byte encoding.
//!
//! | opcode | instruction | width | operand bytes      |
//! |--------|-------------|-------|--------------------|
//! | `0x01` | `ADD`       | 3     | `x`, `y`           |
//! | `0x02` | `SBC`       | 3     | `x`, `y`           |
//! | `0x03` | `NOP`       | 1     |                    |
//! | `0x04` | `JMP`       | 2     | `address`          |

use vstd::prelude::*;

verus! {

/// Opcode byte of [`Command::ADD`].
pub const OPCODE_ADD: u8 = 0x01;

/// Opcode byte of [`Command::SBC`].
pub const OPCODE_SBC: u8 = 0x02;

/// Opcode byte of [`Command::NOP`].
pub const OPCODE_NOP: u8 = 0x03;

/// Opcode byte of [`Command::JMP`].
pub const OPCODE_JMP: u8 = 0x04;

/// A symbolic instruction.
///
/// `x` and `y` are register indices, `address` is an absolute memory address.
/// Each operand occupies one byte of the encoding, so only its low eight bits
/// are stored.
#[derive(Clone, Copy, Debug, PartialEq, Eq, Structural)]
pub enum Command {
    /// Register 0 becomes register `x` plus register `y`, modulo 256.
    ADD { x: usize, y: usize },
    /// Register 0 becomes register `x` minus register `y`, modulo 256.
    SBC { x: usize, y: usize },
    /// Does nothing.
    NOP,
    /// The program counter becomes `address`.
    JMP { address: usize },
}

/// The two ways in which a malformed program stops the machine.
#[derive(Clone, Copy, Debug, PartialEq, Eq, Structural)]
pub enum Fault {
    /// The byte at the opcode position is none of the four opcodes.
    InvalidOpcode,
    /// A register index or a memory address lies outside its range.
    IndexOutOfRange,
}

/// The byte that stands for operand `value` in an encoding: its low eight bits.
pub open spec fn operand_byte(value: usize) -> u8 {
    (value % 256) as u8
}

/// The number of bytes that an instruction with this opcode occupies, or
/// `None` if the byte is no opcode.
pub open spec fn spec_opcode_width(opcode: u8) -> Option<nat> {
    if opcode == OPCODE_ADD || opcode == OPCODE_SBC {
        Some(3)
    } else if opcode == OPCODE_NOP {
        Some(1)
    } else if opcode == OPCODE_JMP {
        Some(2)
    } else {
        None
    }
}

/// What decoding the bytes of `memory` from `address` on yields.
///
/// The opcode byte is read first, then the operand bytes that directly follow
/// it. Reading outside `memory` is `Fault::IndexOutOfRange`; an unknown opcode
/// byte is `Fault::InvalidOpcode`.
pub open spec fn decode(memory: Seq<u8>, address: int) -> Result<Command, Fault> {
    if !(0 <= address < memory.len()) {
        Err(Fault::IndexOutOfRange)
    } else {
        match spec_opcode_width(memory[address]) {
            None => Err(Fault::InvalidOpcode),
            Some(width) => if address + width > memory.len() {
                Err(Fault::IndexOutOfRange)
            } else if memory[address] == OPCODE_ADD {
                Ok(Command::ADD { x: memory[address + 1] as usize, y: memory[address + 2] as usize })
            } else if memory[address] == OPCODE_SBC {
                Ok(Command::SBC { x: memory[address + 1] as usize, y: memory[address + 2] as usize })
            } else if memory[address] == OPCODE_NOP {
                Ok(Command::NOP)
            } else {
                Ok(Command::JMP { address: memory[address + 1] as usize })
            },
        }
    }
}

impl Command {
    /// The opcode byte that identifies this instruction.
    pub open spec fn spec_opcode(self) -> u8 {
        match self {
            Command::ADD { .. } => OPCODE_ADD,
            Command::SBC { .. } => OPCODE_SBC,
            Command::NOP => OPCODE_NOP,
            Command::JMP { .. } => OPCODE_JMP,
        }
    }

    /// The number of bytes that the encoding occupies.
    pub open spec fn spec_width(self) -> nat {
        match self {
            Command::ADD { .. } | Command::SBC { .. } => 3,
            Command::NOP => 1,
            Command::JMP { .. } => 2,
        }
    }

    /// The encoding: the opcode byte followed by one byte per operand.
    pub open spec fn encoding(self) -> Seq<u8> {
        match self {
            Command::ADD { x, y } => seq![OPCODE_ADD, operand_byte(x), operand_byte(y)],
            Command::SBC { x, y } => seq![OPCODE_SBC, operand_byte(x), operand_byte(y)],
            Command::NOP => seq![OPCODE_NOP],
            Command::JMP { address } => seq![OPCODE_JMP, operand_byte(address)],
        }
    }

    /// Every operand fits in the single byte that the encoding gives it.
    pub open spec fn fits_encoding(self) -> bool {
        match self {
            Command::ADD { x, y } | Command::SBC { x, y } => x < 256 && y < 256,
            Command::NOP => true,
            Command::JMP { address } => address < 256,
        }
    }

    /// The number of bytes that the encoding occupies.
    pub fn width(&self) -> (w: usize)
        ensures
            w == self.spec_width(),
    {
        match self {
            Command::ADD { .. } | Command::SBC { .. } => 3,
            Command::NOP => 1,
            Command::JMP { .. } => 2,
        }
    }

    /// Serializes the instruction.
    pub fn encode(&self) -> (bytes: Vec<u8>)
        ensures
            bytes@ == self.encoding(),
    {
        match *self {
            Command::ADD { x, y } => vec![OPCODE_ADD, (x % 256) as u8, (y % 256) as u8],
            Command::SBC { x, y } => vec![OPCODE_SBC, (x % 256) as u8, (y % 256) as u8],
            Command::NOP => vec![OPCODE_NOP],
            Command::JMP { address } => vec![OPCODE_JMP, (address % 256) as u8],
        }
    }
}

/// The number of bytes that an instruction with this opcode occupies, or
/// `None` if the byte is no opcode.
pub fn opcode_width(opcode: u8) -> (width: Option<usize>)
    ensures
        width matches Some(w) ==> spec_opcode_width(opcode) == Some(w as nat),
        width is None ==> spec_opcode_width(opcode) is None,
{
    if opcode == OPCODE_ADD || opcode == OPCODE_SBC {
        Some(3)
    } else if opcode == OPCODE_NOP {
        Some(1)
    } else if opcode == OPCODE_JMP {
        Some(2)
    } else {
        None
    }
}

} // verus!
