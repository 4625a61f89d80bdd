//! The eight instructions and their position-tagged form.

use vstd::prelude::*;
use vstd::string::StringExecFns;

verus! {

/// The eight Brainfuck instructions.
#[derive(Debug, Clone, Copy, PartialEq, Eq, Structural)]
pub enum RawInstruction {
    /// Move the pointer one cell to the left.
    MoveLeft,
    /// Move the pointer one cell to the right.
    MoveRight,
    /// Add one to the current cell, wrapping.
    Increment,
    /// Subtract one from the current cell, wrapping.
    Decrement,
    /// Read one byte into the current cell.
    Input,
    /// Write the current cell as one byte.
    Output,
    /// Start of a loop.
    BeginLoop,
    /// End of a loop.
    EndLoop,
}

/// The instruction that a character stands for, if any. Every other
/// character is commentary.
pub open spec fn opcode_of(c: char) -> Option<RawInstruction> {
    if c == '<' {
        Some(RawInstruction::MoveLeft)
    } else if c == '>' {
        Some(RawInstruction::MoveRight)
    } else if c == '+' {
        Some(RawInstruction::Increment)
    } else if c == '-' {
        Some(RawInstruction::Decrement)
    } else if c == '.' {
        Some(RawInstruction::Output)
    } else if c == ',' {
        Some(RawInstruction::Input)
    } else if c == '[' {
        Some(RawInstruction::BeginLoop)
    } else if c == ']' {
        Some(RawInstruction::EndLoop)
    } else {
        None
    }
}

impl RawInstruction {
    /// What the instruction does, in words.
    pub open spec fn spec_description(self) -> Seq<char> {
        match self {
            RawInstruction::MoveLeft => "Move pointer to left"@,
            RawInstruction::MoveRight => "Move pointer to right"@,
            RawInstruction::Increment => "Increment current location"@,
            RawInstruction::Decrement => "Decrement current location"@,
            RawInstruction::Output => "Output current location as ASCII"@,
            RawInstruction::Input => "Input ASCII to current location"@,
            RawInstruction::BeginLoop => "Start looping"@,
            RawInstruction::EndLoop => "End looping"@,
        }
    }

    /// Says in words what the instruction does.
    pub fn to_string(&self) -> (r: String)
        ensures
            r@ == self.spec_description(),
    {
        String::from_str(
            match self {
                RawInstruction::MoveLeft => "Move pointer to left",
                RawInstruction::MoveRight => "Move pointer to right",
                RawInstruction::Increment => "Increment current location",
                RawInstruction::Decrement => "Decrement current location",
                RawInstruction::Output => "Output current location as ASCII",
                RawInstruction::Input => "Input ASCII to current location",
                RawInstruction::BeginLoop => "Start looping",
                RawInstruction::EndLoop => "End looping",
            },
        )
    }

    /// Converts a character to its instruction; commentary gives `None`.
    pub fn from_char(c: char) -> (r: Option<RawInstruction>)
        ensures
            r == opcode_of(c),
    {
        match c {
            '<' => Some(RawInstruction::MoveLeft),
            '>' => Some(RawInstruction::MoveRight),
            '+' => Some(RawInstruction::Increment),
            '-' => Some(RawInstruction::Decrement),
            '.' => Some(RawInstruction::Output),
            ',' => Some(RawInstruction::Input),
            '[' => Some(RawInstruction::BeginLoop),
            ']' => Some(RawInstruction::EndLoop),
            _ => None,
        }
    }
}

/// An instruction together with where it stands in the source: both the
/// row and the column count from one.
#[derive(Debug, Clone, Copy, PartialEq, Eq, Structural)]
pub struct Instruction {
    /// The row of the source line, counted from one.
    pub row: usize,
    /// The column within the line, counted from one.
    pub col: usize,
    /// The kind of instruction.
    pub raw_instruction: RawInstruction,
}

impl Instruction {
    /// Builds an instruction from its position and kind.
    pub fn new(row: usize, col: usize, raw_instruction: RawInstruction) -> (r: Self)
        ensures
            r == (Instruction { row, col, raw_instruction }),
    {
        Self { row, col, raw_instruction }
    }

    /// The row of the source line, counted from one.
    pub fn row(&self) -> (r: usize)
        ensures
            r == self.row,
    {
        self.row
    }

    /// The column within the line, counted from one.
    pub fn col(&self) -> (r: usize)
        ensures
            r == self.col,
    {
        self.col
    }

    /// The kind of instruction.
    pub fn raw_instruction(&self) -> (r: RawInstruction)
        ensures
            r == self.raw_instruction,
    {
        self.raw_instruction
    }
}

} // verus!
