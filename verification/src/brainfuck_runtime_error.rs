//! What can go wrong while a program runs.

use crate::instruction::Instruction;
use crate::text::{location, location_text};
use vstd::prelude::*;
use vstd::string::StringExecFns;

verus! {

/// Why a byte could not be read from the input or written to the output.
#[derive(Debug)]
pub enum IoFailure {
    /// The input ended before a byte could be read.
    UnexpectedEof,
    /// Any other failure of the stream, with its description.
    Other(String),
}

/// An error that stops a run. Each one names the source and the instruction
/// that failed.
#[derive(Debug)]
pub enum BrainfuckRuntimeError {
    /// The pointer is already at the leftmost cell.
    CannotMoveLeftError(String, Instruction),
    /// The pointer is at the rightmost cell and the memory cannot grow.
    CannotMoveRightError(String, Instruction),
    /// No byte could be read from the input.
    CannotReadInputError(IoFailure, String, Instruction),
    /// The byte could not be written to the output.
    CannotWriteOutputError(IoFailure, String, Instruction),
    /// The run was given a number of steps and used them up before the
    /// program ended; the instruction is the one that would have come next.
    StepLimitReachedError(String, Instruction),
}

impl IoFailure {
    /// The description of the failure.
    pub open spec fn spec_message(&self) -> Seq<char> {
        match self {
            IoFailure::UnexpectedEof => "failed to fill whole buffer"@,
            IoFailure::Other(why) => why@,
        }
    }

    /// Describes the failure.
    pub fn to_string(&self) -> (r: String)
        ensures
            r@ == self.spec_message(),
    {
        match self {
            IoFailure::UnexpectedEof => String::from_str("failed to fill whole buffer"),
            IoFailure::Other(why) => why.clone(),
        }
    }
}

impl BrainfuckRuntimeError {
    /// The message for the error.
    pub open spec fn spec_message(&self) -> Seq<char> {
        match self {
            BrainfuckRuntimeError::CannotMoveLeftError(path, ins) => "Pointer already at 0 but "@
                + location_text(path@, *ins) + " still wants to move it left"@,
            BrainfuckRuntimeError::CannotMoveRightError(path, ins) =>
                "Pointer already at right edge and VM is not extendable, but "@ + location_text(
                path@,
                *ins,
            ) + " still wants to move it right"@,
            BrainfuckRuntimeError::CannotReadInputError(why, path, ins) => location_text(
                path@,
                *ins,
            ) + " wants to read a value but failed due to "@ + why.spec_message(),
            BrainfuckRuntimeError::CannotWriteOutputError(why, path, ins) => location_text(
                path@,
                *ins,
            ) + " wants to write a value but failed due to "@ + why.spec_message(),
            BrainfuckRuntimeError::StepLimitReachedError(path, ins) =>
                "Step limit reached before "@ + location_text(path@, *ins) + " could run"@,
        }
    }

    /// Says what went wrong, and at which instruction.
    pub fn to_string(&self) -> (r: String)
        ensures
            r@ == self.spec_message(),
    {
        match self {
            BrainfuckRuntimeError::CannotMoveLeftError(path, ins) => {
                let mut text: String = String::from_str("Pointer already at 0 but ");
                text.append(location(path.as_str(), ins).as_str());
                text.append(" still wants to move it left");
                text
            },
            BrainfuckRuntimeError::CannotMoveRightError(path, ins) => {
                let mut text: String = String::from_str(
                    "Pointer already at right edge and VM is not extendable, but ",
                );
                text.append(location(path.as_str(), ins).as_str());
                text.append(" still wants to move it right");
                text
            },
            BrainfuckRuntimeError::CannotReadInputError(why, path, ins) => {
                let mut text: String = location(path.as_str(), ins);
                text.append(" wants to read a value but failed due to ");
                text.append(why.to_string().as_str());
                text
            },
            BrainfuckRuntimeError::CannotWriteOutputError(why, path, ins) => {
                let mut text: String = location(path.as_str(), ins);
                text.append(" wants to write a value but failed due to ");
                text.append(why.to_string().as_str());
                text
            },
            BrainfuckRuntimeError::StepLimitReachedError(path, ins) => {
                let mut text: String = String::from_str("Step limit reached before ");
                text.append(location(path.as_str(), ins).as_str());
                text.append(" could run");
                text
            },
        }
    }
}

} // verus!
