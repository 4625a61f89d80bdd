//! A verified interpreter for Brainfuck: program loading and bracket
//! validation, a tape of wrapping cells, and the execution loop.

pub mod auto_newline_writer;
pub mod brackets;
pub mod brainfuck_runtime_error;
pub mod byte_source;
pub mod cell_kind;
pub mod instruction;
pub mod program;
pub mod semantics;
pub mod text;
pub mod vm;

pub use auto_newline_writer::AutoNewlineWriter;
pub use brainfuck_runtime_error::{BrainfuckRuntimeError, IoFailure};
pub use byte_source::ByteSource;
pub use cell_kind::CellKind;
pub use instruction::{Instruction, RawInstruction};
pub use program::{IncompatibleBracket, Program};
pub use vm::{Pending, VM};
