//! What running a program means, as a relation between states.

use crate::cell_kind::{wrapping_pred, wrapping_succ};
use crate::instruction::{Instruction, RawInstruction};
use vstd::prelude::*;

verus! {

/// What stays the same during a run.
pub struct Setup {
    /// The instructions of the program.
    pub code: Seq<Instruction>,
    /// From the index of each opening bracket to that of its partner.
    pub open_to_close: Map<usize, usize>,
    /// From the index of each closing bracket to that of its partner.
    pub close_to_open: Map<usize, usize>,
    /// Whether the memory grows when the pointer moves past its end.
    pub can_extend: bool,
    /// The largest number that a cell holds.
    pub max: nat,
}

/// What changes during a run.
pub struct State {
    /// The numbers in the memory cells.
    pub cells: Seq<nat>,
    /// The index of the current cell.
    pub pointer: int,
    /// The index of the next instruction.
    pub program_counter: int,
    /// The input that has not been read yet.
    pub input: Seq<u8>,
    /// The output written so far.
    pub output: Seq<u8>,
}

/// Why an instruction could not be carried out.
pub enum Fault {
    /// The pointer was on the first cell and should have moved left.
    CannotMoveLeft,
    /// The pointer was on the last cell of a memory that does not grow and
    /// should have moved right.
    CannotMoveRight,
    /// The input was exhausted when a byte should have been read.
    CannotReadInput,
}

/// What one instruction leads to.
pub enum Step {
    /// The instruction was carried out and left this state.
    Next(State),
    /// The instruction failed, and the state stays as it was.
    Stop(Fault),
}

/// How a run ends.
pub enum Ending {
    /// The program counter went past the last instruction.
    Halted,
    /// An instruction failed.
    Failed(Fault),
    /// The steps allowed were used up before the program ended.
    OutOfSteps,
}

/// The state during a run: the pointer is on a cell and the program
/// counter on an instruction.
pub open spec fn running(setup: Setup, s: State) -> bool {
    &&& 0 <= s.pointer < s.cells.len()
    &&& 0 <= s.program_counter < setup.code.len()
}

/// A memory of `n` cells that all hold zero.
pub open spec fn zeros(n: nat) -> Seq<nat> {
    Seq::new(n, |i: int| 0nat)
}

/// The memory after it has doubled: the cells it had, then as many cells
/// of zero.
pub open spec fn doubled(cells: Seq<nat>) -> Seq<nat> {
    cells + zeros(cells.len())
}

/// The byte that a cell gives to the output: the low byte of its number.
pub open spec fn low_byte(value: nat) -> u8 {
    (value % 256) as u8
}

/// Carries out the instruction under the program counter.
pub open spec fn step(setup: Setup, s: State) -> Step
    recommends
        running(setup, s),
{
    let next = s.program_counter + 1;
    let cell = s.cells[s.pointer];
    match setup.code[s.program_counter].raw_instruction {
        RawInstruction::MoveLeft => if s.pointer == 0 {
            Step::Stop(Fault::CannotMoveLeft)
        } else {
            Step::Next(State { pointer: s.pointer - 1, program_counter: next, ..s })
        },
        RawInstruction::MoveRight => if s.pointer + 1 < s.cells.len() {
            Step::Next(State { pointer: s.pointer + 1, program_counter: next, ..s })
        } else if setup.can_extend && 2 * s.cells.len() <= usize::MAX {
            Step::Next(
                State {
                    cells: doubled(s.cells),
                    pointer: s.pointer + 1,
                    program_counter: next,
                    ..s
                },
            )
        } else {
            Step::Stop(Fault::CannotMoveRight)
        },
        RawInstruction::Increment => Step::Next(
            State {
                cells: s.cells.update(s.pointer, wrapping_succ(cell, setup.max)),
                program_counter: next,
                ..s
            },
        ),
        RawInstruction::Decrement => Step::Next(
            State {
                cells: s.cells.update(s.pointer, wrapping_pred(cell, setup.max)),
                program_counter: next,
                ..s
            },
        ),
        RawInstruction::Input => if s.input.len() == 0 {
            Step::Stop(Fault::CannotReadInput)
        } else {
            Step::Next(
                State {
                    cells: s.cells.update(s.pointer, s.input[0] as nat),
                    input: s.input.drop_first(),
                    program_counter: next,
                    ..s
                },
            )
        },
        RawInstruction::Output => Step::Next(
            State { output: s.output.push(low_byte(cell)), program_counter: next, ..s },
        ),
        RawInstruction::BeginLoop => Step::Next(
            State {
                program_counter: if cell == 0 {
                    setup.open_to_close[s.program_counter as usize] + 1
                } else {
                    next
                },
                ..s
            },
        ),
        RawInstruction::EndLoop => Step::Next(
            State {
                program_counter: if cell != 0 {
                    setup.close_to_open[s.program_counter as usize] + 1
                } else {
                    next
                },
                ..s
            },
        ),
    }
}

/// Runs from `s` for at most `steps` instructions: the state in which the
/// run ends, and how it ends. A run ends when the program counter has
/// left the program, when an instruction fails, or when the steps are
/// used up, whichever comes first.
pub open spec fn run(setup: Setup, s: State, steps: nat) -> (State, Ending)
    decreases steps,
{
    if s.program_counter >= setup.code.len() {
        (s, Ending::Halted)
    } else if steps == 0 {
        (s, Ending::OutOfSteps)
    } else {
        match step(setup, s) {
            Step::Next(t) => run(setup, t, (steps - 1) as nat),
            Step::Stop(fault) => (s, Ending::Failed(fault)),
        }
    }
}

/// The number of steps allowed matters only to a run that uses them up:
/// a run that ends by itself within `steps` instructions ends in the same
/// state and in the same way when it is allowed more.
pub proof fn lemma_more_steps_change_nothing(setup: Setup, s: State, steps: nat, more: nat)
    requires
        run(setup, s, steps).1 != Ending::OutOfSteps,
        steps <= more,
    ensures
        run(setup, s, more) == run(setup, s, steps),
    decreases steps,
{
    if s.program_counter < setup.code.len() && steps > 0 {
        match step(setup, s) {
            Step::Next(t) => {
                lemma_more_steps_change_nothing(setup, t, (steps - 1) as nat, (more - 1) as nat);
            },
            Step::Stop(_) => {},
        }
    }
}

} // verus!
