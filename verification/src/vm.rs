//! The virtual machine: its memory, its jump table and the execution loop.

use crate::auto_newline_writer::{closing, AutoNewlineWriter};
use crate::brackets::{bracket_weight, depth, matching, well_nested};
use crate::brainfuck_runtime_error::{BrainfuckRuntimeError, IoFailure};
use crate::byte_source::ByteSource;
use crate::cell_kind::{wrapping_pred, wrapping_succ, CellKind};
use crate::instruction::{Instruction, RawInstruction};
use crate::program::Program;
use crate::semantics::{doubled, low_byte, run, step, zeros, Ending, Fault, Setup, State, Step};
use std::collections::HashMap;
use vstd::prelude::*;

verus! {

/// The numbers held by a sequence of cells.
pub open spec fn values_of<T: CellKind>(cells: Seq<T>) -> Seq<nat> {
    cells.map_values(|c: T| c.spec_value())
}

/// The two maps are the jump table of `ins`: the first takes the index of
/// each opening bracket to that of its closing bracket, the second takes
/// each closing bracket back to its opening bracket, and neither holds
/// anything else.
pub open spec fn jump_table(
    ins: Seq<Instruction>,
    open_to_close: Map<usize, usize>,
    close_to_open: Map<usize, usize>,
) -> bool {
    &&& forall|i: usize| #[trigger]
        open_to_close.contains_key(i) <==> i < ins.len() && ins[i as int].raw_instruction
            == RawInstruction::BeginLoop
    &&& forall|i: usize| #[trigger]
        open_to_close.contains_key(i) ==> matching(ins, i as int, open_to_close[i] as int)
    &&& forall|j: usize| #[trigger]
        close_to_open.contains_key(j) <==> j < ins.len() && ins[j as int].raw_instruction
            == RawInstruction::EndLoop
    &&& forall|j: usize| #[trigger]
        close_to_open.contains_key(j) ==> matching(ins, close_to_open[j] as int, j as int)
}

/// The opening bracket at `i` is not closed among the first `n`
/// instructions.
spec fn still_open(ins: Seq<Instruction>, i: int, n: int) -> bool {
    forall|k: int| i < k <= n ==> depth(ins, k) > depth(ins, i)
}

/// The error `e` reports the fault, at the instruction `ins` of the source
/// named `path`.
pub open spec fn describes(
    e: BrainfuckRuntimeError,
    fault: Fault,
    path: Seq<char>,
    ins: Instruction,
) -> bool {
    match fault {
        Fault::CannotMoveLeft => {
            &&& e matches BrainfuckRuntimeError::CannotMoveLeftError(p, i)
            &&& p@ == path
            &&& i == ins
        },
        Fault::CannotMoveRight => {
            &&& e matches BrainfuckRuntimeError::CannotMoveRightError(p, i)
            &&& p@ == path
            &&& i == ins
        },
        Fault::CannotReadInput => {
            &&& e matches BrainfuckRuntimeError::CannotReadInputError(
                IoFailure::UnexpectedEof,
                p,
                i,
            )
            &&& p@ == path
            &&& i == ins
        },
    }
}

/// The result `r` reports how a run ended, where `ins` is the instruction
/// under the program counter at the end and `path` names the source.
pub open spec fn reports(
    r: Result<(), BrainfuckRuntimeError>,
    ending: Ending,
    path: Seq<char>,
    ins: Instruction,
) -> bool {
    match ending {
        Ending::Halted => r is Ok,
        Ending::Failed(fault) => {
            &&& r matches Err(e)
            &&& describes(e, fault, path, ins)
        },
        Ending::OutOfSteps => {
            &&& r matches Err(BrainfuckRuntimeError::StepLimitReachedError(p, i))
            &&& p@ == path
            &&& i == ins
        },
    }
}

/// What the instruction under the program counter needs from outside
/// the machine before it can be carried out.
#[derive(Debug, Clone, Copy, PartialEq, Eq, Structural)]
pub enum Pending {
    /// Nothing: the program has ended.
    Halted,
    /// Nothing: the instruction works on the machine alone.
    Plain,
    /// One byte of input.
    Input,
    /// That this byte be written to the output.
    Output(u8),
}

/// The Brainfuck virtual machine, with cells of kind `T`.
#[derive(Debug)]
pub struct VM<'a, T: CellKind> {
    memory: Vec<T>,
    pointer: usize,
    can_extend: bool,
    program_counter: usize,
    program: &'a Program,
    open_to_close: HashMap<usize, usize>,
    close_to_open: HashMap<usize, usize>,
}

impl<'a, T: CellKind> VM<'a, T> {
    /// The numbers in the memory cells, in contracts.
    pub closed spec fn cells(&self) -> Seq<nat> {
        values_of(self.memory@)
    }

    /// The index of the current cell, in contracts.
    pub closed spec fn spec_pointer(&self) -> int {
        self.pointer as int
    }

    /// The index of the next instruction, in contracts.
    pub closed spec fn spec_program_counter(&self) -> int {
        self.program_counter as int
    }

    /// Whether the memory may grow, in contracts.
    pub closed spec fn spec_can_extend(&self) -> bool {
        self.can_extend
    }

    /// The program that the machine runs, in contracts.
    pub closed spec fn spec_program(&self) -> Program {
        *self.program
    }

    /// The instructions of the program, in contracts.
    pub open spec fn code(&self) -> Seq<Instruction> {
        self.spec_program().spec_instructions()
    }

    /// From each opening bracket to its closing bracket, in contracts.
    pub closed spec fn spec_open_to_close(&self) -> Map<usize, usize> {
        self.open_to_close@
    }

    /// From each closing bracket to its opening bracket, in contracts.
    pub closed spec fn spec_close_to_open(&self) -> Map<usize, usize> {
        self.close_to_open@
    }

    /// The machine is in order: the pointer is inside the memory, which has
    /// at least one cell; the program counter is inside the program or just
    /// behind it; the program's brackets match and the jump table is theirs.
    pub open spec fn wf(&self) -> bool {
        &&& self.cells().len() >= 1
        &&& 0 <= self.spec_pointer() < self.cells().len()
        &&& 0 <= self.spec_program_counter() <= self.code().len()
        &&& self.spec_program().spec_valid()
        &&& jump_table(self.code(), self.spec_open_to_close(), self.spec_close_to_open())
    }

    /// Builds a machine for `program` with `memory_size` cells, all zero,
    /// the pointer on the first cell and the program counter on the first
    /// instruction. The program's brackets must match.
    pub fn new(memory_size: usize, can_extend: bool, program: &'a Program) -> (r: VM<'a, T>)
        requires
            memory_size > 0,
            program.spec_valid(),
        ensures
            r.wf(),
            r.cells() == zeros(memory_size as nat),
            r.spec_pointer() == 0,
            r.spec_program_counter() == 0,
            r.spec_can_extend() == can_extend,
            r.spec_program() == *program,
    {
        broadcast use vstd::std_specs::hash::group_hash_axioms;

        let mut memory: Vec<T> = Vec::new();
        let mut filled: usize = 0;
        while filled < memory_size
            invariant
                filled <= memory_size,
                memory@.len() == filled,
                forall|i: int| 0 <= i < filled ==> (#[trigger] memory@[i]).spec_value() == 0,
            decreases memory_size - filled,
        {
            memory.push(T::zero());
            filled = filled + 1;
        }
        assert(values_of(memory@) == zeros(memory_size as nat));

        let instructions = program.instructions();
        let ghost ins = instructions@;
        let mut open_to_close: HashMap<usize, usize> = HashMap::new();
        let mut close_to_open: HashMap<usize, usize> = HashMap::new();
        let mut stack: Vec<usize> = Vec::with_capacity(instructions.len());
        let mut idx: usize = 0;
        while idx < instructions.len()
            invariant
                ins == instructions@,
                well_nested(ins),
                0 <= idx <= ins.len(),
                stack@.len() == depth(ins, idx as int),
                forall|t: int|
                    0 <= t < stack@.len() ==> {
                        &&& 0 <= #[trigger] stack@[t] < idx
                        &&& ins[stack@[t] as int].raw_instruction == RawInstruction::BeginLoop
                        &&& depth(ins, stack@[t] as int) == t
                        &&& still_open(ins, stack@[t] as int, idx as int)
                    },
                forall|i: usize| #[trigger]
                    open_to_close@.contains_key(i) ==> open_to_close@[i] < idx && matching(
                        ins,
                        i as int,
                        open_to_close@[i] as int,
                    ),
                forall|i: usize|
                    i < idx && ins[i as int].raw_instruction == RawInstruction::BeginLoop
                        && !still_open(ins, i as int, idx as int)
                        ==> #[trigger] open_to_close@.contains_key(i),
                forall|j: usize| #[trigger]
                    close_to_open@.contains_key(j) <==> j < idx && ins[j as int].raw_instruction
                        == RawInstruction::EndLoop,
                forall|j: usize| #[trigger]
                    close_to_open@.contains_key(j) ==> matching(
                        ins,
                        close_to_open@[j] as int,
                        j as int,
                    ),
            decreases ins.len() - idx,
        {
            let current = instructions[idx];
            assert(depth(ins, idx + 1) == depth(ins, idx as int) + bracket_weight(
                current.raw_instruction,
            ));
            assert(depth(ins, idx + 1) >= 0);
            if current.raw_instruction() == RawInstruction::BeginLoop {
                stack.push(idx);
            } else if current.raw_instruction() == RawInstruction::EndLoop {
                let open_idx = stack.pop().unwrap();
                assert(matching(ins, open_idx as int, idx as int));
                open_to_close.insert(open_idx, idx);
                close_to_open.insert(idx, open_idx);
            }
            idx = idx + 1;
        }
        assert(jump_table(ins, open_to_close@, close_to_open@)) by {
            assert forall|i: usize|
                i < ins.len() && ins[i as int].raw_instruction
                    == RawInstruction::BeginLoop implies #[trigger] open_to_close@.contains_key(
                i,
            ) by {
                assert(depth(ins, i as int) >= 0);
                assert(!still_open(ins, i as int, ins.len() as int));
            }
        }

        VM {
            memory,
            pointer: 0,
            can_extend,
            program_counter: 0,
            program,
            open_to_close,
            close_to_open,
        }
    }

    /// The memory cells.
    pub fn memory(&self) -> (r: &[T])
        ensures
            values_of(r@) == self.cells(),
    {
        self.memory.as_slice()
    }

    /// Whether the memory may grow when the pointer moves past its end.
    pub fn can_extend(&self) -> (r: bool)
        ensures
            r == self.spec_can_extend(),
    {
        self.can_extend
    }

    /// The index of the current cell.
    pub fn pointer(&self) -> (r: usize)
        ensures
            r == self.spec_pointer(),
    {
        self.pointer
    }

    /// The index of the next instruction; the length of the program when
    /// it has ended.
    pub fn program_counter(&self) -> (r: usize)
        ensures
            r == self.spec_program_counter(),
    {
        self.program_counter
    }

    /// The jump table from each opening bracket to its closing bracket.
    pub fn open_to_close(&self) -> (r: &HashMap<usize, usize>)
        ensures
            r@ == self.spec_open_to_close(),
    {
        &self.open_to_close
    }

    /// The jump table from each closing bracket to its opening bracket.
    pub fn close_to_open(&self) -> (r: &HashMap<usize, usize>)
        ensures
            r@ == self.spec_close_to_open(),
    {
        &self.close_to_open
    }

    /// Puts the pointer on the cell at `pointer`.
    pub fn set_pointer(&mut self, pointer: usize)
        requires
            old(self).wf(),
            pointer < old(self).cells().len(),
        ensures
            final(self).wf(),
            final(self).same_setup(old(self)),
            final(self).spec_pointer() == pointer,
            final(self).spec_program_counter() == old(self).spec_program_counter(),
            final(self).cells() == old(self).cells(),
    {
        self.pointer = pointer;
    }

    /// Puts the program counter on the instruction at `program_counter`,
    /// or behind the last one.
    pub fn set_program_counter(&mut self, program_counter: usize)
        requires
            old(self).wf(),
            program_counter <= old(self).code().len(),
        ensures
            final(self).wf(),
            final(self).same_setup(old(self)),
            final(self).spec_program_counter() == program_counter,
            final(self).spec_pointer() == old(self).spec_pointer(),
            final(self).cells() == old(self).cells(),
    {
        self.program_counter = program_counter;
    }

    /// Replaces the cell at `index`.
    pub fn set_cell(&mut self, index: usize, cell: T)
        requires
            old(self).wf(),
            index < old(self).cells().len(),
        ensures
            final(self).wf(),
            final(self).same_setup(old(self)),
            final(self).spec_program_counter() == old(self).spec_program_counter(),
            final(self).spec_pointer() == old(self).spec_pointer(),
            final(self).cells() == old(self).cells().update(index as int, cell.spec_value()),
    {
        self.memory[index] = cell;
        assert(final(self).cells() =~= old(self).cells().update(
            index as int,
            cell.spec_value(),
        ));
    }

    /// What the machine needs next: nothing once the program has ended or
    /// for an instruction that works on the machine alone, a byte for an
    /// input instruction, and for an output instruction that the current
    /// cell's byte be written.
    pub fn pending(&self) -> (r: Pending)
        requires
            self.wf(),
        ensures
            r == if self.spec_program_counter() == self.code().len() {
                Pending::Halted
            } else {
                match self.current().raw_instruction {
                    RawInstruction::Input => Pending::Input,
                    RawInstruction::Output => Pending::Output(self.current_byte()),
                    _ => Pending::Plain,
                }
            },
    {
        let instructions = self.program.instructions();
        if self.program_counter >= instructions.len() {
            Pending::Halted
        } else {
            match instructions[self.program_counter].raw_instruction() {
                RawInstruction::Input => Pending::Input,
                RawInstruction::Output => Pending::Output(self.output_byte()),
                _ => Pending::Plain,
            }
        }
    }

    /// The other machine runs the same program with the same jump table
    /// and the same rule for growing.
    pub open spec fn same_setup(&self, other: &Self) -> bool {
        &&& self.spec_program() == other.spec_program()
        &&& self.spec_can_extend() == other.spec_can_extend()
        &&& self.spec_open_to_close() == other.spec_open_to_close()
        &&& self.spec_close_to_open() == other.spec_close_to_open()
    }

    /// The machine is in order and its program counter is on an
    /// instruction.
    pub open spec fn at_instruction(&self) -> bool {
        self.wf() && self.spec_program_counter() < self.code().len()
    }

    /// The instruction under the program counter.
    pub open spec fn current(&self) -> Instruction {
        self.code()[self.spec_program_counter()]
    }

    /// The byte that the current cell gives to the output: the low byte of
    /// its number.
    pub open spec fn current_byte(&self) -> u8 {
        low_byte(self.cells()[self.spec_pointer()])
    }

    /// The index behind the current instruction.
    fn following(&self) -> (r: usize)
        requires
            self.at_instruction(),
        ensures
            r == self.spec_program_counter() + 1,
    {
        proof {
            self.program.lemma_length_fits();
        }
        self.program_counter + 1
    }

    /// Moves the pointer one cell to the left and returns the index of the
    /// next instruction. Fails, and moves nothing, when the pointer is on
    /// the first cell.
    pub fn move_left(&mut self) -> (r: Result<usize, BrainfuckRuntimeError>)
        requires
            old(self).at_instruction(),
        ensures
            final(self).wf(),
            final(self).same_setup(old(self)),
            final(self).spec_program_counter() == old(self).spec_program_counter(),
            final(self).cells() == old(self).cells(),
            old(self).spec_pointer() > 0 ==> {
                &&& final(self).spec_pointer() == old(self).spec_pointer() - 1
                &&& r == Ok::<usize, BrainfuckRuntimeError>(
                    (old(self).spec_program_counter() + 1) as usize,
                )
            },
            old(self).spec_pointer() == 0 ==> {
                &&& final(self).spec_pointer() == 0
                &&& r matches Err(BrainfuckRuntimeError::CannotMoveLeftError(path, ins))
                &&& path@ == old(self).spec_program().spec_file_path()
                &&& ins == old(self).current()
            },
    {
        if self.pointer == 0 {
            return Err(
                BrainfuckRuntimeError::CannotMoveLeftError(
                    self.program.file_path().to_owned(),
                    self.program.instructions()[self.program_counter],
                ),
            );
        }
        self.pointer = self.pointer - 1;
        Ok(self.following())
    }

    /// Moves the pointer one cell to the right and returns the index of the
    /// next instruction. On the last cell, a memory that may grow doubles
    /// in length first, keeping its cells and adding cells of zero; one
    /// that may not grow, or whose doubled length no `usize` can hold,
    /// fails and changes nothing.
    pub fn move_right(&mut self) -> (r: Result<usize, BrainfuckRuntimeError>)
        requires
            old(self).at_instruction(),
        ensures
            final(self).wf(),
            final(self).same_setup(old(self)),
            final(self).spec_program_counter() == old(self).spec_program_counter(),
            old(self).spec_pointer() + 1 < old(self).cells().len() ==> {
                &&& final(self).cells() == old(self).cells()
                &&& final(self).spec_pointer() == old(self).spec_pointer() + 1
                &&& r == Ok::<usize, BrainfuckRuntimeError>(
                    (old(self).spec_program_counter() + 1) as usize,
                )
            },
            old(self).spec_pointer() + 1 == old(self).cells().len() && old(self).can_grow() ==> {
                &&& final(self).cells() == doubled(old(self).cells())
                &&& final(self).spec_pointer() == old(self).spec_pointer() + 1
                &&& r == Ok::<usize, BrainfuckRuntimeError>(
                    (old(self).spec_program_counter() + 1) as usize,
                )
            },
            old(self).spec_pointer() + 1 == old(self).cells().len() && !old(self).can_grow() ==> {
                &&& final(self).cells() == old(self).cells()
                &&& final(self).spec_pointer() == old(self).spec_pointer()
                &&& r matches Err(BrainfuckRuntimeError::CannotMoveRightError(path, ins))
                &&& path@ == old(self).spec_program().spec_file_path()
                &&& ins == old(self).current()
            },
    {
        let memory_size = self.memory.len();
        if self.pointer == memory_size - 1 {
            if !self.can_extend || memory_size > usize::MAX / 2 {
                return Err(
                    BrainfuckRuntimeError::CannotMoveRightError(
                        self.program.file_path().to_owned(),
                        self.program.instructions()[self.program_counter],
                    ),
                );
            }
            let ghost before = self.memory@;
            let mut added: usize = 0;
            while added < memory_size
                invariant
                    added <= memory_size,
                    memory_size == before.len(),
                    2 * memory_size <= usize::MAX,
                    self.memory@.len() == memory_size + added,
                    self.memory@.subrange(0, memory_size as int) == before,
                    forall|i: int|
                        memory_size <= i < memory_size + added ==> (
                        #[trigger] self.memory@[i]).spec_value() == 0,
                    self.pointer == old(self).pointer,
                    self.program_counter == old(self).program_counter,
                    self.can_extend == old(self).can_extend,
                    self.program == old(self).program,
                    self.open_to_close == old(self).open_to_close,
                    self.close_to_open == old(self).close_to_open,
                decreases memory_size - added,
            {
                self.memory.push(T::zero());
                added = added + 1;
            }
            assert(values_of(self.memory@) == doubled(values_of(before))) by {
                let grown = values_of(self.memory@);
                let wanted = doubled(values_of(before));
                assert forall|i: int| 0 <= i < grown.len() implies grown[i] == wanted[i] by {
                    if i < memory_size {
                        assert(self.memory@[i] == self.memory@.subrange(0, memory_size as int)[i]);
                    }
                }
                assert(grown =~= wanted);
            }
        }
        self.pointer = self.pointer + 1;
        Ok(self.following())
    }

    /// Whether a memory whose pointer is on the last cell grows when the
    /// pointer moves right: it may grow, and twice its length is a `usize`.
    pub open spec fn can_grow(&self) -> bool {
        self.spec_can_extend() && 2 * self.cells().len() <= usize::MAX
    }

    /// Adds one to the current cell, wrapping, and returns the index of
    /// the next instruction.
    pub fn increment(&mut self) -> (r: Result<usize, BrainfuckRuntimeError>)
        requires
            old(self).at_instruction(),
        ensures
            final(self).wf(),
            final(self).same_setup(old(self)),
            final(self).spec_program_counter() == old(self).spec_program_counter(),
            final(self).spec_pointer() == old(self).spec_pointer(),
            final(self).cells() == old(self).cells().update(
                old(self).spec_pointer(),
                wrapping_succ(old(self).cells()[old(self).spec_pointer()], T::spec_max()),
            ),
            r == Ok::<usize, BrainfuckRuntimeError>(
                (old(self).spec_program_counter() + 1) as usize,
            ),
    {
        self.memory[self.pointer].increment();
        assert(final(self).cells() =~= old(self).cells().update(
            old(self).spec_pointer(),
            wrapping_succ(old(self).cells()[old(self).spec_pointer()], T::spec_max()),
        ));
        Ok(self.following())
    }

    /// Subtracts one from the current cell, wrapping, and returns the
    /// index of the next instruction.
    pub fn decrement(&mut self) -> (r: Result<usize, BrainfuckRuntimeError>)
        requires
            old(self).at_instruction(),
        ensures
            final(self).wf(),
            final(self).same_setup(old(self)),
            final(self).spec_program_counter() == old(self).spec_program_counter(),
            final(self).spec_pointer() == old(self).spec_pointer(),
            final(self).cells() == old(self).cells().update(
                old(self).spec_pointer(),
                wrapping_pred(old(self).cells()[old(self).spec_pointer()], T::spec_max()),
            ),
            r == Ok::<usize, BrainfuckRuntimeError>(
                (old(self).spec_program_counter() + 1) as usize,
            ),
    {
        self.memory[self.pointer].decrement();
        assert(final(self).cells() =~= old(self).cells().update(
            old(self).spec_pointer(),
            wrapping_pred(old(self).cells()[old(self).spec_pointer()], T::spec_max()),
        ));
        Ok(self.following())
    }

    /// Finishes an input instruction, given how reading one byte went. A
    /// byte that was read is stored in the current cell, and the index of
    /// the next instruction is returned; a failure is reported with the
    /// instruction that wanted the byte, and changes nothing.
    pub fn resume_input(&mut self, read: Result<u8, IoFailure>) -> (r: Result<
        usize,
        BrainfuckRuntimeError,
    >)
        requires
            old(self).at_instruction(),
        ensures
            final(self).wf(),
            final(self).same_setup(old(self)),
            final(self).spec_program_counter() == old(self).spec_program_counter(),
            final(self).spec_pointer() == old(self).spec_pointer(),
            match read {
                Ok(byte) => {
                    &&& final(self).cells() == old(self).cells().update(
                        old(self).spec_pointer(),
                        byte as nat,
                    )
                    &&& r == Ok::<usize, BrainfuckRuntimeError>(
                        (old(self).spec_program_counter() + 1) as usize,
                    )
                },
                Err(failure) => {
                    &&& final(self).cells() == old(self).cells()
                    &&& r matches Err(BrainfuckRuntimeError::CannotReadInputError(why, path, ins))
                    &&& why == failure
                    &&& path@ == old(self).spec_program().spec_file_path()
                    &&& ins == old(self).current()
                },
            },
    {
        match read {
            Ok(byte) => {
                self.memory[self.pointer].set_value(byte);
                assert(final(self).cells() =~= old(self).cells().update(
                    old(self).spec_pointer(),
                    byte as nat,
                ));
                Ok(self.following())
            },
            Err(failure) => Err(
                BrainfuckRuntimeError::CannotReadInputError(
                    failure,
                    self.program.file_path().to_owned(),
                    self.program.instructions()[self.program_counter],
                ),
            ),
        }
    }

    /// Reads one byte from the input into the current cell and returns the
    /// index of the next instruction. Fails, and changes nothing, when the
    /// input has no byte left.
    pub fn read_value(&mut self, input_source: &mut ByteSource) -> (r: Result<
        usize,
        BrainfuckRuntimeError,
    >)
        requires
            old(self).at_instruction(),
        ensures
            final(self).wf(),
            final(self).same_setup(old(self)),
            final(self).spec_program_counter() == old(self).spec_program_counter(),
            final(self).spec_pointer() == old(self).spec_pointer(),
            old(input_source).remaining().len() > 0 ==> {
                &&& final(input_source).remaining() == old(input_source).remaining().drop_first()
                &&& final(self).cells() == old(self).cells().update(
                    old(self).spec_pointer(),
                    old(input_source).remaining()[0] as nat,
                )
                &&& r == Ok::<usize, BrainfuckRuntimeError>(
                    (old(self).spec_program_counter() + 1) as usize,
                )
            },
            old(input_source).remaining().len() == 0 ==> {
                &&& final(input_source).remaining() == old(input_source).remaining()
                &&& final(self).cells() == old(self).cells()
                &&& r matches Err(
                    BrainfuckRuntimeError::CannotReadInputError(
                        IoFailure::UnexpectedEof,
                        path,
                        ins,
                    ),
                )
                &&& path@ == old(self).spec_program().spec_file_path()
                &&& ins == old(self).current()
            },
    {
        let read = input_source.read_byte();
        self.resume_input(read)
    }

    /// The byte that an output instruction writes: the current cell's.
    pub fn output_byte(&self) -> (r: u8)
        requires
            self.wf(),
        ensures
            r == self.current_byte(),
    {
        self.memory[self.pointer].get_value()
    }

    /// Finishes an output instruction, given how writing and flushing the
    /// byte went: the index of the next instruction after a success, and
    /// after a failure the error, with the instruction that wrote.
    pub fn resume_output(&self, written: Result<(), IoFailure>) -> (r: Result<
        usize,
        BrainfuckRuntimeError,
    >)
        requires
            self.at_instruction(),
        ensures
            match written {
                Ok(_) => r == Ok::<usize, BrainfuckRuntimeError>(
                    (self.spec_program_counter() + 1) as usize,
                ),
                Err(failure) => {
                    &&& r matches Err(BrainfuckRuntimeError::CannotWriteOutputError(why, path, ins))
                    &&& why == failure
                    &&& path@ == self.spec_program().spec_file_path()
                    &&& ins == self.current()
                },
            },
    {
        match written {
            Ok(_) => Ok(self.following()),
            Err(failure) => Err(
                BrainfuckRuntimeError::CannotWriteOutputError(
                    failure,
                    self.program.file_path().to_owned(),
                    self.program.instructions()[self.program_counter],
                ),
            ),
        }
    }

    /// Writes the current cell's byte to the output, flushes it, and
    /// returns the index of the next instruction.
    pub fn write_value(&self, write_destination: &mut AutoNewlineWriter) -> (r: Result<
        usize,
        BrainfuckRuntimeError,
    >)
        requires
            self.at_instruction(),
            old(write_destination).wf(),
        ensures
            final(write_destination).wf(),
            final(write_destination).buffer() == old(write_destination).buffer().push(
                self.current_byte(),
            ),
            final(write_destination).written() == old(write_destination).written().push(
                self.current_byte(),
            ),
            r == Ok::<usize, BrainfuckRuntimeError>((self.spec_program_counter() + 1) as usize),
    {
        let value = self.output_byte();
        let buf = [value];
        let written = match write_destination.write(buf.as_slice()) {
            Ok(_) => write_destination.flush(),
            Err(failure) => Err(failure),
        };
        assert(buf@ == seq![value]);
        assert(old(write_destination).written() + seq![value] == old(
            write_destination,
        ).written().push(value));
        assert(old(write_destination).buffer() + seq![value] == old(
            write_destination,
        ).buffer().push(value));
        self.resume_output(written)
    }

    /// Starts a loop: returns the index behind the matching closing
    /// bracket if the current cell is zero, and the index of the next
    /// instruction if not.
    pub fn begin_loop(&self) -> (r: Result<usize, BrainfuckRuntimeError>)
        requires
            self.at_instruction(),
            self.current().raw_instruction == RawInstruction::BeginLoop,
        ensures
            self.spec_open_to_close().contains_key(self.spec_program_counter() as usize),
            r == Ok::<usize, BrainfuckRuntimeError>(
                if self.cells()[self.spec_pointer()] == 0 {
                    (self.spec_open_to_close()[self.spec_program_counter() as usize] + 1) as usize
                } else {
                    (self.spec_program_counter() + 1) as usize
                },
            ),
    {
        broadcast use vstd::std_specs::hash::group_hash_axioms;

        if self.memory[self.pointer].is_zero() {
            let close = self.open_to_close.get(&self.program_counter);
            assert(self.spec_open_to_close().contains_key(self.program_counter));
            let close_idx = *close.unwrap();
            assert(matching(self.code(), self.program_counter as int, close_idx as int));
            proof {
                self.program.lemma_length_fits();
            }
            Ok(close_idx + 1)
        } else {
            Ok(self.following())
        }
    }

    /// Ends a loop: returns the index behind the matching opening bracket
    /// if the current cell is not zero, and the index of the next
    /// instruction if it is.
    pub fn end_loop(&self) -> (r: Result<usize, BrainfuckRuntimeError>)
        requires
            self.at_instruction(),
            self.current().raw_instruction == RawInstruction::EndLoop,
        ensures
            self.spec_close_to_open().contains_key(self.spec_program_counter() as usize),
            r == Ok::<usize, BrainfuckRuntimeError>(
                if self.cells()[self.spec_pointer()] != 0 {
                    (self.spec_close_to_open()[self.spec_program_counter() as usize] + 1) as usize
                } else {
                    (self.spec_program_counter() + 1) as usize
                },
            ),
    {
        broadcast use vstd::std_specs::hash::group_hash_axioms;

        if !self.memory[self.pointer].is_zero() {
            let open = self.close_to_open.get(&self.program_counter);
            assert(self.spec_close_to_open().contains_key(self.program_counter));
            let open_idx = *open.unwrap();
            assert(matching(self.code(), open_idx as int, self.program_counter as int));
            Ok(open_idx + 1)
        } else {
            Ok(self.following())
        }
    }

    /// What stays the same while the machine runs.
    pub open spec fn setup(&self) -> Setup {
        Setup {
            code: self.code(),
            open_to_close: self.spec_open_to_close(),
            close_to_open: self.spec_close_to_open(),
            can_extend: self.spec_can_extend(),
            max: T::spec_max(),
        }
    }

    /// The state of a run in which the machine is as it is, `input` is
    /// still to be read and `output` has been written.
    pub open spec fn state(&self, input: Seq<u8>, output: Seq<u8>) -> State {
        State {
            cells: self.cells(),
            pointer: self.spec_pointer(),
            program_counter: self.spec_program_counter(),
            input,
            output,
        }
    }

    /// Carries out the instruction under the program counter and moves the
    /// program counter on. After a failure the machine, the input and the
    /// output are as they were.
    pub fn step(
        &mut self,
        read_source: &mut ByteSource,
        write_destination: &mut AutoNewlineWriter,
    ) -> (r: Result<(), BrainfuckRuntimeError>)
        requires
            old(self).at_instruction(),
            old(write_destination).wf(),
        ensures
            final(self).wf(),
            final(self).same_setup(old(self)),
            final(write_destination).wf(),
            final(write_destination).grew_by(
                old(write_destination),
                final(write_destination).written().skip(
                    old(write_destination).written().len() as int,
                ),
            ),
            match step(
                old(self).setup(),
                old(self).state(old(read_source).remaining(), old(write_destination).written()),
            ) {
                Step::Next(t) => {
                    &&& r is Ok
                    &&& final(self).state(
                        final(read_source).remaining(),
                        final(write_destination).written(),
                    ) == t
                },
                Step::Stop(fault) => {
                    &&& r matches Err(e)
                    &&& describes(
                        e,
                        fault,
                        old(self).spec_program().spec_file_path(),
                        old(self).current(),
                    )
                    &&& final(self).state(
                        final(read_source).remaining(),
                        final(write_destination).written(),
                    ) == old(self).state(
                        old(read_source).remaining(),
                        old(write_destination).written(),
                    )
                },
            },
    {
        let instruction = self.program.instructions()[self.program_counter];
        let moved = match instruction.raw_instruction() {
            RawInstruction::MoveLeft => self.move_left(),
            RawInstruction::MoveRight => self.move_right(),
            RawInstruction::Increment => self.increment(),
            RawInstruction::Decrement => self.decrement(),
            RawInstruction::Input => self.read_value(read_source),
            RawInstruction::Output => self.write_value(write_destination),
            RawInstruction::BeginLoop => self.begin_loop(),
            RawInstruction::EndLoop => self.end_loop(),
        };
        proof {
            let earlier = old(write_destination).written();
            let added = write_destination.written().skip(earlier.len() as int);
            assert(write_destination.written() =~= earlier + added);
            assert(write_destination.buffer() =~= old(write_destination).buffer() + added);
        }
        match moved {
            Ok(next) => {
                self.program_counter = next;
                Ok(())
            },
            Err(e) => Err(e),
        }
    }

    /// Runs the program from where the machine stands, for at most
    /// `step_limit` instructions, reading from `read_source` and appending
    /// to `write_destination`. The run ends when the program counter has
    /// left the program, at the first instruction that fails, or when the
    /// steps are used up. However it ends, the output of the run is made
    /// to end on a line boundary.
    pub fn interpret(
        &mut self,
        read_source: &mut ByteSource,
        write_destination: &mut Vec<u8>,
        step_limit: u64,
    ) -> (r: Result<(), BrainfuckRuntimeError>)
        requires
            old(self).wf(),
        ensures
            final(self).wf(),
            final(self).same_setup(old(self)),
            ({
                let (end, ending) = run(
                    old(self).setup(),
                    old(self).state(old(read_source).remaining(), Seq::empty()),
                    step_limit as nat,
                );
                &&& final(self).state(final(read_source).remaining(), end.output) == end
                &&& final(write_destination)@ == old(write_destination)@ + end.output + closing(
                    end.output,
                )
                &&& reports(
                    r,
                    ending,
                    old(self).spec_program().spec_file_path(),
                    old(self).code()[end.program_counter],
                )
            }),
    {
        let ghost setup = self.setup();
        let ghost start = self.state(read_source.remaining(), Seq::empty());
        let ghost path = self.spec_program().spec_file_path();
        let mut buffer: Vec<u8> = Vec::new();
        std::mem::swap(write_destination, &mut buffer);
        let mut auto_newline_writer = AutoNewlineWriter::new(buffer);
        let mut steps: u64 = 0;
        let mut result: Result<(), BrainfuckRuntimeError> = Ok(());
        while self.program_counter < self.program.instructions().len()
            invariant_except_break
                result is Ok,
                run(setup, start, step_limit as nat) == run(
                    setup,
                    self.state(read_source.remaining(), auto_newline_writer.written()),
                    (step_limit - steps) as nat,
                ),
            invariant
                self.wf(),
                self.same_setup(old(self)),
                self.setup() == setup,
                auto_newline_writer.wf(),
                auto_newline_writer.buffer() == old(write_destination)@
                    + auto_newline_writer.written(),
                steps <= step_limit,
                path == self.spec_program().spec_file_path(),
            ensures
                run(setup, start, step_limit as nat).0 == self.state(
                    read_source.remaining(),
                    auto_newline_writer.written(),
                ),
                reports(
                    result,
                    run(setup, start, step_limit as nat).1,
                    path,
                    self.code()[self.spec_program_counter()],
                ),
            decreases step_limit - steps,
        {
            if steps == step_limit {
                result = Err(
                    BrainfuckRuntimeError::StepLimitReachedError(
                        self.program.file_path().to_owned(),
                        self.program.instructions()[self.program_counter],
                    ),
                );
                break;
            }
            match self.step(read_source, &mut auto_newline_writer) {
                Ok(_) => {
                    steps = steps + 1;
                },
                Err(e) => {
                    result = Err(e);
                    break;
                },
            }
        }
        *write_destination = auto_newline_writer.finish();
        result
    }
}

} // verus!
