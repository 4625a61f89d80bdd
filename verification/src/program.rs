//! Loading a program from source text and checking its brackets.

use crate::brackets::{
    bracket_weight, depth, first_unmatched_close, first_unmatched_open,
    lemma_unmatched_close_not_nested, never_negative, well_nested,
};
use crate::instruction::{opcode_of, Instruction, RawInstruction};
use crate::text::{location, location_text};
use vstd::prelude::*;
use vstd::string::StringExecFns;
use vstd::std_specs::iter::IteratorSpec;

verus! {

/// The row of the character at index `i` of `text`: one more than the
/// number of line breaks before it.
pub open spec fn row_at(text: Seq<char>, i: int) -> int
    decreases i,
{
    if i <= 0 {
        1
    } else if text[i - 1] == '\n' {
        row_at(text, i - 1) + 1
    } else {
        row_at(text, i - 1)
    }
}

/// The column of the character at index `i` of `text`: one more than the
/// number of characters between it and the last line break before it.
pub open spec fn col_at(text: Seq<char>, i: int) -> int
    decreases i,
{
    if i <= 0 {
        1
    } else if text[i - 1] == '\n' {
        1
    } else {
        col_at(text, i - 1) + 1
    }
}

/// The instructions among the first `n` characters of `text`, in source
/// order, each with its position.
pub open spec fn scan(text: Seq<char>, n: int) -> Seq<Instruction>
    decreases n,
{
    if n <= 0 {
        Seq::empty()
    } else {
        match opcode_of(text[n - 1]) {
            Some(op) => scan(text, n - 1).push(
                Instruction {
                    row: row_at(text, n - 1) as usize,
                    col: col_at(text, n - 1) as usize,
                    raw_instruction: op,
                },
            ),
            None => scan(text, n - 1),
        }
    }
}

/// Rows and columns of a text never exceed its length by more than one.
pub proof fn lemma_position_bounds(text: Seq<char>, i: int)
    requires
        0 <= i <= text.len(),
    ensures
        1 <= row_at(text, i) <= i + 1,
        1 <= col_at(text, i) <= i + 1,
    decreases i,
{
    if i > 0 {
        lemma_position_bounds(text, i - 1);
    }
}

/// A text has at most as many characters as its encoding has bytes.
proof fn lemma_chars_within_bytes(text: Seq<char>)
    ensures
        text.len() <= vstd::utf8::encode_utf8(text).len(),
    decreases text.len(),
{
    if text.len() > 0 {
        lemma_chars_within_bytes(text.drop_first());
    }
}

/// Why a program's brackets do not match.
#[derive(Debug)]
pub enum IncompatibleBracket {
    /// A closing bracket has no opening bracket to match.
    MissingOpenBracket {
        /// The name of the source.
        file_path: String,
        /// The closing bracket.
        close_bracket: Instruction,
    },
    /// An opening bracket is never closed.
    MissingCloseBracket {
        /// The name of the source.
        file_path: String,
        /// The opening bracket.
        open_bracket: Instruction,
    },
}

impl IncompatibleBracket {
    /// The message for the error.
    pub open spec fn spec_message(&self) -> Seq<char> {
        match self {
            IncompatibleBracket::MissingOpenBracket { file_path, close_bracket } => "Found ']' at "@
                + location_text(file_path@, *close_bracket) + " but no matching '[' found"@,
            IncompatibleBracket::MissingCloseBracket { file_path, open_bracket } => "Found '[' at "@
                + location_text(file_path@, *open_bracket) + " but no matching ']' found"@,
        }
    }

    /// Says which bracket has no partner, and where it stands.
    pub fn to_string(&self) -> (r: String)
        ensures
            r@ == self.spec_message(),
    {
        match self {
            IncompatibleBracket::MissingOpenBracket { file_path, close_bracket } => {
                let mut text: String = String::from_str("Found ']' at ");
                text.append(location(file_path.as_str(), close_bracket).as_str());
                text.append(" but no matching '[' found");
                text
            },
            IncompatibleBracket::MissingCloseBracket { file_path, open_bracket } => {
                let mut text: String = String::from_str("Found '[' at ");
                text.append(location(file_path.as_str(), open_bracket).as_str());
                text.append(" but no matching ']' found");
                text
            },
        }
    }
}

/// The listing of the first `n` instructions: for each its position, a
/// space, what it does, and a line break.
pub open spec fn listing(path: Seq<char>, ins: Seq<Instruction>, n: int) -> Seq<char>
    decreases n,
{
    if n <= 0 {
        Seq::empty()
    } else {
        listing(path, ins, n - 1) + location_text(path, ins[n - 1]) + " "@ + ins[n
            - 1].raw_instruction.spec_description() + "\n"@
    }
}

/// A Brainfuck program: where it came from and its instructions.
#[derive(Debug)]
pub struct Program {
    file_path: String,
    instructions: Vec<Instruction>,
}

impl Program {
    /// The name of the source, in contracts.
    pub closed spec fn spec_file_path(&self) -> Seq<char> {
        self.file_path@
    }

    /// The instructions, in contracts.
    pub closed spec fn spec_instructions(&self) -> Seq<Instruction> {
        self.instructions@
    }

    /// Reads a program from its source text. Every character that is no
    /// instruction is commentary; scanning never fails.
    pub fn new(file_path: &str, lines: &str) -> (r: Self)
        ensures
            r.spec_file_path() == file_path@,
            r.spec_instructions() == scan(lines@, lines@.len() as int),
    {
        broadcast use vstd::string::group_string_axioms;

        let encoded = lines.as_bytes();
        assert(lines@.len() <= encoded.len()) by {
            lemma_chars_within_bytes(lines@);
        }
        let mut instructions: Vec<Instruction> = Vec::new();
        let mut breaks: usize = 0;
        let mut offset: usize = 0;
        let mut it = lines.chars();
        let ghost mut i: int = 0;
        loop
            invariant
                0 <= i <= lines@.len() <= usize::MAX,
                it.obeys_prophetic_iter_laws(),
                it.decrease() is Some,
                it.remaining() == lines@.subrange(i, lines@.len() as int),
                instructions@ == scan(lines@, i),
                breaks + 1 == row_at(lines@, i),
                offset + 1 == col_at(lines@, i),
            ensures
                i == lines@.len(),
            decreases it.decrease()->0,
        {
            let next = it.next();
            match next {
                None => {
                    assert(lines@.subrange(i, lines@.len() as int).len() == 0);
                    break;
                },
                Some(c) => {
                    proof {
                        lemma_position_bounds(lines@, i);
                        lemma_position_bounds(lines@, i + 1);
                    }
                    if let Some(raw_instruction) = RawInstruction::from_char(c) {
                        instructions.push(Instruction::new(breaks + 1, offset + 1, raw_instruction));
                    }
                    if c == '\n' {
                        breaks = breaks + 1;
                        offset = 0;
                    } else {
                        offset = offset + 1;
                    }
                    proof {
                        assert(lines@.subrange(i, lines@.len() as int).drop_first()
                            == lines@.subrange(i + 1, lines@.len() as int));
                        i = i + 1;
                    }
                },
            }
        }
        Program { file_path: file_path.to_owned(), instructions }
    }

    /// A program has no more instructions than a `usize` counts.
    pub proof fn lemma_length_fits(&self)
        ensures
            self.spec_instructions().len() <= usize::MAX,
    {
        broadcast use vstd::std_specs::vec::axiom_spec_len;

        assert(self.instructions.len() == self.instructions@.len());
    }

    /// Whether every bracket of the program has its partner, in contracts.
    pub open spec fn spec_valid(&self) -> bool {
        well_nested(self.spec_instructions())
    }

    /// Checks that the brackets match. A closing bracket without a partner
    /// is reported first; failing that, the earliest opening bracket that is
    /// never closed.
    pub fn validate(&self) -> (r: Result<(), IncompatibleBracket>)
        ensures
            r is Ok <==> self.spec_valid(),
            match r {
                Ok(_) => true,
                Err(IncompatibleBracket::MissingOpenBracket { file_path, close_bracket }) => {
                    &&& file_path@ == self.spec_file_path()
                    &&& exists|i: int|
                        first_unmatched_close(self.spec_instructions(), i)
                            && close_bracket == self.spec_instructions()[i]
                },
                Err(IncompatibleBracket::MissingCloseBracket { file_path, open_bracket }) => {
                    &&& file_path@ == self.spec_file_path()
                    &&& exists|j: int|
                        first_unmatched_open(self.spec_instructions(), j)
                            && open_bracket == self.spec_instructions()[j]
                },
            },
    {
        let ghost ins = self.instructions@;
        let mut stack: Vec<Instruction> = Vec::with_capacity(self.instructions.len());
        let ghost mut opened: Seq<int> = Seq::empty();
        let mut idx: usize = 0;
        while idx < self.instructions.len()
            invariant
                ins == self.instructions@,
                0 <= idx <= ins.len(),
                never_negative(ins, idx as int),
                stack@.len() == depth(ins, idx as int),
                opened.len() == stack@.len(),
                forall|t: int|
                    0 <= t < opened.len() ==> {
                        &&& 0 <= #[trigger] opened[t] < idx
                        &&& stack@[t] == ins[opened[t]]
                        &&& ins[opened[t]].raw_instruction == RawInstruction::BeginLoop
                        &&& depth(ins, opened[t]) == t
                        &&& forall|k: int| opened[t] < k <= idx ==> depth(ins, k) > t
                    },
            decreases ins.len() - idx,
        {
            let current = self.instructions[idx];
            assert(depth(ins, idx + 1) == depth(ins, idx as int) + bracket_weight(
                current.raw_instruction,
            ));
            if current.raw_instruction() == RawInstruction::BeginLoop {
                stack.push(current);
                proof {
                    opened = opened.push(idx as int);
                }
            } else if current.raw_instruction() == RawInstruction::EndLoop {
                if stack.is_empty() {
                    proof {
                        lemma_unmatched_close_not_nested(ins, idx as int);
                        assert(first_unmatched_close(self.spec_instructions(), idx as int)
                            && current == self.spec_instructions()[idx as int]);
                    }
                    return Err(
                        IncompatibleBracket::MissingOpenBracket {
                            file_path: self.file_path.clone(),
                            close_bracket: current,
                        },
                    );
                }
                stack.pop();
                proof {
                    opened = opened.drop_last();
                }
            }
            idx = idx + 1;
        }
        if stack.len() > 0 {
            let open_bracket = stack[0];
            assert(first_unmatched_open(self.spec_instructions(), opened[0]) && open_bracket
                == self.spec_instructions()[opened[0]]);
            return Err(
                IncompatibleBracket::MissingCloseBracket {
                    file_path: self.file_path.clone(),
                    open_bracket,
                },
            );
        }
        Ok(())
    }

    /// Lists the instructions, one to a line, each with its position.
    pub fn to_string(&self) -> (r: String)
        ensures
            r@ == listing(
                self.spec_file_path(),
                self.spec_instructions(),
                self.spec_instructions().len() as int,
            ),
    {
        let mut text: String = String::new();
        let mut idx: usize = 0;
        while idx < self.instructions.len()
            invariant
                0 <= idx <= self.instructions@.len(),
                text@ == listing(self.file_path@, self.instructions@, idx as int),
            decreases self.instructions@.len() - idx,
        {
            let ins = &self.instructions[idx];
            text.append(location(self.file_path.as_str(), ins).as_str());
            text.append(" ");
            text.append(ins.raw_instruction().to_string().as_str());
            text.append("\n");
            idx = idx + 1;
        }
        text
    }

    /// The name of the source that the program was read from.
    pub fn file_path(&self) -> (r: &str)
        ensures
            r@ == self.spec_file_path(),
    {
        self.file_path.as_str()
    }

    /// The instructions, in source order.
    pub fn instructions(&self) -> (r: &[Instruction])
        ensures
            r@ == self.spec_instructions(),
    {
        self.instructions.as_slice()
    }
}

} // verus!
