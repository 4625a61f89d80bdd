//! Brackets: nesting depth, balance, and which bracket belongs to which.

use crate::instruction::{Instruction, RawInstruction};
use vstd::prelude::*;

verus! {

/// What an instruction adds to the nesting depth: one for an opening
/// bracket, minus one for a closing bracket, nothing otherwise.
pub open spec fn bracket_weight(op: RawInstruction) -> int {
    match op {
        RawInstruction::BeginLoop => 1,
        RawInstruction::EndLoop => -1,
        _ => 0,
    }
}

/// The nesting depth after the first `n` instructions: opening brackets
/// minus closing brackets among them.
pub open spec fn depth(ins: Seq<Instruction>, n: int) -> int
    decreases n,
{
    if n <= 0 {
        0
    } else {
        depth(ins, n - 1) + bracket_weight(ins[n - 1].raw_instruction)
    }
}

/// No prefix of the first `n` instructions closes more brackets than it
/// has opened.
pub open spec fn never_negative(ins: Seq<Instruction>, n: int) -> bool {
    forall|k: int| 0 <= k <= n ==> depth(ins, k) >= 0
}

/// The brackets are balanced: no prefix closes more than it has opened,
/// and at the end every opened bracket is closed.
pub open spec fn well_nested(ins: Seq<Instruction>) -> bool {
    never_negative(ins, ins.len() as int) && depth(ins, ins.len() as int) == 0
}

/// The instruction at `i` is the first closing bracket that has no opening
/// bracket before it left to match.
pub open spec fn first_unmatched_close(ins: Seq<Instruction>, i: int) -> bool {
    &&& 0 <= i < ins.len()
    &&& never_negative(ins, i)
    &&& depth(ins, i + 1) < 0
}

/// The instruction at `j` is the earliest opening bracket that is never
/// closed, in a sequence where no prefix closes more than it has opened.
pub open spec fn first_unmatched_open(ins: Seq<Instruction>, j: int) -> bool {
    &&& 0 <= j < ins.len()
    &&& never_negative(ins, ins.len() as int)
    &&& ins[j].raw_instruction == RawInstruction::BeginLoop
    &&& depth(ins, j) == 0
    &&& forall|k: int| j < k <= ins.len() ==> depth(ins, k) > 0
}

/// The opening bracket at `open` and the closing bracket at `close` belong
/// together: the depth after `close` is the depth before `open`, and in
/// between it stays above that.
pub open spec fn matching(ins: Seq<Instruction>, open: int, close: int) -> bool {
    &&& 0 <= open < close < ins.len()
    &&& ins[open].raw_instruction == RawInstruction::BeginLoop
    &&& ins[close].raw_instruction == RawInstruction::EndLoop
    &&& depth(ins, close + 1) == depth(ins, open)
    &&& forall|k: int| open < k <= close ==> depth(ins, k) > depth(ins, open)
}

/// Every bracket has a partner: each opening bracket a closing bracket
/// behind it, each closing bracket an opening bracket before it.
pub open spec fn paired(ins: Seq<Instruction>) -> bool {
    &&& forall|i: int|
        0 <= i < ins.len() && ins[i].raw_instruction == RawInstruction::BeginLoop
            ==> exists|j: int| matching(ins, i, j)
    &&& forall|j: int|
        0 <= j < ins.len() && ins[j].raw_instruction == RawInstruction::EndLoop
            ==> exists|i: int| matching(ins, i, j)
}

/// Validation names one bracket only: a sequence has at most one first
/// unmatched closing bracket and at most one earliest unmatched opening
/// bracket, and never both.
pub proof fn lemma_fault_is_unique(ins: Seq<Instruction>, a: int, b: int)
    ensures
        first_unmatched_close(ins, a) && first_unmatched_close(ins, b) ==> a == b,
        first_unmatched_open(ins, a) && first_unmatched_open(ins, b) ==> a == b,
        !(first_unmatched_close(ins, a) && first_unmatched_open(ins, b)),
{
    if first_unmatched_close(ins, a) && first_unmatched_close(ins, b) {
        if a < b {
            assert(depth(ins, a + 1) >= 0);
        }
        if b < a {
            assert(depth(ins, b + 1) >= 0);
        }
    }
    if first_unmatched_open(ins, a) && first_unmatched_open(ins, b) {
        if a < b {
            assert(depth(ins, b) > 0);
        }
        if b < a {
            assert(depth(ins, a) > 0);
        }
    }
    if first_unmatched_close(ins, a) && first_unmatched_open(ins, b) {
        assert(depth(ins, a + 1) >= 0);
    }
}

/// A sequence with a closing bracket that nothing opened is not balanced.
pub proof fn lemma_unmatched_close_not_nested(ins: Seq<Instruction>, i: int)
    requires
        first_unmatched_close(ins, i),
    ensures
        !well_nested(ins),
{
    assert(depth(ins, i + 1) < 0);
}

/// A bracket has one partner only: the jump table of a program is
/// determined by its instructions.
pub proof fn lemma_matching_unique(ins: Seq<Instruction>, a: int, b: int, c: int, d: int)
    requires
        matching(ins, a, b),
        matching(ins, c, d),
    ensures
        a == c <==> b == d,
{
    if a == c && b < d {
        assert(depth(ins, b + 1) > depth(ins, a));
    }
    if a == c && d < b {
        assert(depth(ins, d + 1) > depth(ins, a));
    }
    if b == d && a < c {
        assert(depth(ins, c) > depth(ins, a));
    }
    if b == d && c < a {
        assert(depth(ins, a) > depth(ins, c));
    }
}

/// The depth changes by one at a bracket and not at all elsewhere.
proof fn lemma_depth_step(ins: Seq<Instruction>, n: int)
    requires
        0 <= n,
    ensures
        depth(ins, n + 1) == depth(ins, n) + bracket_weight(ins[n].raw_instruction),
        -1 <= depth(ins, n + 1) - depth(ins, n) <= 1,
{
}

/// In a balanced sequence, the closing bracket of the opening bracket at
/// `open` lies at `n` or behind it, if the depth has stayed above that
/// before `open` up to `n`.
proof fn lemma_find_close(ins: Seq<Instruction>, open: int, n: int) -> (close: int)
    requires
        well_nested(ins),
        0 <= open < n <= ins.len(),
        ins[open].raw_instruction == RawInstruction::BeginLoop,
        forall|k: int| open < k <= n ==> depth(ins, k) > depth(ins, open),
    ensures
        matching(ins, open, close),
    decreases ins.len() - n,
{
    assert(depth(ins, open) >= 0);
    assert(n < ins.len());
    lemma_depth_step(ins, n);
    if depth(ins, n + 1) > depth(ins, open) {
        lemma_find_close(ins, open, n + 1)
    } else {
        assert(depth(ins, n) > depth(ins, open));
        n
    }
}

/// In a balanced sequence, the opening bracket of the closing bracket at
/// `close` lies before `n`, if the depth has stayed above that behind
/// `close` from `n` on.
proof fn lemma_find_open(ins: Seq<Instruction>, close: int, n: int) -> (open: int)
    requires
        well_nested(ins),
        0 <= n <= close < ins.len(),
        ins[close].raw_instruction == RawInstruction::EndLoop,
        forall|k: int| n <= k <= close ==> #[trigger] depth(ins, k) > depth(ins, close + 1),
    ensures
        matching(ins, open, close),
    decreases n,
{
    assert(depth(ins, close + 1) >= 0);
    assert(depth(ins, 0) == 0);
    assert(n > 0);
    lemma_depth_step(ins, n - 1);
    if depth(ins, n - 1) > depth(ins, close + 1) {
        lemma_find_open(ins, close, n - 1)
    } else {
        assert(depth(ins, n) > depth(ins, close + 1));
        n - 1
    }
}

/// Where the depth is positive after `n` instructions and never negative
/// before, there is a last place before `n` at which it was zero.
proof fn lemma_last_zero(ins: Seq<Instruction>, n: int) -> (j: int)
    requires
        0 <= n,
        never_negative(ins, n),
        depth(ins, n) > 0,
    ensures
        0 <= j < n,
        depth(ins, j) == 0,
        forall|k: int| j < k <= n ==> depth(ins, k) > 0,
    decreases n,
{
    assert(depth(ins, 0) == 0);
    assert(depth(ins, n - 1) >= 0);
    if depth(ins, n - 1) == 0 {
        n - 1
    } else {
        lemma_last_zero(ins, n - 1)
    }
}

/// Where every bracket has a partner, no prefix of the first `n`
/// instructions closes more than it has opened.
proof fn lemma_paired_never_negative(ins: Seq<Instruction>, n: int)
    requires
        paired(ins),
        0 <= n <= ins.len(),
    ensures
        never_negative(ins, n),
    decreases n,
{
    if n > 0 {
        lemma_paired_never_negative(ins, n - 1);
        lemma_depth_step(ins, n - 1);
        if depth(ins, n) < 0 {
            assert(depth(ins, n - 1) >= 0);
            assert(ins[n - 1].raw_instruction == RawInstruction::EndLoop);
            let close = n - 1;
            let open = choose|i: int| matching(ins, i, close);
            assert(depth(ins, open) >= 0);
        }
    }
}

/// The brackets are balanced exactly when every bracket has its partner:
/// counting depths and pairing brackets describe the same programs.
pub proof fn lemma_well_nested_iff_paired(ins: Seq<Instruction>)
    ensures
        well_nested(ins) <==> paired(ins),
{
    if well_nested(ins) {
        assert forall|i: int|
            0 <= i < ins.len() && ins[i].raw_instruction
                == RawInstruction::BeginLoop implies exists|j: int| matching(ins, i, j) by {
            lemma_depth_step(ins, i);
            let j = lemma_find_close(ins, i, i + 1);
            assert(matching(ins, i, j));
        }
        assert forall|j: int|
            0 <= j < ins.len() && ins[j].raw_instruction
                == RawInstruction::EndLoop implies exists|i: int| matching(ins, i, j) by {
            lemma_depth_step(ins, j);
            let i = lemma_find_open(ins, j, j);
            assert(matching(ins, i, j));
        }
    }
    if paired(ins) {
        let len = ins.len() as int;
        lemma_paired_never_negative(ins, len);
        if depth(ins, len) > 0 {
            let j = lemma_last_zero(ins, len);
            lemma_depth_step(ins, j);
            assert(depth(ins, j + 1) > 0);
            assert(ins[j].raw_instruction == RawInstruction::BeginLoop);
            let close = choose|c: int| matching(ins, j, c);
            assert(depth(ins, close + 1) > 0);
        }
    }
}

} // verus!
