//! Numbers and positions as text, for messages.

use crate::instruction::Instruction;
use vstd::prelude::*;
use vstd::string::StringExecFns;

verus! {

/// The character for a single decimal digit.
pub open spec fn digit_char(d: nat) -> char {
    if d == 0 {
        '0'
    } else if d == 1 {
        '1'
    } else if d == 2 {
        '2'
    } else if d == 3 {
        '3'
    } else if d == 4 {
        '4'
    } else if d == 5 {
        '5'
    } else if d == 6 {
        '6'
    } else if d == 7 {
        '7'
    } else if d == 8 {
        '8'
    } else {
        '9'
    }
}

/// A number in decimal, without leading zeros.
pub open spec fn decimal_text(n: nat) -> Seq<char>
    decreases n,
{
    if n < 10 {
        seq![digit_char(n)]
    } else {
        decimal_text(n / 10).push(digit_char(n % 10))
    }
}

/// A position in a source, as `[path:row:col]`.
pub open spec fn location_text(path: Seq<char>, ins: Instruction) -> Seq<char> {
    seq!['['] + path + seq![':'] + decimal_text(ins.row as nat) + seq![':'] + decimal_text(
        ins.col as nat,
    ) + seq![']']
}

/// A single decimal digit as text.
fn digit(d: usize) -> (r: &'static str)
    requires
        d < 10,
    ensures
        r@ == seq![digit_char(d as nat)],
{
    proof {
        reveal_strlit("0");
        reveal_strlit("1");
        reveal_strlit("2");
        reveal_strlit("3");
        reveal_strlit("4");
        reveal_strlit("5");
        reveal_strlit("6");
        reveal_strlit("7");
        reveal_strlit("8");
        reveal_strlit("9");
    }
    let r = if d == 0 {
        "0"
    } else if d == 1 {
        "1"
    } else if d == 2 {
        "2"
    } else if d == 3 {
        "3"
    } else if d == 4 {
        "4"
    } else if d == 5 {
        "5"
    } else if d == 6 {
        "6"
    } else if d == 7 {
        "7"
    } else if d == 8 {
        "8"
    } else {
        "9"
    };
    assert(r@ =~= seq![digit_char(d as nat)]);
    r
}

/// Writes a number in decimal.
pub fn decimal(n: usize) -> (r: String)
    ensures
        r@ == decimal_text(n as nat),
{
    let mut rest: usize = n / 10;
    let mut text: String = String::from_str(digit(n % 10));
    let ghost mut tail: Seq<char> = seq![digit_char((n % 10) as nat)];
    assert(n >= 10 ==> decimal_text((n / 10) as nat).push(digit_char((n % 10) as nat))
        =~= decimal_text((n / 10) as nat) + tail);
    while rest > 0
        invariant
            text@ == tail,
            rest > 0 ==> decimal_text(n as nat) == decimal_text(rest as nat) + tail,
            rest == 0 ==> decimal_text(n as nat) == tail,
        decreases rest,
    {
        let mut longer: String = String::from_str(digit(rest % 10));
        longer.append(text.as_str());
        proof {
            let d = digit_char((rest % 10) as nat);
            if rest >= 10 {
                assert(decimal_text((rest / 10) as nat).push(d) + tail =~= decimal_text(
                    (rest / 10) as nat,
                ) + (seq![d] + tail));
            }
            tail = seq![d] + tail;
        }
        text = longer;
        rest = rest / 10;
    }
    text
}

/// Writes a position in a source as `[path:row:col]`.
pub fn location(path: &str, ins: &Instruction) -> (r: String)
    ensures
        r@ == location_text(path@, *ins),
{
    proof {
        reveal_strlit("[");
        reveal_strlit(":");
        reveal_strlit("]");
    }
    let mut text: String = String::from_str("[");
    text.append(path);
    text.append(":");
    text.append(decimal(ins.row()).as_str());
    text.append(":");
    text.append(decimal(ins.col()).as_str());
    text.append("]");
    assert(text@ =~= location_text(path@, *ins));
    text
}

} // verus!
