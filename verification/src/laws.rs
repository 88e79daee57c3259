//! Laws of the language: what holds of its instructions on every state.

use vstd::prelude::*;

use crate::context::{byte_at, State};
use crate::data::Value;
use crate::fault::{advances_to, Fault, Flow};
use crate::instructions::base::{
    address_of, digit_spec, drop_spec, dup_spec, empty_spec, swap_spec,
};
use crate::instructions::{Instruction, Operation};
use crate::opcodes::{BRACKET_CLOSE, BRACKET_OPEN, PAREN_CLOSE, PAREN_OPEN};
use crate::program::Opcode;
use crate::scan::{
    back_match, closes_at, decimal_digits, decimal_value, forward_match, is_digit,
    lemma_back_match_found, lemma_digits_end, lemma_forward_match_found, lemma_surplus_split,
    opens_at, surplus,
};
use crate::vm::{goes_on_at, run_op_spec, run_spec, Status};

verus! {

/// Duplicating the top value and dropping it again leaves the state as it
/// was, on every state whose main stack is not empty.
pub proof fn lemma_dup_then_drop(s: State)
    requires
        s.stack.len() > 0,
    ensures
        dup_spec(s) matches Ok((duplicated, flow)) && flow == Flow::Advance && drop_spec(
            duplicated,
        ) == advances_to(s),
{
    assert(s.stack.push(s.stack.last()).drop_last() =~= s.stack);
}

/// Swapping inverts the order of the two top values: with `a` pushed and
/// then `b`, the swap leaves `a` on top and `b` below it, and the rest of
/// the state as it was.
pub proof fn lemma_swap_inverts(s: State, a: Value, b: Value)
    ensures
        swap_spec(State { stack: s.stack.push(a).push(b), ..s }) == advances_to(
            State { stack: s.stack.push(b).push(a), ..s },
        ),
{
    let stack = s.stack.push(a).push(b);
    assert(stack.drop_last().drop_last() =~= s.stack);
}

/// Swapping twice leaves the state as it was.
pub proof fn lemma_swap_twice(s: State)
    requires
        s.stack.len() >= 2,
    ensures
        swap_spec(s) matches Ok((swapped, flow)) && swap_spec(swapped) == advances_to(s),
{
    let n = s.stack.len() as int;
    let a = s.stack[n - 1];
    let b = s.stack[n - 2];
    let swapped = s.stack.drop_last().drop_last().push(a).push(b);
    assert(swapped.drop_last().drop_last().push(b).push(a) =~= s.stack);
}

/// The emptiness test tells the truth: on an empty main stack it pushes
/// true, and on a stack that just took a value it pushes false.
pub proof fn lemma_empty_tells(s: State, v: Value)
    ensures
        s.stack.len() == 0 ==> empty_spec(s) == advances_to(
            State { stack: seq![Value::Bool(true)], ..s },
        ),
        empty_spec(State { stack: s.stack.push(v), ..s }) == advances_to(
            State { stack: s.stack.push(v).push(Value::Bool(false)), ..s },
        ),
{
    if s.stack.len() == 0 {
        assert(s.stack.push(Value::Bool(true)) =~= seq![Value::Bool(true)]);
    }
}

/// Every byte of a decimal representation is a digit.
pub proof fn lemma_decimal_digits_are_digits(n: nat)
    ensures
        decimal_digits(n).len() >= 1,
        forall|k: int|
            0 <= k < decimal_digits(n).len() ==> is_digit(#[trigger] decimal_digits(n)[k]),
    decreases n,
{
    if n >= 10 {
        lemma_decimal_digits_are_digits(n / 10);
    }
}

/// Where the addresses from `lo` on hold the decimal representation of `n`,
/// they spell `n`.
pub proof fn lemma_decimal_value_of_digits(program: Seq<Opcode>, lo: int, n: nat)
    requires
        0 <= lo,
        lo + decimal_digits(n).len() <= program.len(),
        program.subrange(lo, lo + decimal_digits(n).len()) == decimal_digits(n),
    ensures
        decimal_value(program, lo, lo + decimal_digits(n).len()) == n,
    decreases n,
{
    let digits = decimal_digits(n);
    let hi = lo + digits.len();
    assert(program[hi - 1] == program.subrange(lo, hi)[digits.len() - 1]);
    if n < 10 {
        assert(decimal_value(program, lo, lo) == 0);
    } else {
        lemma_decimal_digits_are_digits(n / 10);
        let shorter = decimal_digits(n / 10);
        assert(program.subrange(lo, lo + shorter.len()) =~= shorter) by {
            assert forall|k: int| 0 <= k < shorter.len() implies program.subrange(
                lo,
                lo + shorter.len(),
            )[k] == shorter[k] by {
                assert(program.subrange(lo, hi)[k] == digits[k]);
            }
        }
        lemma_decimal_value_of_digits(program, lo, n / 10);
    }
}

/// A decimal literal reads back as the number it was written from: where
/// the program holds the decimal representation of `n` at the program
/// counter and no digit behind it, the digit instruction pushes `n` and
/// leaves the program counter on the last digit. This holds of every `n` up
/// to `i64::MAX`.
pub proof fn lemma_decimal_literal_round_trip(s: State, n: nat)
    requires
        n <= i64::MAX,
        s.program.len() <= usize::MAX,
        s.pc + decimal_digits(n).len() <= s.program.len(),
        s.program.subrange(s.pc as int, s.pc + decimal_digits(n).len()) == decimal_digits(n),
        s.pc + decimal_digits(n).len() == s.program.len() || !is_digit(
            s.program[s.pc + decimal_digits(n).len()],
        ),
    ensures
        digit_spec(s) == advances_to(
            State {
                stack: s.stack.push(Value::Int(n as int)),
                pc: (s.pc + decimal_digits(n).len() - 1) as usize,
                ..s
            },
        ),
{
    let digits = decimal_digits(n);
    let lo = s.pc as int;
    let hi = lo + digits.len();
    lemma_decimal_digits_are_digits(n);
    assert forall|k: int| lo <= k < hi implies is_digit(#[trigger] s.program[k]) by {
        assert(s.program.subrange(lo, hi)[k - lo] == digits[k - lo]);
    }
    lemma_digits_end(s.program, lo, hi);
    lemma_decimal_value_of_digits(s.program, lo, n);
}

/// The bytes at the addresses `lo..hi` hold square brackets that pair up:
/// as many `]` as `[`, and from no address on more `[` than `]`.
pub open spec fn brackets_nest(program: Seq<Opcode>, lo: int, hi: int) -> bool {
    &&& surplus(program, BRACKET_CLOSE, BRACKET_OPEN, lo, hi) == 0
    &&& forall|k: int|
        lo <= k <= hi ==> #[trigger] surplus(program, BRACKET_CLOSE, BRACKET_OPEN, k, hi) >= 0
}

/// Bracket matching: a `]` whose `[` stands at `open`, with brackets that
/// pair up between the two, scans back to exactly that `[`, however deep
/// the brackets between them nest.
pub proof fn lemma_bracket_matching(program: Seq<Opcode>, open: int, close: int)
    requires
        0 <= open < close < program.len(),
        program[open] == BRACKET_OPEN,
        program[close] == BRACKET_CLOSE,
        brackets_nest(program, open + 1, close),
    ensures
        back_match(program, close) == Some(open),
{
    let up = BRACKET_CLOSE;
    let down = BRACKET_OPEN;
    assert(surplus(program, up, down, close, close + 1) == 1) by {
        assert(surplus(program, up, down, close + 1, close + 1) == 0);
    }
    lemma_surplus_split(program, up, down, open + 1, close, close + 1);
    assert forall|k: int| open < k <= close implies !opens_at(program, close, k) by {
        if k < close && program[k] == BRACKET_OPEN {
            assert(surplus(program, up, down, k, close) >= 0);
            assert(surplus(program, up, down, k + 1, close) >= 1);
            lemma_surplus_split(program, up, down, k + 1, close, close + 1);
        }
    }
    lemma_back_match_found(program, close, open);
}

/// A loop closes: with `]` bound to the jump back and `[` to the push of the
/// program counter, running the `]` at `close` brings the program counter to
/// its `[` at `open`, and running that `[` pushes `open` and brings the
/// program counter to the address after it. An address is pushed as a
/// 64-bit integer, so `open` is one that such an integer holds.
pub proof fn lemma_loop_back(table: Map<Opcode, Instruction>, s: State, open: int)
    requires
        table.contains_key(BRACKET_CLOSE) && table[BRACKET_CLOSE] == Instruction::JumpBack,
        table.contains_key(BRACKET_OPEN) && table[BRACKET_OPEN] == Instruction::CurPc,
        s.program.len() <= usize::MAX,
        0 <= open < s.pc < s.program.len(),
        open <= i64::MAX,
        s.program[open] == BRACKET_OPEN,
        s.program[s.pc as int] == BRACKET_CLOSE,
        brackets_nest(s.program, open + 1, s.pc as int),
    ensures
        run_op_spec(table, s, BRACKET_CLOSE) == goes_on_at(State { pc: open as usize, ..s }),
        run_op_spec(table, State { pc: open as usize, ..s }, BRACKET_OPEN) == goes_on_at(
            State { stack: s.stack.push(Value::Int(open)), pc: (open + 1) as usize, ..s },
        ),
{
    lemma_bracket_matching(s.program, open, s.pc as int);
}

/// The bytes at the addresses `lo..hi` hold parentheses that pair up: as
/// many `(` as `)`, and up to no address more `)` than `(`.
pub open spec fn parens_nest(program: Seq<Opcode>, lo: int, hi: int) -> bool {
    &&& surplus(program, PAREN_OPEN, PAREN_CLOSE, lo, hi) == 0
    &&& forall|k: int|
        lo <= k <= hi ==> #[trigger] surplus(program, PAREN_OPEN, PAREN_CLOSE, lo, k) >= 0
}

/// Parenthesis matching: a `(` at `open` whose `)` stands at `close`, with
/// parentheses that pair up between the two, scans forward to exactly that
/// `)`.
pub proof fn lemma_paren_matching(program: Seq<Opcode>, open: int, close: int)
    requires
        0 <= open < close < program.len(),
        program[open] == PAREN_OPEN,
        program[close] == PAREN_CLOSE,
        parens_nest(program, open + 1, close),
    ensures
        forward_match(program, open) == Some(close),
{
    let up = PAREN_OPEN;
    let down = PAREN_CLOSE;
    assert(surplus(program, up, down, open, open + 1) == 1) by {
        assert(surplus(program, up, down, open + 1, open + 1) == 0);
    }
    lemma_surplus_split(program, up, down, open, open + 1, close);
    assert forall|k: int| open <= k < close implies !closes_at(program, open, k) by {
        if open < k && program[k] == PAREN_CLOSE {
            lemma_surplus_split(program, up, down, open, open + 1, k);
            assert(surplus(program, up, down, open + 1, k + 1) >= 0);
            lemma_surplus_split(program, up, down, open + 1, k, k + 1);
            assert(surplus(program, up, down, k, k + 1) == -1) by {
                assert(surplus(program, up, down, k + 1, k + 1) == 0);
            }
        }
    }
    lemma_forward_match_found(program, open, close);
}

/// A jump lands where it points: with the integer `i` on top of the stack,
/// the jump followed by the loop's move forward leaves the program counter
/// at the address that `i` names, which is `i` itself for every `i` that is
/// an address.
pub proof fn lemma_jump_lands(table: Map<Opcode, Instruction>, s: State, opcode: Opcode, i: int)
    requires
        table.contains_key(opcode) && table[opcode] == Instruction::Jump,
        s.stack.len() > 0,
        s.stack.last() == Value::Int(i),
    ensures
        run_op_spec(table, s, opcode) == goes_on_at(
            State { stack: s.stack.drop_last(), pc: address_of(i), ..s },
        ),
        0 <= i <= usize::MAX ==> address_of(i) == i,
{
}

/// A run can be cut in two: running `first` steps and, where that stops
/// only because the steps are used up, `second` more, ends as one run of
/// `first + second` steps does.
pub proof fn lemma_run_resumes<I: Operation>(
    table: Map<Opcode, I>,
    s: State,
    first: nat,
    second: nat,
)
    ensures
        run_spec(table, s, first + second) == (if run_spec(table, s, first).1 == Ok::<
            Status,
            Fault,
        >(Status::Suspended) {
            run_spec(table, run_spec(table, s, first).0, second)
        } else {
            run_spec(table, s, first)
        }),
    decreases first,
{
    match byte_at(s.program, s.pc) {
        None => {},
        Some(opcode) => {
            if first == 0 {
            } else {
                match run_op_spec(table, s, opcode) {
                    Ok((next, flow)) => {
                        if flow == Flow::Advance {
                            lemma_run_resumes(table, next, (first - 1) as nat, second);
                        }
                    },
                    Err(_) => {},
                }
            }
        },
    }
}

} // verus!
