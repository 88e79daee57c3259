//! Scans over program bytes: bracket matching, comment ends and decimal
//! literals, stated over plain byte sequences and integer addresses.

use vstd::prelude::*;

use crate::opcodes::{
    BRACKET_CLOSE, BRACKET_OPEN, COMMENT, DIGIT_NINE, DIGIT_ZERO, NEWLINE, PAREN_CLOSE, PAREN_OPEN,
};
use crate::program::Opcode;

verus! {

/// What one byte adds to a nesting counter that `up` raises and `down` lowers.
pub open spec fn weight(byte: Opcode, up: Opcode, down: Opcode) -> int {
    if byte == up {
        1
    } else if byte == down {
        -1
    } else {
        0
    }
}

/// The number of `up` bytes minus the number of `down` bytes among the
/// addresses `lo..hi` of `program`.
pub open spec fn surplus(program: Seq<Opcode>, up: Opcode, down: Opcode, lo: int, hi: int) -> int
    decreases hi - lo,
{
    if lo >= hi {
        0
    } else {
        weight(program[lo], up, down) + surplus(program, up, down, lo + 1, hi)
    }
}

/// A range splits into two adjacent ranges whose surpluses add up.
pub proof fn lemma_surplus_split(
    program: Seq<Opcode>,
    up: Opcode,
    down: Opcode,
    lo: int,
    mid: int,
    hi: int,
)
    requires
        lo <= mid <= hi,
    ensures
        surplus(program, up, down, lo, hi) == surplus(program, up, down, lo, mid) + surplus(
            program,
            up,
            down,
            mid,
            hi,
        ),
    decreases mid - lo,
{
    if lo < mid {
        lemma_surplus_split(program, up, down, lo + 1, mid, hi);
    }
}

/// Whether a backward scan for `[` that starts at `pc` with its counter at
/// zero may stop at `m`: `m` holds a `[`, and the bytes after `m` up to and
/// including `pc` hold exactly one more `]` than `[`.
pub open spec fn opens_at(program: Seq<Opcode>, pc: int, m: int) -> bool {
    &&& 0 <= m <= pc < program.len()
    &&& program[m] == BRACKET_OPEN
    &&& surplus(program, BRACKET_CLOSE, BRACKET_OPEN, m + 1, pc + 1) == 1
}

/// The address where the backward scan from `pc` stops: the nearest address
/// at or before `pc` that satisfies `opens_at`, if there is one.
pub open spec fn back_match(program: Seq<Opcode>, pc: int) -> Option<int> {
    if exists|m: int| opens_at(program, pc, m) {
        Some(
            choose|m: int|
                opens_at(program, pc, m) && forall|k: int|
                    m < k ==> !opens_at(program, pc, k),
        )
    } else {
        None
    }
}

/// The nearest address that satisfies `opens_at` is the backward match.
pub proof fn lemma_back_match_found(program: Seq<Opcode>, pc: int, m: int)
    requires
        opens_at(program, pc, m),
        forall|k: int| m < k <= pc ==> !opens_at(program, pc, k),
    ensures
        back_match(program, pc) == Some(m),
{
    let found = back_match(program, pc)->0;
    assert(opens_at(program, pc, found) && forall|k: int|
        found < k ==> !opens_at(program, pc, k));
}

/// Whether a forward scan for `)` that starts at `pc` with its counter at
/// zero may stop at `m`: `m` holds a `)`, and the bytes from `pc` up to but
/// not including `m` hold exactly one more `(` than `)`.
pub open spec fn closes_at(program: Seq<Opcode>, pc: int, m: int) -> bool {
    &&& 0 <= pc <= m < program.len()
    &&& program[m] == PAREN_CLOSE
    &&& surplus(program, PAREN_OPEN, PAREN_CLOSE, pc, m) == 1
}

/// The address where the forward scan from `pc` stops: the nearest address
/// at or after `pc` that satisfies `closes_at`, if there is one.
pub open spec fn forward_match(program: Seq<Opcode>, pc: int) -> Option<int> {
    if exists|m: int| closes_at(program, pc, m) {
        Some(
            choose|m: int|
                closes_at(program, pc, m) && forall|k: int|
                    k < m ==> !closes_at(program, pc, k),
        )
    } else {
        None
    }
}

/// The nearest address that satisfies `closes_at` is the forward match.
pub proof fn lemma_forward_match_found(program: Seq<Opcode>, pc: int, m: int)
    requires
        closes_at(program, pc, m),
        forall|k: int| pc <= k < m ==> !closes_at(program, pc, k),
    ensures
        forward_match(program, pc) == Some(m),
{
    let found = forward_match(program, pc)->0;
    assert(closes_at(program, pc, found) && forall|k: int|
        k < found ==> !closes_at(program, pc, k));
}

/// Whether `byte` ends a comment.
pub open spec fn ends_comment(byte: Opcode) -> bool {
    byte == COMMENT || byte == NEWLINE
}

/// The first address at or after `from` that ends a comment, or the end of
/// the program where none does. An address past the end is its own result.
pub open spec fn comment_end(program: Seq<Opcode>, from: int) -> int
    decreases program.len() - from,
{
    if from < 0 || from >= program.len() || ends_comment(program[from]) {
        from
    } else {
        comment_end(program, from + 1)
    }
}

/// `comment_end` is the one address that ends the comment with nothing
/// before it that does.
pub proof fn lemma_comment_end(program: Seq<Opcode>, from: int, at: int)
    requires
        0 <= from <= at,
        from < at ==> at <= program.len(),
        forall|k: int| from <= k < at ==> !ends_comment(#[trigger] program[k]),
        at >= program.len() || ends_comment(program[at]),
    ensures
        comment_end(program, from) == at,
    decreases at - from,
{
    if from < at {
        lemma_comment_end(program, from + 1, at);
    }
}

/// Whether `byte` is an ASCII decimal digit.
pub open spec fn is_digit(byte: Opcode) -> bool {
    DIGIT_ZERO <= byte <= DIGIT_NINE
}

/// The first address at or after `from` that holds no digit, or the end of
/// the program. An address past the end is its own result.
pub open spec fn digits_end(program: Seq<Opcode>, from: int) -> int
    decreases program.len() - from,
{
    if from < 0 || from >= program.len() || !is_digit(program[from]) {
        from
    } else {
        digits_end(program, from + 1)
    }
}

/// `digits_end` is the one address that holds no digit with only digits
/// before it.
pub proof fn lemma_digits_end(program: Seq<Opcode>, from: int, at: int)
    requires
        0 <= from <= at,
        from < at ==> at <= program.len(),
        forall|k: int| from <= k < at ==> is_digit(#[trigger] program[k]),
        at >= program.len() || !is_digit(program[at]),
    ensures
        digits_end(program, from) == at,
    decreases at - from,
{
    if from < at {
        lemma_digits_end(program, from + 1, at);
    }
}

/// Between `from` and `digits_end` there are only digits, and a digit does
/// not follow.
pub proof fn lemma_digits_end_bounds(program: Seq<Opcode>, from: int)
    requires
        0 <= from,
    ensures
        from <= digits_end(program, from),
        from < digits_end(program, from) ==> digits_end(program, from) <= program.len(),
        forall|k: int| from <= k < digits_end(program, from) ==> is_digit(#[trigger] program[k]),
        digits_end(program, from) >= program.len() || !is_digit(
            program[digits_end(program, from)],
        ),
    decreases program.len() - from,
{
    if from < program.len() && is_digit(program[from]) {
        lemma_digits_end_bounds(program, from + 1);
    }
}

/// The number that the digits at the addresses `lo..hi` spell in decimal,
/// most significant digit first.
pub open spec fn decimal_value(program: Seq<Opcode>, lo: int, hi: int) -> nat
    decreases hi - lo,
{
    if lo >= hi {
        0
    } else {
        decimal_value(program, lo, hi - 1) * 10 + (program[hi - 1] - DIGIT_ZERO) as nat
    }
}

/// Reading more digits never gives a smaller number.
pub proof fn lemma_decimal_value_grows(program: Seq<Opcode>, lo: int, mid: int, hi: int)
    requires
        lo <= mid <= hi,
        forall|k: int| lo <= k < hi ==> is_digit(#[trigger] program[k]),
    ensures
        decimal_value(program, lo, mid) <= decimal_value(program, lo, hi),
    decreases hi - mid,
{
    if mid < hi {
        lemma_decimal_value_grows(program, lo, mid, hi - 1);
    }
}

/// The decimal digits of `n` as program bytes, most significant first; zero
/// is the single digit `0`.
pub open spec fn decimal_digits(n: nat) -> Seq<Opcode>
    decreases n,
{
    if n < 10 {
        seq![(DIGIT_ZERO + n) as u8]
    } else {
        decimal_digits(n / 10).push((DIGIT_ZERO + n % 10) as u8)
    }
}

} // verus!
