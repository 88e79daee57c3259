//! The bytes of the language, by name. Each constant is the ASCII code of the
//! character that a program is written with.

use vstd::prelude::*;

use crate::program::Opcode;

verus! {

/// Line feed: does nothing, and ends a comment.
pub const NEWLINE: Opcode = 10;

/// Space: does nothing.
pub const SPACE: Opcode = 32;

/// `!`: logical or bitwise negation.
pub const NOT: Opcode = 33;

/// `#`: starts and ends a comment.
pub const COMMENT: Opcode = 35;

/// `'`: character literal.
pub const CHARIFY: Opcode = 39;

/// `(`: skip forward to the balancing `)`.
pub const PAREN_OPEN: Opcode = 40;

/// `)`: does nothing; the target of `(`.
pub const PAREN_CLOSE: Opcode = 41;

/// `+`: addition.
pub const PLUS: Opcode = 43;

/// `,`: read one byte of input.
pub const INPUT: Opcode = 44;

/// `0`: the first digit.
pub const DIGIT_ZERO: Opcode = 48;

/// `9`: the last digit.
pub const DIGIT_NINE: Opcode = 57;

/// `=`: equality.
pub const EQUALS: Opcode = 61;

/// `[`: push the current address.
pub const BRACKET_OPEN: Opcode = 91;

/// `\`: introduces an escape inside a character literal.
pub const BACKSLASH: Opcode = 92;

/// `]`: jump back to the balancing `[`.
pub const BRACKET_CLOSE: Opcode = 93;

/// `a`: move the top of the main stack to the auxiliary stack.
pub const AUXILIARY_PUSH: Opcode = 97;

/// `d`: duplicate the top value.
pub const DUP: Opcode = 100;

/// `e`: push whether the main stack is empty.
pub const EMPTY: Opcode = 101;

/// `f`: push false.
pub const FALSE: Opcode = 102;

/// `h`: write a listing of both stacks.
pub const PRINT_STACK: Opcode = 104;

/// `j`: jump to the address on top of the stack.
pub const JUMP: Opcode = 106;

/// `m`: move the top of the auxiliary stack to the main stack.
pub const MAIN_PUSH: Opcode = 109;

/// `n`: inside a character literal after a backslash, the line feed.
pub const ESCAPE_NEWLINE: Opcode = 110;

/// `o`: drop the top value.
pub const DROP: Opcode = 111;

/// `p`: pop the top value and write it.
pub const PRINT: Opcode = 112;

/// `s`: skip the next instruction if the top value is true.
pub const SKIP_IF: Opcode = 115;

/// `t`: push true.
pub const TRUE: Opcode = 116;

/// `w`: swap the two top values.
pub const SWAP: Opcode = 119;

/// `x`: terminate.
pub const EXIT: Opcode = 120;

/// `z`: push whether the auxiliary stack is empty.
pub const AUX_EMPTY: Opcode = 122;

} // verus!
