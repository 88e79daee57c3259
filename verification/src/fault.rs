//! What an instruction reports back: how execution goes on, or why it cannot.

use vstd::prelude::*;

use crate::context::State;
use crate::program::Opcode;

verus! {

/// How the interpreter goes on after an instruction that succeeded.
#[derive(Clone, Copy, Debug, PartialEq, Eq, Structural)]
pub enum Flow {
    /// Move to the next address and fetch again.
    Advance,
    /// Stop: the program asked to terminate.
    Exit,
    /// The instruction needs an input byte and none is on offer. Nothing was
    /// changed; the same instruction runs again once a byte has been offered.
    AwaitInput,
}

/// Why an instruction could not be carried out.
#[derive(Clone, Copy, Debug, PartialEq, Eq, Structural)]
pub enum FaultKind {
    /// The main stack holds fewer values than the instruction takes.
    StackUnderflow,
    /// A value taken from the stack is of a kind the instruction does not accept.
    TypeMismatch,
    /// An integer result does not fit in 64 bits.
    Overflow,
    /// The program ends where a character literal needs one more byte.
    UnexpectedEnd,
    /// A character literal holds a backslash followed by this byte, which
    /// names no escape.
    InvalidEscape(u8),
    /// No bracket balances the one the scan started from.
    UnmatchedBracket,
    /// The opcode is bound to no instruction.
    NoInstruction,
}

/// A fatal program error: what went wrong, at which opcode and address.
#[derive(Clone, Copy, Debug, PartialEq, Eq, Structural)]
pub struct Fault {
    pub opcode: Opcode,
    pub address: usize,
    pub kind: FaultKind,
}

/// What an instruction does to a state: the next state and how to go on, or
/// the reason it faults.
pub type Step = Result<(State, Flow), FaultKind>;

/// The step that succeeds, ends in `state` and goes on to the next address.
pub open spec fn advances_to(state: State) -> Step {
    Ok((state, Flow::Advance))
}

/// An instruction's run agrees with `expected`: on success the context ends
/// in the expected state and the expected flow is returned; on a fault the
/// expected reason is returned and the context is left as it was.
pub open spec fn conforms(
    pre: State,
    post: State,
    result: Result<Flow, FaultKind>,
    expected: Step,
) -> bool {
    match expected {
        Ok((state, flow)) => result == Ok::<Flow, FaultKind>(flow) && post == state,
        Err(kind) => result == Err::<Flow, FaultKind>(kind) && post == pre,
    }
}

} // verus!
