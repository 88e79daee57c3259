//! The arithmetic instructions.

use vstd::prelude::*;

use crate::context::{Context, State};
use crate::data::{Data, Value};
use crate::fault::{conforms, FaultKind, Flow, Step};
use crate::instructions::{Instruction, InstructionSet};
use crate::opcodes::PLUS;
use crate::program::{Opcode, ProgramStorage};

verus! {

/// The instruction that the arithmetic group binds `opcode` to, if it binds it.
pub open spec fn arithmetic_instruction(opcode: Opcode) -> Option<Instruction> {
    if opcode == PLUS {
        Some(Instruction::Plus)
    } else {
        None
    }
}

/// `table` with the arithmetic group laid over it.
pub open spec fn with_arithmetic(table: Map<Opcode, Instruction>) -> Map<Opcode, Instruction> {
    Map::new(
        |opcode: Opcode| arithmetic_instruction(opcode) is Some || table.contains_key(opcode),
        |opcode: Opcode|
            match arithmetic_instruction(opcode) {
                Some(instruction) => instruction,
                None => table[opcode],
            },
    )
}

/// Binds every opcode of the arithmetic group in `instructions`.
pub fn add_arithmetic_instructions(instructions: &mut InstructionSet)
    ensures
        final(instructions)@ == with_arithmetic(old(instructions)@),
{
    instructions.insert(PLUS, Instruction::Plus);
}

/// What `+` does: the two top values leave the stack and their sum is
/// pushed. Fewer than two values, a value that is no integer, and a sum
/// outside the 64-bit range are faults.
pub open spec fn plus_spec(s: State) -> Step {
    if s.stack.len() < 2 {
        Err(FaultKind::StackUnderflow)
    } else {
        match (s.stack[s.stack.len() - 1], s.stack[s.stack.len() - 2]) {
            (Value::Int(a), Value::Int(b)) => if i64::MIN <= a + b <= i64::MAX {
                Ok(
                    (
                        State {
                            stack: s.stack.drop_last().drop_last().push(Value::Int(a + b)),
                            ..s
                        },
                        Flow::Advance,
                    ),
                )
            } else {
                Err(FaultKind::Overflow)
            },
            _ => Err(FaultKind::TypeMismatch),
        }
    }
}

/// (`+`) Pops two values off the stack and pushes their sum.
pub fn plus<P: ProgramStorage>(ctx: &mut Context<P>) -> (result: Result<Flow, FaultKind>)
    ensures
        conforms(old(ctx)@, final(ctx)@, result, plus_spec(old(ctx)@)),
{
    let first = match ctx.pop() {
        Some(first) => first,
        None => {
            return Err(FaultKind::StackUnderflow);
        },
    };
    let second = match ctx.pop() {
        Some(second) => second,
        None => {
            ctx.push(first);
            assert(ctx@.stack =~= old(ctx)@.stack);
            return Err(FaultKind::StackUnderflow);
        },
    };
    let fault = match (&first, &second) {
        (Data::Int(a), Data::Int(b)) => match a.checked_add(*b) {
            Some(sum) => {
                ctx.push(Data::Int(sum));
                return Ok(Flow::Advance);
            },
            None => FaultKind::Overflow,
        },
        _ => FaultKind::TypeMismatch,
    };
    ctx.push(second);
    ctx.push(first);
    assert(ctx@.stack =~= old(ctx)@.stack);
    Err(fault)
}

} // verus!
