//! The base instructions: stack handling, literals, control flow and the
//! byte streams.

use vstd::prelude::*;
use vstd::string::StringExecFns;

use crate::context::{byte_at, next_address, prev_address, ref_values, Context, State};
use crate::data::{Data, Value};
use crate::fault::{conforms, FaultKind, Flow, Step};
use crate::instructions::{Instruction, InstructionSet};
use crate::opcodes::{
    AUXILIARY_PUSH, AUX_EMPTY, BACKSLASH, BRACKET_CLOSE, BRACKET_OPEN, CHARIFY, COMMENT,
    DIGIT_NINE, DIGIT_ZERO, DROP, DUP, EMPTY, EQUALS, ESCAPE_NEWLINE, EXIT, FALSE, INPUT, JUMP,
    MAIN_PUSH, NEWLINE, NOT, PAREN_CLOSE, PAREN_OPEN, PRINT, PRINT_STACK, SKIP_IF, SPACE, SWAP,
    TRUE,
};
use crate::program::{Opcode, ProgramStorage};
use crate::scan::{
    back_match, closes_at, comment_end, decimal_value, digits_end, ends_comment, forward_match,
    is_digit, lemma_back_match_found, lemma_comment_end, lemma_decimal_value_grows,
    lemma_digits_end, lemma_digits_end_bounds, lemma_forward_match_found, lemma_surplus_split,
    opens_at, surplus,
};

verus! {

/// The instruction that the base group binds `opcode` to, if it binds it.
pub open spec fn base_instruction(opcode: Opcode) -> Option<Instruction> {
    if opcode == NOT {
        Some(Instruction::Not)
    } else if opcode == COMMENT {
        Some(Instruction::Comment)
    } else if opcode == INPUT {
        Some(Instruction::Input)
    } else if opcode == CHARIFY {
        Some(Instruction::Charify)
    } else if opcode == SPACE || opcode == NEWLINE || opcode == PAREN_CLOSE {
        Some(Instruction::Nop)
    } else if opcode == AUXILIARY_PUSH {
        Some(Instruction::AuxiliaryPush)
    } else if opcode == DUP {
        Some(Instruction::Dup)
    } else if opcode == EMPTY {
        Some(Instruction::Empty)
    } else if opcode == FALSE {
        Some(Instruction::False)
    } else if opcode == PRINT_STACK {
        Some(Instruction::PrintStack)
    } else if opcode == JUMP {
        Some(Instruction::Jump)
    } else if opcode == MAIN_PUSH {
        Some(Instruction::MainPush)
    } else if opcode == DROP {
        Some(Instruction::Drop)
    } else if opcode == PRINT {
        Some(Instruction::Print)
    } else if opcode == SKIP_IF {
        Some(Instruction::SkipIf)
    } else if opcode == TRUE {
        Some(Instruction::True)
    } else if opcode == SWAP {
        Some(Instruction::Swap)
    } else if opcode == EXIT {
        Some(Instruction::Exit)
    } else if opcode == AUX_EMPTY {
        Some(Instruction::AuxEmpty)
    } else if DIGIT_ZERO <= opcode <= DIGIT_NINE {
        Some(Instruction::Digit)
    } else if opcode == EQUALS {
        Some(Instruction::Eq)
    } else if opcode == BRACKET_OPEN {
        Some(Instruction::CurPc)
    } else if opcode == BRACKET_CLOSE {
        Some(Instruction::JumpBack)
    } else if opcode == PAREN_OPEN {
        Some(Instruction::ParenOpen)
    } else {
        None
    }
}

/// `table` with the base group laid over it: the base group's opcodes are
/// bound as `base_instruction` says, every other opcode as in `table`.
pub open spec fn with_base(table: Map<Opcode, Instruction>) -> Map<Opcode, Instruction> {
    Map::new(
        |opcode: Opcode| base_instruction(opcode) is Some || table.contains_key(opcode),
        |opcode: Opcode|
            match base_instruction(opcode) {
                Some(instruction) => instruction,
                None => table[opcode],
            },
    )
}

/// Binds every opcode of the base group in `instructions`.
pub fn add_base_instructions(instructions: &mut InstructionSet)
    ensures
        final(instructions)@ == with_base(old(instructions)@),
{
    instructions.insert(NOT, Instruction::Not);
    instructions.insert(COMMENT, Instruction::Comment);
    instructions.insert(INPUT, Instruction::Input);
    instructions.insert(CHARIFY, Instruction::Charify);
    instructions.insert(SPACE, Instruction::Nop);
    instructions.insert(NEWLINE, Instruction::Nop);
    instructions.insert(AUXILIARY_PUSH, Instruction::AuxiliaryPush);
    instructions.insert(DUP, Instruction::Dup);
    instructions.insert(EMPTY, Instruction::Empty);
    instructions.insert(FALSE, Instruction::False);
    instructions.insert(PRINT_STACK, Instruction::PrintStack);
    instructions.insert(JUMP, Instruction::Jump);
    instructions.insert(MAIN_PUSH, Instruction::MainPush);
    instructions.insert(DROP, Instruction::Drop);
    instructions.insert(PRINT, Instruction::Print);
    instructions.insert(SKIP_IF, Instruction::SkipIf);
    instructions.insert(TRUE, Instruction::True);
    instructions.insert(SWAP, Instruction::Swap);
    instructions.insert(EXIT, Instruction::Exit);
    instructions.insert(AUX_EMPTY, Instruction::AuxEmpty);
    let ghost before = instructions@;
    let mut c: u8 = DIGIT_ZERO;
    while c <= DIGIT_NINE
        invariant
            DIGIT_ZERO <= c <= DIGIT_NINE + 1,
            instructions@ == Map::new(
                |opcode: Opcode| DIGIT_ZERO <= opcode < c || before.contains_key(opcode),
                |opcode: Opcode|
                    if DIGIT_ZERO <= opcode < c {
                        Instruction::Digit
                    } else {
                        before[opcode]
                    },
            ),
        decreases DIGIT_NINE + 1 - c,
    {
        instructions.insert(c, Instruction::Digit);
        c += 1;
    }
    instructions.insert(EQUALS, Instruction::Eq);

    instructions.insert(BRACKET_OPEN, Instruction::CurPc);
    instructions.insert(BRACKET_CLOSE, Instruction::JumpBack);

    instructions.insert(PAREN_OPEN, Instruction::ParenOpen);
    instructions.insert(PAREN_CLOSE, Instruction::Nop);
}

/// What `]` does: the program counter moves to the address before the
/// nearest `[` that balances the brackets scanned backward from the current
/// address, so that the next fetch lands on that `[`. With no such `[` the
/// instruction faults.
pub open spec fn jump_back_spec(s: State) -> Step {
    match back_match(s.program, s.pc as int) {
        Some(m) => Ok((State { pc: prev_address(m as usize), ..s }, Flow::Advance)),
        None => Err(FaultKind::UnmatchedBracket),
    }
}

/// (`]`) Jumps back to the last open square bracket `[`.
pub fn jump_back<P: ProgramStorage>(ctx: &mut Context<P>) -> (result: Result<Flow, FaultKind>)
    ensures
        conforms(old(ctx)@, final(ctx)@, result, jump_back_spec(old(ctx)@)),
{
    let start = ctx.get_pc();
    let mut cnt: i128 = 0;
    let ghost program = ctx@.program;
    // A scan that finds no `[` steps back from address zero to the last
    // address, which no program reaches, and ends there.
    let ghost mut wrapped = false;
    proof {
        ctx.lemma_program_bounded();
    }
    loop
        invariant
            program.len() <= usize::MAX,
            ctx@ == (State { pc: ctx@.pc, ..old(ctx)@ }),
            program == old(ctx)@.program,
            start == old(ctx)@.pc,
            wrapped ==> ctx@.pc == usize::MAX && start < program.len(),
            !wrapped ==> ctx@.pc <= start,
            !wrapped && ctx@.pc < program.len() ==> start < program.len(),
            -(start - ctx@.pc) <= cnt <= start - ctx@.pc || wrapped,
            !wrapped ==> cnt == surplus(
                program,
                BRACKET_CLOSE,
                BRACKET_OPEN,
                ctx@.pc + 1,
                start + 1,
            ),
            forall|k: int|
                (if wrapped {
                    0
                } else {
                    ctx@.pc + 1
                }) <= k <= start ==> !opens_at(program, start as int, k),
        decreases
            (if wrapped {
                0
            } else {
                ctx@.pc + 1
            }),
    {
        match ctx.cur_byte() {
            None => {
                ctx.set_pc(start);
                return Err(FaultKind::UnmatchedBracket);
            },
            Some(b) => {
                let at = ctx.get_pc();
                if b == BRACKET_OPEN && cnt == 1 {
                    proof {
                        lemma_back_match_found(program, start as int, at as int);
                    }
                    ctx.prev();
                    return Ok(Flow::Advance);
                }
                if b == BRACKET_OPEN {
                    cnt -= 1;
                } else if b == BRACKET_CLOSE {
                    cnt += 1;
                }
                proof {
                    if at == 0 {
                        wrapped = true;
                    }
                }
                ctx.prev();
            },
        }
    }
}

/// What `(` does: the program counter moves to the nearest `)` that
/// balances the parentheses scanned forward from the current address. With
/// no such `)` the instruction faults.
pub open spec fn paren_open_spec(s: State) -> Step {
    match forward_match(s.program, s.pc as int) {
        Some(m) => Ok((State { pc: m as usize, ..s }, Flow::Advance)),
        None => Err(FaultKind::UnmatchedBracket),
    }
}

/// (`(`) Jumps ahead to the balancing closed parenthesis `)`.
pub fn paren_open<P: ProgramStorage>(ctx: &mut Context<P>) -> (result: Result<Flow, FaultKind>)
    ensures
        conforms(old(ctx)@, final(ctx)@, result, paren_open_spec(old(ctx)@)),
{
    let start = ctx.get_pc();
    let mut cnt: i128 = 0;
    let ghost program = ctx@.program;
    proof {
        ctx.lemma_program_bounded();
    }
    loop
        invariant
            program.len() <= usize::MAX,
            ctx@ == (State { pc: ctx@.pc, ..old(ctx)@ }),
            program == old(ctx)@.program,
            start == old(ctx)@.pc,
            start <= ctx@.pc,
            start < program.len() ==> ctx@.pc <= program.len(),
            start >= program.len() ==> ctx@.pc == start,
            -(ctx@.pc - start) <= cnt <= ctx@.pc - start,
            cnt == surplus(program, PAREN_OPEN, PAREN_CLOSE, start as int, ctx@.pc as int),
            forall|k: int| start <= k < ctx@.pc ==> !closes_at(program, start as int, k),
        decreases program.len() - ctx@.pc,
    {
        match ctx.cur_byte() {
            None => {
                ctx.set_pc(start);
                return Err(FaultKind::UnmatchedBracket);
            },
            Some(byte) => {
                let at = ctx.get_pc();
                if byte == PAREN_CLOSE && cnt == 1 {
                    proof {
                        lemma_forward_match_found(program, start as int, at as int);
                    }
                    return Ok(Flow::Advance);
                }
                proof {
                    lemma_surplus_split(
                        program,
                        PAREN_OPEN,
                        PAREN_CLOSE,
                        start as int,
                        at as int,
                        at + 1,
                    );
                    assert(surplus(program, PAREN_OPEN, PAREN_CLOSE, at + 1, at + 1) == 0);
                }
                if byte == PAREN_CLOSE {
                    cnt -= 1;
                } else if byte == PAREN_OPEN {
                    cnt += 1;
                }
                ctx.advance();
            },
        }
    }
}

/// What `#` does: the program counter moves to the byte that ends the
/// comment, the first `#` or line feed after the current address, or to the
/// end of the program where the comment is not closed.
pub open spec fn comment_spec(s: State) -> Step {
    Ok(
        (
            State { pc: comment_end(s.program, next_address(s.pc) as int) as usize, ..s },
            Flow::Advance,
        ),
    )
}

/// (`#`) Comments out everything up to the next `#` or line feed.
pub fn comment<P: ProgramStorage>(ctx: &mut Context<P>) -> (result: Result<Flow, FaultKind>)
    ensures
        conforms(old(ctx)@, final(ctx)@, result, comment_spec(old(ctx)@)),
{
    ctx.advance();
    let ghost program = ctx@.program;
    let ghost from = ctx@.pc;
    proof {
        ctx.lemma_program_bounded();
    }
    loop
        invariant
            program.len() <= usize::MAX,
            ctx@ == (State { pc: ctx@.pc, ..old(ctx)@ }),
            program == old(ctx)@.program,
            from == next_address(old(ctx)@.pc),
            from <= ctx@.pc,
            from < ctx@.pc ==> ctx@.pc <= program.len(),
            forall|k: int| from <= k < ctx@.pc ==> !ends_comment(#[trigger] program[k]),
        decreases program.len() - ctx@.pc,
    {
        match ctx.cur_byte() {
            None => {
                proof {
                    lemma_comment_end(program, from as int, ctx@.pc as int);
                }
                return Ok(Flow::Advance);
            },
            Some(ch) => {
                if ch == COMMENT || ch == NEWLINE {
                    proof {
                        lemma_comment_end(program, from as int, ctx@.pc as int);
                    }
                    return Ok(Flow::Advance);
                }
                ctx.advance();
            },
        }
    }
}

/// What a digit does: the longest run of digits that starts at the current
/// address is read as a decimal number and pushed, and the program counter
/// moves to the last digit of the run. Where the current address holds no
/// digit the run is empty: zero is pushed and the counter moves one address
/// back. A number above `i64::MAX` is a fault.
pub open spec fn digit_spec(s: State) -> Step {
    let end = digits_end(s.program, s.pc as int);
    let number = decimal_value(s.program, s.pc as int, end);
    if number <= i64::MAX {
        Ok(
            (
                State {
                    stack: s.stack.push(Value::Int(number as int)),
                    pc: prev_address(end as usize),
                    ..s
                },
                Flow::Advance,
            ),
        )
    } else {
        Err(FaultKind::Overflow)
    }
}

/// (`0`-`9`) Parses a number. Should only be entered through a digit.
pub fn digit<P: ProgramStorage>(ctx: &mut Context<P>) -> (result: Result<Flow, FaultKind>)
    ensures
        conforms(old(ctx)@, final(ctx)@, result, digit_spec(old(ctx)@)),
{
    let start = ctx.get_pc();
    let mut num: i64 = 0;
    let ghost program = ctx@.program;
    proof {
        ctx.lemma_program_bounded();
    }
    loop
        invariant_except_break
            program.len() <= usize::MAX,
            ctx@ == (State { pc: ctx@.pc, ..old(ctx)@ }),
            program == old(ctx)@.program,
            start == old(ctx)@.pc,
            start <= ctx@.pc,
            start < ctx@.pc ==> ctx@.pc <= program.len(),
            forall|k: int| start <= k < ctx@.pc ==> is_digit(#[trigger] program[k]),
            0 <= num == decimal_value(program, start as int, ctx@.pc as int),
        ensures
            ctx@ == (State { pc: ctx@.pc, ..old(ctx)@ }),
            ctx@.pc == digits_end(old(ctx)@.program, old(ctx)@.pc as int),
            0 <= num == decimal_value(old(ctx)@.program, old(ctx)@.pc as int, ctx@.pc as int),
        decreases program.len() - ctx@.pc,
    {
        let byte = match ctx.cur_byte() {
            Some(byte) => byte,
            None => {
                proof {
                    lemma_digits_end(program, start as int, ctx@.pc as int);
                }
                break;
            },
        };
        if byte < DIGIT_ZERO || byte > DIGIT_NINE {
            proof {
                lemma_digits_end(program, start as int, ctx@.pc as int);
            }
            break;
        }
        let digit = (byte - DIGIT_ZERO) as i64;
        let next = match num.checked_mul(10) {
            Some(tens) => tens.checked_add(digit),
            None => None,
        };
        match next {
            Some(n) => {
                num = n;
            },
            None => {
                proof {
                    let at = ctx@.pc as int;
                    let end = digits_end(program, start as int);
                    lemma_digits_end_bounds(program, start as int);
                    lemma_decimal_value_grows(program, start as int, at + 1, end);
                }
                ctx.set_pc(start);
                return Err(FaultKind::Overflow);
            },
        }
        ctx.advance();
    }
    ctx.prev();
    ctx.push(Data::Int(num));
    Ok(Flow::Advance)
}

/// What `'` does: the byte after the current address is pushed as a
/// character and the program counter moves onto it. Where that byte is a
/// backslash, the byte after it names the character: `n` is the line feed,
/// and any other byte is a fault. The end of the program in place of either
/// byte is a fault.
pub open spec fn charify_spec(s: State) -> Step {
    let first = next_address(s.pc);
    match byte_at(s.program, first) {
        None => Err(FaultKind::UnexpectedEnd),
        Some(byte) => if byte == BACKSLASH {
            let second = next_address(first);
            match byte_at(s.program, second) {
                None => Err(FaultKind::UnexpectedEnd),
                Some(code) => if code == ESCAPE_NEWLINE {
                    Ok(
                        (
                            State { stack: s.stack.push(Value::Char('\n')), pc: second, ..s },
                            Flow::Advance,
                        ),
                    )
                } else {
                    Err(FaultKind::InvalidEscape(code))
                },
            }
        } else {
            Ok(
                (
                    State { stack: s.stack.push(Value::Char(byte as char)), pc: first, ..s },
                    Flow::Advance,
                ),
            )
        },
    }
}

/// (`'`) Pushes the next byte as a character.
pub fn charify<P: ProgramStorage>(ctx: &mut Context<P>) -> (result: Result<Flow, FaultKind>)
    ensures
        conforms(old(ctx)@, final(ctx)@, result, charify_spec(old(ctx)@)),
{
    let start = ctx.get_pc();
    ctx.advance();
    if let Some(byte) = ctx.cur_byte() {
        // Special case for an escape sequence.
        if byte == BACKSLASH {
            ctx.advance();
            match ctx.cur_byte() {
                None => {
                    ctx.set_pc(start);
                    Err(FaultKind::UnexpectedEnd)
                },
                Some(code) => {
                    if code == ESCAPE_NEWLINE {
                        ctx.push(Data::Char('\n'));
                        Ok(Flow::Advance)
                    } else {
                        ctx.set_pc(start);
                        Err(FaultKind::InvalidEscape(code))
                    }
                },
            }
        } else {
            ctx.push(Data::Char(byte as char));
            Ok(Flow::Advance)
        }
    } else {
        ctx.set_pc(start);
        Err(FaultKind::UnexpectedEnd)
    }
}

/// What space, line feed and `)` do: nothing.
pub open spec fn nop_spec(s: State) -> Step {
    Ok((s, Flow::Advance))
}

/// (` `) Does nothing.
pub fn nop<P: ProgramStorage>(ctx: &mut Context<P>) -> (result: Result<Flow, FaultKind>)
    ensures
        conforms(old(ctx)@, final(ctx)@, result, nop_spec(old(ctx)@)),
{
    Ok(Flow::Advance)
}

/// What `a` does: the top of the main stack moves to the auxiliary stack;
/// nothing happens when the main stack is empty.
pub open spec fn auxiliary_push_spec(s: State) -> Step {
    if s.stack.len() == 0 {
        Ok((s, Flow::Advance))
    } else {
        Ok(
            (
                State { stack: s.stack.drop_last(), aux: s.aux.push(s.stack.last()), ..s },
                Flow::Advance,
            ),
        )
    }
}

/// (`a`) Pops a value from the main stack and pushes it to the auxiliary
/// stack. Does nothing if the main stack is empty.
pub fn auxiliary_push<P: ProgramStorage>(ctx: &mut Context<P>) -> (result: Result<
    Flow,
    FaultKind,
>)
    ensures
        conforms(old(ctx)@, final(ctx)@, result, auxiliary_push_spec(old(ctx)@)),
{
    ctx.to_auxiliary();
    Ok(Flow::Advance)
}

/// What `m` does: the top of the auxiliary stack moves to the main stack;
/// nothing happens when the auxiliary stack is empty.
pub open spec fn main_push_spec(s: State) -> Step {
    if s.aux.len() == 0 {
        Ok((s, Flow::Advance))
    } else {
        Ok(
            (
                State { stack: s.stack.push(s.aux.last()), aux: s.aux.drop_last(), ..s },
                Flow::Advance,
            ),
        )
    }
}

/// (`m`) Pops a value from the auxiliary stack and pushes it to the main
/// stack. Does nothing if the auxiliary stack is empty.
pub fn main_push<P: ProgramStorage>(ctx: &mut Context<P>) -> (result: Result<Flow, FaultKind>)
    ensures
        conforms(old(ctx)@, final(ctx)@, result, main_push_spec(old(ctx)@)),
{
    ctx.to_main();
    Ok(Flow::Advance)
}

/// What `p` does: the top value leaves the stack and its text is written to
/// the output. An empty stack is a fault.
pub open spec fn print_spec(s: State) -> Step {
    if s.stack.len() == 0 {
        Err(FaultKind::StackUnderflow)
    } else {
        Ok(
            (
                State {
                    stack: s.stack.drop_last(),
                    output: s.output + s.stack.last().text(),
                    ..s
                },
                Flow::Advance,
            ),
        )
    }
}

/// (`p`) Prints the top element of the stack.
pub fn print<P: ProgramStorage>(ctx: &mut Context<P>) -> (result: Result<Flow, FaultKind>)
    ensures
        conforms(old(ctx)@, final(ctx)@, result, print_spec(old(ctx)@)),
{
    if let Some(val) = ctx.pop() {
        let text = val.to_text();
        ctx.write(text.as_str());
        Ok(Flow::Advance)
    } else {
        Err(FaultKind::StackUnderflow)
    }
}

/// What `d` does: a copy of the top value is pushed. An empty stack is a
/// fault.
pub open spec fn dup_spec(s: State) -> Step {
    if s.stack.len() == 0 {
        Err(FaultKind::StackUnderflow)
    } else {
        Ok((State { stack: s.stack.push(s.stack.last()), ..s }, Flow::Advance))
    }
}

/// (`d`) Duplicates the top element of the stack.
pub fn dup<P: ProgramStorage>(ctx: &mut Context<P>) -> (result: Result<Flow, FaultKind>)
    ensures
        conforms(old(ctx)@, final(ctx)@, result, dup_spec(old(ctx)@)),
{
    let val = if let Some(val) = ctx.top() {
        val.clone()
    } else {
        return Err(FaultKind::StackUnderflow);
    };
    ctx.push(val);
    Ok(Flow::Advance)
}

/// What `e` does: pushes whether the main stack is empty.
pub open spec fn empty_spec(s: State) -> Step {
    Ok((State { stack: s.stack.push(Value::Bool(s.stack.len() == 0)), ..s }, Flow::Advance))
}

/// (`e`) Pushes true if the stack is empty, false otherwise.
pub fn empty<P: ProgramStorage>(ctx: &mut Context<P>) -> (result: Result<Flow, FaultKind>)
    ensures
        conforms(old(ctx)@, final(ctx)@, result, empty_spec(old(ctx)@)),
{
    let is_empty = ctx.top().is_none();
    ctx.push(Data::Bool(is_empty));
    Ok(Flow::Advance)
}

/// What `z` does: pushes whether the auxiliary stack is empty.
pub open spec fn aux_empty_spec(s: State) -> Step {
    Ok((State { stack: s.stack.push(Value::Bool(s.aux.len() == 0)), ..s }, Flow::Advance))
}

/// (`z`) Pushes true if the auxiliary stack is empty, false otherwise.
pub fn aux_empty<P: ProgramStorage>(ctx: &mut Context<P>) -> (result: Result<Flow, FaultKind>)
    ensures
        conforms(old(ctx)@, final(ctx)@, result, aux_empty_spec(old(ctx)@)),
{
    let is_empty = ctx.aux_top().is_none();
    ctx.push(Data::Bool(is_empty));
    Ok(Flow::Advance)
}

/// What `f` and `t` do: push the truth value `b`.
pub open spec fn push_bool_spec(s: State, b: bool) -> Step {
    Ok((State { stack: s.stack.push(Value::Bool(b)), ..s }, Flow::Advance))
}

/// (`f`) Pushes false.
pub fn push_false<P: ProgramStorage>(ctx: &mut Context<P>) -> (result: Result<Flow, FaultKind>)
    ensures
        conforms(old(ctx)@, final(ctx)@, result, push_bool_spec(old(ctx)@, false)),
{
    ctx.push(Data::Bool(false));
    Ok(Flow::Advance)
}

/// (`t`) Pushes true.
pub fn push_true<P: ProgramStorage>(ctx: &mut Context<P>) -> (result: Result<Flow, FaultKind>)
    ensures
        conforms(old(ctx)@, final(ctx)@, result, push_bool_spec(old(ctx)@, true)),
{
    ctx.push(Data::Bool(true));
    Ok(Flow::Advance)
}

/// The address that an integer names: the integer itself where it is an
/// address, and its low bits at the width of an address otherwise.
pub open spec fn address_of(i: int) -> usize {
    i as usize
}

/// What `j` does: the top value leaves the stack and the program counter
/// moves to the address before the one it names, so that the next fetch
/// lands on the named address. An empty stack and a top value that is no
/// integer are faults.
pub open spec fn jump_spec(s: State) -> Step {
    if s.stack.len() == 0 {
        Err(FaultKind::StackUnderflow)
    } else {
        match s.stack.last() {
            Value::Int(i) => Ok(
                (
                    State { stack: s.stack.drop_last(), pc: prev_address(address_of(i)), ..s },
                    Flow::Advance,
                ),
            ),
            _ => Err(FaultKind::TypeMismatch),
        }
    }
}

/// (`j`) Jumps to the address given by the top element, which it pops.
pub fn jump<P: ProgramStorage>(ctx: &mut Context<P>) -> (result: Result<Flow, FaultKind>)
    ensures
        conforms(old(ctx)@, final(ctx)@, result, jump_spec(old(ctx)@)),
{
    let target = match ctx.top() {
        Some(Data::Int(i)) => *i,
        None => {
            return Err(FaultKind::StackUnderflow);
        },
        _ => {
            return Err(FaultKind::TypeMismatch);
        },
    };
    ctx.pop();
    ctx.set_pc((#[verifier::truncate] (target as usize)).wrapping_sub(1));
    Ok(Flow::Advance)
}

/// What `s` does: the top value leaves the stack; where it is true the
/// program counter moves one address on, so that the next instruction is
/// skipped. An empty stack and a top value that is no truth value are
/// faults.
pub open spec fn skip_if_spec(s: State) -> Step {
    if s.stack.len() == 0 {
        Err(FaultKind::StackUnderflow)
    } else {
        match s.stack.last() {
            Value::Bool(skip) => Ok(
                (
                    State {
                        stack: s.stack.drop_last(),
                        pc: if skip {
                            next_address(s.pc)
                        } else {
                            s.pc
                        },
                        ..s
                    },
                    Flow::Advance,
                ),
            ),
            _ => Err(FaultKind::TypeMismatch),
        }
    }
}

/// (`s`) Pops the top value and skips one instruction if it is true.
pub fn skip_if<P: ProgramStorage>(ctx: &mut Context<P>) -> (result: Result<Flow, FaultKind>)
    ensures
        conforms(old(ctx)@, final(ctx)@, result, skip_if_spec(old(ctx)@)),
{
    let skip = match ctx.top() {
        Some(Data::Bool(b)) => *b,
        None => {
            return Err(FaultKind::StackUnderflow);
        },
        _ => {
            return Err(FaultKind::TypeMismatch);
        },
    };
    ctx.pop();
    if skip {
        ctx.advance();
    }
    Ok(Flow::Advance)
}

/// What `!` does: a truth value on top of the stack is replaced by its
/// negation, an integer by its bitwise complement, which is `-i - 1`. An
/// empty stack and any other top value are faults.
pub open spec fn not_spec(s: State) -> Step {
    if s.stack.len() == 0 {
        Err(FaultKind::StackUnderflow)
    } else {
        match s.stack.last() {
            Value::Bool(b) => Ok(
                (State { stack: s.stack.drop_last().push(Value::Bool(!b)), ..s }, Flow::Advance),
            ),
            Value::Int(i) => Ok(
                (State { stack: s.stack.drop_last().push(Value::Int(-i - 1)), ..s }, Flow::Advance),
            ),
            _ => Err(FaultKind::TypeMismatch),
        }
    }
}

/// (`!`) Pops a value off the stack and pushes its negation.
pub fn not<P: ProgramStorage>(ctx: &mut Context<P>) -> (result: Result<Flow, FaultKind>)
    ensures
        conforms(old(ctx)@, final(ctx)@, result, not_spec(old(ctx)@)),
{
    let negated = match ctx.top() {
        Some(Data::Bool(b)) => Data::Bool(!*b),
        Some(Data::Int(i)) => {
            let i: i64 = *i;
            assert(!i == -i - 1) by (bit_vector);
            Data::Int(!i)
        },
        None => {
            return Err(FaultKind::StackUnderflow);
        },
        _ => {
            return Err(FaultKind::TypeMismatch);
        },
    };
    ctx.pop();
    ctx.push(negated);
    Ok(Flow::Advance)
}

/// What `=` does: the two top values leave the stack and whether they are
/// the same, in variant and payload, is pushed. Fewer than two values are a
/// fault.
pub open spec fn eq_spec(s: State) -> Step {
    if s.stack.len() < 2 {
        Err(FaultKind::StackUnderflow)
    } else {
        let a = s.stack[s.stack.len() - 1];
        let b = s.stack[s.stack.len() - 2];
        Ok(
            (
                State { stack: s.stack.drop_last().drop_last().push(Value::Bool(a == b)), ..s },
                Flow::Advance,
            ),
        )
    }
}

/// (`=`) Pops two values and pushes whether they are equal in type and value.
pub fn eq<P: ProgramStorage>(ctx: &mut Context<P>) -> (result: Result<Flow, FaultKind>)
    ensures
        conforms(old(ctx)@, final(ctx)@, result, eq_spec(old(ctx)@)),
{
    match ctx.pop() {
        Some(a) => match ctx.pop() {
            Some(b) => {
                ctx.push(Data::Bool(a == b));
                Ok(Flow::Advance)
            },
            None => {
                ctx.push(a);
                assert(ctx@.stack =~= old(ctx)@.stack);
                Err(FaultKind::StackUnderflow)
            },
        },
        None => Err(FaultKind::StackUnderflow),
    }
}

/// What `w` does: the two top values change places. Fewer than two values
/// are a fault.
pub open spec fn swap_spec(s: State) -> Step {
    if s.stack.len() < 2 {
        Err(FaultKind::StackUnderflow)
    } else {
        let a = s.stack[s.stack.len() - 1];
        let b = s.stack[s.stack.len() - 2];
        Ok((State { stack: s.stack.drop_last().drop_last().push(a).push(b), ..s }, Flow::Advance))
    }
}

/// (`w`) Swaps the top two values.
pub fn swap<P: ProgramStorage>(ctx: &mut Context<P>) -> (result: Result<Flow, FaultKind>)
    ensures
        conforms(old(ctx)@, final(ctx)@, result, swap_spec(old(ctx)@)),
{
    match ctx.pop() {
        Some(a) => match ctx.pop() {
            Some(b) => {
                ctx.push(a);
                ctx.push(b);
                Ok(Flow::Advance)
            },
            None => {
                ctx.push(a);
                assert(ctx@.stack =~= old(ctx)@.stack);
                Err(FaultKind::StackUnderflow)
            },
        },
        None => Err(FaultKind::StackUnderflow),
    }
}

/// What `o` does: the top value leaves the stack; nothing happens when the
/// stack is empty.
pub open spec fn drop_spec(s: State) -> Step {
    if s.stack.len() == 0 {
        Ok((s, Flow::Advance))
    } else {
        Ok((State { stack: s.stack.drop_last(), ..s }, Flow::Advance))
    }
}

/// (`o`) Drops the top value.
pub fn drop<P: ProgramStorage>(ctx: &mut Context<P>) -> (result: Result<Flow, FaultKind>)
    ensures
        conforms(old(ctx)@, final(ctx)@, result, drop_spec(old(ctx)@)),
{
    ctx.pop();
    Ok(Flow::Advance)
}

/// What `x` does: the program stops, and the state stays as it is.
pub open spec fn exit_spec(s: State) -> Step {
    Ok((s, Flow::Exit))
}

/// (`x`) Terminates the program.
pub fn exit<P: ProgramStorage>(ctx: &mut Context<P>) -> (result: Result<Flow, FaultKind>)
    ensures
        conforms(old(ctx)@, final(ctx)@, result, exit_spec(old(ctx)@)),
{
    Ok(Flow::Exit)
}

/// What `[` does: pushes the current address as an integer. An address
/// above `i64::MAX` is pushed as the integer with the same 64 bits.
pub open spec fn cur_pc_spec(s: State) -> Step {
    Ok((State { stack: s.stack.push(Value::Int((s.pc as i64) as int)), ..s }, Flow::Advance))
}

/// (`[`) Pushes the current program counter to the stack as an integer.
pub fn cur_pc<P: ProgramStorage>(ctx: &mut Context<P>) -> (result: Result<Flow, FaultKind>)
    ensures
        conforms(old(ctx)@, final(ctx)@, result, cur_pc_spec(old(ctx)@)),
{
    let pc = ctx.get_pc();
    ctx.push(Data::Int(#[verifier::truncate] (pc as i64)));
    Ok(Flow::Advance)
}

/// What `,` does: the oldest byte of input on offer is taken and pushed as
/// a character. With no input on offer nothing changes and the instruction
/// asks for input.
pub open spec fn input_spec(s: State) -> Step {
    if s.input.len() == 0 {
        Ok((s, Flow::AwaitInput))
    } else {
        Ok(
            (
                State {
                    stack: s.stack.push(Value::Char(s.input.first() as char)),
                    input: s.input.drop_first(),
                    ..s
                },
                Flow::Advance,
            ),
        )
    }
}

/// (`,`) Reads one byte of input and pushes it as a character.
pub fn input<P: ProgramStorage>(ctx: &mut Context<P>) -> (result: Result<Flow, FaultKind>)
    ensures
        conforms(old(ctx)@, final(ctx)@, result, input_spec(old(ctx)@)),
{
    match ctx.read_input() {
        Some(byte) => {
            ctx.push(Data::Char(byte as char));
            Ok(Flow::Advance)
        },
        None => Ok(Flow::AwaitInput),
    }
}

/// One line of a stack listing: the value's listing text, indented by four
/// spaces and followed by a comma and a line feed.
pub open spec fn listing_line(value: Value) -> Seq<char> {
    "    "@ + value.debug_text() + ",\n"@
}

/// The lines of a stack listing for `items`, first item first.
pub open spec fn listing(items: Seq<Value>) -> Seq<char>
    decreases items.len(),
{
    if items.len() == 0 {
        Seq::empty()
    } else {
        listing(items.drop_last()) + listing_line(items.last())
    }
}

/// The listing of both stacks: under the heading `Main: [` the main stack
/// from top to bottom, one value a line, closed by `]`; then the auxiliary
/// stack in the same way under `Aux: [`.
pub open spec fn dump_text(stack: Seq<Value>, aux: Seq<Value>) -> Seq<char> {
    "Main: [\n"@ + listing(stack.reverse()) + "]\n"@ + "Aux: [\n"@ + listing(aux.reverse())
        + "]\n"@
}

/// What `h` does: the listing of both stacks is written to the output.
pub open spec fn print_stack_spec(s: State) -> Step {
    Ok((State { output: s.output + dump_text(s.stack, s.aux), ..s }, Flow::Advance))
}

/// Appends the listing lines of `items` to `text`.
fn append_listing(text: &mut String, items: &Vec<&Data>)
    ensures
        final(text)@ == old(text)@ + listing(ref_values(items@)),
{
    let ghost vals = ref_values(items@);
    let mut i: usize = 0;
    while i < items.len()
        invariant
            i <= items@.len(),
            vals == ref_values(items@),
            text@ == old(text)@ + listing(vals.take(i as int)),
        decreases items@.len() - i,
    {
        let entry = items[i].to_debug_text();
        text.append("    ");
        text.append(entry.as_str());
        text.append(",\n");
        proof {
            assert(vals.take(i + 1).drop_last() =~= vals.take(i as int));
        }
        i += 1;
    }
    assert(vals.take(items@.len() as int) =~= vals);
}

/// (`h`) Prints the complete stacks.
pub fn print_stack<P: ProgramStorage>(ctx: &mut Context<P>) -> (result: Result<Flow, FaultKind>)
    ensures
        conforms(old(ctx)@, final(ctx)@, result, print_stack_spec(old(ctx)@)),
{
    let mut text = String::from_str("Main: [\n");
    append_listing(&mut text, &ctx.stack_iter());
    text.append("]\n");
    text.append("Aux: [\n");
    append_listing(&mut text, &ctx.aux_stack_iter());
    text.append("]\n");
    ctx.write(text.as_str());
    Ok(Flow::Advance)
}

} // verus!
