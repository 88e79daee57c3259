//! The execution context: two value stacks, the program counter, the program,
//! and the byte streams a program reads from and writes to.

use std::collections::VecDeque;
use vstd::prelude::*;
use vstd::string::StringExecFns;

use crate::data::{Data, Value};
use crate::program::{Opcode, ProgramStorage};

verus! {

/// The mathematical content of a [`Context`].
///
/// The top of a stack is the last element of its sequence. `input` holds the
/// bytes that were offered and not yet read, oldest first; `output` holds the
/// text that was written and not yet taken.
pub struct State {
    pub stack: Seq<Value>,
    pub aux: Seq<Value>,
    pub pc: usize,
    pub program: Seq<Opcode>,
    pub input: Seq<u8>,
    pub output: Seq<char>,
}

/// The contents of a run of values.
pub open spec fn values(items: Seq<Data>) -> Seq<Value> {
    items.map_values(|d: Data| d@)
}

/// `values` follows a push.
pub proof fn lemma_values_push(items: Seq<Data>, d: Data)
    ensures
        values(items.push(d)) == values(items).push(d@),
{
}

/// `values` follows the removal of the last item.
pub proof fn lemma_values_drop_last(items: Seq<Data>)
    requires
        items.len() > 0,
    ensures
        values(items.drop_last()) == values(items).drop_last(),
        values(items).last() == items.last()@,
{
}

/// The contents of a run of borrowed values.
pub open spec fn ref_values(items: Seq<&Data>) -> Seq<Value> {
    items.map_values(|d: &Data| d@)
}

/// The address after `pc`; the last address is followed by address zero.
pub open spec fn next_address(pc: usize) -> usize {
    if pc == usize::MAX {
        0
    } else {
        (pc + 1) as usize
    }
}

/// The address before `pc`; address zero is preceded by the last address.
pub open spec fn prev_address(pc: usize) -> usize {
    if pc == 0 {
        usize::MAX
    } else {
        (pc - 1) as usize
    }
}

/// The byte of `program` at `pc`, if `pc` lies inside the program.
pub open spec fn byte_at(program: Seq<Opcode>, pc: usize) -> Option<Opcode> {
    if pc < program.len() {
        Some(program[pc as int])
    } else {
        None
    }
}

/// The state in which a program starts.
pub open spec fn initial_state(program: Seq<Opcode>) -> State {
    State {
        stack: Seq::empty(),
        aux: Seq::empty(),
        pc: 0,
        program,
        input: Seq::empty(),
        output: Seq::empty(),
    }
}

/// References to the items of `stack`, last item first.
fn top_down(stack: &Vec<Data>) -> (items: Vec<&Data>)
    ensures
        items@.len() == stack@.len(),
        forall|i: int|
            0 <= i < items@.len() ==> *#[trigger] items@[i] == stack@[stack@.len() - 1 - i],
{
    let mut items: Vec<&Data> = Vec::new();
    let mut left: usize = stack.len();
    while left > 0
        invariant
            left <= stack@.len(),
            items@.len() == stack@.len() - left,
            forall|i: int|
                0 <= i < items@.len() ==> *#[trigger] items@[i] == stack@[stack@.len() - 1 - i],
        decreases left,
    {
        left -= 1;
        items.push(&stack[left]);
    }
    items
}

/// A mutable context for one running program.
#[derive(Debug)]
pub struct Context<P: ProgramStorage> {
    /// Value stack.
    stack: Vec<Data>,
    /// Auxiliary stack.
    auxiliary_stack: Vec<Data>,
    /// Program counter: the address of the current instruction.
    pc: usize,
    program: P,
    /// Bytes offered to the program and not yet read.
    input: VecDeque<u8>,
    /// Text written by the program and not yet taken.
    output: String,
}

impl<P: ProgramStorage> View for Context<P> {
    type V = State;

    closed spec fn view(&self) -> State {
        State {
            stack: values(self.stack@),
            aux: values(self.auxiliary_stack@),
            pc: self.pc,
            program: self.program.bytes(),
            input: self.input@,
            output: self.output@,
        }
    }
}

impl<P: ProgramStorage + Clone> Clone for Context<P> {
    /// The copy holds the same stacks, program counter and streams, and a
    /// clone of the program.
    fn clone(&self) -> (copy: Self)
        ensures
            copy@ == (State { program: copy@.program, ..self@ }),
            cloned(self.storage(), copy.storage()),
    {
        Context {
            stack: self.stack.clone(),
            auxiliary_stack: self.auxiliary_stack.clone(),
            pc: self.pc,
            program: self.program.clone(),
            input: self.input.clone(),
            output: self.output.clone(),
        }
    }
}

impl<P: ProgramStorage> Context<P> {
    /// The program store.
    pub closed spec fn storage(&self) -> P {
        self.program
    }

    /// Creates a context at address zero with empty stacks and streams.
    pub fn new(program: P) -> (ctx: Self)
        ensures
            ctx@ == initial_state(program.bytes()),
    {
        let ctx = Context {
            program,
            stack: Vec::new(),
            auxiliary_stack: Vec::new(),
            pc: 0,
            input: VecDeque::new(),
            output: String::new(),
        };
        assert(values(Seq::<Data>::empty()) =~= Seq::<Value>::empty());
        ctx
    }

    /// Replaces the program and keeps everything else.
    pub fn with_program<P2: ProgramStorage>(self, program: P2) -> (ctx: Context<P2>)
        ensures
            ctx@ == (State { program: program.bytes(), ..self@ }),
    {
        Context {
            program,
            stack: self.stack,
            auxiliary_stack: self.auxiliary_stack,
            pc: self.pc,
            input: self.input,
            output: self.output,
        }
    }

    /// The program never reaches the last address.
    pub proof fn lemma_program_bounded(&self)
        ensures
            self@.program.len() <= usize::MAX,
    {
        self.program.lemma_bytes_bounded();
    }

    /// Pops a value off the main stack.
    pub fn pop(&mut self) -> (popped: Option<Data>)
        ensures
            old(self)@.stack.len() == 0 ==> popped is None && final(self)@ == old(self)@,
            old(self)@.stack.len() > 0 ==> popped is Some && popped->0@ == old(self)@.stack.last()
                && final(self)@ == (State { stack: old(self)@.stack.drop_last(), ..old(self)@ }),
    {
        proof {
            if self.stack@.len() > 0 {
                lemma_values_drop_last(self.stack@);
            }
        }
        self.stack.pop()
    }

    /// The top value of the main stack.
    pub fn top(&self) -> (top: Option<&Data>)
        ensures
            self@.stack.len() == 0 ==> top is None,
            self@.stack.len() > 0 ==> top is Some && top->0@ == self@.stack.last(),
    {
        let n = self.stack.len();
        if n == 0 {
            None
        } else {
            Some(&self.stack[n - 1])
        }
    }

    /// Pushes a value onto the main stack.
    pub fn push(&mut self, data: Data)
        ensures
            final(self)@ == (State { stack: old(self)@.stack.push(data@), ..old(self)@ }),
    {
        proof {
            lemma_values_push(self.stack@, data);
        }
        self.stack.push(data)
    }

    /// The program counter.
    pub fn get_pc(&self) -> (pc: usize)
        ensures
            pc == self@.pc,
    {
        self.pc
    }

    /// Sets the program counter.
    pub fn set_pc(&mut self, pc: usize)
        ensures
            final(self)@ == (State { pc, ..old(self)@ }),
    {
        self.pc = pc
    }

    /// Moves the program counter one address forward, wrapping at the end of
    /// the address space.
    pub fn advance(&mut self)
        ensures
            final(self)@ == (State { pc: next_address(old(self)@.pc), ..old(self)@ }),
    {
        self.pc = self.pc.wrapping_add(1);
    }

    /// Moves the program counter one address back, wrapping below zero.
    pub fn prev(&mut self)
        ensures
            final(self)@ == (State { pc: prev_address(old(self)@.pc), ..old(self)@ }),
    {
        self.pc = self.pc.wrapping_sub(1);
    }

    /// The program byte at the program counter.
    pub fn cur_byte(&self) -> (byte: Option<u8>)
        ensures
            byte == byte_at(self@.program, self@.pc),
    {
        self.program.opcode_at(self.pc)
    }

    /// Moves the top of the main stack to the auxiliary stack; does nothing
    /// when the main stack is empty.
    pub fn to_auxiliary(&mut self)
        ensures
            old(self)@.stack.len() == 0 ==> final(self)@ == old(self)@,
            old(self)@.stack.len() > 0 ==> final(self)@ == (State {
                stack: old(self)@.stack.drop_last(),
                aux: old(self)@.aux.push(old(self)@.stack.last()),
                ..old(self)@
            }),
    {
        if let Some(val) = self.pop() {
            proof {
                lemma_values_push(self.auxiliary_stack@, val);
            }
            self.auxiliary_stack.push(val)
        }
    }

    /// Moves the top of the auxiliary stack to the main stack; does nothing
    /// when the auxiliary stack is empty.
    pub fn to_main(&mut self)
        ensures
            old(self)@.aux.len() == 0 ==> final(self)@ == old(self)@,
            old(self)@.aux.len() > 0 ==> final(self)@ == (State {
                stack: old(self)@.stack.push(old(self)@.aux.last()),
                aux: old(self)@.aux.drop_last(),
                ..old(self)@
            }),
    {
        proof {
            if self.auxiliary_stack@.len() > 0 {
                lemma_values_drop_last(self.auxiliary_stack@);
            }
        }
        if let Some(val) = self.auxiliary_stack.pop() {
            self.push(val)
        }
    }

    /// The values of the main stack from top to bottom.
    pub fn stack_iter(&self) -> (items: Vec<&Data>)
        ensures
            ref_values(items@) == self@.stack.reverse(),
    {
        top_down(&self.stack)
    }

    /// The values of the auxiliary stack from top to bottom.
    pub fn aux_stack_iter(&self) -> (items: Vec<&Data>)
        ensures
            ref_values(items@) == self@.aux.reverse(),
    {
        top_down(&self.auxiliary_stack)
    }

    /// Offers one byte of input to the program, behind those already on offer.
    pub fn offer_input(&mut self, byte: u8)
        ensures
            final(self)@ == (State { input: old(self)@.input.push(byte), ..old(self)@ }),
    {
        self.input.push_back(byte);
    }

    /// Takes the oldest byte of input on offer, if there is one.
    pub fn read_input(&mut self) -> (byte: Option<u8>)
        ensures
            old(self)@.input.len() == 0 ==> byte is None && final(self)@ == old(self)@,
            old(self)@.input.len() > 0 ==> byte == Some(old(self)@.input.first()) && final(self)@
                == (State { input: old(self)@.input.drop_first(), ..old(self)@ }),
    {
        self.input.pop_front()
    }

    /// Writes `text` to the output.
    pub fn write(&mut self, text: &str)
        ensures
            final(self)@ == (State { output: old(self)@.output + text@, ..old(self)@ }),
    {
        self.output.append(text);
    }

    /// The output written since it was last taken.
    pub fn output(&self) -> (text: &str)
        ensures
            text@ == self@.output,
    {
        self.output.as_str()
    }

    /// Hands out the output written since it was last taken, and starts anew.
    pub fn take_output(&mut self) -> (text: String)
        ensures
            text@ == old(self)@.output,
            final(self)@ == (State { output: Seq::empty(), ..old(self)@ }),
    {
        let mut text = String::new();
        std::mem::swap(&mut self.output, &mut text);
        text
    }

    /// The top value of the auxiliary stack.
    pub fn aux_top(&self) -> (top: Option<&Data>)
        ensures
            self@.aux.len() == 0 ==> top is None,
            self@.aux.len() > 0 ==> top is Some && top->0@ == self@.aux.last(),
    {
        let n = self.auxiliary_stack.len();
        if n == 0 {
            None
        } else {
            Some(&self.auxiliary_stack[n - 1])
        }
    }
}

} // verus!
