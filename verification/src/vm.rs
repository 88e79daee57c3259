//! The interpreter loop: fetch the opcode at the program counter, look it up
//! in the instruction table, run the instruction, move on.

use vstd::prelude::*;

use crate::context::{byte_at, initial_state, next_address, Context, State};
use crate::fault::{conforms, Fault, FaultKind, Flow};
use crate::instructions::{Instruction, InstructionSet, Operation};
use crate::program::{Opcode, ProgramStorage};

verus! {

/// Why a run came to a stop without a fault.
#[derive(Clone, Copy, Debug, PartialEq, Eq, Structural)]
pub enum Status {
    /// The program counter left the program: the program is finished.
    Finished,
    /// The program ran its terminate instruction.
    Exited,
    /// The program waits for a byte of input. Offer one and run again.
    AwaitingInput,
    /// The step budget is used up. Run again to go on.
    Suspended,
}

/// The mathematical content of a [`Vm`]: its instruction table and the state
/// of its context.
pub struct Machine<I> {
    pub table: Map<Opcode, I>,
    pub state: State,
}

/// What one turn of the loop's body does to a state: the next state and how
/// to go on, or the fault that ends the run.
pub type Turn = Result<(State, Flow), Fault>;

/// The turn that succeeds, ends in `state` and goes on to the next fetch.
pub open spec fn goes_on_at(state: State) -> Turn {
    Ok((state, Flow::Advance))
}

/// One turn of the loop's body for `opcode`: the instruction bound to it
/// runs, and where it asks to go on the program counter moves one address
/// forward. An opcode that the table does not bind and a fault of the
/// instruction end in a [`Fault`] that names the opcode and the address at
/// which the turn began.
pub open spec fn run_op_spec<I: Operation>(
    table: Map<Opcode, I>,
    s: State,
    opcode: Opcode,
) -> Turn {
    if !table.contains_key(opcode) {
        Err(Fault { opcode, address: s.pc, kind: FaultKind::NoInstruction })
    } else {
        match table[opcode].semantics(s) {
            Ok((next, flow)) => if flow == Flow::Advance {
                Ok((State { pc: next_address(next.pc), ..next }, flow))
            } else {
                Ok((next, flow))
            },
            Err(kind) => Err(Fault { opcode, address: s.pc, kind }),
        }
    }
}

/// The state in which a run of at most `steps` instructions from `s` stops,
/// and why it stops there. A fault leaves the state as it was before the
/// faulting instruction.
pub open spec fn run_spec<I: Operation>(table: Map<Opcode, I>, s: State, steps: nat) -> (
    State,
    Result<Status, Fault>,
)
    decreases steps,
{
    match byte_at(s.program, s.pc) {
        None => (s, Ok(Status::Finished)),
        Some(opcode) => if steps == 0 {
            (s, Ok(Status::Suspended))
        } else {
            match run_op_spec(table, s, opcode) {
                Ok((next, flow)) => match flow {
                    Flow::Advance => run_spec(table, next, (steps - 1) as nat),
                    Flow::Exit => (next, Ok(Status::Exited)),
                    Flow::AwaitInput => (next, Ok(Status::AwaitingInput)),
                },
                Err(fault) => (s, Err(fault)),
            }
        },
    }
}

/// An interpreter: an instruction table and the context of one program.
pub struct Vm<P: ProgramStorage, I: Operation = Instruction> {
    /// All available instructions, by opcode.
    instructions: InstructionSet<I>,
    ctx: Context<P>,
}

/// An interpreter over a borrowed program.
pub type VM<'a> = Vm<&'a [u8]>;

impl<P: ProgramStorage, I: Operation> View for Vm<P, I> {
    type V = Machine<I>;

    closed spec fn view(&self) -> Machine<I> {
        Machine { table: self.instructions@, state: self.ctx@ }
    }
}

impl<P: ProgramStorage + Clone, I: Operation> Clone for Vm<P, I> {
    /// The copy holds the same table and a copy of the context.
    fn clone(&self) -> (copy: Self)
        ensures
            copy@.table == self@.table,
            copy@.state == (State { program: copy@.state.program, ..self@.state }),
            cloned(self.storage(), copy.storage()),
    {
        Vm { instructions: self.instructions.clone(), ctx: self.ctx.clone() }
    }
}

impl<P: ProgramStorage, I: Operation> Vm<P, I> {
    /// The program store.
    pub closed spec fn storage(&self) -> P {
        self.ctx.storage()
    }

    /// An interpreter for the program `data`, about to start.
    pub fn new(instructions: InstructionSet<I>, data: P) -> (vm: Self)
        ensures
            vm@ == (Machine { table: instructions@, state: initial_state(data.bytes()) }),
    {
        Self { instructions, ctx: Context::new(data) }
    }

    /// Replaces the program and keeps the table, the stacks, the program
    /// counter and the streams.
    pub fn with_program(self, program: P) -> (vm: Self)
        ensures
            vm@ == (Machine {
                table: self@.table,
                state: State { program: program.bytes(), ..self@.state },
            }),
    {
        Vm { instructions: self.instructions, ctx: self.ctx.with_program(program) }
    }

    /// Runs the program for at most `max_steps` instructions, or until it
    /// finishes, terminates, waits for input or faults.
    pub fn run(&mut self, max_steps: u64) -> (result: Result<Status, Fault>)
        ensures
            final(self)@.table == old(self)@.table,
            (final(self)@.state, result) == run_spec(
                old(self)@.table,
                old(self)@.state,
                max_steps as nat,
            ),
    {
        let mut left = max_steps;
        loop
            invariant
                self@.table == old(self)@.table,
                run_spec(self@.table, self@.state, left as nat) == run_spec(
                    old(self)@.table,
                    old(self)@.state,
                    max_steps as nat,
                ),
            decreases left,
        {
            let opcode = match self.ctx.cur_byte() {
                Some(opcode) => opcode,
                None => {
                    return Ok(Status::Finished);
                },
            };
            if left == 0 {
                return Ok(Status::Suspended);
            }
            match self.run_op(&opcode) {
                Ok(Flow::Advance) => {
                    left -= 1;
                },
                Ok(Flow::Exit) => {
                    return Ok(Status::Exited);
                },
                Ok(Flow::AwaitInput) => {
                    return Ok(Status::AwaitingInput);
                },
                Err(fault) => {
                    return Err(fault);
                },
            }
        }
    }

    /// Runs the instruction bound to `opcode` and, where it asks to go on,
    /// moves the program counter one address forward.
    pub fn run_op(&mut self, opcode: &u8) -> (result: Result<Flow, Fault>)
        ensures
            final(self)@.table == old(self)@.table,
            match run_op_spec(old(self)@.table, old(self)@.state, *opcode) {
                Ok((next, flow)) => result == Ok::<Flow, Fault>(flow) && final(self)@.state == next,
                Err(fault) => result == Err::<Flow, Fault>(fault) && final(self)@.state == old(
                    self,
                )@.state,
            },
    {
        let address = self.ctx.get_pc();
        let instruction = match self.instructions.get(opcode) {
            Some(instruction) => instruction,
            None => {
                return Err(Fault { opcode: *opcode, address, kind: FaultKind::NoInstruction });
            },
        };
        match self.run_instruction(instruction) {
            Ok(Flow::Advance) => {
                // The counter wraps: a jump may have left it at the last address.
                self.ctx.advance();
                Ok(Flow::Advance)
            },
            Ok(flow) => Ok(flow),
            Err(kind) => Err(Fault { opcode: *opcode, address, kind }),
        }
    }

    /// Runs one instruction on the context.
    #[inline(always)]
    pub fn run_instruction(&mut self, instruction: I) -> (result: Result<
        Flow,
        FaultKind,
    >)
        ensures
            final(self)@.table == old(self)@.table,
            conforms(
                old(self)@.state,
                final(self)@.state,
                result,
                instruction.semantics(old(self)@.state),
            ),
    {
        instruction.execute(&mut self.ctx)
    }

    /// The context.
    pub fn get_context(&self) -> (ctx: &Context<P>)
        ensures
            ctx@ == self@.state,
    {
        &self.ctx
    }

    /// The context, for changes from outside the program.
    pub fn get_context_mut(&mut self) -> (ctx: &mut Context<P>)
        ensures
            ctx@ == old(self)@.state,
            final(self)@ == (Machine { table: old(self)@.table, state: final(ctx)@ }),
    {
        &mut self.ctx
    }
}

} // verus!
