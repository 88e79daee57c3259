//! The instruction table: which opcode runs which instruction.

use std::collections::HashMap;
use vstd::prelude::*;

use crate::context::{Context, State};
use crate::fault::{conforms, FaultKind, Flow, Step};
use crate::program::{Opcode, ProgramStorage};

pub mod arithmetic;
pub mod base;

verus! {

/// One built-in operation of the language. An opcode is bound to an
/// instruction in an [`InstructionSet`].
#[derive(Clone, Copy, Debug, PartialEq, Eq, Structural)]
pub enum Instruction {
    Nop,
    Comment,
    Digit,
    AuxiliaryPush,
    MainPush,
    Print,
    Dup,
    Empty,
    AuxEmpty,
    False,
    True,
    Jump,
    SkipIf,
    Not,
    Plus,
    Eq,
    Swap,
    Drop,
    Exit,
    PrintStack,
    Input,
    Charify,
    CurPc,
    JumpBack,
    ParenOpen,
}

/// A value that can stand in an instruction table: something to carry out on
/// a context, with a statement of what that does to the state.
///
/// The built-in [`Instruction`] is one such type. A program that needs more
/// opcodes defines a type of its own, most simply an enum with one variant
/// that holds an `Instruction`, and binds its values in an
/// [`InstructionSet`]; the interpreter runs them as it runs the built-in ones.
pub trait Operation: Copy {
    /// What carrying the operation out does to a state.
    spec fn semantics(&self, s: State) -> Step;

    /// Carries the operation out on `ctx`. On a fault `ctx` is left as it was.
    fn execute<P: ProgramStorage>(&self, ctx: &mut Context<P>) -> (result: Result<
        Flow,
        FaultKind,
    >)
        ensures
            conforms(old(ctx)@, final(ctx)@, result, self.semantics(old(ctx)@)),
    ;
}

impl Operation for Instruction {
    open spec fn semantics(&self, s: State) -> Step {
        match self {
            Instruction::Nop => base::nop_spec(s),
            Instruction::Comment => base::comment_spec(s),
            Instruction::Digit => base::digit_spec(s),
            Instruction::AuxiliaryPush => base::auxiliary_push_spec(s),
            Instruction::MainPush => base::main_push_spec(s),
            Instruction::Print => base::print_spec(s),
            Instruction::Dup => base::dup_spec(s),
            Instruction::Empty => base::empty_spec(s),
            Instruction::AuxEmpty => base::aux_empty_spec(s),
            Instruction::False => base::push_bool_spec(s, false),
            Instruction::True => base::push_bool_spec(s, true),
            Instruction::Jump => base::jump_spec(s),
            Instruction::SkipIf => base::skip_if_spec(s),
            Instruction::Not => base::not_spec(s),
            Instruction::Plus => arithmetic::plus_spec(s),
            Instruction::Eq => base::eq_spec(s),
            Instruction::Swap => base::swap_spec(s),
            Instruction::Drop => base::drop_spec(s),
            Instruction::Exit => base::exit_spec(s),
            Instruction::PrintStack => base::print_stack_spec(s),
            Instruction::Input => base::input_spec(s),
            Instruction::Charify => base::charify_spec(s),
            Instruction::CurPc => base::cur_pc_spec(s),
            Instruction::JumpBack => base::jump_back_spec(s),
            Instruction::ParenOpen => base::paren_open_spec(s),
        }
    }

    fn execute<P: ProgramStorage>(&self, ctx: &mut Context<P>) -> (result: Result<
        Flow,
        FaultKind,
    >) {
        match self {
            Instruction::Nop => base::nop(ctx),
            Instruction::Comment => base::comment(ctx),
            Instruction::Digit => base::digit(ctx),
            Instruction::AuxiliaryPush => base::auxiliary_push(ctx),
            Instruction::MainPush => base::main_push(ctx),
            Instruction::Print => base::print(ctx),
            Instruction::Dup => base::dup(ctx),
            Instruction::Empty => base::empty(ctx),
            Instruction::AuxEmpty => base::aux_empty(ctx),
            Instruction::False => base::push_false(ctx),
            Instruction::True => base::push_true(ctx),
            Instruction::Jump => base::jump(ctx),
            Instruction::SkipIf => base::skip_if(ctx),
            Instruction::Not => base::not(ctx),
            Instruction::Plus => arithmetic::plus(ctx),
            Instruction::Eq => base::eq(ctx),
            Instruction::Swap => base::swap(ctx),
            Instruction::Drop => base::drop(ctx),
            Instruction::Exit => base::exit(ctx),
            Instruction::PrintStack => base::print_stack(ctx),
            Instruction::Input => base::input(ctx),
            Instruction::Charify => base::charify(ctx),
            Instruction::CurPc => base::cur_pc(ctx),
            Instruction::JumpBack => base::jump_back(ctx),
            Instruction::ParenOpen => base::paren_open(ctx),
        }
    }
}

/// `nohash::NoHashHasher`: a hasher whose output is the one integer written
/// to it. Nothing is stated of it but that the type exists.
#[verifier::external_type_specification]
#[verifier::external_body]
#[verifier::reject_recursive_types(T)]
pub struct ExNoHashHasher<T>(nohash::NoHashHasher<T>);

/// `std::hash::BuildHasherDefault`: builds a hasher by `H::default()`.
/// Nothing is stated of it but that the type exists.
#[verifier::external_type_specification]
#[verifier::external_body]
#[verifier::reject_recursive_types(H)]
pub struct ExBuildHasherDefault<H>(std::hash::BuildHasherDefault<H>);

/// The map behind an [`InstructionSet`]: a hash map whose hasher hands the
/// opcode through as its own hash.
pub type InstructionSetInner<I> = HashMap<Opcode, I, nohash::BuildNoHashHasher<Opcode>>;

/// `HashMap::insert` on a map that hashes with `nohash::NoHashHasher<u8>`.
/// The map builds a fresh hasher for every key and writes the key to it
/// once; the hasher returns the key it was given. So equal keys hash alike,
/// and the insert binds `opcode` to `instruction`, over any earlier binding,
/// and leaves every other key as it was.
#[verifier::external_body]
fn table_insert<I>(table: &mut InstructionSetInner<I>, opcode: Opcode, instruction: I)
    ensures
        final(table)@ == old(table)@.insert(opcode, instruction),
{
    table.insert(opcode, instruction);
}

/// `HashMap::get` on a map that hashes with `nohash::NoHashHasher<u8>`: the
/// instruction bound to `opcode`, or `None` where the map has no such key.
#[verifier::external_body]
fn table_get<I: Copy>(table: &InstructionSetInner<I>, opcode: Opcode) -> (found: Option<I>)
    ensures
        found == (if table@.contains_key(opcode) {
            Some(table@[opcode])
        } else {
            None
        }),
{
    table.get(&opcode).copied()
}

/// A table from opcodes to instructions of type `I`.
pub struct InstructionSet<I = Instruction>(InstructionSetInner<I>);

impl<I: Copy> Clone for InstructionSet<I> {
    /// The copy binds the same opcodes to the same instructions.
    fn clone(&self) -> (copy: Self)
        ensures
            copy@ == self@,
    {
        InstructionSet(self.0.clone())
    }
}

impl<I> View for InstructionSet<I> {
    type V = Map<Opcode, I>;

    closed spec fn view(&self) -> Map<Opcode, I> {
        self.0@
    }
}

impl<I: Copy> InstructionSet<I> {
    /// A table that binds no opcode.
    pub fn new() -> (set: Self)
        ensures
            set@ == Map::<Opcode, I>::empty(),
    {
        InstructionSet(HashMap::default())
    }

    /// A table filled by `add_instructions`, which is handed an empty table
    /// and returns the finished one.
    pub fn new_with<F: FnOnce(Self) -> Self>(add_instructions: F) -> (set: Self)
        requires
            forall|empty: Self|
                empty@ == Map::<Opcode, I>::empty() ==> call_requires(
                    add_instructions,
                    (empty,),
                ),
        ensures
            exists|empty: Self|
                empty@ == Map::<Opcode, I>::empty() && call_ensures(
                    add_instructions,
                    (empty,),
                    set,
                ),
    {
        let me = Self::new();
        let ghost empty = me;
        let set = add_instructions(me);
        assert(empty@ == Map::<Opcode, I>::empty() && call_ensures(
            add_instructions,
            (empty,),
            set,
        ));
        set
    }

    /// The map behind the table, for direct use.
    pub fn inner_mut(&mut self) -> (inner: &mut InstructionSetInner<I>)
        ensures
            inner@ == old(self)@,
            final(self)@ == final(inner)@,
    {
        &mut self.0
    }

    /// Binds `opcode` to `instruction`, replacing any earlier binding.
    pub fn insert(&mut self, opcode: u8, instruction: I)
        ensures
            final(self)@ == old(self)@.insert(opcode, instruction),
    {
        table_insert(&mut self.0, opcode, instruction);
    }

    /// The instruction bound to `opcode`, if any.
    pub fn get(&self, opcode: &u8) -> (found: Option<I>)
        ensures
            found == (if self@.contains_key(*opcode) {
                Some(self@[*opcode])
            } else {
                None
            }),
    {
        table_get(&self.0, *opcode)
    }
}

impl InstructionSet<Instruction> {
    /// Adds the base instructions, over any earlier binding of their opcodes.
    pub fn with_base_instructions(&mut self) -> (set: &mut Self)
        ensures
            set@ == base::with_base(old(self)@),
            final(self)@ == final(set)@,
    {
        base::add_base_instructions(self);
        self
    }

    /// Adds the arithmetic instructions, over any earlier binding of their
    /// opcodes.
    pub fn with_arithmetic_instructions(&mut self) -> (set: &mut Self)
        ensures
            set@ == arithmetic::with_arithmetic(old(self)@),
            final(self)@ == final(set)@,
    {
        arithmetic::add_arithmetic_instructions(self);
        self
    }
}

} // verus!
