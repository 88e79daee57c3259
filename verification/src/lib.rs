//! A stack-based bytecode interpreter for a small language whose programs are
//! raw bytes, one opcode per byte.
//!
//! The crate is split along the parts of the machine:
//!
//! - `program`: the byte storage that a program is fetched from;
//! - `opcodes`: the bytes of the language, by name;
//! - `data`: the values on the stacks and their text forms;
//! - `context`: the two stacks, the program counter and the byte streams;
//! - `fault`: what an instruction reports back;
//! - `scan`: bracket matching, comments and decimal literals over plain bytes;
//! - `instructions`: the opcode table and the built-in instructions;
//! - `vm`: the interpreter loop;
//! - `laws`: what holds of the instructions on every state.
//!
//! The library does no input or output of its own. A program reads from the
//! bytes offered to its context and writes to the context's output text; the
//! host moves both between the context and the outside world.

pub mod context;
pub mod data;
pub mod fault;
pub mod instructions;
pub mod laws;
pub mod opcodes;
pub mod program;
pub mod scan;
pub mod vm;

pub use context::{Context, State};
pub use data::{Data, Value};
pub use fault::{Fault, FaultKind, Flow};
pub use instructions::{Instruction, InstructionSet, Operation};
pub use program::{ExtendableProgramStorage, Opcode, ProgramStorage};
pub use vm::{Machine, Status, Vm, VM};
