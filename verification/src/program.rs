//! Program storage: an indexable sequence of opcodes.

use vstd::prelude::*;

verus! {

/// One program byte.
pub type Opcode = u8;

/// A read-only store of program bytes, indexed from zero.
///
/// `bytes` is the mathematical content of the store. Every address is a
/// `usize`, so a store never holds more bytes than addresses below
/// `usize::MAX`: the address `usize::MAX` is always past the end.
pub trait ProgramStorage {
    /// The bytes of the program, in address order.
    spec fn bytes(&self) -> Seq<Opcode>;

    /// The program leaves the last address free.
    proof fn lemma_bytes_bounded(&self)
        ensures
            self.bytes().len() <= usize::MAX,
    ;

    /// The opcode at `idx`, or `None` at and past the end.
    fn opcode_at(&self, idx: usize) -> (op: Option<Opcode>)
        ensures
            op == (if idx < self.bytes().len() {
                Some(self.bytes()[idx as int])
            } else {
                None
            }),
    ;

    /// The opcode at `idx`, for a caller that already knows `idx` is in bounds.
    fn opcode_at_unchecked(&self, idx: usize) -> (op: Opcode)
        requires
            idx < self.bytes().len(),
        ensures
            op == self.bytes()[idx as int],
    ;
}

/// A program store that can grow at its end.
pub trait ExtendableProgramStorage: ProgramStorage {
    /// Appends `op` after the last byte.
    fn push_opcode(&mut self, op: Opcode)
        ensures
            final(self).bytes() == old(self).bytes().push(op),
    ;
}

impl<'a> ProgramStorage for &'a [u8] {
    open spec fn bytes(&self) -> Seq<Opcode> {
        self@
    }

    proof fn lemma_bytes_bounded(&self) {
        assert(self@.len() == self.len());
    }

    fn opcode_at(&self, idx: usize) -> (op: Option<Opcode>) {
        if idx < self.len() {
            Some(self[idx])
        } else {
            None
        }
    }

    fn opcode_at_unchecked(&self, idx: usize) -> (op: Opcode) {
        self[idx]
    }
}

impl ProgramStorage for Vec<u8> {
    open spec fn bytes(&self) -> Seq<Opcode> {
        self@
    }

    proof fn lemma_bytes_bounded(&self) {
        assert(self@.len() == self.len());
    }

    fn opcode_at(&self, idx: usize) -> (op: Option<Opcode>) {
        if idx < self.len() {
            Some(self[idx])
        } else {
            None
        }
    }

    fn opcode_at_unchecked(&self, idx: usize) -> (op: Opcode) {
        self[idx]
    }
}

impl ExtendableProgramStorage for Vec<u8> {
    fn push_opcode(&mut self, op: Opcode) {
        self.push(op)
    }
}

} // verus!
