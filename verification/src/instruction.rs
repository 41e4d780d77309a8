use vstd::prelude::*;

verus! {

/// One operand of a decoded instruction, reduced to the plain values the
/// renderer reads: a register name, an immediate, a memory reference, or a
/// far pointer.
#[derive(Clone)]
pub enum Operand {
    Register(String),
    Immediate(u64),
    Memory { base: String, displacement: u64 },
    Pointer { segment: u64, offset: u64 },
}

/// A decoded machine instruction as the formatter consumes it: the mnemonic
/// and the operand list, already validated by the decoder that produced it.
#[derive(Clone)]
pub struct DecodedInstruction {
    pub mnemonic: String,
    pub operands: Vec<Operand>,
}

} // verus!
