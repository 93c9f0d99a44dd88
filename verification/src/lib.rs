//! Bytecode storage for a stack-based virtual machine.
//!
//! A [`chunk::Chunk`] is a named, append-only buffer of single-byte opcodes
//! and their raw operand bytes, a parallel table of source-line numbers, and
//! an indexed constant pool. The chunk fixes the binary contract — opcode
//! numbering, operand widths, constant-index encoding — that every producer
//! (a compiler) and consumer (a VM loop, the diagnostic disassembler) must
//! agree on bit-for-bit, so both encoding and decoding are funnelled through
//! the functions here and in [`chunk`] and verified against the same
//! specification functions.

use vstd::prelude::*;

pub mod chunk;
pub mod render;

verus! {

/// Byte value that encodes `Opcode::Return`.
pub const OP_RETURN: u8 = 0;

/// Byte value that encodes `Opcode::Constant`.
pub const OP_CONSTANT: u8 = 1;

/// The instruction kinds, each bound to a stable single-byte numeric code.
/// Byte values persist inside a chunk's buffer, so the codes never change
/// meaning once assigned.
#[derive(Debug, Clone, Copy, PartialEq, Eq, Structural)]
pub enum Opcode {
    /// One byte: the opcode alone.
    Return,
    /// Two bytes: the opcode, then a one-byte constant-pool index.
    Constant,
}

/// A literal stored in a chunk's constant pool, referenced by instructions
/// through a one-byte index operand.
///
/// The one variant today stands for a double-precision constant. The verified
/// core never computes with the number; all it ever reads of a double is the
/// decimal rendering that diagnostics print, so the variant carries exactly
/// that text. The sibling application crate converts between this form and a
/// native floating-point value.
#[derive(Debug, Clone, PartialEq, Eq)]
pub enum Value {
    /// The decimal rendering of a double-precision constant, e.g. `1.23`.
    Double(String),
}

/// The failures the bytecode layer can report.
#[derive(Debug, Clone, Copy, PartialEq, Eq, Structural)]
pub enum ChunkError {
    /// A byte in the instruction stream matches no declared opcode.
    UnknownOpcode(u8),
    /// The constant pool already holds every index the one-byte operand can
    /// address; the new constant was not registered.
    ConstantPoolOverflow,
    /// A constant instruction's index operand has no corresponding pool entry
    /// (or the operand byte itself is missing): the chunk is malformed.
    InvalidConstantIndex,
}

/// The byte each opcode variant encodes to; total over the variants.
pub open spec fn spec_encode(op: Opcode) -> u8 {
    match op {
        Opcode::Return => OP_RETURN,
        Opcode::Constant => OP_CONSTANT,
    }
}

/// The opcode a byte decodes to; partial, failing on bytes no variant owns.
pub open spec fn spec_decode(b: u8) -> Result<Opcode, ChunkError> {
    if b == OP_RETURN {
        Ok(Opcode::Return)
    } else if b == OP_CONSTANT {
        Ok(Opcode::Constant)
    } else {
        Err(ChunkError::UnknownOpcode(b))
    }
}

impl Opcode {
    /// Encodes this opcode as its stable byte value; never fails.
    pub fn encode(self) -> (b: u8)
        ensures
            b == spec_encode(self),
    {
        match self {
            Opcode::Return => OP_RETURN,
            Opcode::Constant => OP_CONSTANT,
        }
    }

    /// Decodes one byte back to an opcode, failing with
    /// [`ChunkError::UnknownOpcode`] exactly on the bytes that encode no
    /// variant.
    pub fn decode(b: u8) -> (r: Result<Opcode, ChunkError>)
        ensures
            r == spec_decode(b),
    {
        if b == OP_RETURN {
            Ok(Opcode::Return)
        } else if b == OP_CONSTANT {
            Ok(Opcode::Constant)
        } else {
            Err(ChunkError::UnknownOpcode(b))
        }
    }
}

/// Every declared opcode survives the round trip through its byte encoding:
/// decoding what `encode` produced yields the original variant again.
pub proof fn lemma_opcode_round_trip(op: Opcode)
    ensures
        spec_decode(spec_encode(op)) == Ok::<Opcode, ChunkError>(op),
{
}

} // verus!
