//! The chunk: an append-only instruction buffer with per-byte source-line
//! provenance and an indexed constant pool, and its diagnostic disassembler.

use vstd::prelude::*;

use crate::render::{dec_string, padded_dec, spec_dec, spec_pad};
use crate::{ChunkError, Opcode, Value, spec_decode, spec_encode, OP_CONSTANT};

verus! {

/// The largest number of entries the constant pool may hold while constant
/// instructions address it through a one-byte index operand.
pub const MAX_CONSTANTS: usize = 256;

/// One decoded instruction, its operands already extracted from the byte
/// stream. Produced only by [`Chunk::decode_instruction`], the single
/// decoding funnel that the disassembler (and any future execution loop)
/// shares, so that every consumer reads the byte stream identically.
#[derive(Debug, Clone, Copy, PartialEq, Eq, Structural)]
pub enum Instruction {
    /// A one-byte return instruction.
    Return,
    /// A two-byte constant instruction carrying its pool index operand.
    Constant(u8),
}

/// Decodes the one instruction starting at `offset` of a byte stream whose
/// constant pool holds `npool` entries: the decoded instruction and the
/// offset just past it, or the exact failure.
///
/// A byte no opcode owns fails with `UnknownOpcode`; a constant instruction
/// whose operand byte is missing or names no pool entry fails with
/// `InvalidConstantIndex`.
pub open spec fn spec_instr(code: Seq<u8>, npool: int, offset: int) -> Result<
    (Instruction, int),
    ChunkError,
>
    recommends
        0 <= offset < code.len(),
{
    match spec_decode(code[offset]) {
        Ok(Opcode::Return) => Ok((Instruction::Return, offset + 1)),
        Ok(Opcode::Constant) => {
            if offset + 1 >= code.len() {
                Err(ChunkError::InvalidConstantIndex)
            } else if code[offset + 1] as int >= npool {
                Err(ChunkError::InvalidConstantIndex)
            } else {
                Ok((Instruction::Constant(code[offset + 1]), offset + 2))
            }
        },
        Err(e) => Err(e),
    }
}

/// The text a pool value renders as: a double prints as its decimal text
/// between single quotes.
pub open spec fn spec_value_text(v: Value) -> Seq<char> {
    match v {
        Value::Double(d) => "'"@ + d@ + "'"@,
    }
}

/// The offset column: the offset zero-padded to four digits, then a space.
pub open spec fn spec_offset_field(offset: nat) -> Seq<char> {
    spec_pad('0', spec_dec(offset), 4) + " "@
}

/// The line column: a placeholder when the byte shares its source line with
/// the byte before it, else the line right-aligned in four characters; then
/// a space (the placeholder carries its own).
pub open spec fn spec_line_field(lines: Seq<usize>, offset: int) -> Seq<char> {
    if offset > 0 && lines[offset] == lines[offset - 1] {
        "   | "@
    } else {
        spec_pad(' ', spec_dec(lines[offset] as nat), 4) + " "@
    }
}

/// The mnemonic-and-operands part of one decoded instruction's output line.
pub open spec fn spec_instr_text(c: Chunk, instr: Instruction) -> Seq<char> {
    match instr {
        Instruction::Return => "RETURN"@ + "\n"@,
        Instruction::Constant(idx) => "CONSTANT"@ + " "@ + spec_pad('0', spec_dec(idx as nat), 3)
            + " "@ + spec_value_text(c.constants()[idx as int]) + "\n"@,
    }
}

/// The full output of disassembling the one instruction at `offset`: the
/// text written and the offset just past the instruction.
///
/// A byte no opcode owns degrades gracefully into a diagnostic line and a
/// one-byte advance; a malformed constant instruction is the one fatal case.
pub open spec fn spec_disasm_instr(c: Chunk, offset: int) -> Result<(Seq<char>, int), ChunkError>
    recommends
        0 <= offset < c.code().len(),
{
    let head = spec_offset_field(offset as nat) + spec_line_field(c.lines(), offset);
    match spec_instr(c.code(), c.constants().len() as int, offset) {
        Ok(iw) => Ok((head + spec_instr_text(c, iw.0), iw.1)),
        Err(ChunkError::UnknownOpcode(b)) => Ok(
            (head + "unknown opcode "@ + spec_dec(b as nat) + "\n"@, offset + 1),
        ),
        Err(e) => Err(e),
    }
}

/// The concatenated output lines of every instruction from `offset` to the
/// end of the byte stream, or the first fatal failure.
pub open spec fn spec_scan(c: Chunk, offset: int) -> Result<Seq<char>, ChunkError>
    decreases c.code().len() - offset,
{
    if offset < 0 || offset >= c.code().len() {
        Ok(Seq::<char>::empty())
    } else {
        match spec_disasm_instr(c, offset) {
            Ok(tn) => match spec_scan(c, tn.1) {
                Ok(rest) => Ok(tn.0 + rest),
                Err(e) => Err(e),
            },
            Err(e) => Err(e),
        }
    }
}

/// The header line naming the chunk.
pub open spec fn spec_header(c: Chunk) -> Seq<char> {
    "== "@ + c.name() + " ==\n"@
}

/// The complete disassembly: the header, then one line per instruction, or
/// the first fatal failure.
pub open spec fn spec_disassemble(c: Chunk) -> Result<Seq<char>, ChunkError> {
    match spec_scan(c, 0) {
        Ok(body) => Ok(spec_header(c) + body),
        Err(e) => Err(e),
    }
}

/// A named, append-only buffer of bytecode instructions, the source line of
/// each stored byte, and the constants those instructions reference.
pub struct Chunk {
    /// Label used only in diagnostic headers.
    name: String,
    /// Opcodes and their raw operand bytes, in emission order.
    code: Vec<u8>,
    /// Source-line origin of each byte in `code`, index-aligned with it.
    lines: Vec<usize>,
    /// Constants referenced by instructions via a one-byte index operand.
    constants: Vec<Value>,
}

impl Chunk {
    /// The chunk's diagnostic label.
    pub closed spec fn name(self) -> Seq<char> {
        self.name@
    }

    /// The instruction bytes in emission order.
    pub closed spec fn code(self) -> Seq<u8> {
        self.code@
    }

    /// The source line of each byte of `code`.
    pub closed spec fn lines(self) -> Seq<usize> {
        self.lines@
    }

    /// The constant pool in registration order.
    pub closed spec fn constants(self) -> Seq<Value> {
        self.constants@
    }

    /// The chunk's invariant: the line table stays index-aligned with the
    /// instruction buffer, one source line per stored byte.
    pub open spec fn wf(self) -> bool {
        self.lines().len() == self.code().len()
    }

    /// Creates an empty chunk carrying the given diagnostic name.
    pub fn new(s: String) -> (c: Chunk)
        ensures
            c.wf(),
            c.name() == s@,
            c.code() == Seq::<u8>::empty(),
            c.lines() == Seq::<usize>::empty(),
            c.constants() == Seq::<Value>::empty(),
    {
        Chunk { name: s, code: Vec::new(), lines: Vec::new(), constants: Vec::new() }
    }

    /// Appends one raw byte, recording `line` as its source line. This is
    /// the primitive every append goes through; a byte that encodes no
    /// opcode stays in the buffer and later disassembles as an
    /// `unknown opcode` diagnostic line.
    pub fn push_byte(&mut self, b: u8, line: usize)
        requires
            old(self).wf(),
        ensures
            final(self).wf(),
            final(self).name() == old(self).name(),
            final(self).code() == old(self).code().push(b),
            final(self).lines() == old(self).lines().push(line),
            final(self).constants() == old(self).constants(),
    {
        self.code.push(b);
        self.lines.push(line);
    }

    /// Appends one opcode byte, recording `line` as its source line.
    ///
    /// Appending `Opcode::Constant` this way stores the opcode byte alone;
    /// [`Chunk::push_const`] is the operation that writes a complete
    /// two-byte constant instruction.
    pub fn push_op(&mut self, c: Opcode, line: usize)
        requires
            old(self).wf(),
        ensures
            final(self).wf(),
            final(self).name() == old(self).name(),
            final(self).code() == old(self).code().push(spec_encode(c)),
            final(self).lines() == old(self).lines().push(line),
            final(self).constants() == old(self).constants(),
    {
        self.push_byte(c.encode(), line);
    }

    /// Registers `v` in the constant pool and appends the two-byte constant
    /// instruction that references it, both bytes recorded at `line`.
    ///
    /// Returns the new constant's pool index — the pool's length before the
    /// call — or fails with [`ChunkError::ConstantPoolOverflow`], leaving the
    /// chunk unchanged, exactly when the pool already holds
    /// [`MAX_CONSTANTS`] entries and the next index would not fit the
    /// one-byte operand.
    pub fn push_const(&mut self, v: Value, line: usize) -> (r: Result<u8, ChunkError>)
        requires
            old(self).wf(),
        ensures
            final(self).wf(),
            final(self).name() == old(self).name(),
            old(self).constants().len() >= MAX_CONSTANTS ==> {
                &&& r == Err::<u8, ChunkError>(ChunkError::ConstantPoolOverflow)
                &&& final(self).code() == old(self).code()
                &&& final(self).lines() == old(self).lines()
                &&& final(self).constants() == old(self).constants()
            },
            old(self).constants().len() < MAX_CONSTANTS ==> {
                &&& r == Ok::<u8, ChunkError>(old(self).constants().len() as u8)
                &&& final(self).constants() == old(self).constants().push(v)
                &&& final(self).code() == old(self).code() + seq![
                    OP_CONSTANT,
                    old(self).constants().len() as u8,
                ]
                &&& final(self).lines() == old(self).lines() + seq![line, line]
            },
    {
        if self.constants.len() >= MAX_CONSTANTS {
            return Err(ChunkError::ConstantPoolOverflow);
        }
        let index: u8 = self.constants.len() as u8;
        self.constants.push(v);
        self.push_byte(OP_CONSTANT, line);
        self.push_byte(index, line);
        proof {
            assert(self.code() =~= old(self).code() + seq![
                OP_CONSTANT,
                old(self).constants().len() as u8,
            ]);
            assert(self.lines() =~= old(self).lines() + seq![line, line]);
        }
        Ok(index)
    }

    /// Decodes the one instruction at `offset`, exactly as [`spec_instr`]
    /// describes. This is the only place the byte stream's layout is read
    /// back, so the disassembler and any future execution loop cannot drift
    /// apart in how they decode it.
    pub fn decode_instruction(&self, offset: usize) -> (r: Result<(Instruction, usize), ChunkError>)
        requires
            offset < self.code().len(),
        ensures
            match spec_instr(self.code(), self.constants().len() as int, offset as int) {
                Ok(iw) => r matches Ok(x) && x.0 == iw.0 && x.1 == iw.1,
                Err(e) => r == Err::<(Instruction, usize), ChunkError>(e),
            },
            r matches Ok(x) ==> offset < x.1 <= self.code().len(),
    {
        let n = self.code.len();
        let b = self.code[offset];
        match Opcode::decode(b) {
            Ok(Opcode::Return) => Ok((Instruction::Return, offset + 1)),
            Ok(Opcode::Constant) => {
                if offset + 1 >= n {
                    Err(ChunkError::InvalidConstantIndex)
                } else {
                    let idx = self.code[offset + 1];
                    if idx as usize >= self.constants.len() {
                        Err(ChunkError::InvalidConstantIndex)
                    } else {
                        Ok((Instruction::Constant(idx), offset + 2))
                    }
                }
            },
            Err(e) => Err(e),
        }
    }

    /// Renders a one-byte instruction: the mnemonic and a newline. Returns
    /// the offset just past the instruction.
    pub fn simple_instruction(&self, out: &mut String, name: &str, offset: usize) -> (next: usize)
        requires
            offset < usize::MAX,
        ensures
            final(out)@ == old(out)@ + name@ + "\n"@,
            next == offset + 1,
    {
        out.append(name);
        out.append("\n");
        proof {
            assert(out@ =~= old(out)@ + name@ + "\n"@);
        }
        offset + 1
    }

    /// Renders a two-byte constant instruction whose opcode byte sits at
    /// `offset`: the mnemonic, the operand index zero-padded to three
    /// digits, and the referenced pool value, then a newline. Returns the
    /// offset just past the instruction, or fails with
    /// [`ChunkError::InvalidConstantIndex`], writing nothing, exactly when
    /// the operand byte names no pool entry.
    pub fn const_instruction(&self, out: &mut String, name: &str, offset: usize) -> (r: Result<
        usize,
        ChunkError,
    >)
        requires
            offset + 1 < self.code().len(),
        ensures
            ({
                let idx = self.code()[offset + 1];
                if (idx as int) < self.constants().len() {
                    &&& r == Ok::<usize, ChunkError>((offset + 2) as usize)
                    &&& final(out)@ == old(out)@ + name@ + " "@ + spec_pad(
                        '0',
                        spec_dec(idx as nat),
                        3,
                    ) + " "@ + spec_value_text(self.constants()[idx as int]) + "\n"@
                } else {
                    &&& r == Err::<usize, ChunkError>(ChunkError::InvalidConstantIndex)
                    &&& final(out)@ == old(out)@
                }
            }),
    {
        // Binds the buffer's machine length, so `offset + 1` is known to fit.
        let _code_len = self.code.len();
        let idx = self.code[offset + 1];
        if (idx as usize) < self.constants.len() {
            out.append(name);
            out.append(" ");
            let field = padded_dec(idx as usize, 3, '0');
            out.append(field.as_str());
            out.append(" ");
            write_value(out, &self.constants[idx as usize]);
            out.append("\n");
            proof {
                assert(out@ =~= old(out)@ + name@ + " "@ + spec_pad('0', spec_dec(idx as nat), 3)
                    + " "@ + spec_value_text(self.constants()[idx as int]) + "\n"@);
            }
            Ok(offset + 2)
        } else {
            Err(ChunkError::InvalidConstantIndex)
        }
    }

    /// Disassembles exactly one instruction: appends its output line to
    /// `out` and returns the offset of the next instruction, exactly as
    /// [`spec_disasm_instr`] describes.
    ///
    /// On success the returned offset is strictly greater than `offset`, so
    /// a scan over the chunk always makes forward progress, whether the byte
    /// at `offset` is a known opcode or not. The one failure is a malformed
    /// constant instruction, which writes nothing.
    #[verifier::rlimit(60)]
    pub fn disassemble_instruction(&self, out: &mut String, offset: usize) -> (r: Result<
        usize,
        ChunkError,
    >)
        requires
            self.wf(),
            offset < self.code().len(),
        ensures
            match spec_disasm_instr(*self, offset as int) {
                Ok(tn) => {
                    &&& r matches Ok(next) && next == tn.1
                    &&& final(out)@ == old(out)@ + tn.0
                },
                Err(e) => {
                    &&& r == Err::<usize, ChunkError>(e)
                    &&& final(out)@ == old(out)@
                },
            },
            r matches Ok(next) ==> offset < next <= self.code().len(),
    {
        // Binds the buffer's machine length, so `offset + 1` is known to fit.
        let _code_len = self.code.len();
        let decoded = self.decode_instruction(offset);
        match decoded {
            Err(ChunkError::InvalidConstantIndex) => Err(ChunkError::InvalidConstantIndex),
            _ => {
                let field = padded_dec(offset, 4, '0');
                out.append(field.as_str());
                out.append(" ");
                if offset > 0 && self.lines[offset] == self.lines[offset - 1] {
                    out.append("   | ");
                } else {
                    let lf = padded_dec(self.lines[offset], 4, ' ');
                    out.append(lf.as_str());
                    out.append(" ");
                }
                proof {
                    assert(out@ =~= old(out)@ + spec_offset_field(offset as nat) + spec_line_field(
                        self.lines(),
                        offset as int,
                    ));
                }
                match decoded {
                    Ok((Instruction::Return, _)) => {
                        let next = self.simple_instruction(out, "RETURN", offset);
                        proof {
                            let tn = spec_disasm_instr(*self, offset as int)->Ok_0;
                            assert(out@ =~= old(out)@ + tn.0);
                        }
                        Ok(next)
                    },
                    Ok((Instruction::Constant(_), _)) => {
                        let r = self.const_instruction(out, "CONSTANT", offset);
                        proof {
                            let tn = spec_disasm_instr(*self, offset as int)->Ok_0;
                            assert(out@ =~= old(out)@ + tn.0);
                        }
                        r
                    },
                    Err(ChunkError::UnknownOpcode(b)) => {
                        out.append("unknown opcode ");
                        let bs = dec_string(b as usize);
                        out.append(bs.as_str());
                        out.append("\n");
                        proof {
                            let tn = spec_disasm_instr(*self, offset as int)->Ok_0;
                            assert(out@ =~= old(out)@ + tn.0);
                        }
                        Ok(offset + 1)
                    },
                    Err(_) => {
                        // Decoding yields no error besides the two above.
                        proof {
                            assert(false);
                        }
                        Err(ChunkError::InvalidConstantIndex)
                    },
                }
            },
        }
    }

    /// Renders the whole chunk: the `== <name> ==` header, then one line
    /// per instruction, scanning from offset zero and advancing by each
    /// instruction's width, exactly as [`spec_disassemble`] describes.
    ///
    /// Reads the chunk only, so the output depends on the chunk's contents
    /// alone and repeated calls yield identical text. The one failure is a
    /// malformed constant instruction somewhere in the stream.
    pub fn disassemble(&self) -> (r: Result<String, ChunkError>)
        requires
            self.wf(),
        ensures
            match spec_disassemble(*self) {
                Ok(text) => r matches Ok(s) && s@ == text,
                Err(e) => r == Err::<String, ChunkError>(e),
            },
    {
        let mut out = String::new();
        out.append("== ");
        out.append(self.name.as_str());
        out.append(" ==\n");
        proof {
            assert(out@ =~= spec_header(*self));
        }
        let mut offset: usize = 0;
        while offset < self.code.len()
            invariant
                self.wf(),
                offset <= self.code().len(),
                match spec_scan(*self, offset as int) {
                    Ok(rest) => spec_disassemble(*self) matches Ok(t) && out@ + rest == t,
                    Err(e) => spec_disassemble(*self) == Err::<Seq<char>, ChunkError>(e),
                },
            decreases self.code().len() - offset,
        {
            let ghost out_before = out@;
            match self.disassemble_instruction(&mut out, offset) {
                Ok(next) => {
                    proof {
                        let tn = spec_disasm_instr(*self, offset as int)->Ok_0;
                        let rest = spec_scan(*self, next as int)->Ok_0;
                        assert(out@ + rest =~= out_before + (tn.0 + rest));
                    }
                    offset = next;
                },
                Err(e) => {
                    return Err(e);
                },
            }
        }
        proof {
            assert(out@ + Seq::<char>::empty() =~= out@);
        }
        Ok(out)
    }
}

/// The scan's output is determined by the chunk's observable contents: two
/// chunks holding the same name, bytes, lines and constants disassemble to
/// the same result from any starting offset.
proof fn lemma_scan_depends_on_contents(c1: Chunk, c2: Chunk, offset: int)
    requires
        c1.name() == c2.name(),
        c1.code() == c2.code(),
        c1.lines() == c2.lines(),
        c1.constants() == c2.constants(),
    ensures
        spec_scan(c1, offset) == spec_scan(c2, offset),
    decreases c1.code().len() - offset,
{
    if 0 <= offset < c1.code().len() {
        assert(spec_disasm_instr(c1, offset) == spec_disasm_instr(c2, offset));
        match spec_disasm_instr(c1, offset) {
            Ok(tn) => lemma_scan_depends_on_contents(c1, c2, tn.1),
            Err(_) => (),
        }
    }
}

/// Disassembly is repeatable: its result is a function of the chunk's
/// observable contents alone, so two successive [`Chunk::disassemble`]
/// calls on an unmodified chunk — or on two chunks with equal contents —
/// produce identical output.
pub proof fn lemma_disassemble_idempotent(c1: Chunk, c2: Chunk)
    requires
        c1.name() == c2.name(),
        c1.code() == c2.code(),
        c1.lines() == c2.lines(),
        c1.constants() == c2.constants(),
    ensures
        spec_disassemble(c1) == spec_disassemble(c2),
{
    lemma_scan_depends_on_contents(c1, c2, 0);
}

/// Appends the rendering of one pool value to `out`, exactly as
/// [`spec_value_text`] describes: a double prints as its decimal text
/// between single quotes.
pub fn write_value(out: &mut String, v: &Value)
    ensures
        final(out)@ == old(out)@ + spec_value_text(*v),
{
    match v {
        Value::Double(d) => {
            out.append("'");
            out.append(d.as_str());
            out.append("'");
        },
    }
    proof {
        assert(out@ =~= old(out)@ + spec_value_text(*v));
    }
}

} // verus!
