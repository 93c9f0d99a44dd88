use bytecode::chunk::{Chunk, Instruction, MAX_CONSTANTS};
use bytecode::{ChunkError, Opcode, Value};

#[test]
fn test_chunk() {
    let mut c = Chunk::new("test".to_string());
    c.push_op(Opcode::Return, 0);

    let out = c.disassemble().unwrap();
    assert_eq!(
        out,
        "== test ==\n\
         0000    0 RETURN\n\
         "
    )
}

#[test]
fn test_const() {
    let mut c = Chunk::new("test".to_string());
    c.push_const(Value::Double(format!("{}", 1.23)), 0).unwrap();
    c.push_op(Opcode::Return, 0);

    let out = c.disassemble().unwrap();
    assert_eq!(
        out,
        "== test ==\n\
         0000    0 CONSTANT 000 '1.23'\n\
         0002    | RETURN\n\
         "
    )
}

#[test]
fn test_const_index_returned() {
    let mut c = Chunk::new("test".to_string());
    assert_eq!(
        c.push_const(Value::Double(format!("{}", 1.5)), 3),
        Ok(0u8)
    );
    assert_eq!(
        c.push_const(Value::Double(format!("{}", 2.5)), 3),
        Ok(1u8)
    );
}

#[test]
fn test_line_changes_are_printed() {
    let mut c = Chunk::new("lines".to_string());
    c.push_op(Opcode::Return, 1);
    c.push_op(Opcode::Return, 1);
    c.push_op(Opcode::Return, 2);

    let out = c.disassemble().unwrap();
    assert_eq!(
        out,
        "== lines ==\n\
         0000    1 RETURN\n\
         0001    | RETURN\n\
         0002    2 RETURN\n\
         "
    )
}

#[test]
fn test_unknown_opcode_keeps_scanning() {
    let mut c = Chunk::new("test".to_string());
    c.push_byte(7, 1);
    c.push_op(Opcode::Return, 2);

    let out = c.disassemble().unwrap();
    assert_eq!(
        out,
        "== test ==\n\
         0000    1 unknown opcode 7\n\
         0001    2 RETURN\n\
         "
    )
}

#[test]
fn test_disassemble_is_repeatable() {
    let mut c = Chunk::new("twice".to_string());
    c.push_const(Value::Double(format!("{}", 1.23)), 0).unwrap();
    c.push_op(Opcode::Return, 0);

    let first = c.disassemble().unwrap();
    let second = c.disassemble().unwrap();
    assert_eq!(first, second);
}

#[test]
fn test_constant_pool_overflow() {
    let mut c = Chunk::new("full".to_string());
    for i in 0..MAX_CONSTANTS {
        let r = c.push_const(Value::Double(format!("{}", i)), 0);
        assert_eq!(r, Ok(i as u8));
    }
    let r = c.push_const(Value::Double(format!("{}", 256)), 0);
    assert_eq!(r, Err(ChunkError::ConstantPoolOverflow));
}

#[test]
fn test_invalid_constant_index() {
    // A constant opcode whose operand byte names no pool entry: the pool is
    // empty, yet the operand byte (the encoding of Return) reads as index 0.
    let mut c = Chunk::new("bad".to_string());
    c.push_op(Opcode::Constant, 0);
    c.push_op(Opcode::Return, 0);

    assert_eq!(
        c.decode_instruction(0),
        Err(ChunkError::InvalidConstantIndex)
    );
    assert_eq!(c.disassemble(), Err(ChunkError::InvalidConstantIndex));
}

#[test]
fn test_truncated_constant_instruction() {
    // A constant opcode as the last byte has no operand byte at all.
    let mut c = Chunk::new("cut".to_string());
    c.push_op(Opcode::Constant, 0);

    assert_eq!(
        c.decode_instruction(0),
        Err(ChunkError::InvalidConstantIndex)
    );
    assert_eq!(c.disassemble(), Err(ChunkError::InvalidConstantIndex));
}

#[test]
fn test_decode_instruction_widths() {
    let mut c = Chunk::new("widths".to_string());
    c.push_const(Value::Double(format!("{}", 1.23)), 0).unwrap();
    c.push_op(Opcode::Return, 0);

    assert_eq!(c.decode_instruction(0), Ok((Instruction::Constant(0), 2)));
    assert_eq!(c.decode_instruction(2), Ok((Instruction::Return, 3)));
}

#[test]
fn test_unknown_byte_decodes_as_error() {
    let mut c = Chunk::new("stray".to_string());
    c.push_byte(200, 0);

    assert_eq!(
        c.decode_instruction(0),
        Err(ChunkError::UnknownOpcode(200))
    );
}
