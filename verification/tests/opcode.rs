use bytecode::render::padded_dec;
use bytecode::{ChunkError, Opcode};

#[test]
fn test_repr() {
    println!("{:?}", Opcode::Return.encode());
    println!("{:?}", Opcode::decode(1u8));
}

#[test]
fn test_encode_values() {
    assert_eq!(Opcode::Return.encode(), 0u8);
    assert_eq!(Opcode::Constant.encode(), 1u8);
}

#[test]
fn test_decode_known_bytes() {
    assert_eq!(Opcode::decode(0), Ok(Opcode::Return));
    assert_eq!(Opcode::decode(1), Ok(Opcode::Constant));
}

#[test]
fn test_decode_unknown_byte() {
    assert_eq!(Opcode::decode(2), Err(ChunkError::UnknownOpcode(2)));
    assert_eq!(Opcode::decode(255), Err(ChunkError::UnknownOpcode(255)));
}

#[test]
fn test_round_trip_every_variant() {
    for op in [Opcode::Return, Opcode::Constant] {
        assert_eq!(Opcode::decode(op.encode()), Ok(op));
    }
}

#[test]
fn test_padded_decimal_fields() {
    assert_eq!(padded_dec(0, 4, '0'), "0000");
    assert_eq!(padded_dec(7, 3, '0'), "007");
    assert_eq!(padded_dec(42, 4, ' '), "  42");
    assert_eq!(padded_dec(12345, 4, '0'), "12345");
    assert_eq!(padded_dec(9, 1, ' '), "9");
}
