use decoder::instructions::decode;
use decoder::instructions::encode;
use decoder::instructions::Instruction;
use decoder::registers::register_code;
use decoder::registers::register_is_wide;
use decoder::registers::resolve_register;
use decoder::registers::Register;

#[test]
fn test_single_register_move() {
    let single_register_move: &[u8; 2] = &[0b10001001, 0b11011001];

    let instr = decode(single_register_move);

    assert_eq!(instr, Instruction::Move(Register::CX, Register::BX));
}

#[test]
fn test_many_register_move() {
    let many_register_move: &[u8; 22] = &[
        0b10001001, 0b11011001, // word move, destination 001, source 011
        0b10001000, 0b11100101, // byte move, destination 101, source 100
        0b10001001, 0b11011010, 0b10001001, 0b11011110, 0b10001001, 0b11111011, 0b10001000,
        0b11001000, 0b10001000, 0b11101101, 0b10001001, 0b11000011, 0b10001001, 0b11110011,
        0b10001001, 0b11111100, 0b10001001, 0b11000101,
    ];

    let expected = vec![
        Instruction::Move(Register::CX, Register::BX),
        Instruction::Move(Register::CH, Register::AH),
        Instruction::Move(Register::DX, Register::BX),
        Instruction::Move(Register::SI, Register::BX),
        Instruction::Move(Register::BX, Register::DI),
        Instruction::Move(Register::AL, Register::CL),
        Instruction::Move(Register::CH, Register::CH),
        Instruction::Move(Register::BX, Register::AX),
        Instruction::Move(Register::BX, Register::SI),
        Instruction::Move(Register::SP, Register::DI),
        Instruction::Move(Register::BP, Register::AX),
    ];

    for count in 0..expected.len() {
        let instr = decode(&[many_register_move[count * 2], many_register_move[(count * 2) + 1]]);
        assert_eq!(instr, expected[count]);
    }
}

#[test]
fn test_decode_word_move_per_mask() {
    // word = 1, destination code 110 = SI, source code 011 = BX
    let instr = decode(&[0b10001001, 0b11011110]);
    assert_eq!(instr, Instruction::Move(Register::SI, Register::BX));
}

#[test]
fn test_decode_byte_move_per_mask() {
    // word = 0, destination code 000 = AL, source code 001 = CL
    let instr = decode(&[0b10001000, 0b11001000]);
    assert_eq!(instr, Instruction::Move(Register::AL, Register::CL));
}

#[test]
fn test_decode_deterministic() {
    let bytes: [u8; 2] = [0b10001001, 0b11011001];
    let first = decode(&bytes);
    let second = decode(&bytes);
    assert_eq!(first, second);
}

#[test]
fn test_width_consistency() {
    for higher in 0u16..=255u16 {
        for lower in 0u16..=255u16 {
            let instr = decode(&[higher as u8, lower as u8]);
            let Instruction::Move(destination, source) = instr;
            assert_eq!(register_is_wide(destination), register_is_wide(source));
        }
    }
}

#[test]
fn test_table_completeness() {
    let byte_class: [Register; 8] = [
        Register::AL,
        Register::CL,
        Register::DL,
        Register::BL,
        Register::AH,
        Register::CH,
        Register::DH,
        Register::BH,
    ];
    let word_class: [Register; 8] = [
        Register::AX,
        Register::CX,
        Register::DX,
        Register::BX,
        Register::SP,
        Register::BP,
        Register::SI,
        Register::DI,
    ];
    for code in 0u8..8u8 {
        assert_eq!(resolve_register(code, 0), byte_class[code as usize]);
        assert_eq!(resolve_register(code, 1), word_class[code as usize]);
        assert!(!register_is_wide(byte_class[code as usize]));
        assert!(register_is_wide(word_class[code as usize]));
        assert_eq!(register_code(byte_class[code as usize]), code);
        assert_eq!(register_code(word_class[code as usize]), code);
    }
}

#[test]
fn test_encode_canonical_bytes() {
    let word_move = encode(&Instruction::Move(Register::CX, Register::BX));
    assert_eq!(word_move, [0b10001001, 0b11011001]);

    let byte_move = encode(&Instruction::Move(Register::CH, Register::AH));
    assert_eq!(byte_move, [0b10001000, 0b11100101]);
}

#[test]
fn test_encode_decode_roundtrip() {
    for higher in 0u16..=255u16 {
        for lower in 0u16..=255u16 {
            let instr = decode(&[higher as u8, lower as u8]);
            let bytes = encode(&instr);
            assert_eq!(decode(&bytes), instr);
        }
    }
}
