//! The instruction value type and the decoder: bit-field extraction from an
//! opcode byte pair, register resolution under the shared width flag, and the
//! canonical encoder for the same instruction form.

use crate::registers::Register;
use crate::registers::lemma_register_code_inverse;
use crate::registers::register_code;
use crate::registers::register_is_wide;
use crate::registers::resolve_register;
use crate::registers::spec_code;
use crate::registers::spec_is_wide;
use crate::registers::spec_register;
use vstd::prelude::*;

verus! {

/// A decoded instruction. The one form in scope is a register-to-register
/// move, carrying its destination first and its source second.
#[derive(Debug, Clone, Copy, PartialEq, Eq, Structural)]
pub enum Instruction {
    Move(Register, Register),
}

/// The width flag of an instruction: bit 0 of the higher-order byte
/// (0 = byte-wide, 1 = word-wide operands).
pub open spec fn spec_width_flag(higher_bits: u8) -> u8 {
    higher_bits & 0b00000001
}

/// The destination register-select code: bits 0-2 of the lower-order byte.
pub open spec fn spec_destination_code(lower_bits: u8) -> u8 {
    lower_bits & 0b00000111
}

/// The source register-select code: bits 3-5 of the lower-order byte.
pub open spec fn spec_source_code(lower_bits: u8) -> u8 {
    (lower_bits & 0b00111000) >> 3
}

/// What decoding an opcode byte pair yields: a move whose destination and
/// source registers are resolved from the extracted codes, both under the one
/// shared width flag.
pub open spec fn spec_decode(higher_bits: u8, lower_bits: u8) -> Instruction {
    Instruction::Move(
        spec_register(spec_destination_code(lower_bits), spec_width_flag(higher_bits)),
        spec_register(spec_source_code(lower_bits), spec_width_flag(higher_bits)),
    )
}

/// Whether the two operands of an instruction lie in one width class.
pub open spec fn spec_width_consistent(instr: Instruction) -> bool {
    match instr {
        Instruction::Move(destination, source) => spec_is_wide(destination) == spec_is_wide(
            source,
        ),
    }
}

/// The canonical 2-byte encoding of an instruction: the register-to-register
/// move opcode with the width flag in bit 0 of the higher-order byte, and the
/// lower-order byte carrying register-direct mode in bits 6-7, the source
/// code in bits 3-5 and the destination code in bits 0-2.
pub open spec fn spec_encode(instr: Instruction) -> (u8, u8) {
    match instr {
        Instruction::Move(destination, source) => (
            0b10001000u8 | (if spec_is_wide(destination) {
                1 as u8
            } else {
                0 as u8
            }),
            0b11000000u8 | (spec_code(source) << 3) | spec_code(destination),
        ),
    }
}

/// Decode one fixed 2-byte instruction, given as [higher-order byte,
/// lower-order byte], into its structured value. Decoding is a pure function
/// of the two bytes: the masks keep every extracted register-select code in
/// [0,7] and the width flag in {0,1}, so decoding always succeeds.
pub fn decode(instr_set: &[u8; 2]) -> (instr: Instruction)
    ensures
        instr == spec_decode(instr_set[0], instr_set[1]),
{
    let higher_bits = instr_set[0];
    let lower_bits = instr_set[1];

    let word = higher_bits & 0b00000001;
    let destination = lower_bits & 0b00000111;
    let source = (lower_bits & 0b00111000) >> 3;

    proof {
        assert(higher_bits & 0b00000001 < 2) by (bit_vector);
        assert(lower_bits & 0b00000111 < 8) by (bit_vector);
        assert((lower_bits & 0b00111000) >> 3 < 8) by (bit_vector);
    }

    let destination_register = resolve_register(destination, word);
    let source_register = resolve_register(source, word);

    Instruction::Move(destination_register, source_register)
}

/// Encode an instruction into its canonical 2-byte form, [higher-order byte,
/// lower-order byte]. The width flag is taken from the destination register's
/// width class; for a width-consistent move the source agrees with it.
pub fn encode(instr: &Instruction) -> (bytes: [u8; 2])
    ensures
        bytes[0] == spec_encode(*instr).0,
        bytes[1] == spec_encode(*instr).1,
{
    match instr {
        Instruction::Move(destination, source) => {
            let word: u8 = if register_is_wide(*destination) {
                1
            } else {
                0
            };
            let destination_code = register_code(*destination);
            let source_code = register_code(*source);
            let higher_bits = 0b10001000u8 | word;
            let lower_bits = 0b11000000u8 | (source_code << 3) | destination_code;
            [higher_bits, lower_bits]
        },
    }
}

/// Determinism: the decoded instruction is a function of the two input bytes
/// alone, so decoding equal byte pairs — the same bytes twice — yields equal
/// instruction values.
pub proof fn lemma_decode_deterministic(
    first_higher: u8,
    first_lower: u8,
    second_higher: u8,
    second_lower: u8,
)
    requires
        first_higher == second_higher,
        first_lower == second_lower,
    ensures
        spec_decode(first_higher, first_lower) == spec_decode(second_higher, second_lower),
{
}

/// Width consistency: the destination and source registers of any decoded
/// instruction belong to one width class, since both are resolved under the
/// one shared width flag.
pub proof fn lemma_width_consistency(higher_bits: u8, lower_bits: u8)
    ensures
        spec_width_consistent(spec_decode(higher_bits, lower_bits)),
{
    let word: u8 = spec_width_flag(higher_bits);
    let destination: u8 = spec_destination_code(lower_bits);
    let source: u8 = spec_source_code(lower_bits);
    assert(higher_bits & 0b00000001 < 2) by (bit_vector);
    assert(lower_bits & 0b00000111 < 8) by (bit_vector);
    assert((lower_bits & 0b00111000) >> 3 < 8) by (bit_vector);
    lemma_register_code_inverse(destination, word);
    lemma_register_code_inverse(source, word);
}

/// Round-trip identity: encoding a decoded instruction back to its 2-byte
/// form and decoding that form again yields the original instruction value.
pub proof fn lemma_encode_decode_roundtrip(higher_bits: u8, lower_bits: u8)
    ensures
        ({
            let instr = spec_decode(higher_bits, lower_bits);
            let bytes = spec_encode(instr);
            spec_decode(bytes.0, bytes.1) == instr
        }),
{
    let word: u8 = spec_width_flag(higher_bits);
    let destination: u8 = spec_destination_code(lower_bits);
    let source: u8 = spec_source_code(lower_bits);
    assert(higher_bits & 0b00000001 < 2) by (bit_vector);
    assert(lower_bits & 0b00000111 < 8) by (bit_vector);
    assert((lower_bits & 0b00111000) >> 3 < 8) by (bit_vector);
    lemma_register_code_inverse(destination, word);
    lemma_register_code_inverse(source, word);
    assert((0b10001000u8 | word) & 0b00000001 == word) by (bit_vector)
        requires
            word < 2,
    ;
    assert((0b11000000u8 | (source << 3) | destination) & 0b00000111 == destination)
        by (bit_vector)
        requires
            destination < 8 && source < 8,
    ;
    assert(((0b11000000u8 | (source << 3) | destination) & 0b00111000) >> 3 == source)
        by (bit_vector)
        requires
            destination < 8 && source < 8,
    ;
}

} // verus!
