//! Decoder for a fixed 2-byte, register-to-register move instruction form:
//! bit-field extraction, the register resolution table, and the mapping from
//! an opcode byte pair to a structured instruction value.

pub mod instructions;
pub mod registers;
