//! The sixteen machine registers and the register resolution table: the fixed
//! mapping from a 3-bit register-select code and a 1-bit width flag to one
//! named register.

use vstd::pervasive::unreached;
use vstd::prelude::*;

verus! {

/// One of the sixteen machine registers, in two disjoint width classes:
/// the 8-bit halves AL..BH and the 16-bit wide registers AX..DI.
#[derive(Debug, Clone, Copy, PartialEq, Eq, Structural)]
pub enum Register {
    AL,
    CL,
    DL,
    BL,
    AH,
    CH,
    DH,
    BH,
    AX,
    CX,
    DX,
    BX,
    SP,
    BP,
    SI,
    DI,
}

/// Whether a register belongs to the 16-bit width class.
pub open spec fn spec_is_wide(r: Register) -> bool {
    match r {
        Register::AL => false,
        Register::CL => false,
        Register::DL => false,
        Register::BL => false,
        Register::AH => false,
        Register::CH => false,
        Register::DH => false,
        Register::BH => false,
        Register::AX => true,
        Register::CX => true,
        Register::DX => true,
        Register::BX => true,
        Register::SP => true,
        Register::BP => true,
        Register::SI => true,
        Register::DI => true,
    }
}

/// The register resolution table as a mathematical mapping: the register
/// selected by a 3-bit register-select code and a width flag, per the fixed
/// encoding convention 000=A, 001=C, 010=D, 011=B, 100=SP/AH, 101=BP/CH,
/// 110=SI/DH, 111=DI/BH, with the width flag picking the 8-bit form (0) or
/// the 16-bit form (1).
pub open spec fn spec_register(code: u8, word: u8) -> Register
    recommends
        code < 8,
        word < 2,
{
    if word == 0 {
        if code == 0 {
            Register::AL
        } else if code == 1 {
            Register::CL
        } else if code == 2 {
            Register::DL
        } else if code == 3 {
            Register::BL
        } else if code == 4 {
            Register::AH
        } else if code == 5 {
            Register::CH
        } else if code == 6 {
            Register::DH
        } else {
            Register::BH
        }
    } else {
        if code == 0 {
            Register::AX
        } else if code == 1 {
            Register::CX
        } else if code == 2 {
            Register::DX
        } else if code == 3 {
            Register::BX
        } else if code == 4 {
            Register::SP
        } else if code == 5 {
            Register::BP
        } else if code == 6 {
            Register::SI
        } else {
            Register::DI
        }
    }
}

/// The 3-bit code under which a register appears in the resolution table,
/// shared by the two registers of one table row.
pub open spec fn spec_code(r: Register) -> u8 {
    match r {
        Register::AL => 0,
        Register::CL => 1,
        Register::DL => 2,
        Register::BL => 3,
        Register::AH => 4,
        Register::CH => 5,
        Register::DH => 6,
        Register::BH => 7,
        Register::AX => 0,
        Register::CX => 1,
        Register::DX => 2,
        Register::BX => 3,
        Register::SP => 4,
        Register::BP => 5,
        Register::SI => 6,
        Register::DI => 7,
    }
}

/// Register resolution table lookup: the register named by a register-select
/// code in [0,7] and a width flag in {0,1}. A code or flag outside that range
/// is an internal-invariant violation, not a recoverable condition: the
/// precondition excludes it from verified callers, and at run time such a
/// call halts rather than wrap around to a substitute register.
pub fn resolve_register(code: u8, word: u8) -> (r: Register)
    requires
        code < 8,
        word < 2,
    ensures
        r == spec_register(code, word),
{
    if word == 0 {
        match code {
            0 => Register::AL,
            1 => Register::CL,
            2 => Register::DL,
            3 => Register::BL,
            4 => Register::AH,
            5 => Register::CH,
            6 => Register::DH,
            7 => Register::BH,
            _ => unreached(),
        }
    } else {
        match code {
            0 => Register::AX,
            1 => Register::CX,
            2 => Register::DX,
            3 => Register::BX,
            4 => Register::SP,
            5 => Register::BP,
            6 => Register::SI,
            7 => Register::DI,
            _ => unreached(),
        }
    }
}

/// The register-select code of a register, as the resolution table assigns it.
pub fn register_code(r: Register) -> (code: u8)
    ensures
        code == spec_code(r),
        code < 8,
{
    match r {
        Register::AL => 0,
        Register::CL => 1,
        Register::DL => 2,
        Register::BL => 3,
        Register::AH => 4,
        Register::CH => 5,
        Register::DH => 6,
        Register::BH => 7,
        Register::AX => 0,
        Register::CX => 1,
        Register::DX => 2,
        Register::BX => 3,
        Register::SP => 4,
        Register::BP => 5,
        Register::SI => 6,
        Register::DI => 7,
    }
}

/// Whether a register belongs to the 16-bit width class.
pub fn register_is_wide(r: Register) -> (wide: bool)
    ensures
        wide == spec_is_wide(r),
{
    match r {
        Register::AL => false,
        Register::CL => false,
        Register::DL => false,
        Register::BL => false,
        Register::AH => false,
        Register::CH => false,
        Register::DH => false,
        Register::BH => false,
        Register::AX => true,
        Register::CX => true,
        Register::DX => true,
        Register::BX => true,
        Register::SP => true,
        Register::BP => true,
        Register::SI => true,
        Register::DI => true,
    }
}

/// Resolving a valid code and width flag yields a register that carries the
/// same code and the width class the flag asked for: the table's rows agree
/// with the code and width-class readings of their entries.
pub proof fn lemma_register_code_inverse(code: u8, word: u8)
    requires
        code < 8,
        word < 2,
    ensures
        spec_code(spec_register(code, word)) == code,
        spec_is_wide(spec_register(code, word)) == (word == 1),
{
}

/// A register's own code and width class select that register back from the
/// resolution table.
pub proof fn lemma_register_resolution_roundtrip(r: Register)
    ensures
        spec_register(spec_code(r), if spec_is_wide(r) { 1 as u8 } else { 0 as u8 }) == r,
{
}

/// Table completeness: every one of the sixteen registers is the value of the
/// resolution table at some register-select code in [0,7] and width flag in
/// {0,1} — sixteen defined mappings, no gaps.
pub proof fn lemma_table_completeness(r: Register)
    ensures
        exists|code: u8, word: u8|
            code < 8 && word < 2 && #[trigger] spec_register(code, word) == r,
{
    let code: u8 = spec_code(r);
    let word: u8 = if spec_is_wide(r) { 1 } else { 0 };
    lemma_register_resolution_roundtrip(r);
    assert(code < 8 && word < 2 && spec_register(code, word) == r);
}

} // verus!
