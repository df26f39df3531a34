//! The opcode decoder: pure field extraction from a 16-bit instruction word.
//!
//! An opcode packs up to five fields: `x` (bits 8-11), `y` (bits 4-7),
//! `n` (bits 0-3), `kk` (bits 0-7) and `nnn` (bits 0-11). Extraction is total
//! over the whole 16-bit domain and has no failure mode.

use vstd::prelude::*;

verus! {

/// The register index in bits 8-11 of an opcode, as a plain number.
pub open spec fn nib_x(opcode: u16) -> int {
    (opcode as int / 0x100) % 16
}

/// The register index in bits 4-7 of an opcode, as a plain number.
pub open spec fn nib_y(opcode: u16) -> int {
    (opcode as int / 0x10) % 16
}

/// The low nibble of an opcode, bits 0-3.
pub open spec fn nib_n(opcode: u16) -> int {
    opcode as int % 16
}

/// The byte literal in bits 0-7 of an opcode.
pub open spec fn byte_kk(opcode: u16) -> u8 {
    (opcode as int % 0x100) as u8
}

/// The 12-bit address in bits 0-11 of an opcode.
pub open spec fn addr_nnn(opcode: u16) -> u16 {
    (opcode as int % 0x1000) as u16
}

/// The high nibble of an opcode, bits 12-15: the top-level dispatch group.
pub open spec fn group(opcode: u16) -> int {
    opcode as int / 0x1000
}

/// Extracts the register index `x` from bits 8-11.
pub fn get_x(opcode: u16) -> (r: usize)
    ensures
        r == nib_x(opcode),
        r < 16,
{
    proof {
        assert((opcode & 0x0F00) >> 8 == (opcode as int / 0x100) % 16 < 16) by (bit_vector);
    }
    usize::from((opcode & 0x0F00) >> 8)
}

/// Extracts the register index `y` from bits 4-7.
pub fn get_y(opcode: u16) -> (r: usize)
    ensures
        r == nib_y(opcode),
        r < 16,
{
    proof {
        assert((opcode & 0x00F0) >> 4 == (opcode as int / 0x10) % 16 < 16) by (bit_vector);
    }
    usize::from((opcode & 0x00F0) >> 4)
}

/// Extracts the byte literal `kk` from bits 0-7.
pub fn get_kk(opcode: u16) -> (r: u8)
    ensures
        r == byte_kk(opcode),
{
    proof {
        assert(opcode & 0x00FF == opcode as int % 0x100 < 0x100) by (bit_vector);
    }
    (opcode & 0x00FF) as u8
}

/// Extracts the 12-bit address `nnn` from bits 0-11.
pub fn get_nnn(opcode: u16) -> (r: u16)
    ensures
        r == addr_nnn(opcode),
        r < 0x1000,
{
    proof {
        assert(opcode & 0x0FFF == opcode as int % 0x1000 < 0x1000) by (bit_vector);
    }
    opcode & 0x0FFF
}

/// Extracts the low nibble `n` from bits 0-3.
pub fn get_n(opcode: u16) -> (r: u8)
    ensures
        r == nib_n(opcode),
        r < 16,
{
    proof {
        assert(opcode & 0x000F == opcode as int % 16 < 16) by (bit_vector);
    }
    (opcode & 0x000F) as u8
}

} // verus!

