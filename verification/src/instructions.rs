//! The closed opcode set: one byte selects the operation, operand bytes
//! follow it.

use vstd::prelude::*;

verus! {

/// Move a big-endian 16-bit literal into register `r1`.
pub const MOV_LIT_R1: u8 = 0x10;

/// Move a big-endian 16-bit literal into register `r2`.
pub const MOV_LIT_R2: u8 = 0x11;

/// Add the registers at two slot indices and store the sum in `acc`.
pub const ADD_REG_REG: u8 = 0x12;

} // verus!
