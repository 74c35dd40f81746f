//! Instruction operands: a register, a memory location or an immediate.
use vstd::prelude::*;

use crate::registers::Reg64;

verus! {

/// Any operand that can appear in an instruction: exactly one of a register,
/// a memory location or an immediate constant.
#[derive(Debug, Clone, Copy, PartialEq, Eq, Structural)]
pub enum Operand {
    /// A 64-bit general-purpose register.
    Reg(Reg64),
    /// A memory operand (base register + displacement).
    Mem(MemOperand),
    /// A 64-bit immediate constant.
    Imm(i64),
}

/// A memory operand `[base + disp]`. The displacement is not range-checked
/// here: the encoding form chosen for it depends on both fields.
#[derive(Debug, Clone, Copy, PartialEq, Eq, Structural)]
pub struct MemOperand {
    pub base: Reg64,
    pub disp: i32,
}

} // verus!
