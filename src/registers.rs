//! The sixteen general-purpose 64-bit registers and their encodings.
use vstd::prelude::*;

use crate::common::RegClass;

verus! {

/// One of the sixteen general-purpose 64-bit registers of x86-64.
///
/// Each register has a fixed 4-bit hardware ID, used in the ModR/M byte
/// (low three bits) and in the REX prefix (the fourth bit).
#[derive(Debug, Clone, Copy, PartialEq, Eq, Hash, Structural)]
pub enum Reg64 {
    RAX,
    RCX,
    RDX,
    RBX,
    RSP,
    RBP,
    RSI,
    RDI,
    R8,
    R9,
    R10,
    R11,
    R12,
    R13,
    R14,
    R15,
}

/// The hardware encoding ID of a register, as fixed by the instruction set.
pub open spec fn hw_id(r: Reg64) -> u8 {
    match r {
        Reg64::RAX => 0,
        Reg64::RCX => 1,
        Reg64::RDX => 2,
        Reg64::RBX => 3,
        Reg64::RSP => 4,
        Reg64::RBP => 5,
        Reg64::RSI => 6,
        Reg64::RDI => 7,
        Reg64::R8 => 8,
        Reg64::R9 => 9,
        Reg64::R10 => 10,
        Reg64::R11 => 11,
        Reg64::R12 => 12,
        Reg64::R13 => 13,
        Reg64::R14 => 14,
        Reg64::R15 => 15,
    }
}

/// Whether encoding the register needs a REX extension bit: exactly the
/// registers R8 through R15, named by identity.
pub open spec fn is_extended(r: Reg64) -> bool {
    match r {
        Reg64::R8 | Reg64::R9 | Reg64::R10 | Reg64::R11 | Reg64::R12 | Reg64::R13 | Reg64::R14
        | Reg64::R15 => true,
        _ => false,
    }
}

impl Reg64 {
    /// Returns the 4-bit register encoding ID used in ModR/M and REX prefixes.
    pub fn id(self) -> (r: u8)
        ensures
            r == hw_id(self),
            r < 16,
    {
        match self {
            Reg64::RAX => 0,
            Reg64::RCX => 1,
            Reg64::RDX => 2,
            Reg64::RBX => 3,
            Reg64::RSP => 4,
            Reg64::RBP => 5,
            Reg64::RSI => 6,
            Reg64::RDI => 7,
            Reg64::R8 => 8,
            Reg64::R9 => 9,
            Reg64::R10 => 10,
            Reg64::R11 => 11,
            Reg64::R12 => 12,
            Reg64::R13 => 13,
            Reg64::R14 => 14,
            Reg64::R15 => 15,
        }
    }

    /// Returns the register class: every register here is general-purpose.
    pub fn class(self) -> (r: RegClass)
        ensures
            r == RegClass::General,
    {
        RegClass::General
    }

    /// Returns true if this register requires a REX prefix extension (R8–R15).
    pub fn needs_rex(self) -> (r: bool)
        ensures
            r == is_extended(self),
    {
        proof {
            lemma_needs_extension_iff_high_id(self);
        }
        self.id() >= 8
    }
}

/// A register needs the REX extension bit exactly when its hardware ID is
/// 8 or more.
pub proof fn lemma_needs_extension_iff_high_id(r: Reg64)
    ensures
        is_extended(r) == (hw_id(r) >= 8),
{
}

} // verus!
