//! Byte-precise encoder for a small subset of x86-64 machine instructions.
//!
//! `registers` maps each general-purpose register to its hardware encoding,
//! `operand` models instruction operands, and `encoder` turns operands into
//! bytes. `common` holds the target description and small shared utilities.
use vstd::prelude::*;

pub mod common;
pub mod registers;
pub mod operand;
pub mod encoder;

verus! {

} // verus!
