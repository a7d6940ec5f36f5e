//! A small bytecode virtual machine with typed, unaligned memory access.
//!
//! Programs are plain byte sequences; every decode and every memory access is
//! checked and reports a [`vm::Fault`] instead of reading out of range.
use vstd::prelude::*;

pub mod vm;

verus! {

/// The type used for encoding memory addresses in the bytecode.
///
/// It is narrower than `usize` so that operands stay compact.
pub type AddressType = u32;

} // verus!
