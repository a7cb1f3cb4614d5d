//! A compiled program, as this layer sees it.
//!
//! Assembling is an external collaborator's job: this layer only receives
//! the finished instruction words together with the loop-wrap bounds and
//! the side-set shape the assembler derived, and holds them as plain
//! values.

use vstd::prelude::*;

verus! {

/// The side-set shape of a compiled program: whether side-set data is
/// optional per instruction, whether it drives pin directions, and how many
/// opcode bits it occupies (0 ..= 5).
#[derive(Clone, Copy, PartialEq, Eq, Structural, Debug)]
pub struct SideSet {
    pub optional: bool,
    pub pindirs: bool,
    pub bits: u8,
}

/// A compiled program: its instruction words, its wrap bounds as offsets
/// within the program, and its side-set shape.
#[derive(Clone, Debug)]
pub struct Program {
    /// The instruction words, in program order.
    pub code: Vec<u16>,
    /// Offset the unit wraps back to.
    pub wrap_top: u8,
    /// Offset the unit wraps from.
    pub wrap_bottom: u8,
    /// The side-set shape the assembler derived.
    pub side_set: SideSet,
}

} // verus!
