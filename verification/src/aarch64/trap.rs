//! Kinds of traps on AArch64.

use vstd::prelude::*;

verus! {

/// The kind of a trap, in the order of the vector table.
#[derive(Debug, Clone, Copy, PartialEq, Eq, Structural)]
pub enum TrapKind {
    Synchronous,
    Irq,
    Fiq,
    SError,
}

} // verus!
