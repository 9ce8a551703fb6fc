//! Trap handling and execution contexts for a multi-architecture kernel.
//!
//! The crate holds the decisions of the trap layer as verified functions on
//! plain values: register frames and their accessors, the exception fixup
//! table, the handler registry, the classification of traps taken in kernel
//! and in user mode, and the bookkeeping of a kernel task switch. The
//! privileged instructions themselves are issued by the caller, which hands
//! the values it read from the hardware to the functions here and carries out
//! the steps they return.

pub mod aarch64;
pub mod trap;
pub mod x86_64;
