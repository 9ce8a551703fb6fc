//! The AArch64 architecture: register frames and the user-mode context.

pub mod context;
pub mod trap;
pub mod uspace;
