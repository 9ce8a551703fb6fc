//! The x86_64 architecture: register frames, kernel task contexts, the trap
//! dispatcher and the user-mode context.

pub mod context;
pub mod trap;
pub mod uspace;
