//! Register frames of AArch64.

use vstd::prelude::*;

verus! {

/// Saved registers when a trap (interrupt or exception) occurs.
#[derive(Debug, Clone, Copy, PartialEq, Eq)]
pub struct TrapFrame {
    /// General-purpose registers (X0..X30).
    pub r: [u64; 31],
    /// User stack pointer (`SP_EL0`).
    pub usp: u64,
    /// Thread pointer of the interrupted code (`TPIDR_EL0`).
    pub tpidr: u64,
    /// Exception link register (`ELR_EL1`): the address to return to.
    pub elr: u64,
    /// Saved process status register (`SPSR_EL1`).
    pub spsr: u64,
}

impl TrapFrame {
    /// Whether every register of the frame is zero.
    pub open spec fn is_zeroed(&self) -> bool {
        &&& forall|i: int| 0 <= i < 31 ==> self.r[i] == 0
        &&& self.usp == 0
        &&& self.tpidr == 0
        &&& self.elr == 0
        &&& self.spsr == 0
    }

    /// Whether `after` is this frame with general-purpose register `index`
    /// set to `value`.
    pub open spec fn with_register(&self, index: int, value: u64, after: TrapFrame) -> bool {
        &&& after.r@ == self.r@.update(index, value)
        &&& after.usp == self.usp
        &&& after.tpidr == self.tpidr
        &&& after.elr == self.elr
        &&& after.spsr == self.spsr
    }

    /// Gets the 0th syscall argument.
    pub open spec fn spec_arg0(&self) -> usize {
        self.r[0] as usize
    }

    /// Gets the 0th syscall argument.
    #[verifier::when_used_as_spec(spec_arg0)]
    pub fn arg0(&self) -> (value: usize)
        ensures
            value == self.r[0] as usize,
    {
        self.r[0] as usize
    }

    /// Sets the 0th syscall argument.
    pub fn set_arg0(&mut self, value: usize)
        ensures
            old(self).with_register(0, value as u64, *final(self)),
    {
        self.r[0] = value as u64;
    }

    /// Gets the 1st syscall argument.
    pub open spec fn spec_arg1(&self) -> usize {
        self.r[1] as usize
    }

    /// Gets the 1st syscall argument.
    #[verifier::when_used_as_spec(spec_arg1)]
    pub fn arg1(&self) -> (value: usize)
        ensures
            value == self.r[1] as usize,
    {
        self.r[1] as usize
    }

    /// Sets the 1st syscall argument.
    pub fn set_arg1(&mut self, value: usize)
        ensures
            old(self).with_register(1, value as u64, *final(self)),
    {
        self.r[1] = value as u64;
    }

    /// Gets the 2nd syscall argument.
    pub open spec fn spec_arg2(&self) -> usize {
        self.r[2] as usize
    }

    /// Gets the 2nd syscall argument.
    #[verifier::when_used_as_spec(spec_arg2)]
    pub fn arg2(&self) -> (value: usize)
        ensures
            value == self.r[2] as usize,
    {
        self.r[2] as usize
    }

    /// Sets the 2nd syscall argument.
    pub fn set_arg2(&mut self, value: usize)
        ensures
            old(self).with_register(2, value as u64, *final(self)),
    {
        self.r[2] = value as u64;
    }

    /// Gets the 3rd syscall argument.
    pub open spec fn spec_arg3(&self) -> usize {
        self.r[3] as usize
    }

    /// Gets the 3rd syscall argument.
    #[verifier::when_used_as_spec(spec_arg3)]
    pub fn arg3(&self) -> (value: usize)
        ensures
            value == self.r[3] as usize,
    {
        self.r[3] as usize
    }

    /// Sets the 3rd syscall argument.
    pub fn set_arg3(&mut self, value: usize)
        ensures
            old(self).with_register(3, value as u64, *final(self)),
    {
        self.r[3] = value as u64;
    }

    /// Gets the 4th syscall argument.
    pub open spec fn spec_arg4(&self) -> usize {
        self.r[4] as usize
    }

    /// Gets the 4th syscall argument.
    #[verifier::when_used_as_spec(spec_arg4)]
    pub fn arg4(&self) -> (value: usize)
        ensures
            value == self.r[4] as usize,
    {
        self.r[4] as usize
    }

    /// Sets the 4th syscall argument.
    pub fn set_arg4(&mut self, value: usize)
        ensures
            old(self).with_register(4, value as u64, *final(self)),
    {
        self.r[4] = value as u64;
    }

    /// Gets the 5th syscall argument.
    pub open spec fn spec_arg5(&self) -> usize {
        self.r[5] as usize
    }

    /// Gets the 5th syscall argument.
    #[verifier::when_used_as_spec(spec_arg5)]
    pub fn arg5(&self) -> (value: usize)
        ensures
            value == self.r[5] as usize,
    {
        self.r[5] as usize
    }

    /// Sets the 5th syscall argument.
    pub fn set_arg5(&mut self, value: usize)
        ensures
            old(self).with_register(5, value as u64, *final(self)),
    {
        self.r[5] = value as u64;
    }

    /// Gets the syscall number.
    pub open spec fn spec_sysno(&self) -> usize {
        self.r[8] as usize
    }

    /// Gets the syscall number.
    #[verifier::when_used_as_spec(spec_sysno)]
    pub fn sysno(&self) -> (value: usize)
        ensures
            value == self.r[8] as usize,
    {
        self.r[8] as usize
    }

    /// Sets the syscall number.
    pub fn set_sysno(&mut self, value: usize)
        ensures
            old(self).with_register(8, value as u64, *final(self)),
    {
        self.r[8] = value as u64;
    }

    /// Gets the return value register.
    pub open spec fn spec_retval(&self) -> usize {
        self.r[0] as usize
    }

    /// Gets the return value register.
    #[verifier::when_used_as_spec(spec_retval)]
    pub fn retval(&self) -> (value: usize)
        ensures
            value == self.r[0] as usize,
    {
        self.r[0] as usize
    }

    /// Sets the return value register.
    pub fn set_retval(&mut self, value: usize)
        ensures
            old(self).with_register(0, value as u64, *final(self)),
    {
        self.r[0] = value as u64;
    }

    /// Gets the instruction pointer.
    pub open spec fn spec_ip(&self) -> usize {
        self.elr as usize
    }

    /// Gets the instruction pointer.
    #[verifier::when_used_as_spec(spec_ip)]
    pub fn ip(&self) -> (value: usize)
        ensures
            value == self.elr as usize,
    {
        self.elr as usize
    }

    /// Sets the instruction pointer.
    pub fn set_ip(&mut self, value: usize)
        ensures
            *final(self) == (TrapFrame { elr: value as u64, ..*old(self) }),
    {
        self.elr = value as u64;
    }

    /// Gets the stack pointer.
    pub open spec fn spec_sp(&self) -> usize {
        self.usp as usize
    }

    /// Gets the stack pointer.
    #[verifier::when_used_as_spec(spec_sp)]
    pub fn sp(&self) -> (value: usize)
        ensures
            value == self.usp as usize,
    {
        self.usp as usize
    }

    /// Sets the stack pointer.
    pub fn set_sp(&mut self, value: usize)
        ensures
            *final(self) == (TrapFrame { usp: value as u64, ..*old(self) }),
    {
        self.usp = value as u64;
    }

    /// What an unwinder starts from: the frame pointer, the instruction
    /// pointer and the link register of the frame.
    pub fn backtrace_seeds(&self) -> (seeds: (usize, usize, usize))
        ensures
            seeds == (self.r[29] as usize, self.elr as usize, self.r[30] as usize),
    {
        (self.r[29] as usize, self.elr as usize, self.r[30] as usize)
    }

    /// Unwind the stack and get the backtrace, from the seeds of the frame.
    pub fn backtrace(&self) -> axbacktrace::Backtrace {
        let seeds = self.backtrace_seeds();
        axbacktrace::Backtrace::capture_trap(seeds.0, seeds.1, seeds.2)
    }
}

impl Default for TrapFrame {
    /// The frame with every register zero.
    fn default() -> (frame: Self)
        ensures
            frame.is_zeroed(),
    {
        TrapFrame { r: [0u64; 31], usp: 0, tpidr: 0, elr: 0, spsr: 0 }
    }
}

} // verus!
