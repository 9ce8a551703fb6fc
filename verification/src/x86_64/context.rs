//! Register frames and kernel task contexts of x86_64.

use vstd::prelude::*;

verus! {

/// Saved registers when a trap (interrupt or exception) occurs.
///
/// The fields stand in the order in which the entry code saves them: the
/// general-purpose registers, the thread pointer of the interrupted code, the
/// vector and error code pushed by the entry code, and the five words pushed
/// by the processor.
#[allow(missing_docs)]
#[derive(Debug, Clone, Copy, PartialEq, Eq, Structural)]
pub struct TrapFrame {
    pub rax: u64,
    pub rcx: u64,
    pub rdx: u64,
    pub rbx: u64,
    pub rbp: u64,
    pub rsi: u64,
    pub rdi: u64,
    pub r8: u64,
    pub r9: u64,
    pub r10: u64,
    pub r11: u64,
    pub r12: u64,
    pub r13: u64,
    pub r14: u64,
    pub r15: u64,
    /// Thread pointer (FS segment base) of the interrupted code.
    pub fs_base: u64,
    /// Pushed by the entry code.
    pub vector: u64,
    pub error_code: u64,
    /// Pushed by the processor.
    pub rip: u64,
    pub cs: u64,
    pub rflags: u64,
    pub rsp: u64,
    pub ss: u64,
}

impl TrapFrame {
    /// The frame with every register zero.
    pub open spec fn zeroed() -> TrapFrame {
        TrapFrame {
            rax: 0,
            rcx: 0,
            rdx: 0,
            rbx: 0,
            rbp: 0,
            rsi: 0,
            rdi: 0,
            r8: 0,
            r9: 0,
            r10: 0,
            r11: 0,
            r12: 0,
            r13: 0,
            r14: 0,
            r15: 0,
            fs_base: 0,
            vector: 0,
            error_code: 0,
            rip: 0,
            cs: 0,
            rflags: 0,
            rsp: 0,
            ss: 0,
        }
    }

    /// Gets the 0th syscall argument.
    pub open spec fn spec_arg0(&self) -> usize {
        self.rdi as usize
    }

    /// Gets the 0th syscall argument.
    #[verifier::when_used_as_spec(spec_arg0)]
    pub fn arg0(&self) -> (value: usize)
        ensures
            value == self.rdi as usize,
    {
        self.rdi as usize
    }

    /// Sets the 0th syscall argument.
    pub fn set_arg0(&mut self, rdi: usize)
        ensures
            *final(self) == (TrapFrame { rdi: rdi as u64, ..*old(self) }),
    {
        self.rdi = rdi as u64;
    }

    /// Gets the 1st syscall argument.
    pub open spec fn spec_arg1(&self) -> usize {
        self.rsi as usize
    }

    /// Gets the 1st syscall argument.
    #[verifier::when_used_as_spec(spec_arg1)]
    pub fn arg1(&self) -> (value: usize)
        ensures
            value == self.rsi as usize,
    {
        self.rsi as usize
    }

    /// Sets the 1st syscall argument.
    pub fn set_arg1(&mut self, rsi: usize)
        ensures
            *final(self) == (TrapFrame { rsi: rsi as u64, ..*old(self) }),
    {
        self.rsi = rsi as u64;
    }

    /// Gets the 2nd syscall argument.
    pub open spec fn spec_arg2(&self) -> usize {
        self.rdx as usize
    }

    /// Gets the 2nd syscall argument.
    #[verifier::when_used_as_spec(spec_arg2)]
    pub fn arg2(&self) -> (value: usize)
        ensures
            value == self.rdx as usize,
    {
        self.rdx as usize
    }

    /// Sets the 2nd syscall argument.
    pub fn set_arg2(&mut self, rdx: usize)
        ensures
            *final(self) == (TrapFrame { rdx: rdx as u64, ..*old(self) }),
    {
        self.rdx = rdx as u64;
    }

    /// Gets the 3rd syscall argument.
    pub open spec fn spec_arg3(&self) -> usize {
        self.r10 as usize
    }

    /// Gets the 3rd syscall argument.
    #[verifier::when_used_as_spec(spec_arg3)]
    pub fn arg3(&self) -> (value: usize)
        ensures
            value == self.r10 as usize,
    {
        self.r10 as usize
    }

    /// Sets the 3rd syscall argument.
    pub fn set_arg3(&mut self, r10: usize)
        ensures
            *final(self) == (TrapFrame { r10: r10 as u64, ..*old(self) }),
    {
        self.r10 = r10 as u64;
    }

    /// Gets the 4th syscall argument.
    pub open spec fn spec_arg4(&self) -> usize {
        self.r8 as usize
    }

    /// Gets the 4th syscall argument.
    #[verifier::when_used_as_spec(spec_arg4)]
    pub fn arg4(&self) -> (value: usize)
        ensures
            value == self.r8 as usize,
    {
        self.r8 as usize
    }

    /// Sets the 4th syscall argument.
    pub fn set_arg4(&mut self, r8: usize)
        ensures
            *final(self) == (TrapFrame { r8: r8 as u64, ..*old(self) }),
    {
        self.r8 = r8 as u64;
    }

    /// Gets the 5th syscall argument.
    pub open spec fn spec_arg5(&self) -> usize {
        self.r9 as usize
    }

    /// Gets the 5th syscall argument.
    #[verifier::when_used_as_spec(spec_arg5)]
    pub fn arg5(&self) -> (value: usize)
        ensures
            value == self.r9 as usize,
    {
        self.r9 as usize
    }

    /// Sets the 5th syscall argument.
    pub fn set_arg5(&mut self, r9: usize)
        ensures
            *final(self) == (TrapFrame { r9: r9 as u64, ..*old(self) }),
    {
        self.r9 = r9 as u64;
    }

    /// Gets the instruction pointer.
    pub open spec fn spec_ip(&self) -> usize {
        self.rip as usize
    }

    /// Gets the instruction pointer.
    #[verifier::when_used_as_spec(spec_ip)]
    pub fn ip(&self) -> (value: usize)
        ensures
            value == self.rip as usize,
    {
        self.rip as usize
    }

    /// Sets the instruction pointer.
    pub fn set_ip(&mut self, rip: usize)
        ensures
            *final(self) == (TrapFrame { rip: rip as u64, ..*old(self) }),
    {
        self.rip = rip as u64;
    }

    /// Gets the stack pointer.
    pub open spec fn spec_sp(&self) -> usize {
        self.rsp as usize
    }

    /// Gets the stack pointer.
    #[verifier::when_used_as_spec(spec_sp)]
    pub fn sp(&self) -> (value: usize)
        ensures
            value == self.rsp as usize,
    {
        self.rsp as usize
    }

    /// Sets the stack pointer.
    pub fn set_sp(&mut self, rsp: usize)
        ensures
            *final(self) == (TrapFrame { rsp: rsp as u64, ..*old(self) }),
    {
        self.rsp = rsp as u64;
    }

    /// Gets the syscall number.
    pub open spec fn spec_sysno(&self) -> usize {
        self.rax as usize
    }

    /// Gets the syscall number.
    #[verifier::when_used_as_spec(spec_sysno)]
    pub fn sysno(&self) -> (value: usize)
        ensures
            value == self.rax as usize,
    {
        self.rax as usize
    }

    /// Sets the syscall number.
    pub fn set_sysno(&mut self, rax: usize)
        ensures
            *final(self) == (TrapFrame { rax: rax as u64, ..*old(self) }),
    {
        self.rax = rax as u64;
    }

    /// Gets the return value register.
    pub open spec fn spec_retval(&self) -> usize {
        self.rax as usize
    }

    /// Gets the return value register.
    #[verifier::when_used_as_spec(spec_retval)]
    pub fn retval(&self) -> (value: usize)
        ensures
            value == self.rax as usize,
    {
        self.rax as usize
    }

    /// Sets the return value register.
    pub fn set_retval(&mut self, rax: usize)
        ensures
            *final(self) == (TrapFrame { rax: rax as u64, ..*old(self) }),
    {
        self.rax = rax as u64;
    }

    /// Whether the trap was taken from user mode: the saved code segment
    /// selector asks for privilege level 3.
    pub open spec fn spec_is_user(&self) -> bool {
        self.cs & 0b11 == 3
    }

    /// Whether the trap was taken from user mode.
    #[verifier::when_used_as_spec(spec_is_user)]
    pub fn is_user(&self) -> (user: bool)
        ensures
            user == self.spec_is_user(),
    {
        self.cs & 0b11 == 3
    }
}

impl Default for TrapFrame {
    /// The frame with every register zero.
    fn default() -> (frame: Self)
        ensures
            frame == TrapFrame::zeroed(),
    {
        TrapFrame {
            rax: 0,
            rcx: 0,
            rdx: 0,
            rbx: 0,
            rbp: 0,
            rsi: 0,
            rdi: 0,
            r8: 0,
            r9: 0,
            r10: 0,
            r11: 0,
            r12: 0,
            r13: 0,
            r14: 0,
            r15: 0,
            fs_base: 0,
            vector: 0,
            error_code: 0,
            rip: 0,
            cs: 0,
            rflags: 0,
            rsp: 0,
            ss: 0,
        }
    }
}

/// The register state that a probe sees and may change.
///
/// It holds the general-purpose registers and the words pushed by the
/// processor as machine words; `orig_rax` stands for the vector of the trap.
#[allow(missing_docs)]
#[derive(Debug, Clone, Copy, PartialEq, Eq, Structural)]
pub struct PtRegs {
    pub r15: usize,
    pub r14: usize,
    pub r13: usize,
    pub r12: usize,
    pub rbp: usize,
    pub rbx: usize,
    pub r11: usize,
    pub r10: usize,
    pub r9: usize,
    pub r8: usize,
    pub rax: usize,
    pub rcx: usize,
    pub rdx: usize,
    pub rsi: usize,
    pub rdi: usize,
    pub orig_rax: usize,
    pub rip: usize,
    pub cs: usize,
    pub rflags: usize,
    pub rsp: usize,
    pub ss: usize,
}

impl PtRegs {
    /// The probe's view of a trap frame: every register as a machine word.
    pub open spec fn of_frame(frame: TrapFrame) -> PtRegs {
        PtRegs {
            r15: frame.r15 as usize,
            r14: frame.r14 as usize,
            r13: frame.r13 as usize,
            r12: frame.r12 as usize,
            rbp: frame.rbp as usize,
            rbx: frame.rbx as usize,
            r11: frame.r11 as usize,
            r10: frame.r10 as usize,
            r9: frame.r9 as usize,
            r8: frame.r8 as usize,
            rax: frame.rax as usize,
            rcx: frame.rcx as usize,
            rdx: frame.rdx as usize,
            rsi: frame.rsi as usize,
            rdi: frame.rdi as usize,
            orig_rax: frame.vector as usize,
            rip: frame.rip as usize,
            cs: frame.cs as usize,
            rflags: frame.rflags as usize,
            rsp: frame.rsp as usize,
            ss: frame.ss as usize,
        }
    }
}

impl vstd::std_specs::convert::FromSpecImpl<&TrapFrame> for PtRegs {
    open spec fn obeys_from_spec() -> bool {
        true
    }

    open spec fn from_spec(value: &TrapFrame) -> PtRegs {
        PtRegs::of_frame(*value)
    }
}

impl From<&TrapFrame> for PtRegs {
    /// Copies the registers of a trap frame for a probe.
    fn from(value: &TrapFrame) -> (regs: PtRegs)
        ensures
            regs == PtRegs::of_frame(*value),
    {
        PtRegs {
            r15: value.r15 as usize,
            r14: value.r14 as usize,
            r13: value.r13 as usize,
            r12: value.r12 as usize,
            rbp: value.rbp as usize,
            rbx: value.rbx as usize,
            r11: value.r11 as usize,
            r10: value.r10 as usize,
            r9: value.r9 as usize,
            r8: value.r8 as usize,
            rax: value.rax as usize,
            rcx: value.rcx as usize,
            rdx: value.rdx as usize,
            rsi: value.rsi as usize,
            rdi: value.rdi as usize,
            orig_rax: value.vector as usize,
            rip: value.rip as usize,
            cs: value.cs as usize,
            rflags: value.rflags as usize,
            rsp: value.rsp as usize,
            ss: value.ss as usize,
        }
    }
}

impl TrapFrame {
    /// The frame after a probe has handed back `ptregs`: every register that
    /// a probe sees is taken from it; the thread pointer and the error code
    /// stay.
    pub open spec fn updated_from(self, ptregs: PtRegs) -> TrapFrame {
        TrapFrame {
            r15: ptregs.r15 as u64,
            r14: ptregs.r14 as u64,
            r13: ptregs.r13 as u64,
            r12: ptregs.r12 as u64,
            rbp: ptregs.rbp as u64,
            rbx: ptregs.rbx as u64,
            r11: ptregs.r11 as u64,
            r10: ptregs.r10 as u64,
            r9: ptregs.r9 as u64,
            r8: ptregs.r8 as u64,
            rax: ptregs.rax as u64,
            rcx: ptregs.rcx as u64,
            rdx: ptregs.rdx as u64,
            rsi: ptregs.rsi as u64,
            rdi: ptregs.rdi as u64,
            vector: ptregs.orig_rax as u64,
            rip: ptregs.rip as u64,
            cs: ptregs.cs as u64,
            rflags: ptregs.rflags as u64,
            rsp: ptregs.rsp as u64,
            ss: ptregs.ss as u64,
            fs_base: self.fs_base,
            error_code: self.error_code,
        }
    }

    /// Updates the frame from the registers that a probe hands back.
    pub fn update_from_ptregs(&mut self, ptregs: PtRegs)
        ensures
            *final(self) == old(self).updated_from(ptregs),
    {
        self.r15 = ptregs.r15 as u64;
        self.r14 = ptregs.r14 as u64;
        self.r13 = ptregs.r13 as u64;
        self.r12 = ptregs.r12 as u64;
        self.rbp = ptregs.rbp as u64;
        self.rbx = ptregs.rbx as u64;
        self.r11 = ptregs.r11 as u64;
        self.r10 = ptregs.r10 as u64;
        self.r9 = ptregs.r9 as u64;
        self.r8 = ptregs.r8 as u64;
        self.rax = ptregs.rax as u64;
        self.rcx = ptregs.rcx as u64;
        self.rdx = ptregs.rdx as u64;
        self.rsi = ptregs.rsi as u64;
        self.rdi = ptregs.rdi as u64;
        self.vector = ptregs.orig_rax as u64;
        self.rip = ptregs.rip as u64;
        self.cs = ptregs.cs as u64;
        self.rflags = ptregs.rflags as u64;
        self.rsp = ptregs.rsp as u64;
        self.ss = ptregs.ss as u64;
    }
}

/// A frame that was updated from a probe's registers shows the probe those
/// registers again.
pub proof fn lemma_ptregs_round_trip(frame: TrapFrame, ptregs: PtRegs)
    ensures
        PtRegs::of_frame(frame.updated_from(ptregs)) == ptregs,
{
}

/// The registers that a task switch keeps on the stack of the task that is
/// switched away from, in the order in which they lie there, and the address
/// at which the task goes on.
#[allow(missing_docs)]
#[derive(Debug, Clone, Copy, PartialEq, Eq, Structural)]
pub struct ContextSwitchFrame {
    pub r15: u64,
    pub r14: u64,
    pub r13: u64,
    pub r12: u64,
    pub rbx: u64,
    pub rbp: u64,
    pub rip: u64,
}

/// Size of a [`ContextSwitchFrame`] on the stack, in bytes: seven registers.
pub const CONTEXT_SWITCH_FRAME_SIZE: usize = 56;

/// Size of a return address on the stack, in bytes.
pub const RETURN_ADDRESS_SIZE: usize = 8;

/// A 512-byte memory region for the FXSAVE/FXRSTOR instruction to save and
/// restore the x87 FPU, MMX, XMM, and MXCSR registers.
#[allow(missing_docs)]
#[derive(Debug, Clone, Copy, PartialEq, Eq)]
pub struct FxsaveArea {
    pub fcw: u16,
    pub fsw: u16,
    pub ftw: u16,
    pub fop: u16,
    pub fip: u64,
    pub fdp: u64,
    pub mxcsr: u32,
    pub mxcsr_mask: u32,
    pub st: [u64; 16],
    pub xmm: [u64; 32],
    pub padding: [u64; 12],
}

impl FxsaveArea {
    /// Whether the area holds the state of a task that has not used the
    /// floating-point unit yet: the default control word, every tag empty,
    /// the default `MXCSR`, and zero everywhere else.
    pub open spec fn is_initial(&self) -> bool {
        &&& self.fcw == 0x37f
        &&& self.fsw == 0
        &&& self.ftw == 0xffff
        &&& self.fop == 0
        &&& self.fip == 0
        &&& self.fdp == 0
        &&& self.mxcsr == 0x1f80
        &&& self.mxcsr_mask == 0
        &&& forall|i: int| 0 <= i < 16 ==> self.st[i] == 0
        &&& forall|i: int| 0 <= i < 32 ==> self.xmm[i] == 0
        &&& forall|i: int| 0 <= i < 12 ==> self.padding[i] == 0
    }
}

/// Extended state of a task, such as FP/SIMD states.
#[derive(Debug, Clone, Copy, PartialEq, Eq)]
pub struct ExtendedState {
    /// Memory region for the FXSAVE/FXRSTOR instruction.
    pub fxsave_area: FxsaveArea,
}

impl ExtendedState {
    /// Returns the extended state with initialized values.
    pub fn default() -> (state: Self)
        ensures
            state.fxsave_area.is_initial(),
    {
        ExtendedState {
            fxsave_area: FxsaveArea {
                fcw: 0x37f,
                fsw: 0,
                ftw: 0xffff,
                fop: 0,
                fip: 0,
                fdp: 0,
                mxcsr: 0x1f80,
                mxcsr_mask: 0,
                st: [0u64; 16],
                xmm: [0u64; 32],
                padding: [0u64; 12],
            },
        }
    }
}

/// The optional parts of a task context, fixed when the kernel is built.
#[derive(Debug, Clone, Copy, PartialEq, Eq, Structural)]
pub struct ContextFeatures {
    /// Tasks have floating-point and SIMD state of their own.
    pub fp_simd: bool,
    /// The kernel uses thread-local storage, so that the thread pointer
    /// belongs to the task.
    pub tls: bool,
    /// Tasks can have an address space of their own.
    pub uspace: bool,
}

/// Saved hardware states of a task.
///
/// The context usually includes:
///
/// - Callee-saved registers
/// - Stack pointer register
/// - Thread pointer register (for kernel-space thread-local storage)
/// - FP/SIMD registers
///
/// On context switch, current task saves its context from CPU to memory,
/// and the next task restores its context from memory to CPU.
///
/// On x86_64, callee-saved registers are saved to the kernel stack by the
/// `PUSH` instruction. So that `rsp` is the `RSP` after callee-saved
/// registers are pushed, and `kstack_top` is the top of the kernel stack
/// (`RSP` before any push).
#[derive(Debug)]
pub struct TaskContext {
    /// The kernel stack top of the task.
    pub kstack_top: usize,
    /// `RSP` after all callee-saved registers are pushed.
    pub rsp: u64,
    /// Thread pointer (FS segment base address)
    pub fs_base: usize,
    /// Whether the thread pointer belongs to the task.
    pub tls: bool,
    /// Extended states, i.e., FP/SIMD states, where tasks have them.
    pub ext_state: Option<ExtendedState>,
    /// The `CR3` register value, i.e., the page table root, where tasks can
    /// have an address space of their own.
    pub cr3: Option<usize>,
}

/// One step of a task switch, for the caller to carry out.
#[derive(Debug, Clone, Copy, PartialEq, Eq, Structural)]
pub enum SwitchStep {
    /// Save the extended state of the processor in the context that is
    /// switched away from.
    SaveExtendedState,
    /// Load the extended state of the context that is switched to.
    RestoreExtendedState,
    /// Write the thread pointer register.
    WriteThreadPointer(usize),
    /// Write the page table root, which flushes the translation cache.
    WritePageTableRoot(usize),
    /// Push the callee-saved registers, store the stack pointer in the
    /// context that is switched away from, load the given stack pointer, pop
    /// the callee-saved registers and return.
    SwitchStack { next_rsp: u64 },
}

impl TaskContext {
    /// Creates a dummy context for a new task.
    ///
    /// The stack fields are unset: they are filled by [`TaskContext::init`]
    /// for a regular task, and by the first switch away from it for the task
    /// that runs already. The extended state has its initial values and the
    /// page table root is `kernel_page_table`, the root that the kernel runs
    /// on; each is there only with its feature.
    pub fn new(features: ContextFeatures, kernel_page_table: usize) -> (ctx: Self)
        ensures
            ctx.kstack_top == 0,
            ctx.rsp == 0,
            ctx.fs_base == 0,
            ctx.tls == features.tls,
            ctx.ext_state.is_some() == features.fp_simd,
            ctx.ext_state matches Some(state) ==> state.fxsave_area.is_initial(),
            ctx.cr3 == (if features.uspace {
                Some(kernel_page_table)
            } else {
                None
            }),
    {
        TaskContext {
            kstack_top: 0,
            rsp: 0,
            fs_base: 0,
            tls: features.tls,
            ext_state: if features.fp_simd {
                Some(ExtendedState::default())
            } else {
                None
            },
            cr3: if features.uspace {
                Some(kernel_page_table)
            } else {
                None
            },
        }
    }

    /// The frame that makes a new task begin at `entry`: every callee-saved
    /// register zero.
    pub open spec fn entry_frame(entry: usize) -> ContextSwitchFrame {
        ContextSwitchFrame { r15: 0, r14: 0, r13: 0, r12: 0, rbx: 0, rbp: 0, rip: entry as u64 }
    }

    /// The stack pointer with which a task begins that is switched to for the
    /// first time: the saved stack pointer, past the frame that the switch
    /// pops.
    pub open spec fn first_stack_pointer(&self) -> int {
        self.rsp + CONTEXT_SWITCH_FRAME_SIZE
    }

    /// Initializes the context for a new task, with the given entry point and
    /// kernel stack, and returns the frame that the caller has to store at
    /// the saved stack pointer.
    ///
    /// The frame lies just below one free slot at the top of the stack. A
    /// function expects the stack pointer to be 8 below a multiple of 16 when
    /// it begins; with a stack top that is a multiple of 16 the task begins
    /// so. The stack has to have room for the frame and the slot.
    pub fn init(&mut self, entry: usize, kstack_top: usize, tls_area: usize) -> (frame:
        ContextSwitchFrame)
        requires
            kstack_top >= CONTEXT_SWITCH_FRAME_SIZE + RETURN_ADDRESS_SIZE,
        ensures
            frame == Self::entry_frame(entry),
            final(self).rsp == kstack_top - CONTEXT_SWITCH_FRAME_SIZE - RETURN_ADDRESS_SIZE,
            final(self).kstack_top == kstack_top,
            final(self).fs_base == tls_area,
            final(self).tls == old(self).tls,
            final(self).ext_state == old(self).ext_state,
            final(self).cr3 == old(self).cr3,
            final(self).first_stack_pointer() == kstack_top - RETURN_ADDRESS_SIZE,
            kstack_top % 16 == 0 ==> (final(self).first_stack_pointer() + RETURN_ADDRESS_SIZE) % 16
                == 0,
    {
        let frame_ptr = kstack_top - RETURN_ADDRESS_SIZE - CONTEXT_SWITCH_FRAME_SIZE;
        self.rsp = frame_ptr as u64;
        self.kstack_top = kstack_top;
        self.fs_base = tls_area;
        ContextSwitchFrame { r15: 0, r14: 0, r13: 0, r12: 0, rbx: 0, rbp: 0, rip: entry as u64 }
    }

    /// Changes the page table root in this context, where tasks can have an
    /// address space of their own.
    ///
    /// The hardware register for the page table root is written by the next
    /// switch to this context.
    pub fn set_page_table_root(&mut self, cr3: usize)
        ensures
            final(self).cr3 == (if old(self).cr3.is_some() {
                Some(cr3)
            } else {
                None
            }),
            final(self).kstack_top == old(self).kstack_top,
            final(self).rsp == old(self).rsp,
            final(self).fs_base == old(self).fs_base,
            final(self).tls == old(self).tls,
            final(self).ext_state == old(self).ext_state,
    {
        if self.cr3.is_some() {
            self.cr3 = Some(cr3);
        }
    }
}

/// The steps that move the extended state from `current` to `next`: the
/// processor's state is saved where `current` has room for it, and the state
/// of `next` is loaded where it has one.
pub open spec fn extended_state_steps(current: TaskContext, next: TaskContext) -> Seq<SwitchStep> {
    (if current.ext_state.is_some() {
        seq![SwitchStep::SaveExtendedState]
    } else {
        seq![]
    }) + (if next.ext_state.is_some() {
        seq![SwitchStep::RestoreExtendedState]
    } else {
        seq![]
    })
}

/// The step that installs the thread pointer of `next`, where the thread
/// pointer belongs to the task.
pub open spec fn thread_pointer_steps(current: TaskContext, next: TaskContext) -> Seq<SwitchStep> {
    if current.tls {
        seq![SwitchStep::WriteThreadPointer(next.fs_base)]
    } else {
        seq![]
    }
}

/// The step that installs the page table root of `next`, where it has one
/// that differs from that of `current`.
pub open spec fn page_table_steps(current: TaskContext, next: TaskContext) -> Seq<SwitchStep> {
    match next.cr3 {
        Some(root) if next.cr3 != current.cr3 => seq![SwitchStep::WritePageTableRoot(root)],
        _ => seq![],
    }
}

/// The steps of a switch from `current` to `next`, in their order: extended
/// state, thread pointer, page table root, and last the stack.
pub open spec fn switch_steps(current: TaskContext, next: TaskContext) -> Seq<SwitchStep> {
    extended_state_steps(current, next) + thread_pointer_steps(current, next) + page_table_steps(
        current,
        next,
    ) + seq![SwitchStep::SwitchStack { next_rsp: next.rsp }]
}

impl TaskContext {
    /// Switches to another task: takes up in this context what the caller
    /// read from the processor, and returns the steps that the caller has to
    /// carry out, in their order, with interrupts disabled.
    ///
    /// `thread_pointer` is what the thread pointer register holds. Where the
    /// thread pointer belongs to the task it is kept in this context. The
    /// last step is always the switch of the stack, which stores the stack
    /// pointer in this context and does not come back before another task
    /// switches to this one.
    pub fn switch_to(&mut self, next_ctx: &Self, thread_pointer: usize) -> (steps: Vec<SwitchStep>)
        ensures
            steps@ == switch_steps(*old(self), *next_ctx),
            final(self).fs_base == (if old(self).tls {
                thread_pointer
            } else {
                old(self).fs_base
            }),
            final(self).kstack_top == old(self).kstack_top,
            final(self).rsp == old(self).rsp,
            final(self).tls == old(self).tls,
            final(self).ext_state == old(self).ext_state,
            final(self).cr3 == old(self).cr3,
    {
        let mut steps: Vec<SwitchStep> = Vec::new();
        if self.ext_state.is_some() {
            steps.push(SwitchStep::SaveExtendedState);
        }
        if next_ctx.ext_state.is_some() {
            steps.push(SwitchStep::RestoreExtendedState);
        }
        assert(steps@ == extended_state_steps(*old(self), *next_ctx));
        if self.tls {
            self.fs_base = thread_pointer;
            steps.push(SwitchStep::WriteThreadPointer(next_ctx.fs_base));
        }
        assert(steps@ == extended_state_steps(*old(self), *next_ctx) + thread_pointer_steps(
            *old(self),
            *next_ctx,
        ));
        match next_ctx.cr3 {
            Some(root) => {
                let same = match self.cr3 {
                    Some(current_root) => current_root == root,
                    None => false,
                };
                if !same {
                    steps.push(SwitchStep::WritePageTableRoot(root));
                }
            },
            None => {},
        }
        assert(steps@ == extended_state_steps(*old(self), *next_ctx) + thread_pointer_steps(
            *old(self),
            *next_ctx,
        ) + page_table_steps(*old(self), *next_ctx));
        steps.push(SwitchStep::SwitchStack { next_rsp: next_ctx.rsp });
        steps
    }
}

impl TrapFrame {
    /// What an unwinder starts from: the frame pointer and the instruction
    /// pointer of the frame, and 0 for the return address, which lies on the
    /// stack on this architecture.
    pub fn backtrace_seeds(&self) -> (seeds: (usize, usize, usize))
        ensures
            seeds == (self.rbp as usize, self.rip as usize, 0usize),
    {
        (self.rbp as usize, self.rip as usize, 0)
    }

    /// Unwind the stack and get the backtrace, from the seeds of the frame.
    pub fn backtrace(&self) -> axbacktrace::Backtrace {
        let seeds = self.backtrace_seeds();
        axbacktrace::Backtrace::capture_trap(seeds.0, seeds.1, seeds.2)
    }
}

/// The registers that a switch of the stack moves, as the processor holds
/// them when a task asks for the switch: the stack pointer, the callee-saved
/// registers and, as `saved.rip`, the address at which the task goes on.
#[allow(missing_docs)]
pub struct TaskRegisters {
    pub rsp: u64,
    pub saved: ContextSwitchFrame,
}

/// The frame that lies in `memory` at address `at`: seven words, the lowest
/// first. `memory` maps the address of a word to the word.
pub open spec fn stored_frame(memory: Map<int, u64>, at: int) -> ContextSwitchFrame {
    ContextSwitchFrame {
        r15: memory[at],
        r14: memory[at + 8],
        r13: memory[at + 16],
        r12: memory[at + 24],
        rbx: memory[at + 32],
        rbp: memory[at + 40],
        rip: memory[at + 48],
    }
}

/// `memory` after `frame` was stored at address `at`.
pub open spec fn store_frame(memory: Map<int, u64>, at: int, frame: ContextSwitchFrame) -> Map<
    int,
    u64,
> {
    memory.insert(at, frame.r15).insert(at + 8, frame.r14).insert(at + 16, frame.r13).insert(
        at + 24,
        frame.r12,
    ).insert(at + 32, frame.rbx).insert(at + 40, frame.rbp).insert(at + 48, frame.rip)
}

/// The state after a switch of the stack.
#[allow(missing_docs)]
pub struct StackSwitched {
    /// The registers with which the task that is switched to goes on.
    pub regs: TaskRegisters,
    pub memory: Map<int, u64>,
    /// The stack pointer that the switch stores in the context of the task
    /// that is switched away from.
    pub saved_rsp: int,
}

/// What [`SwitchStep::SwitchStack`] asks of the caller.
///
/// The frame of the running task is pushed below its stack pointer, and the
/// address of the frame is the stack pointer to store in its context. The
/// frame at `next_rsp` is popped: its registers are loaded, the stack pointer
/// ends past it, and the task whose frame it is goes on at the frame's `rip`.
pub open spec fn stack_switched(
    regs: TaskRegisters,
    memory: Map<int, u64>,
    next_rsp: u64,
) -> StackSwitched {
    let saved_rsp = regs.rsp - CONTEXT_SWITCH_FRAME_SIZE;
    let memory = store_frame(memory, saved_rsp, regs.saved);
    StackSwitched {
        regs: TaskRegisters {
            rsp: (next_rsp + CONTEXT_SWITCH_FRAME_SIZE) as u64,
            saved: stored_frame(memory, next_rsp as int),
        },
        memory,
        saved_rsp,
    }
}

/// Whether the frames at `first` and at `second` share no byte.
pub open spec fn frames_apart(first: int, second: int) -> bool {
    first + CONTEXT_SWITCH_FRAME_SIZE <= second || second + CONTEXT_SWITCH_FRAME_SIZE <= first
}

/// A switch from a task to another and straight back restores the first
/// task: its stack pointer, its callee-saved registers and the address at
/// which it goes on are what they were, bit for bit.
///
/// In between, the other task runs with the registers of the frame at its
/// saved stack pointer, which is what was stored when it was last switched
/// away from; the way back stores that same frame at that same place.
///
/// `next_rsp` is the saved stack pointer of the other task. Its frame has to
/// lie apart from the one that the first switch pushes, and the stack
/// pointers have to stay inside the address space.
pub proof fn lemma_switch_round_trip(regs: TaskRegisters, memory: Map<int, u64>, next_rsp: u64)
    requires
        regs.rsp >= CONTEXT_SWITCH_FRAME_SIZE,
        next_rsp + CONTEXT_SWITCH_FRAME_SIZE <= u64::MAX,
        frames_apart(regs.rsp - CONTEXT_SWITCH_FRAME_SIZE, next_rsp as int),
    ensures
        ({
            let away = stack_switched(regs, memory, next_rsp);
            let back = stack_switched(away.regs, away.memory, away.saved_rsp as u64);
            &&& away.regs.saved == stored_frame(memory, next_rsp as int)
            &&& back.regs == regs
            &&& back.saved_rsp == next_rsp
            &&& stored_frame(back.memory, back.saved_rsp) == stored_frame(memory, next_rsp as int)
        }),
{
    let away = stack_switched(regs, memory, next_rsp);
    let back = stack_switched(away.regs, away.memory, away.saved_rsp as u64);
    assert(away.saved_rsp as u64 == away.saved_rsp);
    assert(back.regs.saved == regs.saved);
}

/// What a switch of the stack leaves behind and what it goes on with.
///
/// The frame of the task that is switched away from lies one frame below its
/// stack pointer, and the address of that frame is the stack pointer to store
/// in its context; the frame holds the task's callee-saved registers and the
/// address at which it goes on. The task that is switched to goes on with the
/// registers of the frame that lay at `next_rsp`, at the address that the
/// frame holds, with the stack pointer just past the frame.
///
/// The frame at `next_rsp` has to lie apart from the one that the switch
/// pushes, and the stack pointers have to stay inside the address space.
pub proof fn lemma_stack_switch_resumes(regs: TaskRegisters, memory: Map<int, u64>, next_rsp: u64)
    requires
        regs.rsp >= CONTEXT_SWITCH_FRAME_SIZE,
        next_rsp + CONTEXT_SWITCH_FRAME_SIZE <= u64::MAX,
        frames_apart(regs.rsp - CONTEXT_SWITCH_FRAME_SIZE, next_rsp as int),
    ensures
        ({
            let switched = stack_switched(regs, memory, next_rsp);
            &&& switched.saved_rsp == regs.rsp - CONTEXT_SWITCH_FRAME_SIZE
            &&& stored_frame(switched.memory, switched.saved_rsp) == regs.saved
            &&& switched.regs.saved == stored_frame(memory, next_rsp as int)
            &&& switched.regs.rsp == next_rsp + CONTEXT_SWITCH_FRAME_SIZE
        }),
{
}

/// The last step of every switch is the switch of the stack, to the saved
/// stack pointer of the context that is switched to.
pub proof fn lemma_switch_ends_with_stack(current: TaskContext, next: TaskContext)
    ensures
        switch_steps(current, next).len() > 0,
        switch_steps(current, next).last() == (SwitchStep::SwitchStack { next_rsp: next.rsp }),
{
}

/// A switch from the task of `a` to the task of `b` and straight back
/// restores the first task.
///
/// `regs` are the registers of the first task when it asks for the switch
/// and `memory` is the stack memory. `a_away` is the context `a` once the
/// first switch has stored the stack pointer in it, and `b_back` the context
/// `b` once the second has: whatever else they hold, the switches end with
/// the switch of the stack to the saved stack pointers, and after the second
/// one the first task goes on with its stack pointer, its callee-saved
/// registers and the address at which it goes on as they were, bit for bit.
/// The second task is left as it was found: its saved stack pointer and the
/// frame there are what they were.
///
/// The frame of `b` has to lie apart from the one that the first switch
/// pushes, and the stack pointers have to stay inside the address space.
pub proof fn lemma_switch_to_round_trip(
    regs: TaskRegisters,
    memory: Map<int, u64>,
    a: TaskContext,
    b: TaskContext,
    a_away: TaskContext,
    b_back: TaskContext,
)
    requires
        regs.rsp >= CONTEXT_SWITCH_FRAME_SIZE,
        b.rsp + CONTEXT_SWITCH_FRAME_SIZE <= u64::MAX,
        frames_apart(regs.rsp - CONTEXT_SWITCH_FRAME_SIZE, b.rsp as int),
        a_away.rsp == stack_switched(regs, memory, b.rsp).saved_rsp,
        b_back.rsp == stack_switched(
            stack_switched(regs, memory, b.rsp).regs,
            stack_switched(regs, memory, b.rsp).memory,
            a_away.rsp,
        ).saved_rsp,
    ensures
        ({
            let away = stack_switched(regs, memory, b.rsp);
            let back = stack_switched(away.regs, away.memory, a_away.rsp);
            &&& switch_steps(a, b).last() == (SwitchStep::SwitchStack { next_rsp: b.rsp })
            &&& switch_steps(b, a_away).last() == (SwitchStep::SwitchStack {
                next_rsp: a_away.rsp,
            })
            &&& away.regs.saved == stored_frame(memory, b.rsp as int)
            &&& back.regs == regs
            &&& b_back.rsp == b.rsp
            &&& stored_frame(back.memory, b_back.rsp as int) == stored_frame(memory, b.rsp as int)
        }),
{
    lemma_switch_round_trip(regs, memory, b.rsp);
    lemma_switch_ends_with_stack(a, b);
    lemma_switch_ends_with_stack(b, a_away);
}

/// A task that was initialized and is switched to for the first time begins
/// at its entry point, with every callee-saved register zero and the stack
/// pointer one slot below the top of its stack; with a stack top that is a
/// multiple of 16, the stack pointer is 8 below a multiple of 16, as a
/// function expects it when it begins.
///
/// `ctx` is a context as [`TaskContext::init`] leaves it for the stack top
/// `kstack_top`, and `memory` holds the frame that `init` returned at the
/// saved stack pointer, as `init` asks. That frame has to lie apart from the
/// one that the switch pushes.
pub proof fn lemma_first_switch_in(
    regs: TaskRegisters,
    memory: Map<int, u64>,
    ctx: TaskContext,
    entry: usize,
    kstack_top: usize,
)
    requires
        regs.rsp >= CONTEXT_SWITCH_FRAME_SIZE,
        kstack_top >= CONTEXT_SWITCH_FRAME_SIZE + RETURN_ADDRESS_SIZE,
        ctx.rsp == kstack_top - CONTEXT_SWITCH_FRAME_SIZE - RETURN_ADDRESS_SIZE,
        frames_apart(regs.rsp - CONTEXT_SWITCH_FRAME_SIZE, ctx.rsp as int),
        stored_frame(memory, ctx.rsp as int) == TaskContext::entry_frame(entry),
    ensures
        ({
            let begun = stack_switched(regs, memory, ctx.rsp).regs;
            &&& begun.saved == TaskContext::entry_frame(entry)
            &&& begun.saved.rip == entry
            &&& begun.saved.rbx == 0
            &&& begun.saved.rbp == 0
            &&& begun.saved.r12 == 0
            &&& begun.saved.r13 == 0
            &&& begun.saved.r14 == 0
            &&& begun.saved.r15 == 0
            &&& begun.rsp == ctx.first_stack_pointer()
            &&& begun.rsp == kstack_top - RETURN_ADDRESS_SIZE
            &&& kstack_top % 16 == 0 ==> (begun.rsp + RETURN_ADDRESS_SIZE) % 16 == 0
        }),
{
}

} // verus!
