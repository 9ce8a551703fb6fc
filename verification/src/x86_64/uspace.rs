//! Structures and functions for user space on x86_64.

use vstd::prelude::*;

use crate::trap::{dispatch_irq, irq_offered, ExceptionKind, HandlerSlot};
use crate::x86_64::context::TrapFrame;
use crate::x86_64::trap::{
    err_code_to_flags, err_code_to_flags_spec, BREAKPOINT_VECTOR, INVALID_OPCODE_VECTOR,
    IRQ_VECTOR_END, IRQ_VECTOR_START, LEGACY_SYSCALL_VECTOR, PAGE_FAULT_VECTOR,
};

verus! {

/// Selector of the 64-bit user code segment: entry 6 of the descriptor table,
/// requested privilege level 3.
pub const UCODE64_SELECTOR: u64 = 0x33;

/// Selector of the user data segment: entry 5 of the descriptor table,
/// requested privilege level 3.
pub const UDATA_SELECTOR: u64 = 0x2b;

/// The interrupt enable flag of `RFLAGS`, bit 9.
pub const RFLAGS_INTERRUPT_FLAG: u64 = 0x200;

/// Why the processor came back from user mode on x86_64.
pub type ReturnReason = crate::trap::ReturnReason<ExceptionInfo>;

/// Information about an exception that occurred in user space.
#[derive(Debug, Clone, Copy, PartialEq, Eq, Structural)]
pub struct ExceptionInfo {
    /// The trap vector number.
    pub trap_vector: u64,
    /// The instruction pointer at which the exception occurred.
    pub rip: u64,
    /// The error code associated with the exception, if any.
    pub error_code: u64,
    /// The value of the CR4 register at the time of the exception.
    pub cr4: usize,
}

impl ExceptionInfo {
    /// The generalized kind of this exception, by the low eight bits of its
    /// vector.
    pub open spec fn spec_kind(&self) -> ExceptionKind {
        let v = self.trap_vector as u8;
        if v == BREAKPOINT_VECTOR {
            ExceptionKind::Breakpoint
        } else if v == INVALID_OPCODE_VECTOR {
            ExceptionKind::IllegalInstruction
        } else {
            ExceptionKind::Other
        }
    }

    /// Returns a generalized kind of this exception.
    #[verifier::when_used_as_spec(spec_kind)]
    pub fn kind(&self) -> (kind: ExceptionKind)
        ensures
            kind == self.spec_kind(),
    {
        let v = #[verifier::truncate] (self.trap_vector as u8);
        if v == BREAKPOINT_VECTOR {
            ExceptionKind::Breakpoint
        } else if v == INVALID_OPCODE_VECTOR {
            ExceptionKind::IllegalInstruction
        } else {
            ExceptionKind::Other
        }
    }
}

/// Context to enter user space.
#[derive(Debug, Clone, Copy, PartialEq, Eq, Structural)]
pub struct UserContext(TrapFrame);

impl View for UserContext {
    type V = TrapFrame;

    /// The user register frame that the context holds.
    closed spec fn view(&self) -> TrapFrame {
        self.0
    }
}

impl UserContext {
    /// Creates an empty context with all registers set to zero.
    pub fn empty() -> (ctx: Self)
        ensures
            ctx@ == TrapFrame::zeroed(),
    {
        UserContext(TrapFrame::default())
    }

    /// The frame of a fresh user context: the entry point, the user stack
    /// pointer and the argument in their registers, the user segments
    /// selected, interrupts enabled, and every other register zero.
    pub open spec fn new_frame(entry: usize, ustack_top: usize, arg0: usize) -> TrapFrame {
        TrapFrame {
            rdi: arg0 as u64,
            rip: entry as u64,
            cs: UCODE64_SELECTOR,
            rflags: RFLAGS_INTERRUPT_FLAG,
            rsp: ustack_top as u64,
            ss: UDATA_SELECTOR,
            ..TrapFrame::zeroed()
        }
    }

    /// Creates a new context with the given entry point, user stack pointer,
    /// and the argument.
    pub fn new(entry: usize, ustack_top: usize, arg0: usize) -> (ctx: Self)
        ensures
            ctx@ == Self::new_frame(entry, ustack_top, arg0),
            ctx@.spec_ip() == entry,
            ctx@.spec_sp() == ustack_top,
            ctx@.spec_arg0() == arg0,
            ctx@.spec_is_user(),
    {
        let mut tf = TrapFrame::default();
        tf.rdi = arg0 as u64;
        tf.rip = entry as u64;
        tf.cs = UCODE64_SELECTOR;
        tf.rflags = RFLAGS_INTERRUPT_FLAG;
        tf.rsp = ustack_top as u64;
        tf.ss = UDATA_SELECTOR;
        assert(0x33u64 & 0b11 == 3) by (bit_vector);
        UserContext(tf)
    }

    /// Creates a new context from the given [`TrapFrame`].
    ///
    /// It copies all registers except `CS` and `SS`, which are set to the
    /// user segment selectors.
    pub fn from(tf: TrapFrame) -> (ctx: Self)
        ensures
            ctx@ == (TrapFrame { cs: UCODE64_SELECTOR, ss: UDATA_SELECTOR, ..tf }),
            ctx@.spec_is_user(),
    {
        let mut tf = tf;
        tf.cs = UCODE64_SELECTOR;
        tf.ss = UDATA_SELECTOR;
        assert(0x33u64 & 0b11 == 3) by (bit_vector);
        UserContext(tf)
    }
}

impl core::ops::Deref for UserContext {
    type Target = TrapFrame;

    fn deref(&self) -> (frame: &TrapFrame)
        ensures
            *frame == self@,
    {
        &self.0
    }
}

impl core::ops::DerefMut for UserContext {
    fn deref_mut(&mut self) -> (frame: &mut TrapFrame)
        ensures
            *frame == old(self)@,
            final(self)@ == *final(frame),
    {
        &mut self.0
    }
}

/// A fresh user context reads back what it was made of: the instruction
/// pointer is the entry point, the stack pointer the top of the user stack
/// and the first argument the given one; every other argument, the syscall
/// number and the other general-purpose registers read back zero.
pub proof fn lemma_new_frame_reads_back(entry: usize, ustack_top: usize, arg0: usize)
    ensures
        ({
            let frame = UserContext::new_frame(entry, ustack_top, arg0);
            &&& frame.spec_ip() == entry
            &&& frame.spec_sp() == ustack_top
            &&& frame.spec_arg0() == arg0
            &&& frame.spec_arg1() == 0
            &&& frame.spec_arg2() == 0
            &&& frame.spec_arg3() == 0
            &&& frame.spec_arg4() == 0
            &&& frame.spec_arg5() == 0
            &&& frame.spec_sysno() == 0
            &&& frame.spec_retval() == 0
            &&& frame.rcx == 0
            &&& frame.rbx == 0
            &&& frame.rbp == 0
            &&& frame.r11 == 0
            &&& frame.r12 == 0
            &&& frame.r13 == 0
            &&& frame.r14 == 0
            &&& frame.r15 == 0
            &&& frame.spec_is_user()
        }),
{
    assert(0x33u64 & 0b11 == 3) by (bit_vector);
}

/// What has to happen to the thread pointer when the processor changes
/// between the kernel and user space.
#[derive(Debug, Clone, Copy, PartialEq, Eq, Structural)]
pub struct ThreadPointerSwitch {
    /// The kernel's thread pointer, to be kept for this processor until the
    /// way back.
    pub keep_kernel: Option<usize>,
    /// The value to write to the thread pointer register.
    pub install: Option<usize>,
}

/// The switch before user space is entered with frame `tf`, while the thread
/// pointer register holds `thread_pointer`.
///
/// Only a frame of user mode switches: the user's thread pointer, kept in the
/// frame, is installed, and with thread-local storage in use (`tls`) the
/// kernel's is kept first.
pub open spec fn user_fs_base_switch(
    tf: TrapFrame,
    thread_pointer: usize,
    tls: bool,
) -> ThreadPointerSwitch {
    if tf.spec_is_user() {
        ThreadPointerSwitch {
            keep_kernel: if tls {
                Some(thread_pointer)
            } else {
                None
            },
            install: Some(tf.fs_base as usize),
        }
    } else {
        ThreadPointerSwitch { keep_kernel: None, install: None }
    }
}

/// Switches to user FS base for TLS support: says what to keep and what to
/// install before user space is entered with frame `tf`, while the thread
/// pointer register holds `thread_pointer`.
pub fn switch_to_user_fs_base(tf: &TrapFrame, thread_pointer: usize, tls: bool) -> (switch:
    ThreadPointerSwitch)
    ensures
        switch == user_fs_base_switch(*tf, thread_pointer, tls),
{
    if tf.is_user() {
        ThreadPointerSwitch {
            keep_kernel: if tls {
                Some(thread_pointer)
            } else {
                None
            },
            install: Some(tf.fs_base as usize),
        }
    } else {
        ThreadPointerSwitch { keep_kernel: None, install: None }
    }
}

/// The frame after the way back from user space: a frame of user mode takes
/// up what the thread pointer register holds, any other frame stays.
pub open spec fn kernel_fs_base_frame(tf: TrapFrame, thread_pointer: usize) -> TrapFrame {
    if tf.spec_is_user() {
        TrapFrame { fs_base: thread_pointer as u64, ..tf }
    } else {
        tf
    }
}

/// The thread pointer to install on the way back from user space: the
/// kernel's, as it was kept, for a frame of user mode with thread-local
/// storage in use; none otherwise.
pub open spec fn kernel_fs_base_install(
    tf: TrapFrame,
    kernel_fs_base: usize,
    tls: bool,
) -> Option<usize> {
    if tf.spec_is_user() && tls {
        Some(kernel_fs_base)
    } else {
        None
    }
}

/// Switches to kernel FS base for TLS support: takes the user's thread
/// pointer, which the register holds as `thread_pointer`, into the frame, and
/// says what to install in its place. `kernel_fs_base` is the value kept on
/// the way in.
pub fn switch_to_kernel_fs_base(
    tf: &mut TrapFrame,
    thread_pointer: usize,
    kernel_fs_base: usize,
    tls: bool,
) -> (install: Option<usize>)
    ensures
        *final(tf) == kernel_fs_base_frame(*old(tf), thread_pointer),
        install == kernel_fs_base_install(*old(tf), kernel_fs_base, tls),
{
    if tf.is_user() {
        tf.fs_base = thread_pointer as u64;
        if tls {
            Some(kernel_fs_base)
        } else {
            None
        }
    } else {
        None
    }
}

/// The two switches round a trip to user space undo each other. If the
/// kernel keeps what the switch on the way in tells it to keep and hands it
/// back on the way out, the kernel's thread pointer is installed again; the
/// frame takes up the user's thread pointer as the trip left it, and the next
/// trip installs just that.
pub proof fn lemma_thread_pointer_round_trip(
    tf: TrapFrame,
    kernel_pointer: usize,
    user_pointer: usize,
)
    requires
        tf.spec_is_user(),
    ensures
        user_fs_base_switch(tf, kernel_pointer, true).keep_kernel == Some(kernel_pointer),
        kernel_fs_base_install(tf, kernel_pointer, true) == Some(kernel_pointer),
        kernel_fs_base_frame(tf, user_pointer).spec_is_user(),
        user_fs_base_switch(kernel_fs_base_frame(tf, user_pointer), kernel_pointer, true).install
            == Some(user_pointer),
{
}

/// The classes of vectors that are told apart on the way back from user
/// space.
#[derive(Debug, Clone, Copy, PartialEq, Eq, Structural)]
pub enum UserVectorClass {
    PageFault,
    Syscall,
    /// A hardware interrupt: any other vector from `IRQ_VECTOR_START` to
    /// `IRQ_VECTOR_END`.
    Irq,
    Exception,
}

/// The class of a vector on the way back from user space. Only the low eight
/// bits of the saved vector count.
pub open spec fn user_vector_class_spec(vector: u64) -> UserVectorClass {
    let v = vector as u8;
    if v == PAGE_FAULT_VECTOR {
        UserVectorClass::PageFault
    } else if v == LEGACY_SYSCALL_VECTOR {
        UserVectorClass::Syscall
    } else if IRQ_VECTOR_START <= v && v <= IRQ_VECTOR_END {
        UserVectorClass::Irq
    } else {
        UserVectorClass::Exception
    }
}

/// Classifies a vector on the way back from user space.
#[verifier::when_used_as_spec(user_vector_class_spec)]
pub fn user_vector_class(vector: u64) -> (class: UserVectorClass)
    ensures
        class == user_vector_class_spec(vector),
{
    let v = #[verifier::truncate] (vector as u8);
    if v == PAGE_FAULT_VECTOR {
        UserVectorClass::PageFault
    } else if v == LEGACY_SYSCALL_VECTOR {
        UserVectorClass::Syscall
    } else if IRQ_VECTOR_START <= v && v <= IRQ_VECTOR_END {
        UserVectorClass::Irq
    } else {
        UserVectorClass::Exception
    }
}

/// Why the processor came back from user space with frame `tf`, or the error
/// code of a page fault that has a reserved bit set. `fault_vaddr` is the
/// address reported for the last page fault and `cr4` the value of that
/// control register.
pub open spec fn return_reason_spec(tf: TrapFrame, fault_vaddr: usize, cr4: usize) -> Result<
    ReturnReason,
    u64,
> {
    match user_vector_class_spec(tf.vector) {
        UserVectorClass::PageFault => match err_code_to_flags_spec(tf.error_code) {
            Ok(access_flags) => Ok(crate::trap::ReturnReason::PageFault(fault_vaddr, access_flags)),
            Err(error_code) => Err(error_code),
        },
        UserVectorClass::Syscall => Ok(crate::trap::ReturnReason::Syscall),
        UserVectorClass::Irq => Ok(crate::trap::ReturnReason::Interrupt),
        UserVectorClass::Exception => Ok(
            crate::trap::ReturnReason::Exception(
                ExceptionInfo {
                    trap_vector: tf.vector,
                    rip: tf.rip,
                    error_code: tf.error_code,
                    cr4,
                },
            ),
        ),
    }
}

impl UserContext {
    /// Says why the processor came back from user space, once the entry code
    /// has stored the user registers and the vector in this context.
    ///
    /// `fault_vaddr` is the address that the processor reported for the last
    /// page fault and `cr4` the value of that control register; the first is
    /// looked at for a page fault only, the second for an exception only. A
    /// hardware interrupt, and no other trap, is offered to the interrupt
    /// handlers with its vector before it is reported. A page fault whose error code has a
    /// reserved bit set gives that error code as an error.
    pub fn return_reason<I: Fn(usize) -> bool>(
        &self,
        fault_vaddr: usize,
        cr4: usize,
        irq: &HandlerSlot<I>,
    ) -> (reason: Result<ReturnReason, u64>)
        requires
            user_vector_class_spec(self@.vector) == UserVectorClass::Irq && irq@.len() > 0
                ==> call_requires(irq@[0], (self@.vector as usize,)),
        ensures
            reason == return_reason_spec(self@, fault_vaddr, cr4),
            user_vector_class_spec(self@.vector) == UserVectorClass::Irq ==> exists|handled: bool|
                #[trigger] irq_offered(irq@, self@.vector as usize, handled),
    {
        let tf = &self.0;
        match user_vector_class(tf.vector) {
            UserVectorClass::PageFault => match err_code_to_flags(tf.error_code) {
                Ok(access_flags) => Ok(
                    crate::trap::ReturnReason::PageFault(fault_vaddr, access_flags),
                ),
                Err(error_code) => Err(error_code),
            },
            UserVectorClass::Syscall => Ok(crate::trap::ReturnReason::Syscall),
            UserVectorClass::Irq => {
                let handled = dispatch_irq(irq, tf.vector as usize);
                assert(irq_offered(irq@, tf.vector as usize, handled));
                Ok(crate::trap::ReturnReason::Interrupt)
            },
            UserVectorClass::Exception => Ok(
                crate::trap::ReturnReason::Exception(
                    ExceptionInfo {
                        trap_vector: tf.vector,
                        rip: tf.rip,
                        error_code: tf.error_code,
                        cr4,
                    },
                ),
            ),
        }
    }
}

} // verus!
