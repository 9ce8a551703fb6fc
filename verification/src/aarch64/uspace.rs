//! Structures and functions for user space on AArch64.

use aarch64_cpu::registers::ESR_EL1;
use aarch64_cpu::registers::ESR_EL1::EC::Value;
use tock_registers::LocalRegisterCopy;
use vstd::prelude::*;

use crate::aarch64::context::TrapFrame;
use crate::aarch64::trap::TrapKind;
use crate::trap::{dispatch_irq, irq_offered, ExceptionKind, HandlerSlot, PageFaultFlags};

verus! {

/// Why the processor came back from user mode on AArch64.
pub type ReturnReason = crate::trap::ReturnReason<ExceptionInfo>;

/// The exception classes that this layer tells apart.
#[derive(Debug, Clone, Copy, PartialEq, Eq, Structural)]
pub enum ExceptionClass {
    /// `SVC` instruction execution in 64-bit state.
    Svc64,
    /// Instruction abort from a lower exception level.
    InstrAbortLowerEl,
    /// Data abort from a lower exception level.
    DataAbortLowerEl,
    /// Breakpoint from a lower exception level.
    BreakpointLowerEl,
    /// Illegal execution state.
    IllegalExecutionState,
    /// PC alignment fault.
    PcAlignmentFault,
    /// SP alignment fault.
    SpAlignmentFault,
    /// Any other class, and any value that is no class.
    Other,
}

/// The exception class field of a syndrome value: bits 26 to 31.
pub open spec fn esr_ec(esr: u64) -> u64 {
    (esr >> 26) & 0x3f
}

/// The instruction specific syndrome field of a syndrome value: bits 0 to 24.
pub open spec fn esr_iss(esr: u64) -> u64 {
    esr & 0x1ff_ffff
}

/// The exception class that a syndrome value holds, by the encoding of the
/// architecture.
pub open spec fn exception_class_spec(esr: u64) -> ExceptionClass {
    let ec = esr_ec(esr);
    if ec == 0b01_0101 {
        ExceptionClass::Svc64
    } else if ec == 0b10_0000 {
        ExceptionClass::InstrAbortLowerEl
    } else if ec == 0b10_0100 {
        ExceptionClass::DataAbortLowerEl
    } else if ec == 0b11_0000 {
        ExceptionClass::BreakpointLowerEl
    } else if ec == 0b00_1110 {
        ExceptionClass::IllegalExecutionState
    } else if ec == 0b10_0010 {
        ExceptionClass::PcAlignmentFault
    } else if ec == 0b10_0110 {
        ExceptionClass::SpAlignmentFault
    } else {
        ExceptionClass::Other
    }
}

/// The exception class of a syndrome value.
///
/// Reads the field `EC` of a copy of `ESR_EL1` with `read_as_enum` of
/// `tock_registers`, which takes bits 26 to 31 and looks for the variant of
/// `ESR_EL1::EC::Value` of `aarch64_cpu` with that number. The seven classes
/// that this layer tells apart keep their names; every other variant, and a
/// number without a variant, is `Other`.
#[verifier::external_body]
fn exception_class(esr: u64) -> (class: ExceptionClass)
    ensures
        class == exception_class_spec(esr),
{
    let esr: LocalRegisterCopy<u64, ESR_EL1::Register> = LocalRegisterCopy::new(esr);
    match esr.read_as_enum(ESR_EL1::EC) {
        Some(Value::SVC64) => ExceptionClass::Svc64,
        Some(Value::InstrAbortLowerEL) => ExceptionClass::InstrAbortLowerEl,
        Some(Value::DataAbortLowerEL) => ExceptionClass::DataAbortLowerEl,
        Some(Value::BreakpointLowerEL) => ExceptionClass::BreakpointLowerEl,
        Some(Value::IllegalExecutionState) => ExceptionClass::IllegalExecutionState,
        Some(Value::PCAlignmentFault) => ExceptionClass::PcAlignmentFault,
        Some(Value::SPAlignmentFault) => ExceptionClass::SpAlignmentFault,
        _ => ExceptionClass::Other,
    }
}

/// The instruction specific syndrome of a syndrome value.
///
/// Reads the field `ISS` of a copy of `ESR_EL1` with `read` of
/// `tock_registers`: bits 0 to 24.
#[verifier::external_body]
fn instruction_specific_syndrome(esr: u64) -> (iss: u64)
    ensures
        iss == esr_iss(esr),
{
    let esr: LocalRegisterCopy<u64, ESR_EL1::Register> = LocalRegisterCopy::new(esr);
    esr.read(ESR_EL1::ISS)
}

/// Information about an exception that occurred in user space.
#[derive(Debug, Clone, Copy, PartialEq, Eq, Structural)]
pub struct ExceptionInfo {
    /// The exception syndrome (`ESR_EL1`).
    pub esr: u64,
    /// The faulting address (`FAR_EL1`).
    pub stval: usize,
}

/// The generalized kind of an exception class.
pub open spec fn class_kind(class: ExceptionClass) -> ExceptionKind {
    match class {
        ExceptionClass::BreakpointLowerEl => ExceptionKind::Breakpoint,
        ExceptionClass::IllegalExecutionState => ExceptionKind::IllegalInstruction,
        ExceptionClass::PcAlignmentFault | ExceptionClass::SpAlignmentFault => {
            ExceptionKind::Misaligned
        },
        _ => ExceptionKind::Other,
    }
}

impl ExceptionInfo {
    /// The generalized kind of this exception, by the exception class of its
    /// syndrome.
    pub open spec fn spec_kind(&self) -> ExceptionKind {
        class_kind(exception_class_spec(self.esr))
    }

    /// Returns a generalized kind of this exception.
    #[verifier::when_used_as_spec(spec_kind)]
    pub fn kind(&self) -> (kind: ExceptionKind)
        ensures
            kind == self.spec_kind(),
    {
        match exception_class(self.esr) {
            ExceptionClass::BreakpointLowerEl => ExceptionKind::Breakpoint,
            ExceptionClass::IllegalExecutionState => ExceptionKind::IllegalInstruction,
            ExceptionClass::PcAlignmentFault | ExceptionClass::SpAlignmentFault => {
                ExceptionKind::Misaligned
            },
            _ => ExceptionKind::Other,
        }
    }
}

/// Context to enter user space.
#[derive(Debug, Clone, PartialEq, Eq)]
pub struct UserContext {
    tf: TrapFrame,
    /// Kernel stack pointer, kept by the entry code for the way back.
    sp_el1: u64,
}

impl View for UserContext {
    type V = TrapFrame;

    /// The user register frame that the context holds.
    closed spec fn view(&self) -> TrapFrame {
        self.tf
    }
}

impl UserContext {
    /// The kernel stack pointer that the entry code keeps in the context.
    pub closed spec fn spec_sp_el1(&self) -> u64 {
        self.sp_el1
    }

    /// The kernel stack pointer that the entry code keeps in the context.
    #[verifier::when_used_as_spec(spec_sp_el1)]
    pub fn sp_el1(&self) -> (sp: u64)
        ensures
            sp == self.spec_sp_el1(),
    {
        self.sp_el1
    }

    /// Whether `frame` is the frame of a fresh user context: the entry point,
    /// the user stack pointer and the argument in their registers, and every
    /// other register zero, the saved status among them.
    pub open spec fn is_new_frame(
        frame: TrapFrame,
        entry: usize,
        ustack_top: usize,
        arg0: usize,
    ) -> bool {
        &&& frame.r[0] == arg0 as u64
        &&& forall|i: int| 1 <= i < 31 ==> frame.r[i] == 0
        &&& frame.usp == ustack_top as u64
        &&& frame.tpidr == 0
        &&& frame.elr == entry as u64
        &&& frame.spsr == 0
    }

    /// Creates a new context with the given entry point, user stack pointer,
    /// and the argument.
    pub fn new(entry: usize, ustack_top: usize, arg0: usize) -> (ctx: Self)
        ensures
            Self::is_new_frame(ctx@, entry, ustack_top, arg0),
            ctx@.spec_ip() == entry,
            ctx@.spec_sp() == ustack_top,
            ctx@.spec_arg0() == arg0,
            ctx@.spsr & SPSR_MODE_MASK == 0,
            ctx.spec_sp_el1() == 0,
    {
        assert(0u64 & 0xfu64 == 0) by (bit_vector);
        let mut r = [0u64; 31];
        r[0] = arg0 as u64;
        UserContext {
            tf: TrapFrame { r, usp: ustack_top as u64, tpidr: 0, elr: entry as u64, spsr: 0 },
            sp_el1: 0,
        }
    }
}

/// A fresh user context reads back what it was made of: the instruction
/// pointer is the entry point, the stack pointer the top of the user stack
/// and the first argument the given one; every other argument, the syscall
/// number and every other general-purpose register read back zero.
pub proof fn lemma_new_frame_reads_back(
    frame: TrapFrame,
    entry: usize,
    ustack_top: usize,
    arg0: usize,
)
    requires
        UserContext::is_new_frame(frame, entry, ustack_top, arg0),
    ensures
        frame.spec_ip() == entry,
        frame.spec_sp() == ustack_top,
        frame.spec_arg0() == arg0,
        frame.spec_retval() == arg0,
        frame.spec_arg1() == 0,
        frame.spec_arg2() == 0,
        frame.spec_arg3() == 0,
        frame.spec_arg4() == 0,
        frame.spec_arg5() == 0,
        frame.spec_sysno() == 0,
        forall|i: int| 1 <= i < 31 ==> frame.r[i] == 0,
{
}

/// The mode field of the saved status: bits 0 to 3, which hold the exception
/// level and the stack pointer that the processor returns to. Zero stands for
/// the lowest level on its own stack pointer, which is user mode.
pub const SPSR_MODE_MASK: u64 = 0xf;

/// The frame of a context that mirrors `tf`: the same registers, with the
/// mode of the saved status forced to user mode.
pub open spec fn user_frame(tf: TrapFrame) -> TrapFrame {
    TrapFrame { spsr: tf.spsr & !SPSR_MODE_MASK, ..tf }
}

impl vstd::std_specs::convert::FromSpecImpl<TrapFrame> for UserContext {
    open spec fn obeys_from_spec() -> bool {
        true
    }

    closed spec fn from_spec(tf: TrapFrame) -> UserContext {
        UserContext { tf: user_frame(tf), sp_el1: 0 }
    }
}

impl From<TrapFrame> for UserContext {
    /// Creates a context from the given frame.
    ///
    /// It copies all registers; in the saved status the mode is set to user
    /// mode, and every other bit stays.
    fn from(tf: TrapFrame) -> (ctx: UserContext)
        ensures
            ctx@ == user_frame(tf),
            ctx@.spsr & SPSR_MODE_MASK == 0,
            ctx.spec_sp_el1() == 0,
    {
        let mut tf = tf;
        let spsr = tf.spsr;
        assert((spsr & !0xfu64) & 0xfu64 == 0) by (bit_vector);
        tf.spsr = spsr & !SPSR_MODE_MASK;
        UserContext { tf, sp_el1: 0 }
    }
}

impl core::ops::Deref for UserContext {
    type Target = TrapFrame;

    fn deref(&self) -> (frame: &TrapFrame)
        ensures
            *frame == self@,
    {
        &self.tf
    }
}

impl core::ops::DerefMut for UserContext {
    fn deref_mut(&mut self) -> (frame: &mut TrapFrame)
        ensures
            *frame == old(self)@,
            final(self)@ == *final(frame),
            final(self).spec_sp_el1() == old(self).spec_sp_el1(),
    {
        &mut self.tf
    }
}

/// The two kinds of abort.
#[derive(Debug, Clone, Copy, PartialEq, Eq, Structural)]
pub enum AbortKind {
    Instruction,
    Data,
}

/// An abort that is neither a translation fault nor a permission fault. This
/// layer cannot recover from it: the kernel has to report it and halt.
#[derive(Debug, Clone, Copy, PartialEq, Eq, Structural)]
pub struct FatalAbort {
    /// Whether an instruction fetch or a data access was aborted.
    pub kind: AbortKind,
    /// Whether the abort was taken from user mode.
    pub user: bool,
    /// The address of the instruction that was aborted.
    pub elr: u64,
    /// The address whose access was aborted.
    pub fault_vaddr: usize,
    /// The instruction specific syndrome of the abort.
    pub iss: u64,
    /// The kind of access that was aborted.
    pub access_flags: PageFaultFlags,
}

/// Whether a syndrome tells of a translation fault or a permission fault, at
/// any level of the translation: the fault status code, without its level,
/// is `0b0001` or `0b0011`.
pub open spec fn is_page_fault(iss: u64) -> bool {
    iss & 0b111100 == 0b0100 || iss & 0b111100 == 0b1100
}

/// The kind of access of an aborted instruction fetch.
pub open spec fn instruction_abort_flags(is_user: bool) -> PageFaultFlags {
    PageFaultFlags { read: false, write: false, execute: true, user: is_user }
}

/// The kind of access of an aborted data access: a write if the syndrome
/// says that the access wrote (bit 6) and was no cache maintenance (bit 8),
/// and a read otherwise.
pub open spec fn data_abort_flags(iss: u64, is_user: bool) -> PageFaultFlags {
    let write = iss & 0x40 != 0 && iss & 0x100 == 0;
    PageFaultFlags { read: !write, write, execute: false, user: is_user }
}

/// What an aborted instruction fetch at `fault_vaddr` is reported as.
pub open spec fn instruction_abort_spec(
    tf: TrapFrame,
    iss: u64,
    fault_vaddr: usize,
    is_user: bool,
) -> Result<ReturnReason, FatalAbort> {
    let access_flags = instruction_abort_flags(is_user);
    if is_page_fault(iss) {
        Ok(crate::trap::ReturnReason::PageFault(fault_vaddr, access_flags))
    } else {
        Err(
            FatalAbort {
                kind: AbortKind::Instruction,
                user: is_user,
                elr: tf.elr,
                fault_vaddr,
                iss,
                access_flags,
            },
        )
    }
}

/// What an aborted data access at `fault_vaddr` is reported as.
pub open spec fn data_abort_spec(
    tf: TrapFrame,
    iss: u64,
    fault_vaddr: usize,
    is_user: bool,
) -> Result<ReturnReason, FatalAbort> {
    let access_flags = data_abort_flags(iss, is_user);
    if is_page_fault(iss) {
        Ok(crate::trap::ReturnReason::PageFault(fault_vaddr, access_flags))
    } else {
        Err(
            FatalAbort {
                kind: AbortKind::Data,
                user: is_user,
                elr: tf.elr,
                fault_vaddr,
                iss,
                access_flags,
            },
        )
    }
}

/// Whether a syndrome tells of a translation fault or a permission fault.
fn syndrome_is_page_fault(iss: u64) -> (page_fault: bool)
    ensures
        page_fault == is_page_fault(iss),
{
    let status = iss & 0b111100;
    status == 0b0100 || status == 0b1100
}

/// Reports an instruction abort from a lower exception level, where
/// `fault_vaddr` is the faulting address that the processor reported.
///
/// A translation fault and a permission fault are page faults of an
/// instruction fetch. Any other abort is fatal.
pub fn handle_instruction_abort_lower(
    tf: &TrapFrame,
    iss: u64,
    fault_vaddr: usize,
    is_user: bool,
) -> (reason: Result<ReturnReason, FatalAbort>)
    ensures
        reason == instruction_abort_spec(*tf, iss, fault_vaddr, is_user),
{
    let mut access_flags = PageFaultFlags::empty();
    access_flags.execute = true;
    if is_user {
        access_flags.user = true;
    }
    if !syndrome_is_page_fault(iss) {
        Err(
            FatalAbort {
                kind: AbortKind::Instruction,
                user: is_user,
                elr: tf.elr,
                fault_vaddr,
                iss,
                access_flags,
            },
        )
    } else {
        Ok(crate::trap::ReturnReason::PageFault(fault_vaddr, access_flags))
    }
}

/// Reports a data abort from a lower exception level, where `fault_vaddr` is
/// the faulting address that the processor reported.
///
/// A translation fault and a permission fault are page faults of a write or
/// of a read. Any other abort is fatal.
pub fn handle_data_abort_lower(tf: &TrapFrame, iss: u64, fault_vaddr: usize, is_user: bool) -> (reason:
    Result<ReturnReason, FatalAbort>)
    ensures
        reason == data_abort_spec(*tf, iss, fault_vaddr, is_user),
{
    let wnr = (iss & 0x40) != 0;
    let cm = (iss & 0x100) != 0;
    let mut access_flags = PageFaultFlags::empty();
    if wnr && !cm {
        access_flags.write = true;
    } else {
        access_flags.read = true;
    }
    if is_user {
        access_flags.user = true;
    }
    if !syndrome_is_page_fault(iss) {
        Err(
            FatalAbort {
                kind: AbortKind::Data,
                user: is_user,
                elr: tf.elr,
                fault_vaddr,
                iss,
                access_flags,
            },
        )
    } else {
        Ok(crate::trap::ReturnReason::PageFault(fault_vaddr, access_flags))
    }
}

/// Why the processor came back from user space with frame `tf`: by the kind
/// of the trap and, for a synchronous one, by the exception class of the
/// syndrome `esr`. `far` is the faulting address that the processor reported.
pub open spec fn return_reason_spec(tf: TrapFrame, kind: TrapKind, esr: u64, far: usize) -> Result<
    ReturnReason,
    FatalAbort,
> {
    if kind == TrapKind::Irq {
        Ok(crate::trap::ReturnReason::Interrupt)
    } else {
        match exception_class_spec(esr) {
            ExceptionClass::Svc64 => Ok(crate::trap::ReturnReason::Syscall),
            ExceptionClass::InstrAbortLowerEl => instruction_abort_spec(
                tf,
                esr_iss(esr),
                far,
                true,
            ),
            ExceptionClass::DataAbortLowerEl => data_abort_spec(tf, esr_iss(esr), far, true),
            ExceptionClass::BreakpointLowerEl
            | ExceptionClass::IllegalExecutionState
            | ExceptionClass::PcAlignmentFault
            | ExceptionClass::SpAlignmentFault => Ok(
                crate::trap::ReturnReason::Exception(ExceptionInfo { esr, stval: far }),
            ),
            ExceptionClass::Other => Ok(crate::trap::ReturnReason::Unknown),
        }
    }
}

/// The reasons by cause, for a trap that is no interrupt: a system call
/// instruction is a system call; a data abort that is a translation or
/// permission fault is a page fault of a user write if the access wrote and
/// was no cache maintenance, and of a user read otherwise; such an
/// instruction abort is a page fault of a user instruction fetch; a
/// breakpoint is an exception whose kind is a breakpoint.
pub proof fn lemma_return_reason_by_cause(tf: TrapFrame, kind: TrapKind, esr: u64, far: usize)
    requires
        kind != TrapKind::Irq,
    ensures
        ({
            let class = exception_class_spec(esr);
            let iss = esr_iss(esr);
            let reason = return_reason_spec(tf, kind, esr, far);
            &&& class == ExceptionClass::Svc64 ==> reason == Ok::<ReturnReason, FatalAbort>(
                crate::trap::ReturnReason::Syscall,
            )
            &&& class == ExceptionClass::DataAbortLowerEl && is_page_fault(iss) && iss & 0x40 != 0
                && iss & 0x100 == 0 ==> reason == Ok::<ReturnReason, FatalAbort>(
                crate::trap::ReturnReason::PageFault(
                    far,
                    PageFaultFlags { read: false, write: true, execute: false, user: true },
                ),
            )
            &&& class == ExceptionClass::DataAbortLowerEl && is_page_fault(iss) && !(iss & 0x40 != 0
                && iss & 0x100 == 0) ==> reason == Ok::<ReturnReason, FatalAbort>(
                crate::trap::ReturnReason::PageFault(
                    far,
                    PageFaultFlags { read: true, write: false, execute: false, user: true },
                ),
            )
            &&& class == ExceptionClass::InstrAbortLowerEl && is_page_fault(iss) ==> reason == Ok::<
                ReturnReason,
                FatalAbort,
            >(
                crate::trap::ReturnReason::PageFault(
                    far,
                    PageFaultFlags { read: false, write: false, execute: true, user: true },
                ),
            )
            &&& class == ExceptionClass::BreakpointLowerEl ==> reason == Ok::<
                ReturnReason,
                FatalAbort,
            >(crate::trap::ReturnReason::Exception(ExceptionInfo { esr, stval: far }))
                && (ExceptionInfo { esr, stval: far }).spec_kind() == ExceptionKind::Breakpoint
            &&& (class == ExceptionClass::DataAbortLowerEl || class
                == ExceptionClass::InstrAbortLowerEl) && !is_page_fault(iss) ==> reason is Err
        }),
{
}

impl UserContext {
    /// Says why the processor came back from user space, once the entry code
    /// has stored the user registers in this context.
    ///
    /// `kind` is the kind of trap that the entry code saw, `esr` the
    /// exception syndrome and `far` the faulting address that the processor
    /// reported. An interrupt, and no other trap, is offered to the interrupt
    /// handlers, with the number 0, before it is reported. An abort that is neither a
    /// translation fault nor a permission fault is an error: the kernel has
    /// to report it and halt.
    pub fn return_reason<I: Fn(usize) -> bool>(
        &self,
        kind: TrapKind,
        esr: u64,
        far: usize,
        irq: &HandlerSlot<I>,
    ) -> (reason: Result<ReturnReason, FatalAbort>)
        requires
            kind == TrapKind::Irq && irq@.len() > 0 ==> call_requires(irq@[0], (0usize,)),
        ensures
            reason == return_reason_spec(self@, kind, esr, far),
            kind == TrapKind::Irq ==> exists|handled: bool| #[trigger]
                irq_offered(irq@, 0usize, handled),
    {
        if kind == TrapKind::Irq {
            let handled = dispatch_irq(irq, 0);
            assert(irq_offered(irq@, 0usize, handled));
            return Ok(crate::trap::ReturnReason::Interrupt);
        }
        let iss = instruction_specific_syndrome(esr);
        match exception_class(esr) {
            ExceptionClass::Svc64 => Ok(crate::trap::ReturnReason::Syscall),
            ExceptionClass::InstrAbortLowerEl => handle_instruction_abort_lower(
                &self.tf,
                iss,
                far,
                true,
            ),
            ExceptionClass::BreakpointLowerEl
            | ExceptionClass::IllegalExecutionState
            | ExceptionClass::PcAlignmentFault
            | ExceptionClass::SpAlignmentFault => Ok(
                crate::trap::ReturnReason::Exception(ExceptionInfo { esr, stval: far }),
            ),
            ExceptionClass::DataAbortLowerEl => handle_data_abort_lower(&self.tf, iss, far, true),
            ExceptionClass::Other => Ok(crate::trap::ReturnReason::Unknown),
        }
    }
}

} // verus!
