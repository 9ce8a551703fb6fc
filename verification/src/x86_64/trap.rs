//! The trap dispatcher of x86_64: vectors, page fault error codes and the
//! policy for traps taken in kernel mode.

use vstd::prelude::*;
use x86::irq::EXCEPTIONS;
use x86_64::structures::idt::PageFaultErrorCode;

use crate::trap::{
    dispatch_irq, dispatch_page_fault, fixes_to, has_fixup, irq_offered, ExceptionTable,
    ExceptionTableEntry, HandlerSlot, PageFaultFlags,
};
use crate::x86_64::context::TrapFrame;

verus! {

/// Vector of the debug exception (`#DB`).
pub const DEBUG_VECTOR: u8 = 1;

/// Vector of the breakpoint exception (`#BP`).
pub const BREAKPOINT_VECTOR: u8 = 3;

/// Vector of the invalid opcode exception (`#UD`).
pub const INVALID_OPCODE_VECTOR: u8 = 6;

/// Vector of the general protection fault (`#GP`).
pub const GENERAL_PROTECTION_FAULT_VECTOR: u8 = 13;

/// Vector of the page fault (`#PF`).
pub const PAGE_FAULT_VECTOR: u8 = 14;

/// Vector of the legacy system call (`int 0x80`).
pub const LEGACY_SYSCALL_VECTOR: u8 = 0x80;

/// First vector of the hardware interrupts.
pub const IRQ_VECTOR_START: u8 = 0x20;

/// Last vector of the hardware interrupts.
pub const IRQ_VECTOR_END: u8 = 0xff;

/// Error code bit: the fault was a protection violation, not a missing page.
pub const PROTECTION_VIOLATION: u64 = 0x1;

/// Error code bit: the access was a write.
pub const CAUSED_BY_WRITE: u64 = 0x2;

/// Error code bit: the access was made in user mode.
pub const USER_MODE: u64 = 0x4;

/// Error code bit: the access was an instruction fetch.
pub const INSTRUCTION_FETCH: u64 = 0x10;

/// The error code bits that have a meaning: bits 0 to 7, 15 and 31.
pub const KNOWN_ERROR_BITS: u64 = 0x8000_80ff;

/// The bits with a meaning that a page fault which this layer serves never
/// sets: every known bit but the four above.
pub const RESERVED_ERROR_BITS: u64 = 0x8000_80e8;

/// The error code bits with a meaning that are not among `flags`.
///
/// Calls `complement` of `PageFaultErrorCode` of `x86_64`, on the flags made
/// of `flags` by `from_bits_truncate`, and hands its bits back: every flag of
/// the type, which are bits 0 to 7, 15 and 31, that is not set in `flags`.
#[verifier::external_body]
fn complement_bits(flags: u64) -> (rest: u64)
    ensures
        rest == !flags & KNOWN_ERROR_BITS,
{
    PageFaultErrorCode::from_bits_truncate(flags).complement().bits()
}

/// The kind of access that a page fault error code stands for, or the error
/// code itself where it has a reserved bit set.
///
/// A fault is a write or else a read, by `CAUSED_BY_WRITE`; it is a user
/// access by `USER_MODE` and an instruction fetch by `INSTRUCTION_FETCH`.
/// Bits without a meaning are passed over.
pub open spec fn err_code_to_flags_spec(err_code: u64) -> Result<PageFaultFlags, u64> {
    if err_code & RESERVED_ERROR_BITS != 0 {
        Err(err_code)
    } else {
        Ok(
            PageFaultFlags {
                read: err_code & CAUSED_BY_WRITE == 0,
                write: err_code & CAUSED_BY_WRITE != 0,
                execute: err_code & INSTRUCTION_FETCH != 0,
                user: err_code & USER_MODE != 0,
            },
        )
    }
}

/// Decodes a page fault error code into the kind of access that faulted.
pub fn err_code_to_flags(err_code: u64) -> (flags: Result<PageFaultFlags, u64>)
    ensures
        flags == err_code_to_flags_spec(err_code),
{
    let served = CAUSED_BY_WRITE | USER_MODE | INSTRUCTION_FETCH | PROTECTION_VIOLATION;
    let reserved_bits = complement_bits(served);
    proof {
        assert(!(0x2u64 | 0x4u64 | 0x10u64 | 0x1u64) & 0x8000_80ffu64 == 0x8000_80e8u64)
            by (bit_vector);
    }
    if err_code & reserved_bits != 0 {
        Err(err_code)
    } else {
        let mut flags = PageFaultFlags::empty();
        if err_code & CAUSED_BY_WRITE != 0 {
            flags.write = true;
        } else {
            flags.read = true;
        }
        if err_code & USER_MODE != 0 {
            flags.user = true;
        }
        if err_code & INSTRUCTION_FETCH != 0 {
            flags.execute = true;
        }
        Ok(flags)
    }
}

/// The mnemonic that `x86` lists for the exception with vector `vec`, for
/// the thirty-two vectors that the architecture reserves for exceptions.
pub uninterp spec fn exception_mnemonic(vec: u64) -> Seq<char>;

/// The mnemonic of an exception vector.
///
/// Reads `mnemonic` of the entry at index `vec` of `x86::irq::EXCEPTIONS`, a
/// table of thirty-two entries.
#[verifier::external_body]
fn mnemonic_of_exception(vec: u64) -> (mnemonic: &'static str)
    requires
        vec < 32,
    ensures
        mnemonic@ == exception_mnemonic(vec),
{
    EXCEPTIONS[vec as usize].mnemonic
}

/// The name to print for a vector: its mnemonic for an exception vector,
/// `Unknown` for any other.
pub fn vec_to_str(vec: u64) -> (name: &'static str)
    ensures
        vec < 32 ==> name@ == exception_mnemonic(vec),
        vec >= 32 ==> name@ == "Unknown"@,
{
    if vec < 32 {
        mnemonic_of_exception(vec)
    } else {
        "Unknown"
    }
}

/// The classes of vectors that the dispatcher tells apart.
#[derive(Debug, Clone, Copy, PartialEq, Eq, Structural)]
pub enum VectorClass {
    PageFault,
    Debug,
    Breakpoint,
    GeneralProtection,
    /// A hardware interrupt: a vector from `IRQ_VECTOR_START` to
    /// `IRQ_VECTOR_END` that is none of the above.
    Irq,
    /// An exception that this layer does not serve.
    Unhandled,
}

/// The class of a vector. Only the low eight bits of the saved vector count.
pub open spec fn vector_class_spec(vector: u64) -> VectorClass {
    let v = vector as u8;
    if v == PAGE_FAULT_VECTOR {
        VectorClass::PageFault
    } else if v == DEBUG_VECTOR {
        VectorClass::Debug
    } else if v == BREAKPOINT_VECTOR {
        VectorClass::Breakpoint
    } else if v == GENERAL_PROTECTION_FAULT_VECTOR {
        VectorClass::GeneralProtection
    } else if IRQ_VECTOR_START <= v && v <= IRQ_VECTOR_END {
        VectorClass::Irq
    } else {
        VectorClass::Unhandled
    }
}

/// Classifies a vector for the dispatcher.
#[verifier::when_used_as_spec(vector_class_spec)]
pub fn vector_class(vector: u64) -> (class: VectorClass)
    ensures
        class == vector_class_spec(vector),
{
    let v = #[verifier::truncate] (vector as u8);
    if v == PAGE_FAULT_VECTOR {
        VectorClass::PageFault
    } else if v == DEBUG_VECTOR {
        VectorClass::Debug
    } else if v == BREAKPOINT_VECTOR {
        VectorClass::Breakpoint
    } else if v == GENERAL_PROTECTION_FAULT_VECTOR {
        VectorClass::GeneralProtection
    } else if IRQ_VECTOR_START <= v && v <= IRQ_VECTOR_END {
        VectorClass::Irq
    } else {
        VectorClass::Unhandled
    }
}

/// Why a trap taken in kernel mode cannot be resumed, with what the report
/// of it has to show.
#[derive(Debug, Clone, Copy, PartialEq, Eq)]
pub enum FatalTrap {
    /// A page fault whose error code has a reserved bit set.
    InvalidPageFaultErrorCode { error_code: u64 },
    /// A page fault that no handler took and that the fixup table does not
    /// know.
    UnhandledPageFault { rip: u64, fault_vaddr: usize, error_code: u64, access_flags: PageFaultFlags },
    /// A general protection fault.
    GeneralProtection { rip: u64, error_code: u64 },
    /// Any exception that this layer does not serve.
    UnhandledException { vector: u64, mnemonic: &'static str, error_code: u64, rip: u64 },
}

/// How the dispatcher leaves a trap taken in kernel mode.
#[derive(Debug, Clone, Copy, PartialEq, Eq)]
pub enum TrapOutcome {
    /// The interrupted code goes on, with the frame as the dispatcher left it.
    Resume,
    /// The kernel has to report the trap and halt.
    Fatal(FatalTrap),
}

/// How a page fault in kernel mode ends once the verdict of the page fault
/// handlers is known: a handled fault resumes; an unhandled one resumes at
/// the recovery address if the fixup table knows the faulting instruction,
/// and is fatal otherwise.
pub open spec fn page_fault_resolved(
    before: TrapFrame,
    after: TrapFrame,
    handled: bool,
    fault_vaddr: usize,
    access_flags: PageFaultFlags,
    table: Seq<ExceptionTableEntry>,
    outcome: TrapOutcome,
) -> bool {
    if handled {
        outcome == TrapOutcome::Resume && after == before
    } else if has_fixup(table, before.spec_ip()) {
        &&& outcome == TrapOutcome::Resume
        &&& fixes_to(table, before.spec_ip(), after.spec_ip())
        &&& after == (TrapFrame { rip: after.rip, ..before })
    } else {
        &&& outcome == TrapOutcome::Fatal(
            FatalTrap::UnhandledPageFault {
                rip: before.rip,
                fault_vaddr,
                error_code: before.error_code,
                access_flags,
            },
        )
        &&& after == before
    }
}

/// Ends a page fault taken in kernel mode, given the verdict of the page
/// fault handlers.
pub fn resolve_page_fault(
    tf: &mut TrapFrame,
    handled: bool,
    fault_vaddr: usize,
    access_flags: PageFaultFlags,
    table: &ExceptionTable,
) -> (outcome: TrapOutcome)
    ensures
        page_fault_resolved(
            *old(tf),
            *final(tf),
            handled,
            fault_vaddr,
            access_flags,
            table@,
            outcome,
        ),
{
    if handled {
        return TrapOutcome::Resume;
    }
    if tf.fixup_exception(table) {
        return TrapOutcome::Resume;
    }
    TrapOutcome::Fatal(
        FatalTrap::UnhandledPageFault {
            rip: tf.rip,
            fault_vaddr,
            error_code: tf.error_code,
            access_flags,
        },
    )
}

/// What the page fault handlers can have said of a fault: with no handler
/// registered the fault is not handled, else the verdict is the first
/// handler's.
pub open spec fn page_fault_offered<P: Fn(usize, PageFaultFlags) -> bool>(
    handlers: Seq<P>,
    fault_vaddr: usize,
    access_flags: PageFaultFlags,
    handled: bool,
) -> bool {
    if handlers.len() == 0 {
        !handled
    } else {
        call_ensures(handlers[0], (fault_vaddr, access_flags), handled)
    }
}

/// How the dispatcher serves a page fault taken in kernel mode at
/// `fault_vaddr`.
pub open spec fn page_fault_served<P: Fn(usize, PageFaultFlags) -> bool>(
    before: TrapFrame,
    after: TrapFrame,
    fault_vaddr: usize,
    handlers: Seq<P>,
    table: Seq<ExceptionTableEntry>,
    outcome: TrapOutcome,
) -> bool {
    match err_code_to_flags_spec(before.error_code) {
        Err(error_code) => {
            &&& outcome == TrapOutcome::Fatal(FatalTrap::InvalidPageFaultErrorCode { error_code })
            &&& after == before
        },
        Ok(access_flags) => exists|handled: bool|
            {
                &&& #[trigger] page_fault_offered(handlers, fault_vaddr, access_flags, handled)
                &&& page_fault_resolved(
                    before,
                    after,
                    handled,
                    fault_vaddr,
                    access_flags,
                    table,
                    outcome,
                )
            },
    }
}

/// Serves a page fault taken in kernel mode at `fault_vaddr`, the address
/// that the processor reported.
///
/// The fault is first offered to the page fault handlers. If none takes it,
/// the fixup table is asked; if that does not know the faulting instruction
/// either, the fault is fatal. An error code with a reserved bit set is fatal
/// at once.
pub fn handle_page_fault<P: Fn(usize, PageFaultFlags) -> bool>(
    tf: &mut TrapFrame,
    fault_vaddr: usize,
    handlers: &HandlerSlot<P>,
    table: &ExceptionTable,
) -> (outcome: TrapOutcome)
    requires
        handlers@.len() > 0 ==> (err_code_to_flags_spec(old(tf).error_code) matches Ok(
            access_flags,
        ) ==> call_requires(handlers@[0], (fault_vaddr, access_flags))),
    ensures
        page_fault_served(*old(tf), *final(tf), fault_vaddr, handlers@, table@, outcome),
        handlers@.len() == 0 && !has_fixup(table@, old(tf).spec_ip()) ==> outcome is Fatal,
{
    match err_code_to_flags(tf.error_code) {
        Err(error_code) => TrapOutcome::Fatal(
            FatalTrap::InvalidPageFaultErrorCode { error_code },
        ),
        Ok(access_flags) => {
            let handled = dispatch_page_fault(handlers, fault_vaddr, access_flags);
            assert(page_fault_offered(handlers@, fault_vaddr, access_flags, handled));
            resolve_page_fault(tf, handled, fault_vaddr, access_flags, table)
        },
    }
}

/// The handlers that the dispatcher offers traps to, one slot per category.
///
/// An interrupt handler takes the vector. A page fault handler takes the
/// faulting address and the kind of access. A breakpoint handler takes the
/// frame and a code, a debug handler the frame; each answers with the frame
/// to resume with if it handled the trap, and with `None` if it did not.
pub struct TrapHandlers<I, P, B, D> {
    pub irq: HandlerSlot<I>,
    pub page_fault: HandlerSlot<P>,
    pub breakpoint: HandlerSlot<B>,
    pub debug: HandlerSlot<D>,
}

impl<I, P, B, D> TrapHandlers<I, P, B, D> {
    /// A registry without handlers.
    pub fn new() -> (handlers: Self)
        ensures
            handlers.irq@.len() == 0,
            handlers.page_fault@.len() == 0,
            handlers.breakpoint@.len() == 0,
            handlers.debug@.len() == 0,
    {
        TrapHandlers {
            irq: HandlerSlot::new(),
            page_fault: HandlerSlot::new(),
            breakpoint: HandlerSlot::new(),
            debug: HandlerSlot::new(),
        }
    }
}

/// How a breakpoint is served: with no handler registered nothing happens;
/// else the first handler is asked, and the frame becomes the one it answers
/// with, if it answers with one.
pub open spec fn breakpoint_served<B: Fn(&TrapFrame, usize) -> Option<TrapFrame>>(
    before: TrapFrame,
    after: TrapFrame,
    handlers: Seq<B>,
    handled: bool,
) -> bool {
    if handlers.len() == 0 {
        !handled && after == before
    } else {
        exists|answer: Option<TrapFrame>|
            {
                &&& #[trigger] call_ensures(handlers[0], (&before, 0usize), answer)
                &&& handled == answer.is_some()
                &&& after == (match answer {
                    Some(frame) => frame,
                    None => before,
                })
            }
    }
}

/// Serves a breakpoint: offers it to the breakpoint handlers. Whether or not
/// one handles it, the interrupted code goes on.
pub fn handle_breakpoint<B: Fn(&TrapFrame, usize) -> Option<TrapFrame>>(
    tf: &mut TrapFrame,
    handlers: &HandlerSlot<B>,
) -> (handled: bool)
    requires
        handlers@.len() > 0 ==> call_requires(handlers@[0], (&*old(tf), 0usize)),
    ensures
        breakpoint_served(*old(tf), *final(tf), handlers@, handled),
{
    match handlers.first() {
        Some(handler) => {
            let answer = handler(&*tf, 0);
            match answer {
                Some(frame) => {
                    *tf = frame;
                    true
                },
                None => false,
            }
        },
        None => false,
    }
}

/// How a debug exception is served: with no handler registered nothing
/// happens; else the first handler is asked, and the frame becomes the one it
/// answers with, if it answers with one.
pub open spec fn debug_served<D: Fn(&TrapFrame) -> Option<TrapFrame>>(
    before: TrapFrame,
    after: TrapFrame,
    handlers: Seq<D>,
    handled: bool,
) -> bool {
    if handlers.len() == 0 {
        !handled && after == before
    } else {
        exists|answer: Option<TrapFrame>|
            {
                &&& #[trigger] call_ensures(handlers[0], (&before,), answer)
                &&& handled == answer.is_some()
                &&& after == (match answer {
                    Some(frame) => frame,
                    None => before,
                })
            }
    }
}

/// Serves a debug exception: offers it to the debug handlers. Whether or not
/// one handles it, the interrupted code goes on.
pub fn handle_debug<D: Fn(&TrapFrame) -> Option<TrapFrame>>(
    tf: &mut TrapFrame,
    handlers: &HandlerSlot<D>,
) -> (handled: bool)
    requires
        handlers@.len() > 0 ==> call_requires(handlers@[0], (&*old(tf),)),
    ensures
        debug_served(*old(tf), *final(tf), handlers@, handled),
{
    match handlers.first() {
        Some(handler) => {
            let answer = handler(&*tf);
            match answer {
                Some(frame) => {
                    *tf = frame;
                    true
                },
                None => false,
            }
        },
        None => false,
    }
}

/// The name to print for a vector, as a sequence of characters.
pub open spec fn vector_name(vec: u64) -> Seq<char> {
    if vec < 32 {
        exception_mnemonic(vec)
    } else {
        "Unknown"@
    }
}

/// Whether the handler that a trap with frame `tf` is offered to can be
/// called with what the dispatcher hands it. Only the category of the trap's
/// own class is asked, and a page fault handler only for the kind of access
/// that the error code stands for.
pub open spec fn handlers_accept<
    I: Fn(usize) -> bool,
    P: Fn(usize, PageFaultFlags) -> bool,
    B: Fn(&TrapFrame, usize) -> Option<TrapFrame>,
    D: Fn(&TrapFrame) -> Option<TrapFrame>,
>(tf: TrapFrame, fault_vaddr: usize, handlers: &TrapHandlers<I, P, B, D>) -> bool {
    match vector_class_spec(tf.vector) {
        VectorClass::PageFault => handlers.page_fault@.len() > 0 ==> (err_code_to_flags_spec(
            tf.error_code,
        ) matches Ok(access_flags) ==> call_requires(
            handlers.page_fault@[0],
            (fault_vaddr, access_flags),
        )),
        VectorClass::Debug => handlers.debug@.len() > 0 ==> call_requires(
            handlers.debug@[0],
            (&tf,),
        ),
        VectorClass::Breakpoint => handlers.breakpoint@.len() > 0 ==> call_requires(
            handlers.breakpoint@[0],
            (&tf, 0usize),
        ),
        VectorClass::Irq => handlers.irq@.len() > 0 ==> call_requires(
            handlers.irq@[0],
            (tf.vector as usize,),
        ),
        VectorClass::GeneralProtection | VectorClass::Unhandled => true,
    }
}

/// How the dispatcher serves a trap taken in kernel mode, by the class of
/// its vector.
pub open spec fn trap_served<
    I: Fn(usize) -> bool,
    P: Fn(usize, PageFaultFlags) -> bool,
    B: Fn(&TrapFrame, usize) -> Option<TrapFrame>,
    D: Fn(&TrapFrame) -> Option<TrapFrame>,
>(
    before: TrapFrame,
    after: TrapFrame,
    fault_vaddr: usize,
    handlers: &TrapHandlers<I, P, B, D>,
    table: Seq<ExceptionTableEntry>,
    outcome: TrapOutcome,
) -> bool {
    match vector_class_spec(before.vector) {
        VectorClass::PageFault => page_fault_served(
            before,
            after,
            fault_vaddr,
            handlers.page_fault@,
            table,
            outcome,
        ),
        VectorClass::Debug => {
            &&& outcome == TrapOutcome::Resume
            &&& exists|handled: bool| #[trigger] debug_served(before, after, handlers.debug@, handled)
        },
        VectorClass::Breakpoint => {
            &&& outcome == TrapOutcome::Resume
            &&& exists|handled: bool| #[trigger]
                breakpoint_served(before, after, handlers.breakpoint@, handled)
        },
        VectorClass::GeneralProtection => {
            &&& outcome == TrapOutcome::Fatal(
                FatalTrap::GeneralProtection { rip: before.rip, error_code: before.error_code },
            )
            &&& after == before
        },
        VectorClass::Irq => {
            &&& outcome == TrapOutcome::Resume
            &&& after == before
            &&& exists|handled: bool| #[trigger]
                irq_offered(handlers.irq@, before.vector as usize, handled)
        },
        VectorClass::Unhandled => {
            &&& after == before
            &&& outcome matches TrapOutcome::Fatal(
                FatalTrap::UnhandledException { vector, mnemonic, error_code, rip },
            )
            &&& vector == before.vector
            &&& mnemonic@ == vector_name(before.vector)
            &&& error_code == before.error_code
            &&& rip == before.rip
        },
    }
}

/// Serves a trap taken in kernel mode. `fault_vaddr` is the address that the
/// processor reported for the last page fault; it is looked at for a page
/// fault only.
///
/// A page fault goes to [`handle_page_fault`]. A debug exception and a
/// breakpoint are offered to their handlers and resume in any case. A
/// general protection fault is fatal and offered to nobody. A hardware
/// interrupt is forwarded to the interrupt handlers with its vector and
/// resumes whatever they say. Any other vector is fatal.
pub fn x86_trap_handler<
    I: Fn(usize) -> bool,
    P: Fn(usize, PageFaultFlags) -> bool,
    B: Fn(&TrapFrame, usize) -> Option<TrapFrame>,
    D: Fn(&TrapFrame) -> Option<TrapFrame>,
>(
    tf: &mut TrapFrame,
    fault_vaddr: usize,
    handlers: &TrapHandlers<I, P, B, D>,
    table: &ExceptionTable,
) -> (outcome: TrapOutcome)
    requires
        handlers_accept(*old(tf), fault_vaddr, handlers),
    ensures
        trap_served(*old(tf), *final(tf), fault_vaddr, handlers, table@, outcome),
        vector_class_spec(old(tf).vector) == VectorClass::PageFault && handlers.page_fault@.len()
            == 0 && !has_fixup(table@, old(tf).spec_ip()) ==> outcome is Fatal,
{
    match vector_class(tf.vector) {
        VectorClass::PageFault => handle_page_fault(tf, fault_vaddr, &handlers.page_fault, table),
        VectorClass::Debug => {
            let ghost before = *tf;
            let handled = handle_debug(tf, &handlers.debug);
            assert(debug_served(before, *tf, handlers.debug@, handled));
            TrapOutcome::Resume
        },
        VectorClass::Breakpoint => {
            let ghost before = *tf;
            let handled = handle_breakpoint(tf, &handlers.breakpoint);
            assert(breakpoint_served(before, *tf, handlers.breakpoint@, handled));
            TrapOutcome::Resume
        },
        VectorClass::GeneralProtection => TrapOutcome::Fatal(
            FatalTrap::GeneralProtection { rip: tf.rip, error_code: tf.error_code },
        ),
        VectorClass::Irq => {
            let handled = dispatch_irq(&handlers.irq, tf.vector as usize);
            assert(irq_offered(handlers.irq@, tf.vector as usize, handled));
            TrapOutcome::Resume
        },
        VectorClass::Unhandled => TrapOutcome::Fatal(
            FatalTrap::UnhandledException {
                vector: tf.vector,
                mnemonic: vec_to_str(tf.vector),
                error_code: tf.error_code,
                rip: tf.rip,
            },
        ),
    }
}

} // verus!
