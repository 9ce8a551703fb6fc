use std::cell::Cell;

use aarch64_cpu::registers::{ESR_EL1, SPSR_EL1};
use axcpu::aarch64::context::TrapFrame;
use axcpu::aarch64::trap::TrapKind;
use axcpu::aarch64::uspace::{
    handle_data_abort_lower, handle_instruction_abort_lower, AbortKind, ExceptionInfo, FatalAbort,
    UserContext, SPSR_MODE_MASK,
};
use axcpu::trap::{ExceptionKind, HandlerSlot, PageFaultFlags, ReturnReason};

fn no_irq_handlers() -> HandlerSlot<fn(usize) -> bool> {
    HandlerSlot::new()
}

fn flags(read: bool, write: bool, execute: bool, user: bool) -> PageFaultFlags {
    PageFaultFlags { read, write, execute, user }
}

/// A syndrome of class `ec` with instruction specific syndrome `iss`.
fn esr(ec: u64, iss: u64) -> u64 {
    (ec << 26) | (1 << 25) | iss
}

fn class_number(value: ESR_EL1::EC::Value) -> u64 {
    value as u64
}

fn info(esr: u64) -> ExceptionInfo {
    ExceptionInfo { esr, stval: 0 }
}

const WNR: u64 = 1 << 6;
const CM: u64 = 1 << 8;
const TRANSLATION_FAULT_L3: u64 = 0b000111;
const PERMISSION_FAULT_L2: u64 = 0b001110;
const ACCESS_FLAG_FAULT_L1: u64 = 0b001001;
const ALIGNMENT_FAULT: u64 = 0b100001;

#[test]
fn default_aarch64_frame_is_zero() {
    let frame = TrapFrame::default();
    assert_eq!(frame.r, [0u64; 31]);
    assert_eq!(frame.usp, 0);
    assert_eq!(frame.tpidr, 0);
    assert_eq!(frame.elr, 0);
    assert_eq!(frame.spsr, 0);
}

#[test]
fn frame_accessors_use_the_calling_convention() {
    let mut frame = TrapFrame::default();
    for i in 0usize..31 {
        frame.r[i] = 100 + i as u64;
    }
    frame.elr = 0x1000;
    frame.usp = 0x2000;
    assert_eq!(frame.arg0(), 100);
    assert_eq!(frame.arg1(), 101);
    assert_eq!(frame.arg2(), 102);
    assert_eq!(frame.arg3(), 103);
    assert_eq!(frame.arg4(), 104);
    assert_eq!(frame.arg5(), 105);
    assert_eq!(frame.sysno(), 108);
    assert_eq!(frame.retval(), 100);
    assert_eq!(frame.ip(), 0x1000);
    assert_eq!(frame.sp(), 0x2000);

    let before = frame;
    frame.set_arg0(1);
    frame.set_arg1(2);
    frame.set_arg2(3);
    frame.set_arg3(4);
    frame.set_arg4(5);
    frame.set_arg5(6);
    frame.set_sysno(7);
    frame.set_ip(8);
    frame.set_sp(9);
    let mut expected = before;
    expected.r[0] = 1;
    expected.r[1] = 2;
    expected.r[2] = 3;
    expected.r[3] = 4;
    expected.r[4] = 5;
    expected.r[5] = 6;
    expected.r[8] = 7;
    expected.elr = 8;
    expected.usp = 9;
    assert_eq!(frame, expected);
    frame.set_retval(10);
    expected.r[0] = 10;
    assert_eq!(frame, expected);
    let _backtrace = frame.backtrace();
}

#[test]
fn aarch64_backtrace_seeds_are_frame_pointer_instruction_pointer_and_link_register() {
    let mut frame = TrapFrame::default();
    frame.r[28] = 1;
    frame.r[29] = 0xffff_0000_4000_0f00;
    frame.r[30] = 0xffff_0000_4010_0008;
    frame.elr = 0xffff_0000_4010_1234;
    frame.usp = 2;
    assert_eq!(
        frame.backtrace_seeds(),
        (0xffff_0000_4000_0f00, 0xffff_0000_4010_1234, 0xffff_0000_4010_0008)
    );
}

#[test]
fn new_aarch64_context_reads_back_entry_stack_and_argument() {
    let ctx = UserContext::new(0x40_0000, 0x7fff_f000, 42);
    assert_eq!(ctx.ip(), 0x40_0000);
    assert_eq!(ctx.sp(), 0x7fff_f000);
    assert_eq!(ctx.arg0(), 42);
    assert_eq!(ctx.arg1(), 0);
    assert_eq!(ctx.arg2(), 0);
    assert_eq!(ctx.arg3(), 0);
    assert_eq!(ctx.arg4(), 0);
    assert_eq!(ctx.arg5(), 0);
    assert_eq!(ctx.sysno(), 0);
    let mut r = [0u64; 31];
    r[0] = 42;
    assert_eq!(*ctx, TrapFrame { r, usp: 0x7fff_f000, tpidr: 0, elr: 0x40_0000, spsr: 0 });
    assert_eq!(ctx.sp_el1(), 0);
}

#[test]
fn context_from_a_user_frame_keeps_the_frame() {
    let mut frame = TrapFrame::default();
    frame.r[3] = 7;
    frame.elr = 0x1000;
    frame.usp = 0x2000;
    frame.tpidr = 0x3000;
    frame.spsr = 0x8000_03c0;
    let mut ctx = UserContext::from(frame);
    assert_eq!(*ctx, frame);
    assert_eq!(ctx.sp_el1(), 0);
    ctx.set_retval(5);
    assert_eq!(ctx.retval(), 5);
    assert_eq!(ctx.r[3], 7);
}

#[test]
fn context_from_a_kernel_frame_is_forced_to_user_mode() {
    let mut frame = TrapFrame::default();
    frame.r[30] = 9;
    frame.elr = 0xffff_0000_4000_1000;
    frame.spsr = 0x6000_03c5;
    let ctx = UserContext::from(frame);
    assert_eq!(*ctx, TrapFrame { spsr: 0x6000_03c0, ..frame });
    frame.spsr = 0x4;
    assert_eq!(UserContext::from(frame).spsr, 0);
    frame.spsr = u64::MAX;
    assert_eq!(UserContext::from(frame).spsr, u64::MAX - 0xf);
}

#[test]
fn mode_mask_is_the_mode_field_of_the_saved_status() {
    let field = SPSR_EL1::M;
    assert_eq!(SPSR_MODE_MASK, field.mask << field.shift);
    let user: u64 = SPSR_EL1::M::EL0t.into();
    assert_eq!(user, 0);
    assert_eq!(UserContext::new(0x40_0000, 0x7fff_f000, 0).spsr & SPSR_MODE_MASK, user);
}

#[test]
fn exception_kinds_by_class() {
    assert_eq!(info(esr(0x30, 0)).kind(), ExceptionKind::Breakpoint);
    assert_eq!(info(esr(0x0e, 0)).kind(), ExceptionKind::IllegalInstruction);
    assert_eq!(info(esr(0x22, 0)).kind(), ExceptionKind::Misaligned);
    assert_eq!(info(esr(0x26, 0)).kind(), ExceptionKind::Misaligned);
    assert_eq!(info(esr(0x15, 0)).kind(), ExceptionKind::Other);
    assert_eq!(info(esr(0x24, 0)).kind(), ExceptionKind::Other);
    assert_eq!(info(0).kind(), ExceptionKind::Other);
    assert_eq!(info(u64::MAX).kind(), ExceptionKind::Other);
    // Bits above the class do not count.
    assert_eq!(info(esr(0x30, 0) | (0xffff_ffff << 32)).kind(), ExceptionKind::Breakpoint);
}

#[test]
fn exception_kinds_by_the_classes_of_the_register_description() {
    let breakpoint = class_number(ESR_EL1::EC::Value::BreakpointLowerEL);
    let illegal = class_number(ESR_EL1::EC::Value::IllegalExecutionState);
    let pc = class_number(ESR_EL1::EC::Value::PCAlignmentFault);
    let sp = class_number(ESR_EL1::EC::Value::SPAlignmentFault);
    for ec in 0u64..64 {
        let want = if ec == breakpoint {
            ExceptionKind::Breakpoint
        } else if ec == illegal {
            ExceptionKind::IllegalInstruction
        } else if ec == pc || ec == sp {
            ExceptionKind::Misaligned
        } else {
            ExceptionKind::Other
        };
        assert_eq!(info(esr(ec, 0x1ff_ffff)).kind(), want);
    }
}

#[test]
fn syscall_cause_is_a_syscall() {
    let ctx = UserContext::new(0x40_0000, 0x7fff_f000, 0);
    let svc = esr(class_number(ESR_EL1::EC::Value::SVC64), 0);
    assert_eq!(
        ctx.return_reason(TrapKind::Synchronous, svc, 0, &no_irq_handlers()),
        Ok(ReturnReason::Syscall)
    );
    assert_eq!(
        ctx.return_reason(TrapKind::Synchronous, esr(0x15, 0x1234), 0, &no_irq_handlers()),
        Ok(ReturnReason::Syscall)
    );
}

#[test]
fn data_abort_write_is_a_write_page_fault() {
    let ctx = UserContext::new(0x40_0000, 0x7fff_f000, 0);
    let cause = esr(0x24, WNR | TRANSLATION_FAULT_L3);
    assert_eq!(
        ctx.return_reason(TrapKind::Synchronous, cause, 0xdead_b000, &no_irq_handlers()),
        Ok(ReturnReason::PageFault(0xdead_b000, flags(false, true, false, true)))
    );
}

#[test]
fn data_abort_read_is_a_read_page_fault() {
    let ctx = UserContext::new(0x40_0000, 0x7fff_f000, 0);
    let cause = esr(0x24, TRANSLATION_FAULT_L3);
    assert_eq!(
        ctx.return_reason(TrapKind::Synchronous, cause, 0xdead_b000, &no_irq_handlers()),
        Ok(ReturnReason::PageFault(0xdead_b000, flags(true, false, false, true)))
    );
}

#[test]
fn data_abort_of_cache_maintenance_is_a_read_page_fault() {
    let ctx = UserContext::new(0x40_0000, 0x7fff_f000, 0);
    let cause = esr(0x24, WNR | CM | PERMISSION_FAULT_L2);
    assert_eq!(
        ctx.return_reason(TrapKind::Synchronous, cause, 0x1000, &no_irq_handlers()),
        Ok(ReturnReason::PageFault(0x1000, flags(true, false, false, true)))
    );
}

#[test]
fn instruction_abort_is_an_execute_page_fault() {
    let ctx = UserContext::new(0x40_0000, 0x7fff_f000, 0);
    let cause = esr(0x20, TRANSLATION_FAULT_L3);
    assert_eq!(
        ctx.return_reason(TrapKind::Synchronous, cause, 0x40_0000, &no_irq_handlers()),
        Ok(ReturnReason::PageFault(0x40_0000, flags(false, false, true, true)))
    );
    let cause = esr(0x20, PERMISSION_FAULT_L2);
    assert_eq!(
        ctx.return_reason(TrapKind::Synchronous, cause, 0x40_0000, &no_irq_handlers()),
        Ok(ReturnReason::PageFault(0x40_0000, flags(false, false, true, true)))
    );
}

#[test]
fn breakpoint_cause_is_an_exception_of_kind_breakpoint() {
    let ctx = UserContext::new(0x40_0000, 0x7fff_f000, 0);
    let cause = esr(0x30, 0);
    let reason = ctx.return_reason(TrapKind::Synchronous, cause, 0x5000, &no_irq_handlers());
    assert_eq!(reason, Ok(ReturnReason::Exception(ExceptionInfo { esr: cause, stval: 0x5000 })));
    match reason {
        Ok(ReturnReason::Exception(info)) => assert_eq!(info.kind(), ExceptionKind::Breakpoint),
        other => panic!("no exception: {:?}", other),
    }
}

#[test]
fn illegal_state_and_alignment_faults_are_exceptions() {
    let ctx = UserContext::new(0x40_0000, 0x7fff_f000, 0);
    for (ec, kind) in [
        (0x0eu64, ExceptionKind::IllegalInstruction),
        (0x22u64, ExceptionKind::Misaligned),
        (0x26u64, ExceptionKind::Misaligned),
    ] {
        let cause = esr(ec, 0);
        let reason = ctx.return_reason(TrapKind::Synchronous, cause, 0x10, &no_irq_handlers());
        assert_eq!(reason, Ok(ReturnReason::Exception(ExceptionInfo { esr: cause, stval: 0x10 })));
        assert_eq!(info(cause).kind(), kind);
    }
}

#[test]
fn unrecognized_classes_are_unknown() {
    let ctx = UserContext::new(0x40_0000, 0x7fff_f000, 0);
    for ec in [0x00u64, 0x01, 0x07, 0x21, 0x25, 0x2f, 0x31, 0x3c, 0x3f, 0x02] {
        assert_eq!(
            ctx.return_reason(TrapKind::Synchronous, esr(ec, 0), 0, &no_irq_handlers()),
            Ok(ReturnReason::Unknown)
        );
    }
    assert_eq!(
        ctx.return_reason(TrapKind::Fiq, esr(0x3f, 0), 0, &no_irq_handlers()),
        Ok(ReturnReason::Unknown)
    );
}

#[test]
fn interrupt_goes_through_the_handlers_whatever_the_syndrome() {
    let seen = Cell::new(usize::MAX);
    let calls = Cell::new(0u32);
    let mut irq = HandlerSlot::new();
    irq.register(|vector: usize| {
        seen.set(vector);
        calls.set(calls.get() + 1);
        false
    });
    let ctx = UserContext::new(0x40_0000, 0x7fff_f000, 0);
    assert_eq!(
        ctx.return_reason(TrapKind::Irq, esr(0x15, 0), 0, &irq),
        Ok(ReturnReason::Interrupt)
    );
    assert_eq!(seen.get(), 0);
    assert_eq!(calls.get(), 1);
    assert_eq!(
        ctx.return_reason(TrapKind::Synchronous, esr(0x15, 0), 0, &irq),
        Ok(ReturnReason::Syscall)
    );
    assert_eq!(calls.get(), 1);
    assert_eq!(
        ctx.return_reason(TrapKind::Irq, 0, 0, &no_irq_handlers()),
        Ok(ReturnReason::Interrupt)
    );
}

#[test]
fn abort_that_is_no_page_fault_is_fatal() {
    let mut ctx = UserContext::new(0x40_0000, 0x7fff_f000, 0);
    ctx.set_ip(0x40_0abc);
    let cause = esr(0x24, WNR | ALIGNMENT_FAULT);
    assert_eq!(
        ctx.return_reason(TrapKind::Synchronous, cause, 0x1003, &no_irq_handlers()),
        Err(FatalAbort {
            kind: AbortKind::Data,
            user: true,
            elr: 0x40_0abc,
            fault_vaddr: 0x1003,
            iss: WNR | ALIGNMENT_FAULT,
            access_flags: flags(false, true, false, true),
        })
    );
    let cause = esr(0x20, ACCESS_FLAG_FAULT_L1);
    assert_eq!(
        ctx.return_reason(TrapKind::Synchronous, cause, 0x2000, &no_irq_handlers()),
        Err(FatalAbort {
            kind: AbortKind::Instruction,
            user: true,
            elr: 0x40_0abc,
            fault_vaddr: 0x2000,
            iss: ACCESS_FLAG_FAULT_L1,
            access_flags: flags(false, false, true, true),
        })
    );
    // The syndrome of the report is the field of the register, not the register.
    let cause = esr(0x24, 0);
    match ctx.return_reason(TrapKind::Synchronous, cause, 0, &no_irq_handlers()) {
        Err(abort) => assert_eq!(abort.iss, 0),
        other => panic!("no fatal abort: {:?}", other),
    }
}

#[test]
fn abort_handlers_by_status_code() {
    let frame = TrapFrame::default();
    for level in 0u64..4 {
        for status in [0b000100u64, 0b001100] {
            let iss: u64 = status | level;
            assert_eq!(
                handle_instruction_abort_lower(&frame, iss, 0x10, true),
                Ok(ReturnReason::PageFault(0x10, flags(false, false, true, true)))
            );
            assert_eq!(
                handle_data_abort_lower(&frame, iss, 0x10, false),
                Ok(ReturnReason::PageFault(0x10, flags(true, false, false, false)))
            );
            assert_eq!(
                handle_data_abort_lower(&frame, iss | WNR, 0x10, false),
                Ok(ReturnReason::PageFault(0x10, flags(false, true, false, false)))
            );
        }
    }
    for status in [0u64, 0b001000, 0b010000, 0b100001, 0b110000, 0b010100, 0b101100] {
        assert!(handle_instruction_abort_lower(&frame, status, 0x10, false).is_err());
        assert!(handle_data_abort_lower(&frame, status, 0x10, true).is_err());
    }
}
