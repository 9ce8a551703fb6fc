use std::cell::Cell;

use axcpu::trap::{ExceptionKind, HandlerSlot, PageFaultFlags, ReturnReason};
use axcpu::x86_64::context::TrapFrame;
use axcpu::x86_64::uspace::{
    switch_to_kernel_fs_base, switch_to_user_fs_base, user_vector_class, ExceptionInfo,
    ThreadPointerSwitch, UserContext, UserVectorClass, RFLAGS_INTERRUPT_FLAG, UCODE64_SELECTOR,
    UDATA_SELECTOR,
};
use x86_64::registers::rflags::RFlags;
use x86_64::structures::gdt::SegmentSelector;
use x86_64::PrivilegeLevel;

fn no_irq_handlers() -> HandlerSlot<fn(usize) -> bool> {
    HandlerSlot::new()
}

fn returned(vector: u64, error_code: u64) -> UserContext {
    let mut ctx = UserContext::new(0x40_0000, 0x7fff_f000, 0);
    ctx.vector = vector;
    ctx.error_code = error_code;
    ctx.rip = 0x40_1234;
    ctx
}

#[test]
fn constants_are_those_of_the_architecture() {
    assert_eq!(RFLAGS_INTERRUPT_FLAG, RFlags::INTERRUPT_FLAG.bits());
    assert_eq!(UCODE64_SELECTOR, SegmentSelector::new(6, PrivilegeLevel::Ring3).0 as u64);
    assert_eq!(UDATA_SELECTOR, SegmentSelector::new(5, PrivilegeLevel::Ring3).0 as u64);
}

#[test]
fn empty_context_is_all_zero() {
    let ctx = UserContext::empty();
    assert_eq!(*ctx, TrapFrame::default());
    assert_eq!(ctx.ip(), 0);
    assert_eq!(ctx.sp(), 0);
}

#[test]
fn new_context_reads_back_entry_stack_and_argument() {
    let ctx = UserContext::new(0x40_0000, 0x7fff_f000, 42);
    assert_eq!(ctx.ip(), 0x40_0000);
    assert_eq!(ctx.sp(), 0x7fff_f000);
    assert_eq!(ctx.arg0(), 42);
    assert_eq!(ctx.arg1(), 0);
    assert_eq!(ctx.arg2(), 0);
    assert_eq!(ctx.arg3(), 0);
    assert_eq!(ctx.arg4(), 0);
    assert_eq!(ctx.arg5(), 0);
    assert_eq!(ctx.sysno(), 0);
    assert_eq!(ctx.retval(), 0);
    assert_eq!(
        *ctx,
        TrapFrame {
            rdi: 42,
            rip: 0x40_0000,
            cs: 0x33,
            rflags: 0x200,
            rsp: 0x7fff_f000,
            ss: 0x2b,
            ..TrapFrame::default()
        }
    );
    assert!(ctx.is_user());
}

#[test]
fn new_context_with_extreme_values() {
    let ctx = UserContext::new(usize::MAX, 0, usize::MAX);
    assert_eq!(ctx.ip(), usize::MAX);
    assert_eq!(ctx.sp(), 0);
    assert_eq!(ctx.arg0(), usize::MAX);
    assert_eq!(ctx.rbx, 0);
    assert_eq!(ctx.rbp, 0);
    assert_eq!(ctx.r15, 0);
}

#[test]
fn from_forces_the_user_segments_and_keeps_the_rest() {
    let mut frame = TrapFrame::default();
    frame.rax = 1;
    frame.rdi = 2;
    frame.rip = 0x1000;
    frame.rsp = 0x2000;
    frame.cs = 0x8;
    frame.ss = 0x10;
    frame.rflags = 0x246;
    frame.vector = 14;
    frame.error_code = 6;
    frame.fs_base = 0x7000;
    let ctx = UserContext::from(frame);
    assert_eq!(*ctx, TrapFrame { cs: 0x33, ss: 0x2b, ..frame });
    assert!(ctx.is_user());
}

#[test]
fn context_can_be_changed_through_the_frame() {
    let mut ctx = UserContext::empty();
    ctx.set_ip(0x1234);
    ctx.set_retval(7);
    ctx.rbx = 9;
    assert_eq!(ctx.ip(), 0x1234);
    assert_eq!(ctx.retval(), 7);
    assert_eq!(ctx.rbx, 9);
}

#[test]
fn exception_kinds_by_vector() {
    let info = |trap_vector: u64| ExceptionInfo { trap_vector, rip: 0, error_code: 0, cr4: 0 };
    assert_eq!(info(3).kind(), ExceptionKind::Breakpoint);
    assert_eq!(info(6).kind(), ExceptionKind::IllegalInstruction);
    assert_eq!(info(0).kind(), ExceptionKind::Other);
    assert_eq!(info(13).kind(), ExceptionKind::Other);
    assert_eq!(info(17).kind(), ExceptionKind::Other);
    assert_eq!(info(0x103).kind(), ExceptionKind::Breakpoint);
    assert_eq!(info(3).kind() as u8, x86_kind_of(x86::irq::BREAKPOINT_VECTOR) as u8);
    assert_eq!(info(6).kind() as u8, x86_kind_of(x86::irq::INVALID_OPCODE_VECTOR) as u8);
}

fn x86_kind_of(vector: u8) -> ExceptionKind {
    ExceptionInfo { trap_vector: vector as u64, rip: 0, error_code: 0, cr4: 0 }.kind()
}

#[test]
fn user_fs_base_switch_of_a_user_frame() {
    let mut frame = *UserContext::new(0x40_0000, 0x7fff_f000, 0);
    frame.fs_base = 0x7000;
    assert_eq!(
        switch_to_user_fs_base(&frame, 0x9000, true),
        ThreadPointerSwitch { keep_kernel: Some(0x9000), install: Some(0x7000) }
    );
    assert_eq!(
        switch_to_user_fs_base(&frame, 0x9000, false),
        ThreadPointerSwitch { keep_kernel: None, install: Some(0x7000) }
    );
}

#[test]
fn fs_base_switches_pass_over_a_kernel_frame() {
    let mut frame = TrapFrame::default();
    frame.cs = 0x10;
    frame.fs_base = 0x7000;
    assert_eq!(
        switch_to_user_fs_base(&frame, 0x9000, true),
        ThreadPointerSwitch { keep_kernel: None, install: None }
    );
    let before = frame;
    assert_eq!(switch_to_kernel_fs_base(&mut frame, 0x5000, 0x9000, true), None);
    assert_eq!(frame, before);
}

#[test]
fn kernel_fs_base_switch_takes_up_the_user_thread_pointer() {
    let mut frame = *UserContext::new(0x40_0000, 0x7fff_f000, 0);
    frame.fs_base = 0x7000;
    let before = frame;
    assert_eq!(switch_to_kernel_fs_base(&mut frame, 0x7800, 0x9000, true), Some(0x9000));
    assert_eq!(frame, TrapFrame { fs_base: 0x7800, ..before });

    let mut frame = before;
    assert_eq!(switch_to_kernel_fs_base(&mut frame, 0x7800, 0x9000, false), None);
    assert_eq!(frame, TrapFrame { fs_base: 0x7800, ..before });
}

#[test]
fn thread_pointer_round_trip() {
    let mut frame = *UserContext::new(0x40_0000, 0x7fff_f000, 0);
    frame.fs_base = 0x7000;
    let entry = switch_to_user_fs_base(&frame, 0x9000, true);
    assert_eq!(entry.install, Some(0x7000));
    let kept: usize = entry.keep_kernel.unwrap();
    // User code moves its thread pointer while it runs.
    let install = switch_to_kernel_fs_base(&mut frame, 0x7100, kept, true);
    assert_eq!(install, Some(0x9000));
    let again = switch_to_user_fs_base(&frame, 0x9000, true);
    assert_eq!(again.install, Some(0x7100));
    assert_eq!(again.keep_kernel, Some(0x9000));
}

#[test]
fn user_vector_classes() {
    assert_eq!(user_vector_class(14), UserVectorClass::PageFault);
    assert_eq!(user_vector_class(0x80), UserVectorClass::Syscall);
    assert_eq!(user_vector_class(0x20), UserVectorClass::Irq);
    assert_eq!(user_vector_class(0x7f), UserVectorClass::Irq);
    assert_eq!(user_vector_class(0x81), UserVectorClass::Irq);
    assert_eq!(user_vector_class(0xff), UserVectorClass::Irq);
    assert_eq!(user_vector_class(0), UserVectorClass::Exception);
    assert_eq!(user_vector_class(3), UserVectorClass::Exception);
    assert_eq!(user_vector_class(13), UserVectorClass::Exception);
    assert_eq!(user_vector_class(0x1f), UserVectorClass::Exception);
    assert_eq!(user_vector_class(0x180), UserVectorClass::Syscall);
}

#[test]
fn return_reason_of_a_syscall() {
    let ctx = returned(0x80, 0);
    assert_eq!(ctx.return_reason(0, 0, &no_irq_handlers()), Ok(ReturnReason::Syscall));
}

#[test]
fn return_reason_of_a_page_fault() {
    let ctx = returned(14, 0x6);
    assert_eq!(
        ctx.return_reason(0x1000_0000, 0x20, &no_irq_handlers()),
        Ok(ReturnReason::PageFault(
            0x1000_0000,
            PageFaultFlags { read: false, write: true, execute: false, user: true }
        ))
    );
    let ctx = returned(14, 0x14);
    assert_eq!(
        ctx.return_reason(0x2000_0000, 0x20, &no_irq_handlers()),
        Ok(ReturnReason::PageFault(
            0x2000_0000,
            PageFaultFlags { read: true, write: false, execute: true, user: true }
        ))
    );
}

#[test]
fn return_reason_of_a_page_fault_with_an_invalid_error_code() {
    let ctx = returned(14, 0xc);
    assert_eq!(ctx.return_reason(0x1000_0000, 0, &no_irq_handlers()), Err(0xc));
}

#[test]
fn return_reason_of_an_interrupt_goes_through_the_handlers() {
    let seen = Cell::new(0usize);
    let calls = Cell::new(0u32);
    let mut irq = HandlerSlot::new();
    irq.register(|vector: usize| {
        seen.set(vector);
        calls.set(calls.get() + 1);
        true
    });
    let ctx = returned(0x22, 0);
    assert_eq!(ctx.return_reason(0, 0, &irq), Ok(ReturnReason::Interrupt));
    assert_eq!(seen.get(), 0x22);
    assert_eq!(calls.get(), 1);

    let syscall = returned(0x80, 0);
    assert_eq!(syscall.return_reason(0, 0, &irq), Ok(ReturnReason::Syscall));
    assert_eq!(calls.get(), 1);
}

#[test]
fn return_reason_of_any_other_exception() {
    let ctx = returned(3, 0);
    let reason = ctx.return_reason(0xdead, 0x3406e0, &no_irq_handlers());
    let info = ExceptionInfo { trap_vector: 3, rip: 0x40_1234, error_code: 0, cr4: 0x3406e0 };
    assert_eq!(reason, Ok(ReturnReason::Exception(info)));
    assert_eq!(info.kind(), ExceptionKind::Breakpoint);

    let ctx = returned(13, 0x10);
    assert_eq!(
        ctx.return_reason(0, 0, &no_irq_handlers()),
        Ok(ReturnReason::Exception(ExceptionInfo {
            trap_vector: 13,
            rip: 0x40_1234,
            error_code: 0x10,
            cr4: 0,
        }))
    );
}
