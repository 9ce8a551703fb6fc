use std::cell::Cell;

use axcpu::trap::{
    dispatch_irq, dispatch_page_fault, excp_mask, init_exception_table, ExceptionKind,
    ExceptionSource, ExceptionTableEntry, HandlerDiagnostic, HandlerSlot, PageFaultFlags,
    ReturnReason, TASK_EXIT_0_1, TASK_EXIT_0_2, TASK_EXIT_1_1, TASK_EXIT_1_2,
};
use axcpu::x86_64::context::TrapFrame;

fn counting<'a>(calls: &'a Cell<u32>, verdict: bool) -> impl Fn(usize) -> bool + 'a {
    move |_vector: usize| {
        calls.set(calls.get() + 1);
        verdict
    }
}

fn recording<'a>(
    seen: &'a Cell<(usize, bool)>,
    verdict: bool,
) -> impl Fn(usize, PageFaultFlags) -> bool + 'a {
    move |vaddr: usize, flags: PageFaultFlags| {
        seen.set((vaddr, flags.write));
        verdict
    }
}

fn entry(from: usize, to: usize) -> ExceptionTableEntry {
    ExceptionTableEntry { from, to }
}

#[test]
fn excp_mask_of_named_exits() {
    assert_eq!(excp_mask(0, ExceptionSource::CurrentSpElx), 0x10);
    assert_eq!(excp_mask(1, ExceptionSource::CurrentSpElx), 0x20);
    assert_eq!(excp_mask(0, ExceptionSource::LowerAarch64), 0x100);
    assert_eq!(excp_mask(1, ExceptionSource::LowerAarch64), 0x200);
    assert_eq!(TASK_EXIT_0_1, 0x10);
    assert_eq!(TASK_EXIT_1_1, 0x20);
    assert_eq!(TASK_EXIT_0_2, 0x100);
    assert_eq!(TASK_EXIT_1_2, 0x200);
}

#[test]
fn excp_mask_covers_every_bit_once() {
    let sources = [
        ExceptionSource::CurrentSpEl0,
        ExceptionSource::CurrentSpElx,
        ExceptionSource::LowerAarch64,
        ExceptionSource::LowerAarch32,
    ];
    let mut all: u16 = 0;
    for source in sources {
        for kind in 0u8..4 {
            let mask: u16 = excp_mask(kind, source);
            assert_eq!(mask.count_ones(), 1);
            assert_eq!(all & mask, 0);
            all |= mask;
        }
    }
    assert_eq!(all, 0xffff);
    assert_eq!(excp_mask(0, ExceptionSource::CurrentSpEl0), 1);
    assert_eq!(excp_mask(3, ExceptionSource::LowerAarch32), 0x8000);
    assert_eq!(ExceptionSource::LowerAarch32.index(), 3);
}

#[test]
fn from_mask_decodes_the_named_exits() {
    assert_eq!(ReturnReason::<()>::from_mask(0x10), ReturnReason::Syscall);
    assert_eq!(ReturnReason::<()>::from_mask(0x20), ReturnReason::Interrupt);
    assert_eq!(ReturnReason::<()>::from_mask(0x100), ReturnReason::Syscall);
    assert_eq!(ReturnReason::<()>::from_mask(0x200), ReturnReason::Interrupt);
}

#[test]
fn from_mask_of_any_other_mask_is_unknown() {
    for mask in 0u16..=u16::MAX {
        let reason: ReturnReason<()> = ReturnReason::from_mask(mask);
        match mask {
            0x10 | 0x100 => assert_eq!(reason, ReturnReason::Syscall),
            0x20 | 0x200 => assert_eq!(reason, ReturnReason::Interrupt),
            _ => assert_eq!(reason, ReturnReason::Unknown),
        }
    }
}

#[test]
fn interrupts_stay_disabled_after_an_interrupt_only() {
    assert!(!ReturnReason::<()>::Interrupt.reenables_interrupts());
    assert!(ReturnReason::<()>::Unknown.reenables_interrupts());
    assert!(ReturnReason::<()>::Syscall.reenables_interrupts());
    assert!(ReturnReason::<()>::PageFault(0x1000, PageFaultFlags::empty()).reenables_interrupts());
    assert!(ReturnReason::Exception(7u8).reenables_interrupts());
}

#[test]
fn exception_kinds_differ() {
    assert_ne!(ExceptionKind::Other, ExceptionKind::Breakpoint);
    assert_ne!(ExceptionKind::IllegalInstruction, ExceptionKind::Misaligned);
}

#[test]
fn empty_flags_have_nothing_set() {
    let flags = PageFaultFlags::empty();
    assert!(!flags.read && !flags.write && !flags.execute && !flags.user);
}

#[test]
fn slot_without_handlers_reports_not_handled() {
    let calls = Cell::new(0u32);
    let mut slot = HandlerSlot::new();
    assert!(!dispatch_irq(&slot, 33));
    assert_eq!(slot.len(), 0);
    assert_eq!(slot.diagnostic(), HandlerDiagnostic::NoHandler);
    assert!(slot.first().is_none());
    // The slot's type is fixed by a registration that comes after the dispatch.
    slot.register(counting(&calls, true));
    assert_eq!(calls.get(), 0);
}

#[test]
fn slot_with_one_handler_calls_it_once_and_returns_its_verdict() {
    let calls = Cell::new(0u32);
    let mut slot = HandlerSlot::new();
    slot.register(counting(&calls, true));
    assert!(dispatch_irq(&slot, 33));
    assert_eq!(calls.get(), 1);
    assert_eq!(slot.diagnostic(), HandlerDiagnostic::Quiet);

    let refusals = Cell::new(0u32);
    let mut refusing = HandlerSlot::new();
    refusing.register(counting(&refusals, false));
    assert!(!dispatch_irq(&refusing, 33));
    assert_eq!(refusals.get(), 1);
}

#[test]
fn slot_with_several_handlers_calls_only_the_first() {
    let first = Cell::new(0u32);
    let second = Cell::new(0u32);
    let third = Cell::new(0u32);
    let mut slot = HandlerSlot::new();
    slot.register(counting(&first, false));
    slot.register(counting(&second, true));
    slot.register(counting(&third, true));
    assert!(!dispatch_irq(&slot, 40));
    assert_eq!(first.get(), 1);
    assert_eq!(second.get(), 0);
    assert_eq!(third.get(), 0);
    assert_eq!(slot.len(), 3);
    assert_eq!(slot.diagnostic(), HandlerDiagnostic::MultipleHandlers);
}

#[test]
fn page_fault_dispatch_hands_over_address_and_flags() {
    let seen = Cell::new((0usize, false));
    let mut slot = HandlerSlot::new();
    slot.register(recording(&seen, true));
    let flags = PageFaultFlags { read: false, write: true, execute: false, user: true };
    assert!(dispatch_page_fault(&slot, 0xdead_b000, flags));
    assert_eq!(seen.get(), (0xdead_b000, true));
}

#[test]
fn page_fault_dispatch_without_handlers_is_not_handled() {
    let slot: HandlerSlot<fn(usize, PageFaultFlags) -> bool> = HandlerSlot::new();
    assert!(!dispatch_page_fault(&slot, 0x1000, PageFaultFlags::empty()));
}

#[test]
fn table_is_sorted_by_faulting_address() {
    let table = init_exception_table(vec![
        entry(0x300, 0x3f0),
        entry(0x100, 0x1f0),
        entry(0x200, 0x2f0),
        entry(0x100, 0x1e0),
        entry(0x50, 0x5f0),
    ]);
    assert_eq!(table.len(), 5);
    let expected = [
        entry(0x50, 0x5f0),
        entry(0x100, 0x1e0),
        entry(0x100, 0x1f0),
        entry(0x200, 0x2f0),
        entry(0x300, 0x3f0),
    ];
    for (index, want) in expected.iter().enumerate() {
        assert_eq!(table.get(index), Some(*want));
    }
    assert_eq!(table.get(5), None);
}

#[test]
fn table_sorts_as_the_standard_sort_does() {
    let mut entries: Vec<ExceptionTableEntry> = Vec::new();
    let mut seed: usize = 12345;
    for _ in 0..200 {
        seed = seed.wrapping_mul(6364136223846793005).wrapping_add(1442695040888963407);
        let from: usize = (seed >> 33) % 64;
        seed = seed.wrapping_mul(6364136223846793005).wrapping_add(1442695040888963407);
        let to: usize = (seed >> 33) % 8;
        entries.push(entry(from, to));
    }
    let table = init_exception_table(entries.clone());
    let mut pairs: Vec<(usize, usize)> = entries.iter().map(|e| (e.from, e.to)).collect();
    pairs.sort_unstable();
    assert_eq!(table.len(), pairs.len());
    for (index, pair) in pairs.iter().enumerate() {
        assert_eq!(table.get(index), Some(entry(pair.0, pair.1)));
    }
}

#[test]
fn lookup_finds_exact_matches_only() {
    let table = init_exception_table(vec![
        entry(0x3000, 0x3800),
        entry(0x1000, 0x1800),
        entry(0x2000, 0x2800),
    ]);
    assert_eq!(table.lookup(0x1000), Some(0x1800));
    assert_eq!(table.lookup(0x2000), Some(0x2800));
    assert_eq!(table.lookup(0x3000), Some(0x3800));
    assert_eq!(table.lookup(0x0fff), None);
    assert_eq!(table.lookup(0x1001), None);
    assert_eq!(table.lookup(0x2800), None);
    assert_eq!(table.lookup(0x3001), None);
    assert_eq!(table.lookup(0), None);
    assert_eq!(table.lookup(usize::MAX), None);
}

#[test]
fn lookup_in_an_empty_table_finds_nothing() {
    let table = init_exception_table(Vec::new());
    assert_eq!(table.len(), 0);
    assert_eq!(table.lookup(0x1000), None);
}

#[test]
fn lookup_finds_every_entry_of_a_large_table() {
    let mut entries: Vec<ExceptionTableEntry> = Vec::new();
    for i in (0usize..101).rev() {
        entries.push(entry(i * 16, i * 16 + 8));
    }
    let table = init_exception_table(entries);
    for i in 0usize..101 {
        assert_eq!(table.lookup(i * 16), Some(i * 16 + 8));
        assert_eq!(table.lookup(i * 16 + 1), None);
    }
}

#[test]
fn fixup_rewrites_the_instruction_pointer_on_a_match() {
    let table = init_exception_table(vec![entry(0x2000, 0x2800), entry(0x1000, 0x1800)]);
    let mut frame = TrapFrame::default();
    frame.rax = 7;
    frame.set_ip(0x2000);
    let before = frame;
    assert!(frame.fixup_exception(&table));
    assert_eq!(frame.ip(), 0x2800);
    assert_eq!(frame, TrapFrame { rip: 0x2800, ..before });
}

#[test]
fn fixup_without_a_match_leaves_the_frame() {
    let table = init_exception_table(vec![entry(0x2000, 0x2800), entry(0x1000, 0x1800)]);
    let mut frame = TrapFrame::default();
    frame.rbx = 9;
    frame.set_ip(0x2004);
    let before = frame;
    assert!(!frame.fixup_exception(&table));
    assert_eq!(frame, before);
    assert!(!frame.fixup_exception(&table));
    assert_eq!(frame, before);
}

#[test]
fn fixup_of_an_aarch64_frame() {
    let table = init_exception_table(vec![entry(0x4000, 0x4400)]);
    let mut frame = axcpu::aarch64::context::TrapFrame::default();
    frame.set_ip(0x4000);
    assert!(frame.fixup_exception(&table));
    assert_eq!(frame.ip(), 0x4400);
    assert!(!frame.fixup_exception(&table));
    assert_eq!(frame.ip(), 0x4400);
}
