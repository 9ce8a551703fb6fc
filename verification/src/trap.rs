//! Architecture-neutral trap types: return reasons, access flags, the handler
//! registry and the exception fixup table.

use vstd::arithmetic::power2::pow2;
use vstd::bits::{lemma_u16_pow2_no_overflow, lemma_u16_shl_is_mul};
use vstd::prelude::*;
use vstd::seq_lib::{to_multiset_build, to_multiset_contains, to_multiset_insert, to_multiset_len};

use crate::aarch64::context::TrapFrame as Aarch64TrapFrame;
use crate::x86_64::context::TrapFrame as X86TrapFrame;

verus! {

/// Where an exception was taken from, in the order of the vector table.
#[derive(Debug, Clone, Copy, PartialEq, Eq, Structural)]
pub enum ExceptionSource {
    CurrentSpEl0,
    CurrentSpElx,
    LowerAarch64,
    LowerAarch32,
}

impl ExceptionSource {
    /// Position of the source in the vector table, `0..=3`.
    pub open spec fn spec_index(self) -> u8 {
        match self {
            ExceptionSource::CurrentSpEl0 => 0,
            ExceptionSource::CurrentSpElx => 1,
            ExceptionSource::LowerAarch64 => 2,
            ExceptionSource::LowerAarch32 => 3,
        }
    }

    /// Position of the source in the vector table, `0..=3`.
    #[verifier::when_used_as_spec(spec_index)]
    pub fn index(self) -> (i: u8)
        ensures
            i == self.spec_index(),
            i <= 3,
    {
        match self {
            ExceptionSource::CurrentSpEl0 => 0,
            ExceptionSource::CurrentSpElx => 1,
            ExceptionSource::LowerAarch64 => 2,
            ExceptionSource::LowerAarch32 => 3,
        }
    }
}

/// Number of the bit that stands for exception `kind` taken from `source`:
/// four bits per source, one per kind.
pub open spec fn excp_bit(kind: u8, source: ExceptionSource) -> nat {
    (source.spec_index() * 4 + kind) as nat
}

/// The one-bit mask of exception `kind` taken from `source`.
pub open spec fn excp_mask_spec(kind: u8, source: ExceptionSource) -> u16 {
    1u16 << (excp_bit(kind, source) as u16)
}

/// Returns the one-bit mask of exception `kind` taken from `source`.
///
/// The bit has to lie inside the 16-bit mask, which leaves room for four
/// kinds per source.
pub fn excp_mask(kind: u8, source: ExceptionSource) -> (mask: u16)
    requires
        excp_bit(kind, source) < 16,
    ensures
        mask == excp_mask_spec(kind, source),
        mask as nat == pow2(excp_bit(kind, source)),
{
    let shift: u16 = (source.index() * 4 + kind) as u16;
    proof {
        lemma_u16_pow2_no_overflow(shift as nat);
        lemma_u16_shl_is_mul(1u16, shift);
    }
    1u16 << shift
}

/// Mask of a synchronous exception taken from the current level on its own
/// stack.
pub const TASK_EXIT_0_1: u16 = 0x10;

/// Mask of an interrupt taken from the current level on its own stack.
pub const TASK_EXIT_1_1: u16 = 0x20;

/// Mask of a synchronous exception taken from a lower level in 64-bit state.
pub const TASK_EXIT_0_2: u16 = 0x100;

/// Mask of an interrupt taken from a lower level in 64-bit state.
pub const TASK_EXIT_1_2: u16 = 0x200;

/// The four named masks are the masks of a synchronous exception, which is
/// the first kind, and of an interrupt, which is the second, each taken from
/// the current level on its own stack and from a lower level in 64-bit state.
pub proof fn lemma_task_exit_masks()
    ensures
        TASK_EXIT_0_1 == excp_mask_spec(0, ExceptionSource::CurrentSpElx),
        TASK_EXIT_1_1 == excp_mask_spec(1, ExceptionSource::CurrentSpElx),
        TASK_EXIT_0_2 == excp_mask_spec(0, ExceptionSource::LowerAarch64),
        TASK_EXIT_1_2 == excp_mask_spec(1, ExceptionSource::LowerAarch64),
{
    assert(1u16 << 4u16 == 0x10 && 1u16 << 5u16 == 0x20 && 1u16 << 8u16 == 0x100 && 1u16 << 9u16
        == 0x200) by (bit_vector);
}

/// The kinds of access that a faulting memory access can have made.
#[derive(Debug, Clone, Copy, PartialEq, Eq, Structural)]
pub struct PageFaultFlags {
    /// The access read memory.
    pub read: bool,
    /// The access wrote memory.
    pub write: bool,
    /// The access fetched an instruction.
    pub execute: bool,
    /// The access was made in user mode.
    pub user: bool,
}

impl PageFaultFlags {
    /// The empty set of flags.
    pub fn empty() -> (flags: Self)
        ensures
            flags == (PageFaultFlags { read: false, write: false, execute: false, user: false }),
    {
        PageFaultFlags { read: false, write: false, execute: false, user: false }
    }
}

/// A generalized kind of exception, the same on every architecture.
#[derive(Debug, Clone, Copy, PartialEq, Eq, Structural)]
pub enum ExceptionKind {
    Other,
    Breakpoint,
    IllegalInstruction,
    Misaligned,
}

/// Why the processor came back from user mode. `E` is the architecture's
/// record of an exception that is none of the other cases.
#[derive(Debug, Clone, Copy, PartialEq, Eq)]
pub enum ReturnReason<E> {
    Unknown,
    Interrupt,
    Syscall,
    /// A page fault, with the faulting address and the kind of access.
    PageFault(usize, PageFaultFlags),
    Exception(E),
}

/// The reason that an exit mask stands for: a synchronous exception is a
/// system call and an interrupt is an interrupt, from either source that has
/// a named mask; any other mask is unknown.
pub open spec fn from_mask_spec<E>(mask: u16) -> ReturnReason<E> {
    if mask == TASK_EXIT_0_1 || mask == TASK_EXIT_0_2 {
        ReturnReason::Syscall
    } else if mask == TASK_EXIT_1_1 || mask == TASK_EXIT_1_2 {
        ReturnReason::Interrupt
    } else {
        ReturnReason::Unknown
    }
}

impl<E> ReturnReason<E> {
    /// Whether interrupts are enabled again before the reason is handed to
    /// the caller of the trip to user space: always, but for an interrupt,
    /// which has been dispatched to its handlers by then.
    pub fn reenables_interrupts(&self) -> (enable: bool)
        ensures
            enable == !(self is Interrupt),
    {
        match self {
            ReturnReason::Interrupt => false,
            _ => true,
        }
    }

    /// Decodes an exit mask.
    pub fn from_mask(mask: u16) -> (reason: Self)
        ensures
            reason == from_mask_spec::<E>(mask),
    {
        if mask == TASK_EXIT_0_1 || mask == TASK_EXIT_0_2 {
            ReturnReason::Syscall
        } else if mask == TASK_EXIT_1_1 || mask == TASK_EXIT_1_2 {
            ReturnReason::Interrupt
        } else {
            ReturnReason::Unknown
        }
    }
}

/// What a dispatch has to tell about the state of a handler slot.
#[derive(Debug, Clone, Copy, PartialEq, Eq, Structural)]
pub enum HandlerDiagnostic {
    /// Exactly one handler is registered; there is nothing to tell.
    Quiet,
    /// No handler is registered: the trap is reported as not handled.
    NoHandler,
    /// More than one handler is registered: only the first is called.
    MultipleHandlers,
}

/// The handlers registered for one category of trap, in the order of their
/// registration.
///
/// Handlers are registered while the kernel starts; once traps can occur the
/// slot is only read.
pub struct HandlerSlot<F> {
    handlers: Vec<F>,
}

impl<F> View for HandlerSlot<F> {
    type V = Seq<F>;

    closed spec fn view(&self) -> Seq<F> {
        self.handlers@
    }
}

impl<F> HandlerSlot<F> {
    /// A slot without handlers.
    pub fn new() -> (slot: Self)
        ensures
            slot@ == Seq::<F>::empty(),
    {
        HandlerSlot { handlers: Vec::new() }
    }

    /// Registers `handler` behind the handlers already in the slot.
    pub fn register(&mut self, handler: F)
        ensures
            final(self)@ == old(self)@.push(handler),
    {
        self.handlers.push(handler);
    }

    /// Number of registered handlers.
    pub fn len(&self) -> (n: usize)
        ensures
            n == self@.len(),
    {
        self.handlers.len()
    }

    /// The handler that a trap of this category is offered to: the first one
    /// registered, if there is any. Later handlers are never called.
    pub fn first(&self) -> (handler: Option<&F>)
        ensures
            self@.len() == 0 ==> handler.is_none(),
            self@.len() > 0 ==> handler == Some(&self@[0]),
    {
        if self.handlers.len() == 0 {
            None
        } else {
            Some(&self.handlers[0])
        }
    }

    /// What a dispatch on this slot has to tell.
    pub fn diagnostic(&self) -> (diagnostic: HandlerDiagnostic)
        ensures
            diagnostic == slot_diagnostic(self@.len()),
    {
        let n = self.handlers.len();
        if n == 0 {
            HandlerDiagnostic::NoHandler
        } else if n == 1 {
            HandlerDiagnostic::Quiet
        } else {
            HandlerDiagnostic::MultipleHandlers
        }
    }
}

/// What a dispatch on a slot with `count` handlers has to tell.
pub open spec fn slot_diagnostic(count: nat) -> HandlerDiagnostic {
    if count == 0 {
        HandlerDiagnostic::NoHandler
    } else if count == 1 {
        HandlerDiagnostic::Quiet
    } else {
        HandlerDiagnostic::MultipleHandlers
    }
}

/// What the interrupt handlers can have said of the interrupt `vector` that
/// was offered to them: with no handler registered the interrupt is not
/// handled, else the verdict is that of the first handler, called with the
/// vector.
pub open spec fn irq_offered<F: Fn(usize) -> bool>(
    handlers: Seq<F>,
    vector: usize,
    handled: bool,
) -> bool {
    if handlers.len() == 0 {
        !handled
    } else {
        call_ensures(handlers[0], (vector,), handled)
    }
}

/// Offers the interrupt `vector` to the interrupt handlers.
///
/// With no handler registered the interrupt is not handled. Otherwise the
/// first handler is called, once, and its verdict is the result; the contract
/// asks nothing of the other handlers, so they cannot be called.
pub fn dispatch_irq<F: Fn(usize) -> bool>(slot: &HandlerSlot<F>, vector: usize) -> (handled: bool)
    requires
        slot@.len() > 0 ==> call_requires(slot@[0], (vector,)),
    ensures
        slot@.len() == 0 ==> !handled,
        slot@.len() > 0 ==> call_ensures(slot@[0], (vector,), handled),
        irq_offered(slot@, vector, handled),
{
    match slot.first() {
        Some(handler) => handler(vector),
        None => false,
    }
}

/// Offers a page fault at `vaddr` with the given kind of access to the page
/// fault handlers.
///
/// With no handler registered the fault is not handled. Otherwise the first
/// handler is called, once, and its verdict is the result; the contract asks
/// nothing of the other handlers, so they cannot be called.
pub fn dispatch_page_fault<F: Fn(usize, PageFaultFlags) -> bool>(
    slot: &HandlerSlot<F>,
    vaddr: usize,
    access_flags: PageFaultFlags,
) -> (handled: bool)
    requires
        slot@.len() > 0 ==> call_requires(slot@[0], (vaddr, access_flags)),
    ensures
        slot@.len() == 0 ==> !handled,
        slot@.len() > 0 ==> call_ensures(slot@[0], (vaddr, access_flags), handled),
{
    match slot.first() {
        Some(handler) => handler(vaddr, access_flags),
        None => false,
    }
}

/// One entry of the exception fixup table: an instruction that may fault, and
/// the address at which execution goes on when it does.
#[derive(Debug, Clone, Copy, PartialEq, Eq, Structural)]
pub struct ExceptionTableEntry {
    /// Address of the instruction that may fault.
    pub from: usize,
    /// Address at which execution goes on after a fault at `from`.
    pub to: usize,
}

/// The order of the table: by faulting address, then by recovery address.
pub open spec fn entry_le(a: ExceptionTableEntry, b: ExceptionTableEntry) -> bool {
    a.from < b.from || (a.from == b.from && a.to <= b.to)
}

/// Whether `entries` stand in the order of the table.
pub open spec fn entries_sorted(entries: Seq<ExceptionTableEntry>) -> bool {
    forall|i: int, j: int| 0 <= i <= j < entries.len() ==> entry_le(entries[i], entries[j])
}

/// Whether the faulting addresses of `entries` ascend.
pub open spec fn ascending_by_from(entries: Seq<ExceptionTableEntry>) -> bool {
    forall|i: int, j: int| 0 <= i <= j < entries.len() ==> entries[i].from <= entries[j].from
}

/// Entries in the order of the table ascend by their faulting addresses.
pub proof fn lemma_sorted_ascends(entries: Seq<ExceptionTableEntry>)
    requires
        entries_sorted(entries),
    ensures
        ascending_by_from(entries),
{
    assert forall|i: int, j: int| 0 <= i <= j < entries.len() implies entries[i].from
        <= entries[j].from by {
        assert(entry_le(entries[i], entries[j]));
    }
}

/// Whether `entries` hold an entry for a fault at exactly `ip`.
pub open spec fn has_fixup(entries: Seq<ExceptionTableEntry>, ip: usize) -> bool {
    exists|i: int| 0 <= i < entries.len() && #[trigger] entries[i].from == ip
}

/// Whether `entries` hold an entry that sends a fault at exactly `ip` to `to`.
pub open spec fn fixes_to(entries: Seq<ExceptionTableEntry>, ip: usize, to: usize) -> bool {
    exists|i: int|
        0 <= i < entries.len() && #[trigger] entries[i] == (ExceptionTableEntry { from: ip, to })
}

/// The exception fixup table, sorted and ready for lookups.
///
/// A table is made once, by [`init_exception_table`], and only read after
/// that.
pub struct ExceptionTable {
    entries: Vec<ExceptionTableEntry>,
}

impl View for ExceptionTable {
    type V = Seq<ExceptionTableEntry>;

    closed spec fn view(&self) -> Seq<ExceptionTableEntry> {
        self.entries@
    }
}

impl ExceptionTable {
    #[verifier::type_invariant]
    spec fn sorted(&self) -> bool {
        entries_sorted(self.entries@)
    }

    /// Number of entries. Every table is sorted.
    pub fn len(&self) -> (n: usize)
        ensures
            n == self@.len(),
            entries_sorted(self@),
    {
        proof {
            use_type_invariant(self);
        }
        self.entries.len()
    }

    /// The entry at `index`, in the order of the table.
    pub fn get(&self, index: usize) -> (entry: Option<ExceptionTableEntry>)
        ensures
            index < self@.len() ==> entry == Some(self@[index as int]),
            index >= self@.len() ==> entry.is_none(),
    {
        if index < self.entries.len() {
            Some(self.entries[index])
        } else {
            None
        }
    }

    /// Looks for an entry whose faulting address is exactly `ip`, by binary
    /// search, and returns its recovery address.
    ///
    /// Only an exact match counts: an address that lies between two entries
    /// has no fixup.
    pub fn lookup(&self, ip: usize) -> (to: Option<usize>)
        ensures
            entries_sorted(self@),
            to matches Some(target) ==> fixes_to(self@, ip, target),
            to.is_none() <==> !has_fixup(self@, ip),
    {
        proof {
            use_type_invariant(self);
        }
        let mut lo: usize = 0;
        let mut hi: usize = self.entries.len();
        while lo < hi
            invariant
                lo <= hi <= self.entries@.len(),
                entries_sorted(self.entries@),
                forall|i: int| 0 <= i < lo ==> self.entries@[i].from < ip,
                forall|i: int| hi <= i < self.entries@.len() ==> self.entries@[i].from > ip,
            decreases hi - lo,
        {
            let mid: usize = lo + (hi - lo) / 2;
            let entry = self.entries[mid];
            if entry.from == ip {
                assert(self.entries@[mid as int] == (ExceptionTableEntry { from: ip, to: entry.to }));
                return Some(entry.to);
            } else if entry.from < ip {
                assert forall|i: int| 0 <= i < mid + 1 implies self.entries@[i].from < ip by {
                    assert(entry_le(self.entries@[i], self.entries@[mid as int]));
                }
                lo = mid + 1;
            } else {
                assert forall|i: int| mid <= i < self.entries@.len() implies self.entries@[i].from
                    > ip by {
                    assert(entry_le(self.entries@[mid as int], self.entries@[i]));
                }
                hi = mid;
            }
        }
        None
    }
}

/// Inserts `entry` into the sorted `entries` at its place in the order.
fn insert_sorted(entries: &mut Vec<ExceptionTableEntry>, entry: ExceptionTableEntry)
    requires
        entries_sorted(old(entries)@),
    ensures
        entries_sorted(final(entries)@),
        final(entries)@.to_multiset() == old(entries)@.to_multiset().insert(entry),
{
    let mut at: usize = 0;
    while at < entries.len() && (entries[at].from < entry.from || (entries[at].from == entry.from
        && entries[at].to <= entry.to))
        invariant
            at <= entries@.len(),
            entries@ == old(entries)@,
            forall|i: int| 0 <= i < at ==> entry_le(entries@[i], entry),
        decreases entries@.len() - at,
    {
        at += 1;
    }
    let ghost before = entries@;
    entries.insert(at, entry);
    proof {
        to_multiset_insert(before, at as int, entry);
        let after = entries@;
        assert forall|i: int, j: int| 0 <= i <= j < after.len() implies entry_le(
            after[i],
            after[j],
        ) by {
            if j < at {
                assert(after[i] == before[i] && after[j] == before[j]);
            } else if j == at {
                if i < at {
                    assert(after[i] == before[i]);
                }
            } else {
                assert(after[j] == before[j - 1]);
                if i < at {
                    assert(after[i] == before[i]);
                    assert(entry_le(before[i], before[j - 1]));
                } else if i == at {
                    assert(!entry_le(before[at as int], entry));
                    assert(entry_le(before[at as int], before[j - 1]));
                } else {
                    assert(after[i] == before[i - 1]);
                    assert(entry_le(before[i - 1], before[j - 1]));
                }
            }
        }
    }
}

/// Sorts the entries that were collected for the fixup table and makes the
/// table of them.
///
/// The table holds the same entries, each as often as it was given, in the
/// order of [`entry_le`]; this fixes the table.
pub fn init_exception_table(entries: Vec<ExceptionTableEntry>) -> (table: ExceptionTable)
    ensures
        entries_sorted(table@),
        ascending_by_from(table@),
        table@.to_multiset() == entries@.to_multiset(),
        table@.len() == entries@.len(),
        forall|ip: usize| has_fixup(table@, ip) <==> has_fixup(entries@, ip),
        forall|ip: usize, to: usize| fixes_to(table@, ip, to) <==> fixes_to(entries@, ip, to),
{
    let mut sorted: Vec<ExceptionTableEntry> = Vec::new();
    let mut next: usize = 0;
    proof {
        assert(entries@.subrange(0, 0) == Seq::<ExceptionTableEntry>::empty());
        assert(sorted@ == Seq::<ExceptionTableEntry>::empty());
    }
    while next < entries.len()
        invariant
            next <= entries@.len(),
            entries_sorted(sorted@),
            sorted@.to_multiset() == entries@.subrange(0, next as int).to_multiset(),
        decreases entries@.len() - next,
    {
        let entry = entries[next];
        proof {
            let taken = entries@.subrange(0, next as int);
            assert(entries@.subrange(0, next + 1) == taken.push(entry));
            to_multiset_build(taken, entry);
        }
        insert_sorted(&mut sorted, entry);
        next += 1;
    }
    proof {
        assert(entries@.subrange(0, next as int) == entries@);
        to_multiset_len(sorted@);
        to_multiset_len(entries@);
        lemma_sorted_ascends(sorted@);
        lemma_table_keeps_fixups(entries@, sorted@);
    }
    ExceptionTable { entries: sorted }
}

/// Sorting keeps what the collected entries say: the table has a fixup for
/// an address exactly when the collected entries have one, and sends it where
/// one of them sends it.
pub proof fn lemma_table_keeps_fixups(
    entries: Seq<ExceptionTableEntry>,
    table: Seq<ExceptionTableEntry>,
)
    requires
        table.to_multiset() == entries.to_multiset(),
    ensures
        forall|ip: usize| has_fixup(table, ip) <==> has_fixup(entries, ip),
        forall|ip: usize, to: usize| fixes_to(table, ip, to) <==> fixes_to(entries, ip, to),
{
    assert forall|ip: usize, to: usize| fixes_to(table, ip, to) <==> fixes_to(
        entries,
        ip,
        to,
    ) by {
        let entry = ExceptionTableEntry { from: ip, to };
        to_multiset_contains(table, entry);
        to_multiset_contains(entries, entry);
        if fixes_to(table, ip, to) {
            let i = choose|i: int| 0 <= i < table.len() && #[trigger] table[i] == entry;
            assert(table.contains(entry));
            let j = choose|j: int| 0 <= j < entries.len() && entries[j] == entry;
            assert(entries[j] == entry);
        }
        if fixes_to(entries, ip, to) {
            let i = choose|i: int| 0 <= i < entries.len() && #[trigger] entries[i] == entry;
            assert(entries.contains(entry));
            let j = choose|j: int| 0 <= j < table.len() && table[j] == entry;
            assert(table[j] == entry);
        }
    }
    assert forall|ip: usize| has_fixup(table, ip) <==> has_fixup(entries, ip) by {
        if has_fixup(table, ip) {
            let i = choose|i: int| 0 <= i < table.len() && #[trigger] table[i].from == ip;
            assert(table[i] == (ExceptionTableEntry { from: ip, to: table[i].to }));
            assert(fixes_to(table, ip, table[i].to));
            let j = choose|j: int|
                0 <= j < entries.len() && #[trigger] entries[j] == (ExceptionTableEntry {
                    from: ip,
                    to: table[i].to,
                });
            assert(entries[j].from == ip);
        }
        if has_fixup(entries, ip) {
            let i = choose|i: int| 0 <= i < entries.len() && #[trigger] entries[i].from == ip;
            assert(entries[i] == (ExceptionTableEntry { from: ip, to: entries[i].to }));
            assert(fixes_to(entries, ip, entries[i].to));
            let j = choose|j: int|
                0 <= j < table.len() && #[trigger] table[j] == (ExceptionTableEntry {
                    from: ip,
                    to: entries[i].to,
                });
            assert(table[j].from == ip);
        }
    }
}

/// Where no two entries share a faulting address, or those that do agree on
/// the recovery address, a fault at the faulting address of an entry can only
/// be sent to the recovery address of that entry.
pub proof fn lemma_fixup_of_entry(entries: Seq<ExceptionTableEntry>, index: int, to: usize)
    requires
        0 <= index < entries.len(),
        forall|i: int, j: int|
            0 <= i < entries.len() && 0 <= j < entries.len() && entries[i].from == entries[j].from
                ==> entries[i].to == entries[j].to,
        fixes_to(entries, entries[index].from, to),
    ensures
        to == entries[index].to,
{
    let ip = entries[index].from;
    let i = choose|i: int|
        0 <= i < entries.len() && #[trigger] entries[i] == (ExceptionTableEntry { from: ip, to });
    assert(entries[i].from == entries[index].from);
}

impl X86TrapFrame {
    /// Recovers from a fault at the frame's instruction pointer, if the table
    /// has an entry for exactly that address.
    ///
    /// On a match the instruction pointer becomes the entry's recovery
    /// address and the result is `true`; where several entries share the
    /// faulting address, any one of them is taken. Without a match the frame
    /// stays as it is and the result is `false`.
    pub fn fixup_exception(&mut self, table: &ExceptionTable) -> (fixed: bool)
        ensures
            fixed <==> has_fixup(table@, old(self).spec_ip()),
            fixed ==> fixes_to(table@, old(self).spec_ip(), final(self).spec_ip()),
            fixed ==> *final(self) == (X86TrapFrame { rip: final(self).rip, ..*old(self) }),
            !fixed ==> *final(self) == *old(self),
    {
        match table.lookup(self.ip()) {
            Some(to) => {
                self.set_ip(to);
                true
            },
            None => false,
        }
    }
}

impl Aarch64TrapFrame {
    /// Recovers from a fault at the frame's instruction pointer, if the table
    /// has an entry for exactly that address.
    ///
    /// On a match the instruction pointer becomes the entry's recovery
    /// address and the result is `true`; where several entries share the
    /// faulting address, any one of them is taken. Without a match the frame
    /// stays as it is and the result is `false`.
    pub fn fixup_exception(&mut self, table: &ExceptionTable) -> (fixed: bool)
        ensures
            fixed <==> has_fixup(table@, old(self).spec_ip()),
            fixed ==> fixes_to(table@, old(self).spec_ip(), final(self).spec_ip()),
            fixed ==> *final(self) == (Aarch64TrapFrame { elr: final(self).elr, ..*old(self) }),
            !fixed ==> *final(self) == *old(self),
    {
        match table.lookup(self.ip()) {
            Some(to) => {
                self.set_ip(to);
                true
            },
            None => false,
        }
    }
}

/// A captured call stack of `axbacktrace`. Nothing is known of what it
/// holds: that depends on the memory of the machine.
#[verifier::external_type_specification]
#[verifier::external_body]
pub struct ExBacktrace(axbacktrace::Backtrace);

/// `Backtrace::capture_trap` of `axbacktrace` unwinds the stack from the
/// frame pointer `fp` and the instruction pointer `ip` of a trap. It returns
/// for every input; what it returns depends on the memory that it walks, so
/// nothing is claimed of it.
pub assume_specification[ axbacktrace::Backtrace::capture_trap ](
    fp: usize,
    ip: usize,
    ra: usize,
) -> axbacktrace::Backtrace
;

} // verus!
