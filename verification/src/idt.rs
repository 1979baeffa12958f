//! Trap vector table layout, fault policy, and the IRQ dispatch table.
//!
//! The vector table binds each of the 256 CPU vectors to what must handle it:
//! a fixed fault-policy handler, a hardware IRQ trampoline, or nothing. It is
//! built exactly once; only the double-fault entry runs on a dedicated
//! alternate stack, so it stays deliverable when the normal stack is gone.
//! The CPU-side load of the built table, and the `x86-interrupt` entry points
//! themselves, live at the edge outside this library.
//!
//! The IRQ dispatch table is the one mutable piece: sixteen handler slots,
//! one per remapped hardware line, each replaceable after boot. Dispatching a
//! line runs the registered handler and hands back the vector number that the
//! edge must acknowledge to the interrupt controller — strictly after the
//! handler has returned.

use vstd::prelude::*;

verus! {

/// First CPU vector of the sixteen remapped hardware IRQ lines.
pub const PIC_1_OFFSET: u8 = 32;

/// Index of the software-interrupt entry, relative to `PIC_1_OFFSET`.
pub const SOFTWARE_INTERRUPT_INDEX: u8 = 128;

/// The interrupt-stack-table slot reserved for the double-fault handler.
pub const DOUBLE_FAULT_IST_INDEX: u8 = 0;

pub const VEC_DIVIDE_ERROR: u8 = 0;

pub const VEC_NMI: u8 = 2;

pub const VEC_BREAKPOINT: u8 = 3;

pub const VEC_DOUBLE_FAULT: u8 = 8;

pub const VEC_GENERAL_PROTECTION: u8 = 13;

pub const VEC_PAGE_FAULT: u8 = 14;

/// The CPU vector that IRQ line `irq` (or software-interrupt index) is
/// remapped to.
pub open spec fn spec_interrupt_index(irq: u8) -> int {
    PIC_1_OFFSET + irq
}

/// Translate an IRQ line into its CPU vector number.
pub fn interrupt_index(irq: u8) -> (vector: u8)
    requires
        irq <= 223,
    ensures
        vector == spec_interrupt_index(irq),
{
    PIC_1_OFFSET + irq
}

/// The CPU exceptions this kernel binds a fixed handler to.
#[derive(Clone, Copy, Debug, PartialEq, Eq, Structural)]
pub enum FaultKind {
    DivideError,
    NonMaskableInterrupt,
    Breakpoint,
    DoubleFault,
    GeneralProtection,
    PageFault,
    SoftwareInterrupt,
}

/// What a fault handler does after reporting: return to the interrupted
/// context, or never return — the kernel's sole halt mechanism.
#[derive(Clone, Copy, Debug, PartialEq, Eq, Structural)]
pub enum FaultAction {
    Resume,
    Halt,
}

/// The fixed survivable-versus-fatal classification.
pub open spec fn spec_fault_action(kind: FaultKind) -> FaultAction {
    match kind {
        FaultKind::DivideError => FaultAction::Resume,
        FaultKind::NonMaskableInterrupt => FaultAction::Resume,
        FaultKind::Breakpoint => FaultAction::Resume,
        FaultKind::DoubleFault => FaultAction::Halt,
        FaultKind::GeneralProtection => FaultAction::Halt,
        FaultKind::PageFault => FaultAction::Halt,
        FaultKind::SoftwareInterrupt => FaultAction::Resume,
    }
}

/// Classify a fault: the edge handlers report the frame, then either resume
/// the interrupted context or enter the permanent idle loop.
pub fn fault_action(kind: FaultKind) -> (action: FaultAction)
    ensures
        action == spec_fault_action(kind),
{
    match kind {
        FaultKind::DoubleFault => FaultAction::Halt,
        FaultKind::GeneralProtection => FaultAction::Halt,
        FaultKind::PageFault => FaultAction::Halt,
        _ => FaultAction::Resume,
    }
}

/// What one vector is bound to.
#[derive(Clone, Copy, Debug, PartialEq, Eq, Structural)]
pub enum VectorBinding {
    /// A fixed fault-policy handler.
    Fault(FaultKind),
    /// The trampoline that dispatches the given hardware IRQ line.
    HardwareIrq(u8),
    /// No handler installed.
    Unbound,
}

/// One entry of the trap vector table: its binding, and the alternate-stack
/// slot it runs on, if any.
#[derive(Clone, Copy, Debug, PartialEq, Eq, Structural)]
pub struct VectorEntry {
    pub binding: VectorBinding,
    pub alternate_stack: Option<u8>,
}

/// An entry with no alternate stack.
pub open spec fn plain_entry(binding: VectorBinding) -> VectorEntry {
    VectorEntry { binding, alternate_stack: None }
}

/// The binding this kernel gives vector `v`: the six CPU exceptions and the
/// software interrupt are fixed at construction, the sixteen vectors from
/// `PIC_1_OFFSET` dispatch hardware IRQ lines, and only the double-fault
/// entry runs on the dedicated alternate stack.
pub open spec fn spec_vector_entry(v: int) -> VectorEntry {
    if v == VEC_DIVIDE_ERROR {
        plain_entry(VectorBinding::Fault(FaultKind::DivideError))
    } else if v == VEC_NMI {
        plain_entry(VectorBinding::Fault(FaultKind::NonMaskableInterrupt))
    } else if v == VEC_BREAKPOINT {
        plain_entry(VectorBinding::Fault(FaultKind::Breakpoint))
    } else if v == VEC_DOUBLE_FAULT {
        VectorEntry {
            binding: VectorBinding::Fault(FaultKind::DoubleFault),
            alternate_stack: Some(DOUBLE_FAULT_IST_INDEX),
        }
    } else if v == VEC_GENERAL_PROTECTION {
        plain_entry(VectorBinding::Fault(FaultKind::GeneralProtection))
    } else if v == VEC_PAGE_FAULT {
        plain_entry(VectorBinding::Fault(FaultKind::PageFault))
    } else if PIC_1_OFFSET <= v < PIC_1_OFFSET + 16 {
        plain_entry(VectorBinding::HardwareIrq((v - PIC_1_OFFSET) as u8))
    } else if v == spec_interrupt_index(SOFTWARE_INTERRUPT_INDEX) {
        plain_entry(VectorBinding::Fault(FaultKind::SoftwareInterrupt))
    } else {
        plain_entry(VectorBinding::Unbound)
    }
}

/// The trap vector table, built exactly once by `init` and immutable
/// thereafter; the edge loads it into the CPU.
pub struct VectorTable {
    entries: Vec<VectorEntry>,
}

impl VectorTable {
    #[verifier::type_invariant]
    pub closed spec fn wf(self) -> bool {
        self.entries@.len() == 256
    }

    pub closed spec fn view(&self) -> Seq<VectorEntry> {
        self.entries@
    }

    /// Read one entry of the built table.
    pub fn entry(&self, vector: u8) -> (e: VectorEntry)
        ensures
            e == self@[vector as int],
    {
        proof {
            use_type_invariant(self);
        }
        self.entries[vector as usize]
    }
}

/// Reported when loading the built table into the CPU fails; the caller
/// treats it as boot-fatal.
#[derive(Clone, Copy, Debug, PartialEq, Eq, Structural)]
pub enum InitError {
    TableLoad,
}

/// Build the trap vector table. Construction itself cannot fail — the result
/// is `Err` only for the edge's load primitive, which reports through the
/// same type — so success is owed here, with every entry as the policy fixes
/// it.
#[verifier::rlimit(50)]
pub fn init() -> (r: Result<VectorTable, InitError>)
    ensures
        r is Ok,
        r matches Ok(t) ==> t@.len() == 256 && forall|v: int|
            0 <= v < 256 ==> t@[v] == spec_vector_entry(v),
{
    let mut entries: Vec<VectorEntry> = Vec::new();
    let mut v: usize = 0;
    while v < 256
        invariant
            v <= 256,
            entries@.len() == v,
            forall|i: int|
                0 <= i < v ==> entries@[i] == plain_entry(VectorBinding::Unbound),
        decreases 256 - v,
    {
        entries.push(VectorEntry { binding: VectorBinding::Unbound, alternate_stack: None });
        v += 1;
    }
    entries[VEC_DIVIDE_ERROR as usize] = VectorEntry {
        binding: VectorBinding::Fault(FaultKind::DivideError),
        alternate_stack: None,
    };
    entries[VEC_NMI as usize] = VectorEntry {
        binding: VectorBinding::Fault(FaultKind::NonMaskableInterrupt),
        alternate_stack: None,
    };
    entries[VEC_BREAKPOINT as usize] = VectorEntry {
        binding: VectorBinding::Fault(FaultKind::Breakpoint),
        alternate_stack: None,
    };
    entries[VEC_DOUBLE_FAULT as usize] = VectorEntry {
        binding: VectorBinding::Fault(FaultKind::DoubleFault),
        alternate_stack: Some(DOUBLE_FAULT_IST_INDEX),
    };
    entries[VEC_GENERAL_PROTECTION as usize] = VectorEntry {
        binding: VectorBinding::Fault(FaultKind::GeneralProtection),
        alternate_stack: None,
    };
    entries[VEC_PAGE_FAULT as usize] = VectorEntry {
        binding: VectorBinding::Fault(FaultKind::PageFault),
        alternate_stack: None,
    };
    let ghost base = entries@;
    let mut irq: u8 = 0;
    while irq < 16
        invariant
            irq <= 16,
            entries@.len() == 256,
            forall|i: int|
                PIC_1_OFFSET <= i < PIC_1_OFFSET + irq ==> entries@[i] == plain_entry(
                    VectorBinding::HardwareIrq((i - PIC_1_OFFSET) as u8),
                ),
            forall|i: int|
                0 <= i < 256 && !(PIC_1_OFFSET <= i < PIC_1_OFFSET + irq) ==> entries@[i]
                    == base[i],
        decreases 16 - irq,
    {
        let vector = interrupt_index(irq);
        entries[vector as usize] = VectorEntry {
            binding: VectorBinding::HardwareIrq(irq),
            alternate_stack: None,
        };
        irq += 1;
    }
    let swi_vector = interrupt_index(SOFTWARE_INTERRUPT_INDEX);
    entries[swi_vector as usize] = VectorEntry {
        binding: VectorBinding::Fault(FaultKind::SoftwareInterrupt),
        alternate_stack: None,
    };
    assert forall|i: int| 0 <= i < 256 implies entries@[i] == spec_vector_entry(i) by {
        if PIC_1_OFFSET <= i < PIC_1_OFFSET + 16 {
            assert(entries@[i] == plain_entry(
                VectorBinding::HardwareIrq((i - PIC_1_OFFSET) as u8),
            ));
        } else if i == spec_interrupt_index(SOFTWARE_INTERRUPT_INDEX) {
            assert(entries@[i] == plain_entry(VectorBinding::Fault(FaultKind::SoftwareInterrupt)));
        } else {
            assert(entries@[i] == base[i]);
        }
    }
    Ok(VectorTable { entries })
}

/// The silent no-op installed in every IRQ dispatch slot at construction, so
/// that an unregistered line never crashes the kernel.
pub fn default_handler(_irq: u8) {
}

/// The mutable IRQ dispatch table: one handler slot per hardware line. The
/// edge guards the whole table with one mutual-exclusion primitive, shared
/// with interrupt context; registration and dispatch here are its contents.
pub struct IrqTable<F> where F: Fn(u8) {
    handlers: Vec<F>,
}

impl<F> IrqTable<F> where F: Fn(u8) {
    pub closed spec fn view(&self) -> Seq<F> {
        self.handlers@
    }

    /// Sixteen slots, every handler callable on any line number: handlers
    /// run in interrupt context and may not demand anything of their caller.
    pub open spec fn wf(&self) -> bool {
        &&& self@.len() == 16
        &&& forall|i: int, x: u8| 0 <= i < 16 ==> #[trigger] call_requires(self@[i], (x,))
    }

    /// A table with the same handler — normally the silent no-op — in every
    /// slot.
    pub fn new(default: F) -> (t: Self) where F: Copy
        requires
            forall|x: u8| call_requires(default, (x,)),
        ensures
            t.wf(),
            t@.len() == 16,
            forall|i: int| 0 <= i < 16 ==> t@[i] == default,
    {
        let mut handlers: Vec<F> = Vec::new();
        let mut i: usize = 0;
        while i < 16
            invariant
                i <= 16,
                handlers@.len() == i,
                forall|j: int| 0 <= j < i ==> handlers@[j] == default,
            decreases 16 - i,
        {
            handlers.push(default);
            i += 1;
        }
        IrqTable { handlers }
    }
}

/// Replace the slot of line `irq` with `handler`, touching no other slot.
/// Takes effect for the next dispatch onward; a duplicate registration is
/// not an error, it simply overwrites.
pub fn set_handler<F>(table: &mut IrqTable<F>, irq: u8, handler: F) where F: Fn(u8)
    requires
        old(table).wf(),
        irq < 16,
        forall|x: u8| call_requires(handler, (x,)),
    ensures
        final(table).wf(),
        final(table)@ == old(table)@.update(irq as int, handler),
{
    table.handlers[irq as usize] = handler;
}

/// Run the handler registered for line `irq` — the default no-op if nothing
/// was ever registered — and return the vector number whose end-of-interrupt
/// the edge must signal to the controller after the handler has returned.
pub fn dispatch<F>(table: &IrqTable<F>, irq: u8) -> (vector: u8) where F: Fn(u8)
    requires
        table.wf(),
        irq < 16,
    ensures
        call_ensures(table@[irq as int], (irq,), ()),
        vector == spec_interrupt_index(irq),
{
    let handler = &table.handlers[irq as usize];
    handler(irq);
    interrupt_index(irq)
}

} // verus!
