use core::cell::Cell;
use trapcore::keyboard::KEYBOARD_IRQ;
use trapcore::pic::PicMasks;
use trapcore::idt::{
    default_handler, dispatch, fault_action, init, interrupt_index, set_handler, FaultAction,
    FaultKind, IrqTable, VectorBinding, DOUBLE_FAULT_IST_INDEX, PIC_1_OFFSET,
};

#[test]
fn interrupt_index_rebases_by_the_pic_offset() {
    assert_eq!(interrupt_index(0), 32);
    assert_eq!(interrupt_index(1), 33);
    assert_eq!(interrupt_index(15), 47);
    assert_eq!(interrupt_index(128), 160);
}

#[test]
fn fault_policy_matches_the_fixed_classification() {
    assert_eq!(fault_action(FaultKind::Breakpoint), FaultAction::Resume);
    assert_eq!(fault_action(FaultKind::DoubleFault), FaultAction::Halt);
    assert_eq!(fault_action(FaultKind::PageFault), FaultAction::Halt);
    assert_eq!(fault_action(FaultKind::GeneralProtection), FaultAction::Halt);
    assert_eq!(fault_action(FaultKind::NonMaskableInterrupt), FaultAction::Resume);
    assert_eq!(fault_action(FaultKind::DivideError), FaultAction::Resume);
    assert_eq!(fault_action(FaultKind::SoftwareInterrupt), FaultAction::Resume);
}

#[test]
fn vector_table_binds_the_fixed_exceptions() {
    let table = init().unwrap();
    assert_eq!(table.entry(0).binding, VectorBinding::Fault(FaultKind::DivideError));
    assert_eq!(table.entry(2).binding, VectorBinding::Fault(FaultKind::NonMaskableInterrupt));
    assert_eq!(table.entry(3).binding, VectorBinding::Fault(FaultKind::Breakpoint));
    assert_eq!(table.entry(8).binding, VectorBinding::Fault(FaultKind::DoubleFault));
    assert_eq!(table.entry(13).binding, VectorBinding::Fault(FaultKind::GeneralProtection));
    assert_eq!(table.entry(14).binding, VectorBinding::Fault(FaultKind::PageFault));
    assert_eq!(table.entry(160).binding, VectorBinding::Fault(FaultKind::SoftwareInterrupt));
}

#[test]
fn only_the_double_fault_entry_uses_the_alternate_stack() {
    let table = init().unwrap();
    for v in 0u16..=255 {
        let entry = table.entry(v as u8);
        if v == 8 {
            assert_eq!(entry.alternate_stack, Some(DOUBLE_FAULT_IST_INDEX));
        } else {
            assert_eq!(entry.alternate_stack, None);
        }
    }
}

#[test]
fn hardware_irq_vectors_dispatch_their_line() {
    let table = init().unwrap();
    for irq in 0u8..16 {
        let entry = table.entry(PIC_1_OFFSET + irq);
        assert_eq!(entry.binding, VectorBinding::HardwareIrq(irq));
    }
    assert_eq!(table.entry(31).binding, VectorBinding::Unbound);
    assert_eq!(table.entry(48).binding, VectorBinding::Unbound);
    assert_eq!(table.entry(255).binding, VectorBinding::Unbound);
}

#[test]
fn unregistered_lines_dispatch_the_default_no_op_and_continue() {
    let table: IrqTable<fn(u8)> = IrqTable::new(default_handler as fn(u8));
    for irq in 0u8..16 {
        let vector = dispatch(&table, irq);
        assert_eq!(vector, PIC_1_OFFSET + irq);
    }
}

#[test]
fn registered_handler_runs_exactly_once_per_dispatch() {
    let count = Cell::new(0u32);
    let default: &dyn Fn(u8) = &|_irq| {};
    let mut table: IrqTable<&dyn Fn(u8)> = IrqTable::new(default);
    let counting: &dyn Fn(u8) = &|irq| {
        assert_eq!(irq, 5);
        count.set(count.get() + 1);
    };
    set_handler(&mut table, 5, counting);
    let vector = dispatch(&table, 5);
    assert_eq!(vector, 37);
    assert_eq!(count.get(), 1);
    dispatch(&table, 5);
    assert_eq!(count.get(), 2);
}

#[test]
fn dispatch_of_other_lines_leaves_a_handler_untouched() {
    let count = Cell::new(0u32);
    let default: &dyn Fn(u8) = &|_irq| {};
    let mut table: IrqTable<&dyn Fn(u8)> = IrqTable::new(default);
    let counting: &dyn Fn(u8) = &|_irq| count.set(count.get() + 1);
    set_handler(&mut table, 3, counting);
    for irq in 0u8..16 {
        if irq != 3 {
            dispatch(&table, irq);
        }
    }
    assert_eq!(count.get(), 0);
}

#[test]
fn replacement_stops_the_previous_handler() {
    let first = Cell::new(0u32);
    let second = Cell::new(0u32);
    let default: &dyn Fn(u8) = &|_irq| {};
    let mut table: IrqTable<&dyn Fn(u8)> = IrqTable::new(default);
    let f1: &dyn Fn(u8) = &|_irq| first.set(first.get() + 1);
    let f2: &dyn Fn(u8) = &|_irq| second.set(second.get() + 1);
    set_handler(&mut table, 1, f1);
    dispatch(&table, 1);
    set_handler(&mut table, 1, f2);
    dispatch(&table, 1);
    assert_eq!(first.get(), 1);
    assert_eq!(second.get(), 1);
}

#[test]
fn keyboard_init_registers_and_unmasks_its_line() {
    let count = Cell::new(0u32);
    let default: &dyn Fn(u8) = &|_irq| {};
    let mut table: IrqTable<&dyn Fn(u8)> = IrqTable::new(default);
    let mut masks = PicMasks { primary: 0xFF, secondary: 0xFF };
    let on_key: &dyn Fn(u8) = &|_irq| count.set(count.get() + 1);
    trapcore::keyboard::init(&mut table, &mut masks, on_key);
    assert_eq!(masks.primary, 0b1111_1101);
    assert_eq!(masks.secondary, 0xFF);
    dispatch(&table, KEYBOARD_IRQ);
    assert_eq!(count.get(), 1);
}
