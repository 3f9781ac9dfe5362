//! Explicit slot indices: gaps become reserved entries, and the methods land
//! at exactly the slots they were pinned to.

use cppvtable::convention::{CallingConvention, WordSize};
use cppvtable::decl::{AbiType, MethodDecl, Receiver};
use cppvtable::demo::{ISlotTest, SlotTester, i_slot_test_declaration};
use cppvtable::generate::{IidScheme, InterfaceDecl, generate_interface};
use cppvtable::vtable::{DispatchStep, VTableSlot, enter_entry};

fn getter_at(slot: Option<usize>) -> MethodDecl {
    MethodDecl {
        declared_slot: slot,
        receiver: Some(Receiver::Shared),
        is_async: false,
        is_generic: false,
        params: Vec::new(),
        ret: Some(AbiType::NamedOther),
    }
}

fn plain_interface(methods: Vec<MethodDecl>) -> InterfaceDecl {
    InterfaceDecl {
        base_slots: None,
        convention: CallingConvention::Thiscall,
        iid: IidScheme::PointerIdentity,
        generic_receiver: false,
        methods,
    }
}

#[test]
fn test_vtable_size_with_gaps() {
    // Slots 0, 1, then an explicit 5 and an implicit 6: seven slots in all.
    let decl = i_slot_test_declaration();
    let artifacts = generate_interface(&decl, WordSize::Bits64).unwrap();
    assert_eq!(artifacts.record.size_in_bytes(8), 56, "7 slots = 56 bytes on x64");
    let artifacts32 = generate_interface(&i_slot_test_declaration(), WordSize::Bits32).unwrap();
    assert_eq!(artifacts32.record.size_in_bytes(4), 28, "7 slots = 28 bytes on x86");
}

#[test]
fn test_slot_methods_return_correct_values() {
    let tester = SlotTester::new();

    assert_eq!(tester.method_at_0(), 0);
    assert_eq!(tester.method_at_1(), 1);
    assert_eq!(tester.method_at_5(), 5);
    assert_eq!(tester.method_at_6(), 6);
}

#[test]
fn test_vtable_slot_order() {
    // Walk the generated table: the method entries dispatch to the methods in
    // slot order, with slots 2-4 reserved in between.
    let tester = SlotTester::new();
    let vtable = SlotTester::vtable(0);
    let this = 0x1000usize;

    let mut values: Vec<i32> = Vec::new();
    for slot in [0usize, 1, 5, 6] {
        match enter_entry(&vtable.entries[slot], this) {
            DispatchStep::Call { method_index, this: adjusted, mutable: _ } => {
                assert_eq!(adjusted, this);
                let value = match method_index {
                    0 => tester.method_at_0(),
                    1 => tester.method_at_1(),
                    2 => tester.method_at_5(),
                    _ => tester.method_at_6(),
                };
                values.push(value);
            },
            DispatchStep::ReservedSlotFault { .. } => panic!("method slot was reserved"),
        }
    }
    assert_eq!(values[0], 0);
    assert_eq!(values[1], 1);
    assert_eq!(values[2], 5);
    assert_eq!(values[3], 6);
}

#[test]
fn test_interface_starting_at_slot_3() {
    // First method pinned to slot 3, the next one follows at 4: slots 0-4.
    let decl = plain_interface(vec![getter_at(Some(3)), getter_at(None)]);
    let artifacts = generate_interface(&decl, WordSize::Bits64).unwrap();
    assert_eq!(artifacts.record.size_in_bytes(8), 40, "5 slots = 40 bytes on x64");
}

#[test]
fn test_starts_at_three() {
    // The two methods sit at slots 3 and 4; the slots below are reserved.
    let decl = plain_interface(vec![getter_at(Some(3)), getter_at(None)]);
    let artifacts = generate_interface(&decl, WordSize::Bits64).unwrap();
    let entries = &artifacts.record.entries;
    assert!(matches!(
        entries[3],
        cppvtable::slots::SlotEntry::Method { method_index: 0 }
    ));
    assert!(matches!(
        entries[4],
        cppvtable::slots::SlotEntry::Method { method_index: 1 }
    ));
}

#[test]
fn test_reserved_entry_invocation_is_fatal() {
    // Invoking a reserved slot never reaches a method: it faults, naming the
    // slot.
    let vtable = SlotTester::vtable(0);
    for slot in [2usize, 3, 4] {
        match enter_entry(&vtable.entries[slot], 0x1000) {
            DispatchStep::ReservedSlotFault { slot: s } => assert_eq!(s, slot),
            DispatchStep::Call { .. } => panic!("reserved slot dispatched a call"),
        }
    }
    assert!(matches!(vtable.entries[2], VTableSlot::ReservedStub { slot: 2 }));
}

#[test]
fn test_slot_conflict_is_rejected() {
    // An explicit index below the next free slot fails with the offending
    // method, never a silent reassignment.
    let decl = plain_interface(vec![getter_at(None), getter_at(None), getter_at(Some(1))]);
    match generate_interface(&decl, WordSize::Bits64) {
        Err(cppvtable::generate::BuildError::Slot { conflict }) => {
            assert_eq!(conflict.method_index, 2);
            assert_eq!(conflict.declared_slot, 1);
            assert_eq!(conflict.next_free, 2);
        },
        _ => panic!("conflicting slot was accepted"),
    }
}
