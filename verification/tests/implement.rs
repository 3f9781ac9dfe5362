//! Implementation bindings: the static vtable instance, dispatch through it,
//! and the runtime type metadata entry.

use cppvtable::convention::{CallingConvention, WordSize};
use cppvtable::decl::{AbiType, MethodDecl, Receiver};
use cppvtable::generate::{ImplBinding, generate_implementation};
use cppvtable::layout::{AbiField, compute_struct_layout};
use cppvtable::vtable::{DispatchStep, enter_entry};

/// A counter implementing a three-method interface: get, increment, add.
struct Counter {
    value: i32,
}

impl Counter {
    fn new(initial: i32) -> Counter {
        Counter { value: initial }
    }

    fn get(&self) -> i32 {
        self.value
    }

    fn increment(&mut self) {
        self.value += 1;
    }

    fn add(&mut self, n: i32) {
        self.value += n;
    }
}

fn counter_binding() -> ImplBinding {
    ImplBinding {
        methods: vec![
            MethodDecl {
                declared_slot: None,
                receiver: Some(Receiver::Shared),
                is_async: false,
                is_generic: false,
                params: Vec::new(),
                ret: Some(AbiType::NamedOther),
            },
            MethodDecl {
                declared_slot: None,
                receiver: Some(Receiver::Exclusive),
                is_async: false,
                is_generic: false,
                params: Vec::new(),
                ret: None,
            },
            MethodDecl {
                declared_slot: None,
                receiver: Some(Receiver::Exclusive),
                is_async: false,
                is_generic: false,
                params: vec![AbiType::NamedOther],
                ret: None,
            },
        ],
        first_slot: 0,
        convention: CallingConvention::Thiscall,
        vtable_field_offset: 0,
        interface_id: 0x100,
        generate_rtti: true,
        generic_impl: false,
    }
}

/// Dispatch one slot of the counter's vtable to the counter itself.
fn counter_dispatch(counter: &mut Counter, slot: usize, arg: i32) -> i32 {
    let artifacts = generate_implementation(&counter_binding(), WordSize::Bits64).unwrap();
    match enter_entry(&artifacts.vtable.entries[slot], 0x4000) {
        DispatchStep::Call { method_index, this, mutable } => {
            assert_eq!(this, 0x4000);
            match method_index {
                0 => {
                    assert!(!mutable);
                    counter.get()
                },
                1 => {
                    assert!(mutable);
                    counter.increment();
                    0
                },
                _ => {
                    assert!(mutable);
                    counter.add(arg);
                    0
                },
            }
        },
        DispatchStep::ReservedSlotFault { .. } => panic!("method slot was reserved"),
    }
}

#[test]
fn test_vtable_const_exists() {
    // The static table exists and covers the three methods.
    let artifacts = generate_implementation(&counter_binding(), WordSize::Bits64).unwrap();
    assert!(!artifacts.vtable.entries.is_empty());
}

#[test]
fn test_direct_method_calls() {
    let mut counter = Counter::new(10);
    assert_eq!(counter.get(), 10);

    counter.increment();
    assert_eq!(counter.get(), 11);

    counter.add(5);
    assert_eq!(counter.get(), 16);
}

#[test]
fn test_vtable_calls() {
    let mut counter = Counter::new(0);

    let val = counter_dispatch(&mut counter, 0, 0);
    assert_eq!(val, 0);

    counter_dispatch(&mut counter, 1, 0);
    let val = counter_dispatch(&mut counter, 0, 0);
    assert_eq!(val, 1);

    counter_dispatch(&mut counter, 2, 10);
    let val = counter_dispatch(&mut counter, 0, 0);
    assert_eq!(val, 11);
}

#[test]
fn test_polymorphic_calls() {
    let mut counter = Counter::new(5);

    assert_eq!(counter_dispatch(&mut counter, 0, 0), 5);
    counter_dispatch(&mut counter, 1, 0);
    assert_eq!(counter_dispatch(&mut counter, 0, 0), 6);
    counter_dispatch(&mut counter, 2, 4);
    assert_eq!(counter_dispatch(&mut counter, 0, 0), 10);
}

#[test]
fn implement_test_struct_layout() {
    // A counter across the boundary: the vtable pointer at offset 0, the
    // value right after it.
    let layout = compute_struct_layout(&vec![
        AbiField { size: 8, align: 8 },
        AbiField { size: 4, align: 4 },
    ]);
    assert_eq!(layout.offsets[0], 0);
    assert_eq!(layout.offsets[1], 8);
}

/// A thing with a name buffer and a length, read back through its vtable.
struct NamedThing {
    name: Vec<u8>,
    len: usize,
}

impl NamedThing {
    fn new(s: &[u8]) -> NamedThing {
        let len = s.len().min(31);
        let mut name = s[..len].to_vec();
        name.resize(32, 0);
        NamedThing { name, len }
    }

    fn name_bytes(&self) -> &[u8] {
        &self.name[..self.len]
    }

    fn name_len(&self) -> usize {
        self.len
    }
}

#[test]
fn test_complex_struct() {
    let thing = NamedThing::new(b"Hello");

    let binding = ImplBinding {
        methods: vec![
            MethodDecl {
                declared_slot: None,
                receiver: Some(Receiver::Shared),
                is_async: false,
                is_generic: false,
                params: Vec::new(),
                ret: Some(AbiType::RawPtr),
            },
            MethodDecl {
                declared_slot: None,
                receiver: Some(Receiver::Shared),
                is_async: false,
                is_generic: false,
                params: Vec::new(),
                ret: Some(AbiType::NamedOther),
            },
        ],
        first_slot: 0,
        convention: CallingConvention::Thiscall,
        vtable_field_offset: 0,
        interface_id: 0x200,
        generate_rtti: false,
        generic_impl: false,
    };
    let artifacts = generate_implementation(&binding, WordSize::Bits64).unwrap();

    // Slot 0 reads the name bytes, slot 1 the length.
    let bytes = match enter_entry(&artifacts.vtable.entries[0], 0x4000) {
        DispatchStep::Call { method_index: 0, .. } => thing.name_bytes(),
        _ => panic!("slot 0 must dispatch to the first method"),
    };
    let len = match enter_entry(&artifacts.vtable.entries[1], 0x4000) {
        DispatchStep::Call { method_index: 1, .. } => thing.name_len(),
        _ => panic!("slot 1 must dispatch to the second method"),
    };
    assert_eq!(&bytes[..len], b"Hello");
}

#[test]
fn test_interface_id_exists() {
    // Distinct interfaces carry distinct identifiers.
    let id1 = cppvtable::demo::IANIMAL_ID;
    let id2 = cppvtable::demo::ISWIMMER_ID;
    assert_ne!(id1, id2);
}

#[test]
fn test_interface_id_ptr_is_const() {
    // The identifier is a fixed nonzero value.
    let ptr = cppvtable::demo::IANIMAL_ID;
    assert!(ptr != 0);
}

#[test]
fn test_interface_info_const_exists() {
    // The metadata entry pairs the interface identifier with the field
    // offset — offset 0 for a primary interface.
    let artifacts = generate_implementation(&counter_binding(), WordSize::Bits64).unwrap();
    let info = artifacts.rtti.unwrap();

    assert_eq!(info.interface_id, 0x100);
    assert_eq!(info.offset, 0);
}

#[test]
fn test_interface_info_offset() {
    // The recorded offset equals the struct's true field offset.
    let mut binding = counter_binding();
    let layout = compute_struct_layout(&vec![
        AbiField { size: 8, align: 8 },
        AbiField { size: 8, align: 8 },
    ]);
    binding.vtable_field_offset = layout.offsets[1];
    let artifacts = generate_implementation(&binding, WordSize::Bits64).unwrap();
    let info = artifacts.rtti.unwrap();

    assert_eq!(info.offset, layout.offsets[1]);
}
