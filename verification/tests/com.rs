//! The COM layer: GUID identifiers, the IUnknown base, reference counting and
//! query-interface.

use cppvtable::com::{
    ComObject,
    ComRefCount,
    IUNKNOWN_SLOT_COUNT,
    QueryInterfaceResult,
    S_OK,
    com_implement_binding,
    com_interface_declaration,
    iunknown_declaration,
};
use cppvtable::convention::WordSize;
use cppvtable::decl::{AbiType, MethodDecl, Receiver};
use cppvtable::generate::{IidScheme, InterfaceDecl, generate_implementation, generate_interface};
use cppvtable::guid::{GUID, parse_guid_string};

fn com_method(params: Vec<AbiType>) -> MethodDecl {
    MethodDecl {
        declared_slot: None,
        receiver: Some(Receiver::Shared),
        is_async: false,
        is_generic: false,
        params,
        ret: Some(AbiType::NamedOther),
    }
}

/// The ICalculator declaration: two methods over the IUnknown base.
fn icalculator() -> InterfaceDecl {
    com_interface_declaration(
        "12345678-1234-5678-9abc-def012345678",
        vec![
            com_method(vec![AbiType::NamedOther, AbiType::NamedOther]),
            com_method(vec![AbiType::NamedOther, AbiType::NamedOther]),
        ],
        false,
    )
    .unwrap()
}

fn icalculator_iid() -> GUID {
    match icalculator().iid {
        IidScheme::Guid(g) => g,
        _ => panic!("COM interface must carry a GUID"),
    }
}

#[test]
fn test_com_interface_iid() {
    let iid = icalculator_iid();
    assert_eq!(iid.data1, 0x12345678);
    assert_eq!(iid.data2, 0x1234);
    assert_eq!(iid.data3, 0x5678);
    assert_eq!(iid.data4, [0x9a, 0xbc, 0xde, 0xf0, 0x12, 0x34, 0x56, 0x78]);
}

#[test]
fn test_com_interface_iid_const() {
    let (data1, _, _, _) = parse_guid_string("12345678-1234-5678-9abc-def012345678").unwrap();
    assert_eq!(data1, 0x12345678);
}

#[test]
fn test_com_vtable_has_iunknown_methods() {
    // IUnknown's three slots precede the two own methods: five pointers.
    let artifacts = generate_interface(&icalculator(), WordSize::Bits64).unwrap();
    let ptr_size = 8;
    assert_eq!(artifacts.record.size_in_bytes(ptr_size), 5 * ptr_size);
}

#[test]
fn test_iunknown_vtable_layout() {
    // IUnknown has 3 methods: QueryInterface, AddRef, Release.
    let decl = iunknown_declaration();
    let artifacts = generate_interface(&decl, WordSize::Bits64).unwrap();
    assert_eq!(artifacts.slot_count, 3);
    assert_eq!(artifacts.record.size_in_bytes(8), 24);
}

#[test]
fn test_derived_interface_vtable_layout() {
    // ICalculator extends IUnknown (3) + 2 own methods = 5 total slots.
    let artifacts = generate_interface(&icalculator(), WordSize::Bits64).unwrap();
    assert_eq!(artifacts.slot_count, 5);
    assert_eq!(artifacts.record.size_in_bytes(8), 5 * 8);
}

#[test]
fn test_vtable_base_field_offset() {
    // The embedded base record is the record's first field.
    let artifacts = generate_interface(&icalculator(), WordSize::Bits64).unwrap();
    assert_eq!(artifacts.record.slot_byte_offset(0, 8), 0);
}

#[test]
fn test_vtable_embeds_iunknown() {
    let iunknown = generate_interface(&iunknown_declaration(), WordSize::Bits64).unwrap();
    let ptr_size = 8;
    assert_eq!(iunknown.record.size_in_bytes(ptr_size), 3 * ptr_size);

    // The derived record embeds those three slots before its own.
    let derived = generate_interface(&icalculator(), WordSize::Bits64).unwrap();
    assert_eq!(derived.record.base_slots, Some(IUNKNOWN_SLOT_COUNT));
}

/// A calculator object: a COM reference count and a base value.
struct Calculator {
    ref_count: ComRefCount,
    base_value: i32,
}

impl Calculator {
    fn new(base: i32) -> Calculator {
        Calculator { ref_count: ComRefCount::new(), base_value: base }
    }

    fn add(&self, a: i32, b: i32) -> i32 {
        self.base_value + a + b
    }

    fn multiply(&self, a: i32, b: i32) -> i32 {
        self.base_value * a * b
    }
}

#[test]
fn test_com_implement_basic() {
    let calc = Calculator::new(10);

    assert_eq!(calc.add(2, 3), 15);
    assert_eq!(calc.multiply(2, 3), 60);
}

#[test]
fn test_com_implement_vtable_calls() {
    // The COM binding starts the calculator's own methods at slot 3.
    let binding = com_implement_binding(
        vec![
            com_method(vec![AbiType::NamedOther, AbiType::NamedOther]),
            com_method(vec![AbiType::NamedOther, AbiType::NamedOther]),
        ],
        0,
    );
    let artifacts = generate_implementation(&binding, WordSize::Bits64).unwrap();
    assert_eq!(artifacts.vtable.first_slot, 3);

    let calc = Calculator::new(10);
    match cppvtable::vtable::enter_entry(&artifacts.vtable.entries[0], 0x2000) {
        cppvtable::vtable::DispatchStep::Call { method_index, this, .. } => {
            assert_eq!(this, 0x2000);
            assert_eq!(method_index, 0);
            assert_eq!(calc.add(1, 2), 13);
        },
        _ => panic!("method slot was reserved"),
    }
    match cppvtable::vtable::enter_entry(&artifacts.vtable.entries[1], 0x2000) {
        cppvtable::vtable::DispatchStep::Call { method_index, .. } => {
            assert_eq!(method_index, 1);
            assert_eq!(calc.multiply(2, 2), 40);
        },
        _ => panic!("method slot was reserved"),
    }
}

#[test]
fn test_com_ref_counting() {
    let mut calc = Calculator::new(10);
    assert_eq!(calc.base_value, 10);

    // Initial ref count is 1.
    assert_eq!(calc.ref_count.count(), 1);

    // AddRef increments.
    let count = calc.ref_count.add_ref();
    assert_eq!(count, 2);
    assert_eq!(calc.ref_count.count(), 2);

    // Release decrements.
    let count = calc.ref_count.release();
    assert_eq!(count, 1);
    assert_eq!(calc.ref_count.count(), 1);
}

#[test]
fn test_com_query_interface() {
    let iid = icalculator_iid();
    let mut obj = ComObject::new(iid, 0x2000);
    assert_eq!(obj.ref_count.count(), 1);

    // Query for the same interface.
    let reply = obj.query_interface(&iid, true);
    match reply {
        QueryInterfaceResult::Granted { hr, interface_ptr } => {
            assert_eq!(hr, S_OK);
            assert!(interface_ptr != 0);
            assert_eq!(interface_ptr, 0x2000);
        },
        _ => panic!("implemented interface must be granted"),
    }

    // The grant took one reference; base value semantics stay intact.
    assert_eq!(obj.ref_count.count(), 2);
    let calc = Calculator::new(10);
    assert_eq!(calc.add(1, 1), 12);

    // Release the extra reference from the query.
    obj.release();
    assert_eq!(obj.ref_count.count(), 1);
}

#[test]
fn test_derived_interface_extends_calculator() {
    // A further derivation: ICalculator's five slots plus one own method.
    let derived = InterfaceDecl {
        base_slots: Some(5),
        convention: cppvtable::convention::CallingConvention::Stdcall,
        iid: IidScheme::NoIid,
        generic_receiver: false,
        methods: vec![com_method(vec![AbiType::NamedOther])],
    };
    let artifacts = generate_interface(&derived, WordSize::Bits64).unwrap();
    assert_eq!(artifacts.slot_count, 6);

    let ptr_size = 8;
    assert_eq!(artifacts.record.size_in_bytes(ptr_size), 6 * ptr_size);
}

#[test]
fn test_generic_interface_iid() {
    let decl = com_interface_declaration(
        "23170f69-40c1-278a-0000-000600600000",
        vec![com_method(vec![AbiType::RawPtr]), com_method(Vec::new())],
        true,
    )
    .unwrap();
    let iid = match decl.iid {
        IidScheme::Guid(g) => g,
        _ => panic!("COM interface must carry a GUID"),
    };
    assert_eq!(iid.data1, 0x23170f69);
    assert_eq!(iid.data2, 0x40c1);
    assert_eq!(iid.data3, 0x278a);
}

#[test]
fn test_generic_interface_vtable_has_typed_this() {
    // A generic interface types the receiver pointer of its function-pointer
    // fields; the slot layout is unchanged: IUnknown's three plus two own.
    let decl = com_interface_declaration(
        "23170f69-40c1-278a-0000-000600600000",
        vec![com_method(vec![AbiType::RawPtr]), com_method(Vec::new())],
        true,
    )
    .unwrap();
    let artifacts = generate_interface(&decl, WordSize::Bits64).unwrap();
    assert_eq!(artifacts.receiver_ptr, cppvtable::generate::ReceiverPtr::Typed);
    let ptr_size = 8;
    assert_eq!(artifacts.record.size_in_bytes(ptr_size), 5 * ptr_size);
}

#[test]
fn test_generic_interface_wrapper_struct() {
    // The wrapper struct is still one vtable pointer; the type marker adds no
    // bytes.
    let handle = cppvtable::layout::compute_struct_layout(&vec![
        cppvtable::layout::AbiField { size: 8, align: 8 },
    ]);
    assert_eq!(handle.size, 8);
}

#[test]
fn test_generic_interface_vtable_layout() {
    let decl = com_interface_declaration(
        "23170f69-40c1-278a-0000-000600600000",
        vec![com_method(vec![AbiType::RawPtr]), com_method(Vec::new())],
        true,
    )
    .unwrap();
    let artifacts = generate_interface(&decl, WordSize::Bits64).unwrap();
    assert_eq!(artifacts.slot_count, 5);
    // The receiver pointer of the generated signatures is typed.
    assert_eq!(artifacts.receiver_ptr, cppvtable::generate::ReceiverPtr::Typed);
}
