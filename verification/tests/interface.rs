//! Vtable record shapes generated from plain interface declarations.

use cppvtable::convention::{CallingConvention, WordSize};
use cppvtable::decl::{AbiType, MethodDecl, Receiver};
use cppvtable::generate::{IidScheme, InterfaceDecl, generate_interface};
use cppvtable::layout::{AbiField, compute_struct_layout};

fn method(receiver: Receiver, params: Vec<AbiType>, ret: Option<AbiType>) -> MethodDecl {
    MethodDecl {
        declared_slot: None,
        receiver: Some(receiver),
        is_async: false,
        is_generic: false,
        params,
        ret,
    }
}

fn plain_interface(methods: Vec<MethodDecl>) -> InterfaceDecl {
    InterfaceDecl {
        base_slots: None,
        convention: CallingConvention::Thiscall,
        iid: IidScheme::PointerIdentity,
        generic_receiver: false,
        methods,
    }
}

/// The two-method interface the basic tests use.
fn basic_interface() -> InterfaceDecl {
    plain_interface(vec![
        method(Receiver::Shared, Vec::new(), Some(AbiType::NamedOther)),
        method(Receiver::Exclusive, vec![AbiType::NamedOther], None),
    ])
}

#[test]
fn test_vtable_struct_exists() {
    // The record is generated with the declared shape.
    let artifacts = generate_interface(&basic_interface(), WordSize::Bits64).unwrap();
    let _size = artifacts.record.size_in_bytes(8);
}

#[test]
fn test_vtable_has_correct_size() {
    let artifacts = generate_interface(&basic_interface(), WordSize::Bits64).unwrap();
    let size = artifacts.record.size_in_bytes(8);
    assert_eq!(
        size, 16,
        "VTable should have 2 function pointers (16 bytes on x64)"
    );
    let artifacts32 = generate_interface(&basic_interface(), WordSize::Bits32).unwrap();
    let size32 = artifacts32.record.size_in_bytes(4);
    assert_eq!(
        size32, 8,
        "VTable should have 2 function pointers (8 bytes on x86)"
    );
}

#[test]
fn test_interface_struct_exists() {
    // The interface handle is one vtable pointer.
    let layout = compute_struct_layout(&vec![AbiField { size: 8, align: 8 }]);
    let _size = layout.size;
}

#[test]
fn test_interface_is_single_pointer() {
    let handle64 = compute_struct_layout(&vec![AbiField { size: 8, align: 8 }]);
    assert_eq!(
        handle64.size, 8,
        "Interface should be single pointer (8 bytes on x64)"
    );
    let handle32 = compute_struct_layout(&vec![AbiField { size: 4, align: 4 }]);
    assert_eq!(
        handle32.size, 4,
        "Interface should be single pointer (4 bytes on x86)"
    );
}

#[test]
fn test_repr_c_layout() {
    // Record and handle both align like a pointer.
    let record = compute_struct_layout(&vec![
        AbiField { size: 8, align: 8 },
        AbiField { size: 8, align: 8 },
    ]);
    assert_eq!(record.align, 8);
    let handle = compute_struct_layout(&vec![AbiField { size: 8, align: 8 }]);
    assert_eq!(handle.align, 8);
}

#[test]
fn test_various_return_types() {
    // Five methods with assorted return types: still five pointers.
    let decl = plain_interface(vec![
        method(Receiver::Shared, Vec::new(), None),
        method(Receiver::Shared, Vec::new(), Some(AbiType::NamedOther)),
        method(Receiver::Shared, Vec::new(), Some(AbiType::NamedOther)),
        method(Receiver::Shared, Vec::new(), Some(AbiType::NamedOther)),
        method(Receiver::Shared, Vec::new(), Some(AbiType::RawPtr)),
    ]);
    let artifacts = generate_interface(&decl, WordSize::Bits64).unwrap();
    assert_eq!(artifacts.record.size_in_bytes(8), 40, "5 methods = 40 bytes on x64");
    assert_eq!(artifacts.record.size_in_bytes(4), 20, "5 methods = 20 bytes on x86");
}

#[test]
fn test_methods_with_params() {
    // Parameter lists do not change the vtable size.
    let decl = plain_interface(vec![
        method(Receiver::Shared, Vec::new(), None),
        method(Receiver::Shared, vec![AbiType::NamedOther], None),
        method(Receiver::Shared, vec![AbiType::NamedOther, AbiType::NamedOther], None),
        method(
            Receiver::Shared,
            vec![AbiType::NamedOther, AbiType::NamedOther, AbiType::RawPtr],
            None,
        ),
    ]);
    let artifacts = generate_interface(&decl, WordSize::Bits64).unwrap();
    assert_eq!(artifacts.record.size_in_bytes(8), 32, "4 methods = 32 bytes on x64");
}

#[test]
fn test_mutable_methods() {
    let decl = plain_interface(vec![
        method(Receiver::Shared, Vec::new(), Some(AbiType::NamedOther)),
        method(Receiver::Exclusive, vec![AbiType::NamedOther], None),
        method(Receiver::Exclusive, Vec::new(), None),
    ]);
    let artifacts = generate_interface(&decl, WordSize::Bits64).unwrap();
    assert_eq!(artifacts.record.size_in_bytes(8), 24, "3 methods = 24 bytes on x64");
}
