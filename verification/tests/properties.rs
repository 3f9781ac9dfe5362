//! End-to-end properties: round trips, error variants, edge cases.

use cppvtable::com::{
    ComObject,
    ComRefCount,
    E_NOINTERFACE,
    E_POINTER,
    QueryInterfaceResult,
    S_OK,
    failed,
    iid_iunknown,
    succeeded,
};
use cppvtable::convention::{
    CallingConvention,
    ConventionTag,
    WordSize,
    pointer_size,
    select_convention,
    x86_convention_name,
};
use cppvtable::decl::{
    AbiType,
    FfiViolation,
    MethodDecl,
    MethodError,
    Receiver,
    check_ffi_safe_type,
    validate_method,
};
use cppvtable::demo::{Cat, Dog, Duck, IAnimal};
use cppvtable::generate::{BuildError, ImplBinding, generate_implementation, interface_to_field_name};
use cppvtable::guid::{GUID, GuidParseError, parse_guid_string};
use cppvtable::layout::{AbiField, compute_struct_layout};
use cppvtable::rtti::{HasTypeInfo, InterfaceInfo, TypeInfo};
use cppvtable::vtable::{interface_view_addr, this_adjust};

#[test]
fn test_guid_parse_round_trip() {
    // Parsing the canonical form yields the components; re-serializing yields
    // the same lowercase string.
    let text = "12345678-1234-5678-9abc-def012345678";
    let (d1, d2, d3, d4) = parse_guid_string(text).unwrap();
    assert_eq!(d1, 0x12345678);
    assert_eq!(d2, 0x1234);
    assert_eq!(d3, 0x5678);
    assert_eq!(d4, [0x9a, 0xbc, 0xde, 0xf0, 0x12, 0x34, 0x56, 0x78]);

    let guid = GUID::new(d1, d2, d3, d4);
    assert_eq!(guid.to_canonical_string(), text);
}

#[test]
fn test_guid_uppercase_parses_and_lowers() {
    let (d1, _, _, _) = parse_guid_string("DEADBEEF-0001-0002-0003-004455667788").unwrap();
    assert_eq!(d1, 0xDEADBEEF);
    let guid = GUID::new(d1, 1, 2, [0x00, 0x03, 0x00, 0x44, 0x55, 0x66, 0x77, 0x88]);
    assert_eq!(guid.to_canonical_string(), "deadbeef-0001-0002-0003-004455667788");
}

#[test]
fn test_guid_parse_wrong_length() {
    match parse_guid_string("1234") {
        Err(GuidParseError::WrongLength { len }) => assert_eq!(len, 4),
        _ => panic!("short string must be rejected"),
    }
}

#[test]
fn test_guid_parse_missing_hyphen() {
    match parse_guid_string("123456781234-5678-9abc-def0123456789") {
        Err(GuidParseError::MissingHyphen { position }) => assert_eq!(position, 8),
        _ => panic!("misplaced hyphen must be rejected"),
    }
}

#[test]
fn test_guid_parse_bad_digit() {
    match parse_guid_string("1234567g-1234-5678-9abc-def012345678") {
        Err(GuidParseError::BadHexDigit { position }) => assert_eq!(position, 7),
        _ => panic!("non-hex digit must be rejected"),
    }
}

#[test]
fn test_make_guid_matches_new() {
    let a = cppvtable::guid::make_guid(1, 2, 3, [4, 5, 6, 7, 8, 9, 10, 11]);
    let b = GUID::new(1, 2, 3, [4, 5, 6, 7, 8, 9, 10, 11]);
    assert!(a == b);
}

#[test]
fn test_iunknown_identifier() {
    let iid = iid_iunknown();
    assert_eq!(iid.to_canonical_string(), "00000000-0000-0000-c000-000000000046");
}

#[test]
fn test_refcount_round_trip() {
    // Starting count 1; after add_ref then release, the count returns to 1.
    let mut count = ComRefCount::new();
    assert_eq!(count.count(), 1);
    assert_eq!(count.add_ref(), 2);
    assert_eq!(count.release(), 1);
    assert_eq!(count.count(), 1);

    // Release to zero after balancing every add_ref: two add_refs, three
    // releases in all.
    assert_eq!(count.add_ref(), 2);
    assert_eq!(count.add_ref(), 3);
    assert_eq!(count.release(), 2);
    assert_eq!(count.release(), 1);
    assert_eq!(count.release(), 0);
}

#[test]
fn test_query_interface_grants_and_counts() {
    let iid = GUID::new(0xAAAA0000, 1, 2, [1, 2, 3, 4, 5, 6, 7, 8]);
    let mut obj = ComObject::new(iid, 0x5000);
    assert_eq!(obj.ref_count.count(), 1);

    // The implemented identifier: success, non-null pointer, count +1.
    match obj.query_interface(&iid, true) {
        QueryInterfaceResult::Granted { hr, interface_ptr } => {
            assert_eq!(hr, S_OK);
            assert!(succeeded(hr));
            assert_ne!(interface_ptr, 0);
        },
        _ => panic!("implemented interface must be granted"),
    }
    assert_eq!(obj.ref_count.count(), 2);

    // The universal base identifier is granted too.
    match obj.query_interface(&iid_iunknown(), true) {
        QueryInterfaceResult::Granted { .. } => {},
        _ => panic!("the base interface must be granted"),
    }
    assert_eq!(obj.ref_count.count(), 3);

    // An unrelated identifier: failure, null pointer, count unchanged.
    let other = GUID::new(0xBBBB0000, 1, 2, [1, 2, 3, 4, 5, 6, 7, 8]);
    match obj.query_interface(&other, true) {
        QueryInterfaceResult::Denied { hr } => {
            assert_eq!(hr, E_NOINTERFACE);
            assert!(failed(hr));
        },
        _ => panic!("an unrelated interface must be denied"),
    }
    assert_eq!(obj.ref_count.count(), 3);

    // A null out-pointer: the dedicated code, nothing written, count
    // unchanged.
    match obj.query_interface(&iid, false) {
        QueryInterfaceResult::BadPointer { hr } => assert_eq!(hr, E_POINTER),
        _ => panic!("a null out-pointer must be reported"),
    }
    assert_eq!(obj.ref_count.count(), 3);
}

#[test]
fn test_cast_to_scenario() {
    // Entries {A: offset 0, B: offset 8}: casting to A returns the pointer
    // unchanged, to B the pointer plus 8, to an unlisted C the null sentinel.
    let a = 0xA;
    let b = 0xB;
    let c = 0xC;
    let descriptor = TypeInfo::new(
        1,
        "Scenario",
        vec![InterfaceInfo::new(a, 0), InterfaceInfo::new(b, 8)],
    );
    let original = 0xD000usize;

    assert_eq!(descriptor.cast_to(original, a), Some(original));
    assert_eq!(descriptor.cast_to(original, b), Some(original + 8));
    assert_eq!(descriptor.cast_to(original, c), None);
}

#[test]
fn test_this_adjustment_round_trip() {
    let object_addr = 0xE000usize;
    let offset = 24usize;
    let view = interface_view_addr(object_addr, offset);
    assert_eq!(view, object_addr + offset);
    assert_eq!(this_adjust(view, offset), object_addr);
    // Offset 0 is still adjusted, a no-op by arithmetic.
    assert_eq!(this_adjust(object_addr, 0), object_addr);
}

#[test]
fn test_derived_slot_count_scenario() {
    // Base slot count 3 and 2 own methods: 5 slots, 5 pointer sizes of record.
    let decl = cppvtable::generate::InterfaceDecl {
        base_slots: Some(3),
        convention: CallingConvention::Stdcall,
        iid: cppvtable::generate::IidScheme::NoIid,
        generic_receiver: false,
        methods: vec![simple_method(None), simple_method(None)],
    };
    let artifacts =
        cppvtable::generate::generate_interface(&decl, WordSize::Bits64).unwrap();
    assert_eq!(artifacts.slot_count, 5);
    assert_eq!(artifacts.record.size_in_bytes(8), 5 * 8);
}

fn simple_method(slot: Option<usize>) -> MethodDecl {
    MethodDecl {
        declared_slot: slot,
        receiver: Some(Receiver::Shared),
        is_async: false,
        is_generic: false,
        params: Vec::new(),
        ret: Some(AbiType::NamedOther),
    }
}

#[test]
fn test_convention_selection() {
    // Pure function of preference and word size: the preference on 32 bits,
    // the unified convention on 64.
    assert_eq!(
        select_convention(CallingConvention::Thiscall, WordSize::Bits32),
        ConventionTag::Thiscall
    );
    assert_eq!(
        select_convention(CallingConvention::Stdcall, WordSize::Bits32),
        ConventionTag::Stdcall
    );
    assert_eq!(
        select_convention(CallingConvention::Thiscall, WordSize::Bits64),
        ConventionTag::Unified
    );
    assert_eq!(
        select_convention(CallingConvention::Stdcall, WordSize::Bits64),
        ConventionTag::Unified
    );
    assert_eq!(x86_convention_name(CallingConvention::Thiscall), "thiscall");
    assert_eq!(x86_convention_name(CallingConvention::Stdcall), "stdcall");
    assert_eq!(pointer_size(WordSize::Bits32), 4);
    assert_eq!(pointer_size(WordSize::Bits64), 8);
}

#[test]
fn test_ffi_type_check_rejections() {
    assert_eq!(
        check_ffi_safe_type(&AbiType::OwnedString),
        Err(FfiViolation::StringNotFfiSafe)
    );
    assert_eq!(check_ffi_safe_type(&AbiType::OwnedVec), Err(FfiViolation::VecNotFfiSafe));
    assert_eq!(check_ffi_safe_type(&AbiType::OwnedBox), Err(FfiViolation::BoxNotFfiSafe));
    assert_eq!(
        check_ffi_safe_type(&AbiType::RefCounted),
        Err(FfiViolation::RefCountedNotFfiSafe)
    );
    assert_eq!(
        check_ffi_safe_type(&AbiType::ResultType),
        Err(FfiViolation::ResultNotFfiSafe)
    );
    assert_eq!(check_ffi_safe_type(&AbiType::BareStr), Err(FfiViolation::StrNotFfiSafe));
    assert_eq!(
        check_ffi_safe_type(&AbiType::SharedRef),
        Err(FfiViolation::ReferenceNotFfiSafe { mutable: false })
    );
    assert_eq!(
        check_ffi_safe_type(&AbiType::ExclusiveRef),
        Err(FfiViolation::ReferenceNotFfiSafe { mutable: true })
    );
    assert_eq!(
        check_ffi_safe_type(&AbiType::SliceType),
        Err(FfiViolation::SliceNotFfiSafe)
    );
    assert_eq!(
        check_ffi_safe_type(&AbiType::TraitObject),
        Err(FfiViolation::TraitObjectNotFfiSafe)
    );
    assert_eq!(
        check_ffi_safe_type(&AbiType::ImplTrait),
        Err(FfiViolation::ImplTraitNotFfiSafe)
    );
    assert_eq!(
        check_ffi_safe_type(&AbiType::Tuple { arity: 2 }),
        Err(FfiViolation::TupleNotFfiSafe)
    );
    // Accepted shapes.
    assert_eq!(check_ffi_safe_type(&AbiType::Tuple { arity: 0 }), Ok(()));
    assert_eq!(check_ffi_safe_type(&AbiType::OptionType), Ok(()));
    assert_eq!(check_ffi_safe_type(&AbiType::NamedOther), Ok(()));
    assert_eq!(check_ffi_safe_type(&AbiType::RawPtr), Ok(()));
    assert_eq!(check_ffi_safe_type(&AbiType::Other), Ok(()));
}

#[test]
fn test_method_validation_rejections() {
    let good = simple_method(None);
    assert_eq!(validate_method(&good), Ok(()));

    let mut bad = simple_method(None);
    bad.is_async = true;
    assert_eq!(validate_method(&bad), Err(MethodError::AsyncMethod));

    let mut bad = simple_method(None);
    bad.is_generic = true;
    assert_eq!(validate_method(&bad), Err(MethodError::GenericMethod));

    let mut bad = simple_method(None);
    bad.receiver = None;
    assert_eq!(validate_method(&bad), Err(MethodError::MissingReceiver));

    let mut bad = simple_method(None);
    bad.receiver = Some(Receiver::ByValue);
    assert_eq!(validate_method(&bad), Err(MethodError::ReceiverByValue));

    let mut bad = simple_method(None);
    bad.params = vec![AbiType::RawPtr, AbiType::OwnedString];
    assert_eq!(
        validate_method(&bad),
        Err(MethodError::UnsafeParam {
            param_index: 1,
            violation: FfiViolation::StringNotFfiSafe
        })
    );

    let mut bad = simple_method(None);
    bad.ret = Some(AbiType::OwnedVec);
    assert_eq!(
        validate_method(&bad),
        Err(MethodError::UnsafeReturn { violation: FfiViolation::VecNotFfiSafe })
    );
}

#[test]
fn test_generic_impl_rejected() {
    let binding = ImplBinding {
        methods: vec![simple_method(None)],
        first_slot: 0,
        convention: CallingConvention::Thiscall,
        vtable_field_offset: 0,
        interface_id: 1,
        generate_rtti: false,
        generic_impl: true,
    };
    match generate_implementation(&binding, WordSize::Bits64) {
        Err(BuildError::GenericImpl) => {},
        _ => panic!("a generic impl block must be rejected"),
    }
}

#[test]
fn test_field_name_derivation() {
    assert_eq!(
        interface_to_field_name(&b"IAnimal".to_vec()),
        b"vtable_i_animal".to_vec()
    );
    assert_eq!(
        interface_to_field_name(&b"IGearScore".to_vec()),
        b"vtable_i_gear_score".to_vec()
    );
    assert_eq!(interface_to_field_name(&b"IFoo".to_vec()), b"vtable_i_foo".to_vec());
}

#[test]
fn test_layout_edges() {
    // An empty record has size 0 and alignment 1.
    let empty = compute_struct_layout(&Vec::new());
    assert_eq!(empty.size, 0);
    assert_eq!(empty.align, 1);

    // Padding at the tail: one pointer, one byte, padded back to 16.
    let padded = compute_struct_layout(&vec![
        AbiField { size: 8, align: 8 },
        AbiField { size: 1, align: 1 },
    ]);
    assert_eq!(padded.size, 16);

    // Padding in the middle: a byte then a pointer.
    let gap = compute_struct_layout(&vec![
        AbiField { size: 1, align: 1 },
        AbiField { size: 8, align: 8 },
    ]);
    assert_eq!(gap.offsets[1], 8);
    assert_eq!(gap.size, 16);
}

#[test]
fn test_record_layout_consistency() {
    // A vtable record laid out as a C struct of pointer fields has no
    // padding: the layout engine and the slot arithmetic agree on every
    // offset and on the total size.
    let decl = cppvtable::demo::i_slot_test_declaration();
    let artifacts =
        cppvtable::generate::generate_interface(&decl, WordSize::Bits64).unwrap();
    let fields = artifacts.record.layout_fields(8);
    let layout = compute_struct_layout(&fields);
    assert_eq!(layout.size, artifacts.record.size_in_bytes(8));
    for slot in 0..artifacts.slot_count {
        assert_eq!(layout.offsets[slot], artifacts.record.slot_byte_offset(slot, 8));
    }
}

#[test]
fn test_animals() {
    let dog = Dog::new(b"Buddy");
    assert_eq!(dog.legs(), 4);
    assert_eq!(dog.name.len(), 32);
    assert_eq!(&dog.name[..5], b"Buddy");
    assert_eq!(dog.name[5], 0);

    let cat = Cat::new(9);
    assert_eq!(cat.legs(), 4);
    assert_eq!(cat.lives, 9);

    // A name longer than the buffer is truncated to 31 bytes.
    let long = Dog::new(&[7u8; 64]);
    assert_eq!(long.name.len(), 32);
    assert_eq!(long.name[30], 7);
    assert_eq!(long.name[31], 0);
}

#[test]
fn test_type_descriptors_of_demo_types() {
    let duck = Duck::new(3);
    let descriptor = duck.type_info();
    assert_eq!(descriptor.type_id, cppvtable::demo::DUCK_TYPE_ID);
    assert!(descriptor.implements(cppvtable::demo::ISWIMMER_ID));
    assert!(descriptor.implements(cppvtable::demo::IFLYER_ID));
    assert_eq!(descriptor.cast_to(0x100, cppvtable::demo::IFLYER_ID), Some(0x108));

    let dog = Dog::new(b"Rex");
    let descriptor = dog.type_info();
    assert!(descriptor.implements(cppvtable::demo::IANIMAL_ID));
    assert!(!descriptor.implements(cppvtable::demo::IFLYER_ID));
}
