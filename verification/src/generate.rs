//! The two generation pipelines.  One consumes an interface declaration and
//! produces the vtable record layout, the total slot count and the calling
//! convention for the target; the other consumes an implementation binding —
//! one concrete struct paired with one interface it implements — and produces
//! the static vtable instance populated with this-adjusting trampolines, plus
//! the runtime type metadata entry.  Both reject invalid declarations at
//! build time; nothing invalid ever reaches run time.

use vstd::prelude::*;
use crate::convention::{
    CallingConvention,
    ConventionTag,
    WordSize,
    select_convention,
    spec_selected_convention,
};
use crate::decl::{
    MethodDecl,
    MethodError,
    Receiver,
    spec_first_invalid_method,
    spec_method_error,
    spec_methods_valid,
    validate_methods,
};
use crate::guid::GUID;
use crate::rtti::InterfaceInfo;
use crate::slots::{
    SlotConflict,
    SlotEntry,
    declared_of,
    resolve_slots,
    spec_is_resolved_table,
    spec_next_free,
    spec_slots_wf,
    spec_table_len,
};
use crate::vtable::{VTableInstance, VTableRecord, VTableSlot};

verus! {

/// How an interface is identified at run time.
#[derive(Clone, Copy, Debug)]
pub enum IidScheme {
    /// The address of a per-interface marker: unique within the process.
    PointerIdentity,
    /// A 128-bit GUID, the COM scheme.
    Guid(GUID),
    /// No identifier is generated; the user supplies one.
    NoIid,
}

/// The receiver-pointer type of the generated function-pointer signatures.
#[derive(Clone, Copy, Debug, PartialEq, Eq, Structural)]
pub enum ReceiverPtr {
    /// An opaque untyped pointer; the common case.
    Opaque,
    /// A pointer typed by the interface's type parameter, for generic
    /// interfaces.
    Typed,
}

/// An interface declaration: an ordered method list, an optional base
/// interface given by its slot count, a calling-convention preference, an
/// identifier scheme, and whether the receiver pointer is typed.  Immutable
/// once built.
pub struct InterfaceDecl {
    /// Slot count of the base interface, `None` without one.
    pub base_slots: Option<usize>,
    /// Calling-convention preference.
    pub convention: CallingConvention,
    /// Identifier scheme.
    pub iid: IidScheme,
    /// Whether the interface has type parameters, which type the receiver
    /// pointer of its function-pointer fields.
    pub generic_receiver: bool,
    /// The methods, in declaration order.
    pub methods: Vec<MethodDecl>,
}

/// Why generation rejected its input.
#[derive(Clone, Copy, Debug, PartialEq, Eq, Structural)]
pub enum BuildError {
    /// A method failed validation.
    Method { method_index: usize, error: MethodError },
    /// An explicit slot index collided with or preceded an assigned slot.
    Slot { conflict: SlotConflict },
    /// A generic impl block cannot implement a vtable interface.
    GenericImpl,
}

/// What the interface pipeline produces.
pub struct InterfaceArtifacts {
    /// The vtable record layout: base record first, then the own slots.
    pub record: VTableRecord,
    /// Total slot count, the base's slots included.
    pub slot_count: usize,
    /// The calling convention of every function-pointer field.
    pub convention: ConventionTag,
    /// The receiver-pointer type of the function-pointer fields.
    pub receiver_ptr: ReceiverPtr,
}

/// `c` reports the first slot conflict of the declaration list: its method
/// asked for an explicit slot below the lowest one still free when the method
/// was reached, and everything before it had resolved cleanly.
pub open spec fn spec_is_slot_conflict(
    first_slot: nat,
    declared: Seq<Option<usize>>,
    c: SlotConflict,
) -> bool {
    &&& c.method_index < declared.len()
    &&& declared[c.method_index as int] == Some(c.declared_slot)
    &&& c.next_free == spec_next_free(first_slot, declared.take(c.method_index as int))
    &&& c.declared_slot < c.next_free
    &&& crate::slots::spec_slots_wf_upto(first_slot, declared, c.method_index as int)
}

/// Slot count of the declared base, 0 without one.
pub open spec fn spec_base_count(decl: InterfaceDecl) -> int {
    match decl.base_slots {
        Some(n) => n as int,
        None => 0,
    }
}

/// The machine bounds an interface declaration must respect: explicit slot
/// indices and the base's slot count stay addressable.
pub open spec fn spec_interface_decl_fits(decl: InterfaceDecl) -> bool {
    &&& decl.methods@.len() <= usize::MAX
    &&& forall|i: int|
        0 <= i < decl.methods@.len() && (#[trigger] decl.methods@[i].declared_slot) is Some
            ==> decl.methods@[i].declared_slot->0 + decl.methods@.len() <= usize::MAX
    &&& spec_base_count(decl) + spec_next_free(0, declared_of(decl.methods@)) <= usize::MAX
}

/// Generate the vtable artifacts of one interface declaration: validate every
/// method, resolve the slot assignment (own slots count from 0; the base's
/// slots precede them in the record), and select the calling convention for
/// the target.  The record's field order is exactly the base record, then the
/// own slots ascending; gaps are reserved entries.  Errors name the offending
/// method: the first invalid one, or the first slot conflict after all
/// methods validated.
pub fn generate_interface(decl: &InterfaceDecl, word_size: WordSize) -> (r: Result<
    InterfaceArtifacts,
    BuildError,
>)
    requires
        spec_interface_decl_fits(*decl),
    ensures
        r is Ok <==> spec_methods_valid(decl.methods@) && spec_slots_wf(
            0,
            declared_of(decl.methods@),
        ),
        r matches Ok(a) ==> {
            let declared = declared_of(decl.methods@);
            &&& a.record.base_slots == decl.base_slots
            &&& spec_is_resolved_table(0, declared, a.record.entries@)
            &&& a.slot_count == spec_base_count(*decl) + spec_table_len(0, declared)
            &&& a.convention == spec_selected_convention(decl.convention, word_size)
            &&& a.receiver_ptr == (if decl.generic_receiver {
                ReceiverPtr::Typed
            } else {
                ReceiverPtr::Opaque
            })
        },
        r matches Err(BuildError::Method { method_index, error }) ==> spec_first_invalid_method(
            decl.methods@,
        ) == Some(method_index as int) && spec_method_error(decl.methods@[method_index as int])
            == Some(error),
        r matches Err(BuildError::Slot { conflict }) ==> spec_methods_valid(decl.methods@)
            && !spec_slots_wf(0, declared_of(decl.methods@)) && spec_is_slot_conflict(
            0,
            declared_of(decl.methods@),
            conflict,
        ),
        !(r matches Err(BuildError::GenericImpl)),
{
    if let Err((method_index, error)) = validate_methods(&decl.methods) {
        return Err(BuildError::Method { method_index, error });
    }
    let entries = match resolve_slots(0, &decl.methods) {
        Ok(entries) => entries,
        Err(conflict) => {
            return Err(BuildError::Slot { conflict });
        },
    };
    let base = match decl.base_slots {
        Some(n) => n,
        None => 0,
    };
    let slot_count = base + entries.len();
    let record = VTableRecord { base_slots: decl.base_slots, entries };
    let convention = select_convention(decl.convention, word_size);
    let receiver_ptr = if decl.generic_receiver {
        ReceiverPtr::Typed
    } else {
        ReceiverPtr::Opaque
    };
    Ok(InterfaceArtifacts { record, slot_count, convention, receiver_ptr })
}

/// One concrete struct paired with one interface it implements: the method
/// bodies' declarations, the slot the interface's own methods start at (the
/// base's slot count), and the byte offset of the interface's vtable-pointer
/// field inside the struct — the this-adjustment constant of every
/// trampoline.  A struct implementing several interfaces has one binding per
/// interface, each knowing only its own offset.
pub struct ImplBinding {
    /// The implemented methods, in declaration order.
    pub methods: Vec<MethodDecl>,
    /// First slot of the interface's own methods.
    pub first_slot: usize,
    /// Calling-convention preference of the interface.
    pub convention: CallingConvention,
    /// Byte offset of this interface's vtable-pointer field in the struct.
    pub vtable_field_offset: usize,
    /// The interface's runtime identifier.
    pub interface_id: usize,
    /// Whether to emit the runtime type metadata entry.
    pub generate_rtti: bool,
    /// Whether the impl block declares generic parameters, which is rejected.
    pub generic_impl: bool,
}

/// What the implementation pipeline produces.
pub struct ImplArtifacts {
    /// The resolved slot table the vtable was populated from.
    pub slot_table: Vec<SlotEntry>,
    /// The static vtable: trampolines and reserved stubs in slot order.
    pub vtable: VTableInstance,
    /// The runtime type metadata entry, when asked for: the interface's
    /// identifier with the vtable-pointer field offset.
    pub rtti: Option<InterfaceInfo>,
    /// The calling convention of the generated trampolines.
    pub convention: ConventionTag,
}

/// The machine bounds an implementation binding must respect.
pub open spec fn spec_impl_binding_fits(b: ImplBinding) -> bool {
    &&& b.first_slot + b.methods@.len() <= usize::MAX
    &&& forall|i: int|
        0 <= i < b.methods@.len() && (#[trigger] b.methods@[i].declared_slot) is Some
            ==> b.methods@[i].declared_slot->0 + b.methods@.len() <= usize::MAX
}

/// A method's receiver is exclusive (`&mut self`).
pub open spec fn spec_receiver_mut(m: MethodDecl) -> bool {
    m.receiver == Some(Receiver::Exclusive)
}

/// The static vtable `v` is the one generated for binding `b`: its entries
/// mirror the resolved slot table `table`, a trampoline per method carrying
/// the binding's field offset and the method's receiver mode, a reserved stub
/// per gap.
pub open spec fn spec_is_generated_vtable(
    b: ImplBinding,
    table: Seq<SlotEntry>,
    v: VTableInstance,
) -> bool {
    &&& v.first_slot == b.first_slot
    &&& v.entries@.len() == table.len()
    &&& forall|j: int|
        0 <= j < table.len() ==> #[trigger] v.entries@[j] == match table[j] {
            SlotEntry::Method { method_index } => VTableSlot::Trampoline {
                slot: (b.first_slot + j) as usize,
                method_index,
                this_offset: b.vtable_field_offset,
                receiver_mut: spec_receiver_mut(b.methods@[method_index as int]),
            },
            SlotEntry::Reserved => VTableSlot::ReservedStub { slot: (b.first_slot + j) as usize },
        }
}

/// Generate the implementation artifacts of one binding: validate, resolve
/// the slot assignment starting at the binding's first slot, and populate the
/// static vtable in slot order — one trampoline per method, each adjusting
/// the receiver pointer by the binding's vtable-pointer field offset before
/// dispatch, and one reserved stub per gap, whose invocation is fatal.  When
/// asked for, the runtime type metadata entry pairs the interface identifier
/// with the same field offset the trampolines use — the two can never
/// diverge.
pub fn generate_implementation(b: &ImplBinding, word_size: WordSize) -> (r: Result<
    ImplArtifacts,
    BuildError,
>)
    requires
        spec_impl_binding_fits(*b),
    ensures
        r is Ok <==> !b.generic_impl && spec_methods_valid(b.methods@) && spec_slots_wf(
            b.first_slot as nat,
            declared_of(b.methods@),
        ),
        r matches Ok(a) ==> {
            let declared = declared_of(b.methods@);
            &&& spec_is_resolved_table(b.first_slot as nat, declared, a.slot_table@)
            &&& spec_is_generated_vtable(*b, a.slot_table@, a.vtable)
            &&& a.vtable.spec_wf(b.vtable_field_offset)
            &&& a.rtti == (if b.generate_rtti {
                Some(
                    InterfaceInfo {
                        interface_id: b.interface_id,
                        offset: b.vtable_field_offset,
                    },
                )
            } else {
                Option::<InterfaceInfo>::None
            })
            &&& a.convention == spec_selected_convention(b.convention, word_size)
        },
        r == Err::<ImplArtifacts, BuildError>(BuildError::GenericImpl) <==> b.generic_impl,
        r matches Err(BuildError::Method { method_index, error }) ==> !b.generic_impl
            && spec_first_invalid_method(b.methods@) == Some(method_index as int)
            && spec_method_error(b.methods@[method_index as int]) == Some(error),
        r matches Err(BuildError::Slot { conflict }) ==> !b.generic_impl && spec_methods_valid(
            b.methods@,
        ) && !spec_slots_wf(b.first_slot as nat, declared_of(b.methods@))
            && spec_is_slot_conflict(b.first_slot as nat, declared_of(b.methods@), conflict),
{
    if b.generic_impl {
        return Err(BuildError::GenericImpl);
    }
    if let Err((method_index, error)) = validate_methods(&b.methods) {
        return Err(BuildError::Method { method_index, error });
    }
    let table = match resolve_slots(b.first_slot, &b.methods) {
        Ok(table) => table,
        Err(conflict) => {
            return Err(BuildError::Slot { conflict });
        },
    };
    let ghost declared = declared_of(b.methods@);
    let mut entries: Vec<VTableSlot> = Vec::new();
    let mut j: usize = 0;
    while j < table.len()
        invariant
            spec_is_resolved_table(b.first_slot as nat, declared, table@),
            declared == declared_of(b.methods@),
            b.first_slot + table@.len() <= usize::MAX,
            j <= table@.len(),
            entries@.len() == j,
            forall|m: int|
                0 <= m < j ==> #[trigger] entries@[m] == match table@[m] {
                    SlotEntry::Method { method_index } => VTableSlot::Trampoline {
                        slot: (b.first_slot + m) as usize,
                        method_index,
                        this_offset: b.vtable_field_offset,
                        receiver_mut: spec_receiver_mut(b.methods@[method_index as int]),
                    },
                    SlotEntry::Reserved => VTableSlot::ReservedStub {
                        slot: (b.first_slot + m) as usize,
                    },
                },
        decreases table@.len() - j,
    {
        let entry = match table[j] {
            SlotEntry::Method { method_index } => {
                let receiver_mut = match b.methods[method_index].receiver {
                    Some(Receiver::Exclusive) => true,
                    _ => false,
                };
                VTableSlot::Trampoline {
                    slot: b.first_slot + j,
                    method_index,
                    this_offset: b.vtable_field_offset,
                    receiver_mut,
                }
            },
            SlotEntry::Reserved => VTableSlot::ReservedStub { slot: b.first_slot + j },
        };
        entries.push(entry);
        j += 1;
    }
    let vtable = VTableInstance { first_slot: b.first_slot, entries };
    proof {
        assert(spec_is_generated_vtable(*b, table@, vtable));
        assert(vtable.spec_wf(b.vtable_field_offset));
    }
    let rtti = if b.generate_rtti {
        Some(InterfaceInfo { interface_id: b.interface_id, offset: b.vtable_field_offset })
    } else {
        None
    };
    let convention = select_convention(b.convention, word_size);
    Ok(ImplArtifacts { slot_table: table, vtable, rtti, convention })
}

/// Law: the trampolines of a generated vtable recover the object.  For any
/// object address, a call arriving through the bound interface's view — the
/// object's address plus the binding's vtable-pointer field offset — is
/// dispatched by any method entry of the generated vtable to that method at
/// exactly the object's address, with the method's own receiver mode; and a
/// reserved entry faults instead of calling anything.
pub proof fn lemma_generated_vtable_dispatch(
    b: ImplBinding,
    table: Seq<SlotEntry>,
    v: VTableInstance,
    object_addr: usize,
    j: int,
)
    requires
        spec_is_generated_vtable(b, table, v),
        0 <= j < v.entries@.len(),
        object_addr + b.vtable_field_offset <= usize::MAX,
        b.first_slot + j <= usize::MAX,
    ensures
        table[j] matches SlotEntry::Method { method_index } ==> crate::vtable::spec_dispatch(
            v.entries@[j],
            (object_addr + b.vtable_field_offset) as usize,
        ) == (crate::vtable::DispatchStep::Call {
            method_index,
            this: object_addr,
            mutable: spec_receiver_mut(b.methods@[method_index as int]),
        }),
        table[j] is Reserved ==> crate::vtable::spec_dispatch(
            v.entries@[j],
            (object_addr + b.vtable_field_offset) as usize,
        ) == (crate::vtable::DispatchStep::ReservedSlotFault {
            slot: (b.first_slot + j) as usize,
        }),
{
}

/// A byte is an ASCII uppercase letter.
pub open spec fn spec_is_ascii_upper(b: u8) -> bool {
    65 <= b <= 90
}

/// A byte is an ASCII lowercase letter.
pub open spec fn spec_is_ascii_lower(b: u8) -> bool {
    97 <= b <= 122
}

/// An ASCII letter folded to lowercase; anything else unchanged.
pub open spec fn spec_ascii_lower(b: u8) -> u8 {
    if spec_is_ascii_upper(b) {
        (b + 32) as u8
    } else {
        b
    }
}

/// An uppercase letter gets an underscore before it when it does not start
/// the name and either follows a lowercase letter or precedes one — so runs
/// of capitals like the leading `IA` of `IAnimal` stay together.
pub open spec fn spec_needs_underscore(name: Seq<u8>, j: int) -> bool {
    &&& spec_is_ascii_upper(name[j])
    &&& j > 0
    &&& (spec_is_ascii_lower(name[j - 1]) || (j + 1 < name.len() && spec_is_ascii_lower(
        name[j + 1],
    )))
}

/// The snake-case rendering of the first `i` bytes of an interface name.
pub open spec fn spec_snake_prefix(name: Seq<u8>, i: int) -> Seq<u8>
    decreases i,
{
    if i <= 0 {
        Seq::empty()
    } else {
        let prev = spec_snake_prefix(name, i - 1);
        let with_sep = if spec_needs_underscore(name, i - 1) {
            prev.push(95u8)
        } else {
            prev
        };
        with_sep.push(spec_ascii_lower(name[i - 1]))
    }
}

/// The vtable-pointer field name derived from an interface name: the bytes
/// `vtable_` followed by the name in snake case.
pub open spec fn spec_field_name(name: Seq<u8>) -> Seq<u8> {
    seq![118u8, 116u8, 97u8, 98u8, 108u8, 101u8, 95u8] + spec_snake_prefix(name, name.len() as int)
}

/// Derive the vtable-pointer field name from an interface name's bytes:
/// `IAnimal` becomes `vtable_i_animal`, `IGearScore` becomes
/// `vtable_i_gear_score`.
pub fn interface_to_field_name(name: &Vec<u8>) -> (r: Vec<u8>)
    ensures
        r@ == spec_field_name(name@),
{
    let mut out: Vec<u8> = Vec::new();
    out.push(118);  // v
    out.push(116);  // t
    out.push(97);  // a
    out.push(98);  // b
    out.push(108);  // l
    out.push(101);  // e
    out.push(95);  // _
    let ghost prefix = seq![118u8, 116u8, 97u8, 98u8, 108u8, 101u8, 95u8];
    proof {
        assert(out@ =~= prefix + spec_snake_prefix(name@, 0));
    }
    let n = name.len();
    let mut i: usize = 0;
    while i < n
        invariant
            n == name@.len(),
            i <= n,
            out@ == prefix + spec_snake_prefix(name@, i as int),
            prefix == seq![118u8, 116u8, 97u8, 98u8, 108u8, 101u8, 95u8],
        decreases n - i,
    {
        let c = name[i];
        if 65 <= c && c <= 90 {
            let follows_lower = i > 0 && {
                let p = name[i - 1];
                97 <= p && p <= 122
            };
            let precedes_lower = i + 1 < n && {
                let q = name[i + 1];
                97 <= q && q <= 122
            };
            if i > 0 && (follows_lower || precedes_lower) {
                out.push(95);
            }
            out.push(c + 32);
        } else {
            out.push(c);
        }
        proof {
            assert(out@ =~= prefix + spec_snake_prefix(name@, i + 1));
        }
        i += 1;
    }
    out
}

} // verus!
