//! A small menagerie exercising the generator end to end: concrete types,
//! their interface declarations, their ABI shapes as layout input, and the
//! static vtables generated for them.  The build target modelled throughout
//! is 64-bit: pointers are 8 bytes wide.

use vstd::prelude::*;
use crate::convention::{CallingConvention, WordSize};
use crate::decl::{AbiType, MethodDecl, Receiver, spec_method_valid, spec_methods_valid};
use crate::generate::{
    IidScheme,
    ImplBinding,
    InterfaceDecl,
    generate_implementation,
    spec_receiver_mut,
};
use crate::layout::AbiField;
use crate::rtti::{HasTypeInfo, InterfaceInfo, TypeInfo};
use crate::slots::{
    declared_of,
    lemma_implicit_slots_are_dense,
    lemma_next_free_step,
    spec_assigned_slot,
    spec_next_free,
    spec_slots_wf,
};
use crate::vtable::{VTableInstance, VTableSlot};

verus! {

/// Interface identifier of `IAnimal` under the pointer-identity scheme.
pub const IANIMAL_ID: usize = 0x1000;

/// Interface identifier of `ISwimmer` under the pointer-identity scheme.
pub const ISWIMMER_ID: usize = 0x2000;

/// Interface identifier of `IFlyer` under the pointer-identity scheme.
pub const IFLYER_ID: usize = 0x3000;

/// Interface identifier of `ISlotTest` under the pointer-identity scheme.
pub const ISLOT_TEST_ID: usize = 0x4000;

/// Type identifier of `Dog`.
pub const DOG_TYPE_ID: usize = 1;

/// Type identifier of `Cat`.
pub const CAT_TYPE_ID: usize = 2;

/// Type identifier of `Duck`.
pub const DUCK_TYPE_ID: usize = 3;

/// Pointer width of the modelled 64-bit target, in bytes.
pub const PTR_SIZE: usize = 8;

/// A method declaration taking `&self`, no parameters, returning a scalar.
fn getter_method() -> (m: MethodDecl)
    ensures
        m.declared_slot is None,
        m.receiver == Some(Receiver::Shared),
        spec_method_valid(m),
{
    MethodDecl {
        declared_slot: None,
        receiver: Some(Receiver::Shared),
        is_async: false,
        is_generic: false,
        params: Vec::new(),
        ret: Some(AbiType::NamedOther),
    }
}

/// A method declaration taking `&self`, no parameters, returning nothing.
fn action_method() -> (m: MethodDecl)
    ensures
        m.declared_slot is None,
        m.receiver == Some(Receiver::Shared),
        spec_method_valid(m),
{
    MethodDecl {
        declared_slot: None,
        receiver: Some(Receiver::Shared),
        is_async: false,
        is_generic: false,
        params: Vec::new(),
        ret: None,
    }
}

/// A getter pinned to an explicit vtable slot.
fn getter_method_at(slot: usize) -> (m: MethodDecl)
    ensures
        m.declared_slot == Some(slot),
        m.receiver == Some(Receiver::Shared),
        spec_method_valid(m),
{
    MethodDecl {
        declared_slot: Some(slot),
        receiver: Some(Receiver::Shared),
        is_async: false,
        is_generic: false,
        params: Vec::new(),
        ret: Some(AbiType::NamedOther),
    }
}

/// The `IAnimal` declaration: `speak` at slot 0, `legs` at slot 1, the C++
/// member-call convention, no base.
pub fn i_animal_declaration() -> (d: InterfaceDecl)
    ensures
        d.base_slots is None,
        d.convention == CallingConvention::Thiscall,
        !d.generic_receiver,
        d.methods@.len() == 2,
        forall|i: int|
            0 <= i < d.methods@.len() ==> (#[trigger] d.methods@[i].declared_slot) is None,
        forall|i: int|
            0 <= i < d.methods@.len() ==> (#[trigger] d.methods@[i]).receiver == Some(
                Receiver::Shared,
            ),
        spec_methods_valid(d.methods@),
{
    let speak = action_method();
    let legs = getter_method();
    let mut methods: Vec<MethodDecl> = Vec::new();
    methods.push(speak);
    methods.push(legs);
    InterfaceDecl {
        base_slots: None,
        convention: CallingConvention::Thiscall,
        iid: IidScheme::PointerIdentity,
        generic_receiver: false,
        methods,
    }
}

/// The `ISwimmer` declaration: `swim_speed` at slot 0, `swim` at slot 1.
pub fn i_swimmer_declaration() -> (d: InterfaceDecl)
    ensures
        d.base_slots is None,
        d.convention == CallingConvention::Thiscall,
        !d.generic_receiver,
        d.methods@.len() == 2,
        forall|i: int|
            0 <= i < d.methods@.len() ==> (#[trigger] d.methods@[i].declared_slot) is None,
        forall|i: int|
            0 <= i < d.methods@.len() ==> (#[trigger] d.methods@[i]).receiver == Some(
                Receiver::Shared,
            ),
        spec_methods_valid(d.methods@),
{
    let swim_speed = getter_method();
    let swim = action_method();
    let mut methods: Vec<MethodDecl> = Vec::new();
    methods.push(swim_speed);
    methods.push(swim);
    InterfaceDecl {
        base_slots: None,
        convention: CallingConvention::Thiscall,
        iid: IidScheme::PointerIdentity,
        generic_receiver: false,
        methods,
    }
}

/// The `IFlyer` declaration: `fly_speed` at slot 0, `fly` at slot 1.
pub fn i_flyer_declaration() -> (d: InterfaceDecl)
    ensures
        d.base_slots is None,
        d.convention == CallingConvention::Thiscall,
        !d.generic_receiver,
        d.methods@.len() == 2,
        forall|i: int|
            0 <= i < d.methods@.len() ==> (#[trigger] d.methods@[i].declared_slot) is None,
        forall|i: int|
            0 <= i < d.methods@.len() ==> (#[trigger] d.methods@[i]).receiver == Some(
                Receiver::Shared,
            ),
        spec_methods_valid(d.methods@),
{
    let fly_speed = getter_method();
    let fly = action_method();
    let mut methods: Vec<MethodDecl> = Vec::new();
    methods.push(fly_speed);
    methods.push(fly);
    InterfaceDecl {
        base_slots: None,
        convention: CallingConvention::Thiscall,
        iid: IidScheme::PointerIdentity,
        generic_receiver: false,
        methods,
    }
}

/// The `ISlotTest` declaration: methods at slots 0 and 1, one pinned to slot
/// 5 (slots 2–4 become reserved gaps), and one more at slot 6.
pub fn i_slot_test_declaration() -> (d: InterfaceDecl)
    ensures
        d.base_slots is None,
        d.convention == CallingConvention::Thiscall,
        !d.generic_receiver,
        d.methods@.len() == 4,
        spec_methods_valid(d.methods@),
        forall|i: int|
            0 <= i < d.methods@.len() ==> (#[trigger] d.methods@[i]).receiver == Some(
                Receiver::Shared,
            ),
        declared_of(d.methods@) =~= seq![
            Option::<usize>::None,
            Option::<usize>::None,
            Some(5usize),
            Option::<usize>::None,
        ],
        spec_slots_wf(0, declared_of(d.methods@)),
        spec_next_free(0, declared_of(d.methods@)) == 7,
        spec_assigned_slot(0, declared_of(d.methods@), 0) == 0,
        spec_assigned_slot(0, declared_of(d.methods@), 1) == 1,
        spec_assigned_slot(0, declared_of(d.methods@), 2) == 5,
        spec_assigned_slot(0, declared_of(d.methods@), 3) == 6,
{
    let m0 = getter_method();
    let m1 = getter_method();
    let m5 = getter_method_at(5);
    let m6 = getter_method();
    let mut methods: Vec<MethodDecl> = Vec::new();
    methods.push(m0);
    methods.push(m1);
    methods.push(m5);
    methods.push(m6);
    proof {
        lemma_slot_test_resolution(methods@);
    }
    InterfaceDecl {
        base_slots: None,
        convention: CallingConvention::Thiscall,
        iid: IidScheme::PointerIdentity,
        generic_receiver: false,
        methods,
    }
}

/// The slot arithmetic of the `ISlotTest` shape, spelled out: assignments
/// 0, 1, 5 and 6, next free slot 7 afterwards, no conflict.
proof fn lemma_slot_test_resolution(methods: Seq<MethodDecl>)
    requires
        methods.len() == 4,
        methods[0].declared_slot is None,
        methods[1].declared_slot is None,
        methods[2].declared_slot == Some(5usize),
        methods[3].declared_slot is None,
    ensures
        spec_slots_wf(0, declared_of(methods)),
        spec_next_free(0, declared_of(methods)) == 7,
        spec_assigned_slot(0, declared_of(methods), 0) == 0,
        spec_assigned_slot(0, declared_of(methods), 1) == 1,
        spec_assigned_slot(0, declared_of(methods), 2) == 5,
        spec_assigned_slot(0, declared_of(methods), 3) == 6,
{
    let ds = declared_of(methods);
    assert(ds.take(0) =~= Seq::<Option<usize>>::empty());
    assert(spec_next_free(0, ds.take(0)) == 0);
    assert(spec_assigned_slot(0, ds, 0) == 0);
    lemma_next_free_step(0, ds, 0);
    assert(spec_next_free(0, ds.take(1)) == 1);
    assert(spec_assigned_slot(0, ds, 1) == 1);
    lemma_next_free_step(0, ds, 1);
    assert(spec_next_free(0, ds.take(2)) == 2);
    assert(spec_assigned_slot(0, ds, 2) == 5);
    lemma_next_free_step(0, ds, 2);
    assert(spec_next_free(0, ds.take(3)) == 6);
    assert(spec_assigned_slot(0, ds, 3) == 6);
    lemma_next_free_step(0, ds, 3);
    assert(ds.take(4) =~= ds);
    assert(spec_next_free(0, ds) == 7);
    assert forall|m: int| 0 <= m < ds.len() implies #[trigger] spec_assigned_slot(0, ds, m)
        >= spec_next_free(0, ds.take(m)) by {}
}

/// An animal: something with a leg count in vtable slot 1.
pub trait IAnimal {
    /// The leg count this animal reports.
    spec fn spec_legs(&self) -> int;

    /// How many legs the animal has.
    fn legs(&self) -> (r: i32)
        ensures
            r as int == self.spec_legs(),
    ;
}

/// A dog.  Across the boundary it is a vtable pointer followed by a fixed
/// 32-byte name buffer (see `Dog::abi_fields`); here the buffer is the data
/// the trampolines dispatch to.
pub struct Dog {
    /// The name, zero-padded to exactly 32 bytes.
    pub name: Vec<u8>,
}

impl Dog {
    /// Create a dog with the given name, truncated to 31 bytes and
    /// zero-padded to the fixed 32-byte buffer.
    pub fn new(name: &[u8]) -> (r: Dog)
        ensures
            r.name@.len() == 32,
            forall|i: int| 0 <= i < name@.len() && i < 31 ==> r.name@[i] == name@[i],
            forall|i: int|
                (if name@.len() < 31 {
                    name@.len() as int
                } else {
                    31
                }) <= i < 32 ==> r.name@[i] == 0,
    {
        let mut buf: Vec<u8> = Vec::new();
        let n = if name.len() < 31 {
            name.len()
        } else {
            31
        };
        let mut i: usize = 0;
        while i < n
            invariant
                n <= name@.len(),
                n <= 31,
                i <= n,
                buf@.len() == i,
                forall|j: int| 0 <= j < i ==> buf@[j] == name@[j],
            decreases n - i,
        {
            buf.push(name[i]);
            i += 1;
        }
        while i < 32
            invariant
                n <= 31,
                i <= 32,
                n <= i,
                buf@.len() == i,
                forall|j: int| 0 <= j < n ==> buf@[j] == name@[j],
                forall|j: int| n <= j < i ==> buf@[j] == 0,
            decreases 32 - i,
        {
            buf.push(0);
            i += 1;
        }
        Dog { name: buf }
    }

    /// The ABI shape of a dog: the vtable pointer, then the 32-byte buffer.
    pub fn abi_fields(ptr_size: usize) -> (r: Vec<AbiField>)
        ensures
            r@ =~= seq![
                AbiField { size: ptr_size, align: ptr_size },
                AbiField { size: 32usize, align: 1usize },
            ],
    {
        let mut fields: Vec<AbiField> = Vec::new();
        fields.push(AbiField { size: ptr_size, align: ptr_size });
        fields.push(AbiField { size: 32, align: 1 });
        fields
    }
}

impl IAnimal for Dog {
    open spec fn spec_legs(&self) -> int {
        4
    }

    fn legs(&self) -> (r: i32) {
        4
    }
}

impl HasTypeInfo for Dog {
    open spec fn spec_type_info(&self) -> (usize, Seq<InterfaceInfo>) {
        (DOG_TYPE_ID, seq![InterfaceInfo { interface_id: IANIMAL_ID, offset: 0 }])
    }

    fn type_info(&self) -> (t: TypeInfo) {
        let mut interfaces: Vec<InterfaceInfo> = Vec::new();
        interfaces.push(InterfaceInfo { interface_id: IANIMAL_ID, offset: 0 });
        proof {
            assert(interfaces@ =~= self.spec_type_info().1);
        }
        TypeInfo::new(DOG_TYPE_ID, "Dog", interfaces)
    }
}

/// A cat: a vtable pointer, then its number of lives.
pub struct Cat {
    /// How many lives the cat still has.
    pub lives: i32,
}

impl Cat {
    /// Create a cat.
    pub fn new(lives: i32) -> (r: Cat)
        ensures
            r.lives == lives,
    {
        Cat { lives }
    }

    /// The ABI shape of a cat: the vtable pointer, then a 4-byte integer.
    pub fn abi_fields(ptr_size: usize) -> (r: Vec<AbiField>)
        ensures
            r@ =~= seq![
                AbiField { size: ptr_size, align: ptr_size },
                AbiField { size: 4usize, align: 4usize },
            ],
    {
        let mut fields: Vec<AbiField> = Vec::new();
        fields.push(AbiField { size: ptr_size, align: ptr_size });
        fields.push(AbiField { size: 4, align: 4 });
        fields
    }
}

impl IAnimal for Cat {
    open spec fn spec_legs(&self) -> int {
        4
    }

    fn legs(&self) -> (r: i32) {
        4
    }
}

impl HasTypeInfo for Cat {
    open spec fn spec_type_info(&self) -> (usize, Seq<InterfaceInfo>) {
        (CAT_TYPE_ID, seq![InterfaceInfo { interface_id: IANIMAL_ID, offset: 0 }])
    }

    fn type_info(&self) -> (t: TypeInfo) {
        let mut interfaces: Vec<InterfaceInfo> = Vec::new();
        interfaces.push(InterfaceInfo { interface_id: IANIMAL_ID, offset: 0 });
        proof {
            assert(interfaces@ =~= self.spec_type_info().1);
        }
        TypeInfo::new(CAT_TYPE_ID, "Cat", interfaces)
    }
}

/// A duck implements two interfaces: `ISwimmer` through its first vtable
/// pointer at offset 0, `IFlyer` through its second at offset `PTR_SIZE` —
/// the multiple-inheritance shape whose secondary calls need this-adjustment.
pub struct Duck {
    /// The duck's swimming speed; it flies at twice that.
    pub speed: i32,
}

impl Duck {
    /// Create a duck.
    pub fn new(speed: i32) -> (r: Duck)
        ensures
            r.speed == speed,
    {
        Duck { speed }
    }

    /// Swimming speed.
    pub fn swim_speed(&self) -> (r: i32)
        ensures
            r == self.speed,
    {
        self.speed
    }

    /// Flying speed: twice the swimming speed.
    pub fn fly_speed(&self) -> (r: i32)
        requires
            -1073741824 <= self.speed <= 1073741823,
        ensures
            r as int == 2 * self.speed,
    {
        self.speed * 2
    }

    /// The ABI shape of a duck: two vtable pointers, then a 4-byte integer.
    pub fn abi_fields(ptr_size: usize) -> (r: Vec<AbiField>)
        ensures
            r@ =~= seq![
                AbiField { size: ptr_size, align: ptr_size },
                AbiField { size: ptr_size, align: ptr_size },
                AbiField { size: 4usize, align: 4usize },
            ],
    {
        let mut fields: Vec<AbiField> = Vec::new();
        fields.push(AbiField { size: ptr_size, align: ptr_size });
        fields.push(AbiField { size: ptr_size, align: ptr_size });
        fields.push(AbiField { size: 4, align: 4 });
        fields
    }

    /// The static vtable of the (Duck, ISwimmer) pair: the primary
    /// interface, trampolines adjusting by offset 0.
    pub fn vtable_ptr_i_swimmer() -> (v: VTableInstance)
        ensures
            v.first_slot == 0,
            v.entries@.len() == 2,
            v.entries@[0] == (VTableSlot::Trampoline {
                slot: 0usize,
                method_index: 0usize,
                this_offset: 0usize,
                receiver_mut: false,
            }),
            v.entries@[1] == (VTableSlot::Trampoline {
                slot: 1usize,
                method_index: 1usize,
                this_offset: 0usize,
                receiver_mut: false,
            }),
            v.spec_wf(0),
    {
        let decl = i_swimmer_declaration();
        duck_interface_vtable(decl.methods, 0, ISWIMMER_ID)
    }

    /// The static vtable of the (Duck, IFlyer) pair: the secondary
    /// interface, trampolines adjusting by the second vtable pointer's byte
    /// offset.
    pub fn vtable_ptr_i_flyer() -> (v: VTableInstance)
        ensures
            v.first_slot == 0,
            v.entries@.len() == 2,
            v.entries@[0] == (VTableSlot::Trampoline {
                slot: 0usize,
                method_index: 0usize,
                this_offset: PTR_SIZE,
                receiver_mut: false,
            }),
            v.entries@[1] == (VTableSlot::Trampoline {
                slot: 1usize,
                method_index: 1usize,
                this_offset: PTR_SIZE,
                receiver_mut: false,
            }),
            v.spec_wf(PTR_SIZE),
    {
        let decl = i_flyer_declaration();
        duck_interface_vtable(decl.methods, PTR_SIZE, IFLYER_ID)
    }
}

/// Generate the static vtable of one of the duck's interfaces: two methods
/// without explicit slots, both taking `&self`, adjusting by the interface's
/// field offset.
fn duck_interface_vtable(methods: Vec<MethodDecl>, field_offset: usize, interface_id: usize) -> (v:
    VTableInstance)
    requires
        methods@.len() == 2,
        forall|i: int|
            0 <= i < methods@.len() ==> (#[trigger] methods@[i].declared_slot) is None,
        spec_methods_valid(methods@),
        forall|i: int|
            0 <= i < methods@.len() ==> (#[trigger] methods@[i]).receiver == Some(Receiver::Shared),
    ensures
        v.first_slot == 0,
        v.entries@.len() == 2,
        v.entries@[0] == (VTableSlot::Trampoline {
            slot: 0usize,
            method_index: 0usize,
            this_offset: field_offset,
            receiver_mut: false,
        }),
        v.entries@[1] == (VTableSlot::Trampoline {
            slot: 1usize,
            method_index: 1usize,
            this_offset: field_offset,
            receiver_mut: false,
        }),
        v.spec_wf(field_offset),
{
    let binding = ImplBinding {
        methods,
        first_slot: 0,
        convention: CallingConvention::Thiscall,
        vtable_field_offset: field_offset,
        interface_id,
        generate_rtti: true,
        generic_impl: false,
    };
    proof {
        lemma_implicit_slots_are_dense(0, declared_of(binding.methods@));
    }
    let artifacts = match generate_implementation(&binding, WordSize::Bits64) {
        Ok(artifacts) => artifacts,
        Err(_) => vstd::pervasive::unreached(),
    };
    proof {
        let declared = declared_of(binding.methods@);
        let table = artifacts.slot_table@;
        assert(table.len() == 2);
        assert(spec_assigned_slot(0, declared, 0) == 0);
        assert(spec_assigned_slot(0, declared, 1) == 1);
        assert(table[0] == (crate::slots::SlotEntry::Method { method_index: 0usize }));
        assert(table[1] == (crate::slots::SlotEntry::Method { method_index: 1usize }));
        assert(!spec_receiver_mut(binding.methods@[0]));
        assert(!spec_receiver_mut(binding.methods@[1]));
        assert(artifacts.vtable.entries@[0] == (VTableSlot::Trampoline {
            slot: 0usize,
            method_index: 0usize,
            this_offset: field_offset,
            receiver_mut: false,
        }));
        assert(artifacts.vtable.entries@[1] == (VTableSlot::Trampoline {
            slot: 1usize,
            method_index: 1usize,
            this_offset: field_offset,
            receiver_mut: false,
        }));
    }
    artifacts.vtable
}

impl HasTypeInfo for Duck {
    open spec fn spec_type_info(&self) -> (usize, Seq<InterfaceInfo>) {
        (
            DUCK_TYPE_ID,
            seq![
                InterfaceInfo { interface_id: ISWIMMER_ID, offset: 0 },
                InterfaceInfo { interface_id: IFLYER_ID, offset: PTR_SIZE },
            ],
        )
    }

    fn type_info(&self) -> (t: TypeInfo) {
        let mut interfaces: Vec<InterfaceInfo> = Vec::new();
        interfaces.push(InterfaceInfo { interface_id: ISWIMMER_ID, offset: 0 });
        interfaces.push(InterfaceInfo { interface_id: IFLYER_ID, offset: PTR_SIZE });
        proof {
            assert(interfaces@ =~= self.spec_type_info().1);
        }
        TypeInfo::new(DUCK_TYPE_ID, "Duck", interfaces)
    }
}

/// The duck's recorded `IFlyer` offset equals the true field offset of its
/// second vtable pointer under the 64-bit C layout rules — the descriptor and
/// the trampolines can never disagree about it.
pub proof fn lemma_duck_flyer_offset_matches_layout()
    ensures
        crate::layout::spec_field_offset(
            seq![
                AbiField { size: PTR_SIZE, align: PTR_SIZE },
                AbiField { size: PTR_SIZE, align: PTR_SIZE },
                AbiField { size: 4usize, align: 4usize },
            ],
            1,
        ) == PTR_SIZE,
{
    let fields = seq![
        AbiField { size: PTR_SIZE, align: PTR_SIZE },
        AbiField { size: PTR_SIZE, align: PTR_SIZE },
        AbiField { size: 4usize, align: 4usize },
    ];
    assert(crate::layout::spec_field_offset(fields, 0) == 0);
    assert(crate::layout::spec_field_offset(fields, 1) == crate::layout::spec_align_up(8, 8));
}

/// The interface of the slot-index exercise: four methods pinned at slots 0,
/// 1, 5 and 6.
pub trait ISlotTest {
    /// What the slot-0 method reports.
    spec fn spec_method_at_0(&self) -> int;

    /// What the slot-1 method reports.
    spec fn spec_method_at_1(&self) -> int;

    /// What the slot-5 method reports.
    spec fn spec_method_at_5(&self) -> int;

    /// What the slot-6 method reports.
    spec fn spec_method_at_6(&self) -> int;

    /// The method at slot 0.
    fn method_at_0(&self) -> (r: i32)
        ensures
            r as int == self.spec_method_at_0(),
    ;

    /// The method at slot 1.
    fn method_at_1(&self) -> (r: i32)
        ensures
            r as int == self.spec_method_at_1(),
    ;

    /// The method at slot 5.
    fn method_at_5(&self) -> (r: i32)
        ensures
            r as int == self.spec_method_at_5(),
    ;

    /// The method at slot 6.
    fn method_at_6(&self) -> (r: i32)
        ensures
            r as int == self.spec_method_at_6(),
    ;
}

/// The concrete type of the slot-index exercise: each method returns its own
/// slot index.  Across the boundary it is nothing but its vtable pointer.
pub struct SlotTester {}

impl SlotTester {
    /// Create a slot tester.
    pub fn new() -> (r: SlotTester) {
        SlotTester {  }
    }

    /// The ABI shape of a slot tester: just the vtable pointer.
    pub fn abi_fields(ptr_size: usize) -> (r: Vec<AbiField>)
        ensures
            r@ =~= seq![AbiField { size: ptr_size, align: ptr_size }],
    {
        let mut fields: Vec<AbiField> = Vec::new();
        fields.push(AbiField { size: ptr_size, align: ptr_size });
        fields
    }

    /// The static vtable of the (SlotTester, ISlotTest) pair: methods at
    /// slots 0, 1, 5 and 6, reserved stubs filling slots 2–4.
    pub fn vtable(v_field_offset: usize) -> (v: VTableInstance)
        ensures
            v.first_slot == 0,
            v.entries@.len() == 7,
            v.entries@[0] == (VTableSlot::Trampoline {
                slot: 0usize,
                method_index: 0usize,
                this_offset: v_field_offset,
                receiver_mut: false,
            }),
            v.entries@[1] == (VTableSlot::Trampoline {
                slot: 1usize,
                method_index: 1usize,
                this_offset: v_field_offset,
                receiver_mut: false,
            }),
            v.entries@[2] == (VTableSlot::ReservedStub { slot: 2usize }),
            v.entries@[3] == (VTableSlot::ReservedStub { slot: 3usize }),
            v.entries@[4] == (VTableSlot::ReservedStub { slot: 4usize }),
            v.entries@[5] == (VTableSlot::Trampoline {
                slot: 5usize,
                method_index: 2usize,
                this_offset: v_field_offset,
                receiver_mut: false,
            }),
            v.entries@[6] == (VTableSlot::Trampoline {
                slot: 6usize,
                method_index: 3usize,
                this_offset: v_field_offset,
                receiver_mut: false,
            }),
            v.spec_wf(v_field_offset),
    {
        let decl = i_slot_test_declaration();
        let ghost methods_view = decl.methods@;
        let binding = ImplBinding {
            methods: decl.methods,
            first_slot: 0,
            convention: CallingConvention::Thiscall,
            vtable_field_offset: v_field_offset,
            interface_id: ISLOT_TEST_ID,
            generate_rtti: true,
            generic_impl: false,
        };
        let artifacts = match generate_implementation(&binding, WordSize::Bits64) {
            Ok(artifacts) => artifacts,
            Err(_) => vstd::pervasive::unreached(),
        };
        proof {
            let declared = declared_of(binding.methods@);
            let table = artifacts.slot_table@;
            assert(table.len() == 7);
            assert(table[0] == (crate::slots::SlotEntry::Method { method_index: 0usize }));
            assert(table[1] == (crate::slots::SlotEntry::Method { method_index: 1usize }));
            assert(table[5] == (crate::slots::SlotEntry::Method { method_index: 2usize }));
            assert(table[6] == (crate::slots::SlotEntry::Method { method_index: 3usize }));
            assert forall|j: int| j == 2 || j == 3 || j == 4 implies table[j]
                == crate::slots::SlotEntry::Reserved by {
                match table[j] {
                    crate::slots::SlotEntry::Method { method_index } => {
                        let m = method_index as int;
                        assert(0 <= m < 4);
                        assert(spec_assigned_slot(0, declared, m) == j);
                        assert(false);
                    },
                    crate::slots::SlotEntry::Reserved => {},
                }
            }
            assert(!spec_receiver_mut(binding.methods@[0]));
            assert(!spec_receiver_mut(binding.methods@[1]));
            assert(!spec_receiver_mut(binding.methods@[2]));
            assert(!spec_receiver_mut(binding.methods@[3]));
        }
        artifacts.vtable
    }
}

impl ISlotTest for SlotTester {
    open spec fn spec_method_at_0(&self) -> int {
        0
    }

    open spec fn spec_method_at_1(&self) -> int {
        1
    }

    open spec fn spec_method_at_5(&self) -> int {
        5
    }

    open spec fn spec_method_at_6(&self) -> int {
        6
    }

    fn method_at_0(&self) -> (r: i32) {
        0
    }

    fn method_at_1(&self) -> (r: i32) {
        1
    }

    fn method_at_5(&self) -> (r: i32) {
        5
    }

    fn method_at_6(&self) -> (r: i32) {
        6
    }
}

} // verus!
