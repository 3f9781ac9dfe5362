//! The COM layer: result codes, the three-slot IUnknown base interface, the
//! atomic-style reference counter, and the query-interface rules that hand an
//! interface pointer out together with an implicit reference.

use vstd::prelude::*;
use crate::convention::CallingConvention;
use crate::decl::{AbiType, MethodDecl, Receiver};
use crate::generate::{IidScheme, ImplBinding, InterfaceDecl};
use crate::guid::{GUID, GuidParseError, parse_guid_string, spec_valid_guid_string};
use crate::guid::{spec_guid_data4, spec_hex_group};

verus! {

/// COM result type: zero or positive signals success, negative signals
/// failure.
pub type HRESULT = i32;

/// Success.
pub const S_OK: HRESULT = 0;

/// Success, but returned false.
pub const S_FALSE: HRESULT = 1;

/// No such interface supported.
pub const E_NOINTERFACE: HRESULT = -2147467262;

/// Invalid pointer.
pub const E_POINTER: HRESULT = -2147467261;

/// Unspecified failure.
pub const E_FAIL: HRESULT = -2147467259;

/// Out of memory.
pub const E_OUTOFMEMORY: HRESULT = -2147024882;

/// Invalid argument.
pub const E_INVALIDARG: HRESULT = -2147024809;

/// Not implemented.
pub const E_NOTIMPL: HRESULT = -2147467263;

/// Check if an HRESULT indicates success (non-negative).
pub fn succeeded(hr: HRESULT) -> (r: bool)
    ensures
        r == (hr >= 0),
{
    hr >= 0
}

/// Check if an HRESULT indicates failure (negative).
pub fn failed(hr: HRESULT) -> (r: bool)
    ensures
        r == (hr < 0),
{
    hr < 0
}

/// The universal base-interface identifier,
/// `00000000-0000-0000-c000-000000000046`.
pub open spec fn spec_is_iid_iunknown(g: GUID) -> bool {
    g.data1 == 0 && g.data2 == 0 && g.data3 == 0 && g.data4@ == seq![
        0xC0u8,
        0u8,
        0u8,
        0u8,
        0u8,
        0u8,
        0u8,
        0x46u8,
    ]
}

/// The IUnknown interface identifier,
/// `00000000-0000-0000-c000-000000000046`.
pub fn iid_iunknown() -> (g: GUID)
    ensures
        g.data1 == 0,
        g.data2 == 0,
        g.data3 == 0,
        g.data4@ == seq![0xC0u8, 0u8, 0u8, 0u8, 0u8, 0u8, 0u8, 0x46u8],
{
    let data4: [u8; 8] = [0xC0, 0, 0, 0, 0, 0, 0, 0x46];
    proof {
        broadcast use vstd::array::group_array_axioms;

        assert(data4@ =~= seq![0xC0u8, 0u8, 0u8, 0u8, 0u8, 0u8, 0u8, 0x46u8]);
    }
    GUID { data1: 0, data2: 0, data3: 0, data4 }
}

/// Number of vtable slots of the IUnknown base interface: QueryInterface,
/// AddRef and Release.
pub const IUNKNOWN_SLOT_COUNT: usize = 3;

/// The IUnknown interface declaration: three methods without explicit slots
/// — `query_interface(&self, riid, ppv) -> HRESULT` at slot 0,
/// `add_ref(&self) -> u32` at slot 1, `release(&mut self) -> u32` at slot 2 —
/// with the COM calling convention and no base.
pub fn iunknown_declaration() -> (decl: InterfaceDecl)
    ensures
        decl.base_slots is None,
        decl.convention == CallingConvention::Stdcall,
        !decl.generic_receiver,
        decl.methods@.len() == IUNKNOWN_SLOT_COUNT,
        forall|i: int|
            0 <= i < decl.methods@.len() ==> (#[trigger] decl.methods@[i].declared_slot) is None,
        crate::decl::spec_methods_valid(decl.methods@),
{
    let mut qi_params: Vec<AbiType> = Vec::new();
    qi_params.push(AbiType::RawPtr);
    qi_params.push(AbiType::RawPtr);
    proof {
        assert(qi_params@ =~= seq![AbiType::RawPtr, AbiType::RawPtr]);
    }
    let query_interface = MethodDecl {
        declared_slot: None,
        receiver: Some(Receiver::Shared),
        is_async: false,
        is_generic: false,
        params: qi_params,
        ret: Some(AbiType::NamedOther),
    };
    let add_ref = MethodDecl {
        declared_slot: None,
        receiver: Some(Receiver::Shared),
        is_async: false,
        is_generic: false,
        params: Vec::new(),
        ret: Some(AbiType::NamedOther),
    };
    let release = MethodDecl {
        declared_slot: None,
        receiver: Some(Receiver::Exclusive),
        is_async: false,
        is_generic: false,
        params: Vec::new(),
        ret: Some(AbiType::NamedOther),
    };
    let mut methods: Vec<MethodDecl> = Vec::new();
    methods.push(query_interface);
    methods.push(add_ref);
    methods.push(release);
    proof {
        assert(crate::decl::spec_method_valid(query_interface)) by {
            reveal_with_fuel(crate::decl::spec_first_bad_param, 4);
            assert(query_interface.params@.drop_first() =~= seq![AbiType::RawPtr]);
            assert(query_interface.params@.drop_first().drop_first() =~= Seq::<AbiType>::empty());
        }
        assert(crate::decl::spec_method_valid(add_ref));
        assert(crate::decl::spec_method_valid(release));
        assert(methods@ =~= seq![query_interface, add_ref, release]);
        assert forall|i: int| 0 <= i < methods@.len() implies crate::decl::spec_method_valid(
            #[trigger] methods@[i],
        ) by {}
    }
    InterfaceDecl {
        base_slots: None,
        convention: CallingConvention::Stdcall,
        iid: IidScheme::NoIid,
        generic_receiver: false,
        methods,
    }
}

/// A COM interface declaration: parse the GUID from its canonical string,
/// embed the three-slot IUnknown base, and use the COM calling convention.
/// A malformed GUID string is a build-time failure; no declaration comes out.
pub fn com_interface_declaration(
    guid_str: &str,
    methods: Vec<MethodDecl>,
    generic_receiver: bool,
) -> (r: Result<InterfaceDecl, GuidParseError>)
    ensures
        r is Ok <==> spec_valid_guid_string(guid_str@),
        r matches Ok(decl) ==> {
            &&& decl.base_slots == Some(IUNKNOWN_SLOT_COUNT)
            &&& decl.convention == CallingConvention::Stdcall
            &&& decl.generic_receiver == generic_receiver
            &&& decl.methods@ == methods@
            &&& decl.iid matches IidScheme::Guid(g) && g.data1 as nat == spec_hex_group(
                guid_str@.subrange(0, 8),
            ) && g.data2 as nat == spec_hex_group(guid_str@.subrange(9, 13)) && g.data3 as nat
                == spec_hex_group(guid_str@.subrange(14, 18)) && g.data4@ == spec_guid_data4(
                guid_str@,
            )
        },
{
    let (data1, data2, data3, data4) = match parse_guid_string(guid_str) {
        Ok(parts) => parts,
        Err(e) => {
            return Err(e);
        },
    };
    Ok(
        InterfaceDecl {
            base_slots: Some(IUNKNOWN_SLOT_COUNT),
            convention: CallingConvention::Stdcall,
            iid: IidScheme::Guid(GUID { data1, data2, data3, data4 }),
            generic_receiver,
            methods,
        },
    )
}

/// An implementation binding for a COM interface: the struct's own methods
/// start right after the three IUnknown slots, the COM calling convention is
/// used, and no pointer-identity metadata is emitted (the GUID identifies the
/// interface instead).
pub fn com_implement_binding(methods: Vec<MethodDecl>, vtable_field_offset: usize) -> (b:
    ImplBinding)
    ensures
        b.methods@ == methods@,
        b.first_slot == IUNKNOWN_SLOT_COUNT,
        b.convention == CallingConvention::Stdcall,
        b.vtable_field_offset == vtable_field_offset,
        !b.generate_rtti,
        !b.generic_impl,
{
    ImplBinding {
        methods,
        first_slot: IUNKNOWN_SLOT_COUNT,
        convention: CallingConvention::Stdcall,
        vtable_field_offset,
        interface_id: 0,
        generate_rtti: false,
        generic_impl: false,
    }
}

/// Reference counter for COM objects.  Counts are plain non-negative
/// integers; no destroyed state is modelled — the holder that takes the count
/// to zero destroys the object.
pub struct ComRefCount {
    count: u32,
}

impl ComRefCount {
    /// The current count.
    pub closed spec fn spec_count(&self) -> u32 {
        self.count
    }

    /// Create a new reference counter with count 1.
    pub fn new() -> (r: ComRefCount)
        ensures
            r.spec_count() == 1,
    {
        ComRefCount { count: 1 }
    }

    /// Increment the reference count; returns the new count.
    pub fn add_ref(&mut self) -> (r: u32)
        requires
            old(self).spec_count() < u32::MAX,
        ensures
            final (self).spec_count() == old(self).spec_count() + 1,
            r == final (self).spec_count(),
    {
        self.count = self.count + 1;
        self.count
    }

    /// Decrement the reference count; returns the new count.  When it
    /// reaches 0, the caller should destroy the object.
    pub fn release(&mut self) -> (r: u32)
        requires
            old(self).spec_count() >= 1,
        ensures
            final (self).spec_count() == old(self).spec_count() - 1,
            r == final (self).spec_count(),
    {
        self.count = self.count - 1;
        self.count
    }

    /// Get the current reference count.
    pub fn count(&self) -> (r: u32)
        ensures
            r == self.spec_count(),
    {
        self.count
    }
}

/// The count after a sequence of reference-count operations: `true` is an
/// `add_ref` (+1), `false` a `release` (−1).
pub open spec fn spec_apply_ops(start: int, ops: Seq<bool>) -> int
    decreases ops.len(),
{
    if ops.len() == 0 {
        start
    } else {
        spec_apply_ops(start, ops.drop_last()) + if ops.last() {
            1int
        } else {
            -1int
        }
    }
}

/// How many operations of a sequence are `add_ref`s.
pub open spec fn spec_count_adds(ops: Seq<bool>) -> int
    decreases ops.len(),
{
    if ops.len() == 0 {
        0
    } else {
        spec_count_adds(ops.drop_last()) + if ops.last() {
            1int
        } else {
            0int
        }
    }
}

/// How many operations of a sequence are `release`s.
pub open spec fn spec_count_releases(ops: Seq<bool>) -> int
    decreases ops.len(),
{
    if ops.len() == 0 {
        0
    } else {
        spec_count_releases(ops.drop_last()) + if ops.last() {
            0int
        } else {
            1int
        }
    }
}

/// The count after a sequence of operations is the start plus the `add_ref`s
/// minus the `release`s.
pub proof fn lemma_refcount_balance(start: int, ops: Seq<bool>)
    ensures
        spec_apply_ops(start, ops) == start + spec_count_adds(ops) - spec_count_releases(ops),
    decreases ops.len(),
{
    if ops.len() > 0 {
        lemma_refcount_balance(start, ops.drop_last());
    }
}

/// Law: reference-count round trip.  From any count, an `add_ref` followed by
/// a `release` restores the count — in particular a fresh object's count
/// returns to 1; and whenever a sequence of operations starting from the
/// initial count 1 ends at 0, it held exactly one more `release` than
/// `add_ref`s: as many `release` calls as `add_ref` calls plus the initial
/// reference.
pub proof fn lemma_refcount_round_trip(start: int, ops: Seq<bool>)
    ensures
        spec_apply_ops(start, seq![true, false]) == start,
        spec_apply_ops(1, ops) == 0 ==> spec_count_releases(ops) == spec_count_adds(ops) + 1,
{
    let pair = seq![true, false];
    assert(pair.drop_last() =~= seq![true]);
    assert(seq![true].drop_last() =~= Seq::<bool>::empty());
    assert(spec_apply_ops(start, Seq::<bool>::empty()) == start);
    assert(spec_apply_ops(start, seq![true]) == start + 1);
    assert(spec_apply_ops(start, pair) == start);
    lemma_refcount_balance(1, ops);
}

/// What `query_interface` answers.
#[derive(Clone, Copy, Debug, PartialEq, Eq, Structural)]
pub enum QueryInterfaceResult {
    /// The interface is supported: a success code, the adjusted interface
    /// pointer was written to the out-pointer, and a reference was taken.
    Granted { hr: HRESULT, interface_ptr: usize },
    /// The interface is not supported: a failure code, and a null pointer
    /// was written to the out-pointer.
    Denied { hr: HRESULT },
    /// The out-pointer itself was null: a failure code, and nothing was
    /// written anywhere.
    BadPointer { hr: HRESULT },
}

/// A COM object as the generated IUnknown methods see it: its reference
/// count, the interface identifier it implements, and the address of its
/// vtable-pointer field — what `query_interface` hands out.
pub struct ComObject {
    /// The reference counter.
    pub ref_count: ComRefCount,
    /// The identifier of the implemented interface.
    pub iid: GUID,
    /// Address of the object's vtable-pointer field; never null.
    pub interface_addr: usize,
}

impl ComObject {
    /// A COM object hands out a real interface pointer: never null.
    pub open spec fn wf(&self) -> bool {
        self.interface_addr != 0
    }

    /// Create a COM object model with a fresh count of 1.
    pub fn new(iid: GUID, interface_addr: usize) -> (r: ComObject)
        requires
            interface_addr != 0,
        ensures
            r.wf(),
            r.iid == iid,
            r.interface_addr == interface_addr,
            r.ref_count.spec_count() == 1,
    {
        ComObject { ref_count: ComRefCount::new(), iid, interface_addr }
    }

    /// Query for an interface.  With a valid out-pointer and the implemented
    /// interface's identifier — or the universal base-interface identifier —
    /// the call succeeds: it writes the interface pointer, takes one
    /// reference, and returns a success code.  With any other identifier it
    /// writes a null pointer and returns the no-such-interface code, the
    /// count untouched.  A null out-pointer is answered with the invalid-
    /// pointer code and nothing is written.  Success never comes with a null
    /// pointer, and no write happens without a result code.
    pub fn query_interface(&mut self, riid: &GUID, out_ptr_valid: bool) -> (r:
        QueryInterfaceResult)
        requires
            old(self).wf(),
            old(self).ref_count.spec_count() < u32::MAX,
        ensures
            final (self).wf(),
            final (self).iid == old(self).iid,
            final (self).interface_addr == old(self).interface_addr,
            !out_ptr_valid ==> r == (QueryInterfaceResult::BadPointer { hr: E_POINTER }) && final (
            self).ref_count.spec_count() == old(self).ref_count.spec_count(),
            out_ptr_valid && (*riid == old(self).iid || spec_is_iid_iunknown(*riid)) ==> r == (
            QueryInterfaceResult::Granted {
                hr: S_OK,
                interface_ptr: old(self).interface_addr,
            }) && final (self).ref_count.spec_count() == old(self).ref_count.spec_count() + 1,
            out_ptr_valid && !(*riid == old(self).iid || spec_is_iid_iunknown(*riid)) ==> r == (
            QueryInterfaceResult::Denied { hr: E_NOINTERFACE }) && final (
            self).ref_count.spec_count() == old(self).ref_count.spec_count(),
            r matches QueryInterfaceResult::Granted { hr, interface_ptr } ==> hr == S_OK
                && interface_ptr != 0,
    {
        if !out_ptr_valid {
            return QueryInterfaceResult::BadPointer { hr: E_POINTER };
        }
        let unknown = iid_iunknown();
        proof {
            broadcast use vstd::array::group_array_axioms;

            crate::guid::lemma_guid_eq_is_equality(*riid, self.iid);
            crate::guid::lemma_guid_eq_is_equality(*riid, unknown);
            assert(spec_is_iid_iunknown(unknown));
            if spec_is_iid_iunknown(*riid) {
                assert(riid.data4 =~= unknown.data4);
                assert(*riid == (GUID {
                    data1: unknown.data1,
                    data2: unknown.data2,
                    data3: unknown.data3,
                    data4: unknown.data4,
                }));
                assert(unknown == (GUID {
                    data1: unknown.data1,
                    data2: unknown.data2,
                    data3: unknown.data3,
                    data4: unknown.data4,
                }));
            }
        }
        if *riid == self.iid || *riid == unknown {
            self.ref_count.add_ref();
            QueryInterfaceResult::Granted { hr: S_OK, interface_ptr: self.interface_addr }
        } else {
            QueryInterfaceResult::Denied { hr: E_NOINTERFACE }
        }
    }

    /// Increment the reference count; returns the new count.
    pub fn add_ref(&mut self) -> (r: u32)
        requires
            old(self).ref_count.spec_count() < u32::MAX,
        ensures
            final (self).ref_count.spec_count() == old(self).ref_count.spec_count() + 1,
            r == final (self).ref_count.spec_count(),
            final (self).iid == old(self).iid,
            final (self).interface_addr == old(self).interface_addr,
    {
        self.ref_count.add_ref()
    }

    /// Decrement the reference count; returns the new count.
    pub fn release(&mut self) -> (r: u32)
        requires
            old(self).ref_count.spec_count() >= 1,
        ensures
            final (self).ref_count.spec_count() == old(self).ref_count.spec_count() - 1,
            r == final (self).ref_count.spec_count(),
            final (self).iid == old(self).iid,
            final (self).interface_addr == old(self).interface_addr,
    {
        self.ref_count.release()
    }
}

} // verus!
