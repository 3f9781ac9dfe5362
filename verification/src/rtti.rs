//! Runtime type metadata: which interfaces a concrete type implements, and at
//! which byte offset each interface's vtable pointer sits inside the struct.
//! A generic cast walks the entries and, on a match, adjusts the object
//! address by the recorded offset — a minimal analogue of `dynamic_cast`.
//! Addresses and interface identifiers are plain machine words here.

use vstd::prelude::*;

verus! {

/// Information about a single interface implementation: the interface's
/// process-wide identifier paired with the byte offset from the object's
/// start to that interface's vtable-pointer field.
#[derive(Clone, Copy, Debug, PartialEq, Eq, Structural)]
pub struct InterfaceInfo {
    /// Unique identifier of the interface.
    pub interface_id: usize,
    /// Byte offset from object start to this interface's vtable pointer.
    pub offset: usize,
}

impl InterfaceInfo {
    /// Create a new `InterfaceInfo`.
    pub fn new(interface_id: usize, offset: usize) -> (r: InterfaceInfo)
        ensures
            r == (InterfaceInfo { interface_id, offset }),
    {
        InterfaceInfo { interface_id, offset }
    }
}

/// The index of the first entry carrying the wanted interface identifier.
pub open spec fn spec_find_interface(entries: Seq<InterfaceInfo>, interface_id: usize) -> Option<
    int,
>
    decreases entries.len(),
{
    if entries.len() == 0 {
        None
    } else if entries[0].interface_id == interface_id {
        Some(0int)
    } else {
        match spec_find_interface(entries.drop_first(), interface_id) {
            Some(i) => Some(i + 1),
            None => None,
        }
    }
}

/// Some entry carries the wanted identifier.
pub open spec fn spec_implements(entries: Seq<InterfaceInfo>, interface_id: usize) -> bool {
    exists|i: int| 0 <= i < entries.len() && (#[trigger] entries[i]).interface_id == interface_id
}

/// The find is sound and complete: it returns the first matching index
/// exactly when a match exists.
pub proof fn lemma_find_interface_spec(entries: Seq<InterfaceInfo>, interface_id: usize)
    ensures
        spec_find_interface(entries, interface_id) is Some <==> spec_implements(
            entries,
            interface_id,
        ),
        spec_find_interface(entries, interface_id) matches Some(i) ==> 0 <= i < entries.len()
            && entries[i].interface_id == interface_id && (forall|j: int|
            0 <= j < i ==> (#[trigger] entries[j]).interface_id != interface_id),
    decreases entries.len(),
{
    if entries.len() == 0 {
    } else if entries[0].interface_id == interface_id {
    } else {
        lemma_find_interface_spec(entries.drop_first(), interface_id);
        assert(forall|j: int|
            0 <= j < entries.len() - 1 ==> #[trigger] entries.drop_first()[j] == entries[j + 1]);
        match spec_find_interface(entries.drop_first(), interface_id) {
            Some(ip) => {
                assert(entries.drop_first()[ip] == entries[ip + 1]);
                assert forall|j: int| 0 <= j < ip + 1 implies (#[trigger] entries[j]).interface_id
                    != interface_id by {
                    if j > 0 {
                        assert(entries.drop_first()[j - 1] == entries[j]);
                    }
                }
            },
            None => {},
        }
        if spec_implements(entries, interface_id) {
            let w = choose|i: int|
                0 <= i < entries.len() && (#[trigger] entries[i]).interface_id == interface_id;
            assert(entries.drop_first()[w - 1] == entries[w]);
            assert(spec_implements(entries.drop_first(), interface_id));
        }
        if spec_implements(entries.drop_first(), interface_id) {
            let w = choose|i: int|
                0 <= i < entries.drop_first().len() && (#[trigger] entries.drop_first()[
                    i
                ]).interface_id == interface_id;
            assert(entries[w + 1] == entries.drop_first()[w]);
        }
    }
}

/// Runtime type information for one concrete type: its identifier, a
/// human-readable name, and the interfaces it implements with their offsets.
#[derive(Debug)]
pub struct TypeInfo {
    /// Unique identifier of the concrete type.
    pub type_id: usize,
    /// Human-readable type name.
    pub name: String,
    /// The implemented interfaces with their vtable-pointer field offsets.
    pub interfaces: Vec<InterfaceInfo>,
}

impl TypeInfo {
    /// Create a new `TypeInfo`.
    pub fn new(type_id: usize, name: &str, interfaces: Vec<InterfaceInfo>) -> (r: TypeInfo)
        ensures
            r.type_id == type_id,
            r.name@ == name@,
            r.interfaces@ == interfaces@,
    {
        TypeInfo { type_id, name: name.to_owned(), interfaces }
    }

    /// Whether this type implements the interface with the given identifier.
    pub fn implements(&self, interface_id: usize) -> (r: bool)
        ensures
            r == spec_implements(self.interfaces@, interface_id),
    {
        let n = self.interfaces.len();
        let mut i: usize = 0;
        while i < n
            invariant
                n == self.interfaces@.len(),
                i <= n,
                forall|j: int|
                    0 <= j < i ==> (#[trigger] self.interfaces@[j]).interface_id != interface_id,
            decreases n - i,
        {
            if self.interfaces[i].interface_id == interface_id {
                return true;
            }
            i += 1;
        }
        false
    }

    /// Cast an object address to a different interface: scan the entries and,
    /// on the first match, return the address adjusted by the recorded
    /// offset; `None` is the null sentinel for an unsupported interface.  The
    /// caller vouches that an instance of this described type lives at
    /// `object_addr`.
    pub fn cast_to(&self, object_addr: usize, interface_id: usize) -> (r: Option<usize>)
        requires
            forall|j: int|
                0 <= j < self.interfaces@.len() ==> object_addr + (
                #[trigger] self.interfaces@[j]).offset <= usize::MAX,
        ensures
            r is Some <==> spec_implements(self.interfaces@, interface_id),
            r matches Some(addr) ==> {
                let found = spec_find_interface(self.interfaces@, interface_id);
                &&& found is Some
                &&& addr == object_addr + self.interfaces@[found->0].offset
            },
    {
        proof {
            lemma_find_interface_spec(self.interfaces@, interface_id);
        }
        let n = self.interfaces.len();
        let mut i: usize = 0;
        while i < n
            invariant
                n == self.interfaces@.len(),
                i <= n,
                forall|j: int|
                    0 <= j < self.interfaces@.len() ==> object_addr + (
                    #[trigger] self.interfaces@[j]).offset <= usize::MAX,
                forall|j: int|
                    0 <= j < i ==> (#[trigger] self.interfaces@[j]).interface_id != interface_id,
                spec_find_interface(self.interfaces@, interface_id) matches Some(f) ==> i <= f,
            decreases n - i,
        {
            proof {
                lemma_find_interface_spec(self.interfaces@, interface_id);
            }
            let info = self.interfaces[i];
            if info.interface_id == interface_id {
                proof {
                    assert(spec_implements(self.interfaces@, interface_id));
                    let f = spec_find_interface(self.interfaces@, interface_id)->0;
                    assert(self.interfaces@[f].interface_id == interface_id);
                    assert(f == i);
                }
                return Some(object_addr + info.offset);
            }
            i += 1;
        }
        proof {
            lemma_find_interface_spec(self.interfaces@, interface_id);
        }
        None
    }
}

/// Trait of concrete types that carry runtime type information.
pub trait HasTypeInfo {
    /// The type descriptor this type publishes.
    spec fn spec_type_info(&self) -> (usize, Seq<InterfaceInfo>);

    /// Get the `TypeInfo` of this type.
    fn type_info(&self) -> (t: TypeInfo)
        ensures
            t.type_id == self.spec_type_info().0,
            t.interfaces@ == self.spec_type_info().1,
    ;
}

/// A vtable together with the type metadata that native compilers would park
/// right before slot 0.  `rtti` comes first so that, laid out as a C record,
/// the metadata pointer sits one pointer-size before the methods the vtable
/// pointer aims at.
pub struct VTableWithRtti<T> {
    /// The type metadata, the field before the method table.
    pub rtti: TypeInfo,
    /// The actual vtable methods.
    pub methods: T,
}

impl<T> VTableWithRtti<T> {
    /// Create a new vtable wrapper with type metadata.
    pub fn new(rtti: TypeInfo, methods: T) -> (r: VTableWithRtti<T>)
        ensures
            r.rtti.type_id == rtti.type_id,
            r.rtti.name@ == rtti.name@,
            r.rtti.interfaces@ == rtti.interfaces@,
            r.methods == methods,
    {
        VTableWithRtti { rtti, methods }
    }

    /// The methods an object's vtable pointer should aim at — not the
    /// metadata in front of them.
    pub fn vtable_ptr(&self) -> (r: &T)
        ensures
            r == &self.methods,
    {
        &self.methods
    }

    /// Read the type metadata back from the vtable, as a consumer holding the
    /// vtable would by looking one pointer before slot 0.
    pub fn type_info(&self) -> (r: &TypeInfo)
        ensures
            r == &self.rtti,
    {
        &self.rtti
    }
}

/// Law: casting to an interface the descriptor lists at offset `k` adjusts
/// the object address by exactly `k`, and the this-adjustment of a trampoline
/// generated with the same offset takes it back to the object's start; an
/// identifier the descriptor does not list casts to the null sentinel
/// instead.  Here `entries` is the descriptor's interface list and `found`
/// the entry the cast selects.
pub proof fn lemma_cast_then_adjust_recovers_object(
    entries: Seq<InterfaceInfo>,
    object_addr: usize,
    interface_id: usize,
)
    requires
        forall|j: int|
            0 <= j < entries.len() ==> object_addr + (#[trigger] entries[j]).offset <= usize::MAX,
        spec_implements(entries, interface_id),
    ensures
        spec_find_interface(entries, interface_id) matches Some(f) && {
            let view = object_addr + entries[f].offset;
            &&& entries[f].interface_id == interface_id
            &&& view - entries[f].offset == object_addr
        },
{
    lemma_find_interface_spec(entries, interface_id);
}

} // verus!
