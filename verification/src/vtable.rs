//! Vtable records, the per-implementation static tables, and the trampoline
//! semantics: each call that arrives through an interface's vtable carries a
//! receiver pointer aimed at that interface's vtable-pointer field inside the
//! object, and the trampoline subtracts the field's byte offset to recover
//! the object's start address before dispatching to the real method.

use vstd::prelude::*;
use crate::layout::AbiField;
use crate::slots::SlotEntry;

verus! {

/// The synthesized vtable record of one interface: the base interface's
/// record embedded as the first field when a base is declared, then one
/// function-pointer field per own slot, in ascending slot order.  No
/// reordering is ever performed.
#[derive(Clone, Debug, PartialEq, Eq)]
pub struct VTableRecord {
    /// Slot count of the embedded base record; `None` when the interface has
    /// no base.
    pub base_slots: Option<usize>,
    /// Own slots in ascending order, starting right after the base record.
    pub entries: Vec<SlotEntry>,
}

impl VTableRecord {
    /// Slot count of the embedded base record, 0 without one.
    pub open spec fn spec_base_slot_count(&self) -> int {
        match self.base_slots {
            Some(n) => n as int,
            None => 0,
        }
    }

    /// Total slot count: the base's slots plus the own ones.
    pub open spec fn spec_total_slot_count(&self) -> int {
        self.spec_base_slot_count() + self.entries@.len()
    }

    /// Total slot count: the base's slots plus the own ones.
    pub fn total_slot_count(&self) -> (r: usize)
        requires
            self.spec_total_slot_count() <= usize::MAX,
        ensures
            r == self.spec_total_slot_count(),
    {
        let base = match self.base_slots {
            Some(n) => n,
            None => 0,
        };
        base + self.entries.len()
    }

    /// Size in bytes of the record: one pointer per slot, the embedded base
    /// included; there is no padding, every field is pointer-sized and
    /// pointer-aligned.
    pub fn size_in_bytes(&self, ptr_size: usize) -> (r: usize)
        requires
            ptr_size >= 1,
            self.spec_total_slot_count() * ptr_size <= usize::MAX,
        ensures
            r == self.spec_total_slot_count() * ptr_size,
    {
        proof {
            vstd::arithmetic::mul::lemma_mul_inequality(
                1,
                ptr_size as int,
                self.spec_total_slot_count(),
            );
        }
        let slots = self.total_slot_count();
        slots * ptr_size
    }

    /// Byte offset of the field for the given absolute slot index.  The base
    /// record sits at offset 0, so slot 0 of the base and the record itself
    /// share an address: a pointer to the derived record is bit-compatible
    /// with a pointer to the base record.
    pub fn slot_byte_offset(&self, slot: usize, ptr_size: usize) -> (r: usize)
        requires
            slot < self.spec_total_slot_count(),
            self.spec_total_slot_count() * ptr_size <= usize::MAX,
        ensures
            r == slot * ptr_size,
    {
        proof {
            vstd::arithmetic::mul::lemma_mul_inequality(
                slot as int,
                self.spec_total_slot_count(),
                ptr_size as int,
            );
        }
        slot * ptr_size
    }

    /// The record's fields as layout input: `total` pointer-sized,
    /// pointer-aligned fields (the embedded base record contributes its own
    /// slots).
    pub fn layout_fields(&self, ptr_size: usize) -> (r: Vec<AbiField>)
        requires
            ptr_size >= 1,
            self.spec_total_slot_count() <= usize::MAX,
        ensures
            r@.len() == self.spec_total_slot_count(),
            forall|i: int|
                0 <= i < r@.len() ==> #[trigger] r@[i] == (AbiField {
                    size: ptr_size,
                    align: ptr_size,
                }),
    {
        let n = self.total_slot_count();
        let mut fields: Vec<AbiField> = Vec::new();
        let mut i: usize = 0;
        while i < n
            invariant
                i <= n,
                fields@.len() == i,
                forall|j: int|
                    0 <= j < i ==> #[trigger] fields@[j] == (AbiField {
                        size: ptr_size,
                        align: ptr_size,
                    }),
            decreases n - i,
        {
            fields.push(AbiField { size: ptr_size, align: ptr_size });
            i += 1;
        }
        fields
    }
}

/// One entry of a static per-implementation vtable.
#[derive(Clone, Copy, Debug, PartialEq, Eq, Structural)]
pub enum VTableSlot {
    /// A generated forwarding function: subtract `this_offset` from the
    /// incoming receiver pointer, reinterpret the result as the concrete
    /// struct (mutably when `receiver_mut`), and invoke the method at
    /// `method_index` of the implementation's method list.
    Trampoline { slot: usize, method_index: usize, this_offset: usize, receiver_mut: bool },
    /// A reserved-slot stub: invoking it is a fatal failure.
    ReservedStub { slot: usize },
}

/// What invoking a vtable entry does, before the concrete method body runs.
#[derive(Clone, Copy, Debug, PartialEq, Eq, Structural)]
pub enum DispatchStep {
    /// Run the method at `method_index` on the object at address `this`,
    /// through `&mut` when `mutable`.
    Call { method_index: usize, this: usize, mutable: bool },
    /// The entry was a reserved slot: fatal, nothing is called and no value
    /// is produced.
    ReservedSlotFault { slot: usize },
}

/// The dispatch semantics of one vtable entry for an incoming receiver
/// pointer: a trampoline un-adjusts the pointer by its interface's field
/// offset and calls the bound method; a reserved stub faults.
pub open spec fn spec_dispatch(entry: VTableSlot, this: usize) -> DispatchStep {
    match entry {
        VTableSlot::Trampoline { slot, method_index, this_offset, receiver_mut } => {
            DispatchStep::Call {
                method_index,
                this: (this - this_offset) as usize,
                mutable: receiver_mut,
            }
        },
        VTableSlot::ReservedStub { slot } => DispatchStep::ReservedSlotFault { slot },
    }
}

/// Invoke one vtable entry: perform the this-adjustment of a trampoline, or
/// report the fatal reserved-slot fault.  The subtraction is performed even
/// when the offset is 0 (the primary interface): the code path is uniform.
pub fn enter_entry(entry: &VTableSlot, this: usize) -> (r: DispatchStep)
    requires
        entry matches VTableSlot::Trampoline { this_offset, .. } ==> this_offset <= this,
    ensures
        r == spec_dispatch(*entry, this),
{
    match *entry {
        VTableSlot::Trampoline { slot: _, method_index, this_offset, receiver_mut } => {
            DispatchStep::Call { method_index, this: this - this_offset, mutable: receiver_mut }
        },
        VTableSlot::ReservedStub { slot } => DispatchStep::ReservedSlotFault { slot },
    }
}

/// The address of an interface's view of an object: the object's start plus
/// the byte offset of that interface's vtable-pointer field.
pub fn interface_view_addr(object_addr: usize, field_offset: usize) -> (r: usize)
    requires
        object_addr + field_offset <= usize::MAX,
    ensures
        r == object_addr + field_offset,
{
    object_addr + field_offset
}

/// The this-adjustment itself: subtract the interface's field offset from
/// the incoming receiver pointer.
pub fn this_adjust(this: usize, field_offset: usize) -> (r: usize)
    requires
        field_offset <= this,
    ensures
        r == this - field_offset,
{
    this - field_offset
}

/// Law: a trampoline recovers the object.  For any object address and any
/// interface field offset, a call arriving through that interface's view —
/// at the object's address plus the offset — is dispatched by a trampoline
/// carrying the same offset to the method at exactly the object's address,
/// whatever the slot, method and receiver mode.
pub proof fn lemma_trampoline_recovers_object(
    object_addr: usize,
    field_offset: usize,
    slot: usize,
    method_index: usize,
    receiver_mut: bool,
)
    requires
        object_addr + field_offset <= usize::MAX,
    ensures
        spec_dispatch(
            VTableSlot::Trampoline { slot, method_index, this_offset: field_offset, receiver_mut },
            (object_addr + field_offset) as usize,
        ) == (DispatchStep::Call { method_index, this: object_addr, mutable: receiver_mut }),
{
}

/// A static per-implementation vtable: one table per (struct, interface)
/// pair, built once, never mutated, shared by every instance of the struct.
/// Its entries cover the slots `[first_slot, first_slot + entries.len())` in
/// ascending order.
#[derive(Clone, Debug, PartialEq, Eq)]
pub struct VTableInstance {
    /// The first slot the table's own entries cover (after an embedded
    /// base's slots).
    pub first_slot: usize,
    /// The entries, in ascending slot order.
    pub entries: Vec<VTableSlot>,
}

impl VTableInstance {
    /// The table covers its slot range in order: entry `j` carries slot
    /// `first_slot + j`, and every trampoline adjusts by the same interface
    /// field offset.
    pub open spec fn spec_wf(&self, this_offset: usize) -> bool {
        forall|j: int|
            #![trigger self.entries@[j]]
            0 <= j < self.entries@.len() ==> match self.entries@[j] {
                VTableSlot::Trampoline { slot, method_index, this_offset: o, receiver_mut } => slot
                    == self.first_slot + j && o == this_offset,
                VTableSlot::ReservedStub { slot } => slot == self.first_slot + j,
            }
    }

    /// Look up the entry of an absolute slot index.
    pub fn entry_at(&self, slot: usize) -> (r: &VTableSlot)
        requires
            self.first_slot <= slot,
            slot - self.first_slot < self.entries@.len(),
        ensures
            *r == self.entries@[slot - self.first_slot],
    {
        &self.entries[slot - self.first_slot]
    }
}

} // verus!
