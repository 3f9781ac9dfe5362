//! The slot resolver: turns an ordered method list, each method optionally
//! pinned to an explicit slot index, into the final slot assignment, filling
//! gaps with reserved entries and rejecting any explicit index that collides
//! with or precedes an already-assigned slot.

use vstd::prelude::*;
use crate::decl::MethodDecl;

verus! {

/// One position of a resolved slot table.
#[derive(Clone, Copy, Debug, PartialEq, Eq, Structural)]
pub enum SlotEntry {
    /// The slot dispatches to the method at this index of the declaration
    /// list.
    Method { method_index: usize },
    /// A declared-but-unassigned gap; invoking it is a deliberate fatal
    /// failure, never a silently wrong call.
    Reserved,
}

/// A build-time slot conflict: the method at `method_index` asked for
/// `declared_slot`, but every slot below `next_free` was already claimed.
#[derive(Clone, Copy, Debug, PartialEq, Eq, Structural)]
pub struct SlotConflict {
    /// Index of the offending method in the declaration list.
    pub method_index: usize,
    /// The explicit slot it asked for.
    pub declared_slot: usize,
    /// The lowest slot that was still free when the method was reached.
    pub next_free: usize,
}

/// The explicit slot requests of a method list, in declaration order.
pub open spec fn declared_of(methods: Seq<MethodDecl>) -> Seq<Option<usize>> {
    methods.map_values(|m: MethodDecl| m.declared_slot)
}

/// The lowest slot still free after assigning every method of `declared`, in
/// order, starting from `first_slot`: a method with an explicit index claims
/// it, any other claims the lowest free slot, and the successor of the
/// claimed slot becomes the next free one.
pub open spec fn spec_next_free(first_slot: nat, declared: Seq<Option<usize>>) -> nat
    decreases declared.len(),
{
    if declared.len() == 0 {
        first_slot
    } else {
        match declared.last() {
            Some(k) => k as nat + 1,
            None => spec_next_free(first_slot, declared.drop_last()) + 1,
        }
    }
}

/// The slot the method at `i` is assigned: its explicit index if it has one,
/// else the lowest slot left free by the methods before it.
pub open spec fn spec_assigned_slot(first_slot: nat, declared: Seq<Option<usize>>, i: int) -> nat
    recommends
        0 <= i < declared.len(),
{
    match declared[i] {
        Some(k) => k as nat,
        None => spec_next_free(first_slot, declared.take(i)),
    }
}

/// The first `n` methods resolve without conflict: each is assigned a slot no
/// lower than the lowest slot still free when it is reached.
pub open spec fn spec_slots_wf_upto(first_slot: nat, declared: Seq<Option<usize>>, n: int) -> bool {
    forall|m: int|
        0 <= m < n ==> #[trigger] spec_assigned_slot(first_slot, declared, m) >= spec_next_free(
            first_slot,
            declared.take(m),
        )
}

/// The whole method list resolves without conflict.
pub open spec fn spec_slots_wf(first_slot: nat, declared: Seq<Option<usize>>) -> bool {
    spec_slots_wf_upto(first_slot, declared, declared.len() as int)
}

/// Number of entries of the resolved table, which covers the slot range
/// `[first_slot, next_free)`.
pub open spec fn spec_table_len(first_slot: nat, declared: Seq<Option<usize>>) -> int {
    spec_next_free(first_slot, declared) - first_slot
}

/// `table` is the resolved slot table of `declared`: it covers the slots
/// `[first_slot, next_free)` in ascending order, the method at declaration
/// index `i` sits at its assigned slot, and every other position is a
/// reserved gap.
pub open spec fn spec_is_resolved_table(
    first_slot: nat,
    declared: Seq<Option<usize>>,
    table: Seq<SlotEntry>,
) -> bool {
    &&& table.len() == spec_table_len(first_slot, declared)
    &&& forall|i: int|
        0 <= i < declared.len() ==> {
            let s = #[trigger] spec_assigned_slot(first_slot, declared, i);
            &&& first_slot <= s < first_slot + table.len()
            &&& table[s - first_slot] == (SlotEntry::Method { method_index: i as usize })
        }
    &&& forall|j: int|
        #![trigger table[j]]
        0 <= j < table.len() ==> match table[j] {
            SlotEntry::Method { method_index } => method_index < declared.len()
                && spec_assigned_slot(first_slot, declared, method_index as int) == first_slot + j,
            SlotEntry::Reserved => true,
        }
}

/// Unfolds `spec_next_free` one step at position `i`.
pub proof fn lemma_next_free_step(first_slot: nat, declared: Seq<Option<usize>>, i: int)
    requires
        0 <= i < declared.len(),
    ensures
        spec_next_free(first_slot, declared.take(i + 1)) == spec_assigned_slot(
            first_slot,
            declared,
            i,
        ) + 1,
{
    assert(declared.take(i + 1).drop_last() =~= declared.take(i));
    assert(declared.take(i + 1).last() == declared[i]);
}

/// Under a conflict-free prefix, the next free slot never moves backwards.
pub proof fn lemma_next_free_monotone(first_slot: nat, declared: Seq<Option<usize>>, i: int, j: int)
    requires
        0 <= i <= j <= declared.len(),
        spec_slots_wf_upto(first_slot, declared, j),
    ensures
        spec_next_free(first_slot, declared.take(i)) <= spec_next_free(
            first_slot,
            declared.take(j),
        ),
    decreases j - i,
{
    if i < j {
        lemma_next_free_monotone(first_slot, declared, i, j - 1);
        lemma_next_free_step(first_slot, declared, j - 1);
        assert(spec_assigned_slot(first_slot, declared, j - 1) >= spec_next_free(
            first_slot,
            declared.take(j - 1),
        ));
    }
}

/// Every assigned slot lies at or above the table's first slot.
pub proof fn lemma_first_slot_le_next_free(first_slot: nat, declared: Seq<Option<usize>>, i: int)
    requires
        0 <= i <= declared.len(),
        spec_slots_wf_upto(first_slot, declared, i),
    ensures
        first_slot <= spec_next_free(first_slot, declared.take(i)),
{
    assert(declared.take(0) =~= Seq::<Option<usize>>::empty());
    lemma_next_free_monotone(first_slot, declared, 0, i);
}

/// Law: a method list that pins no explicit slot resolves without conflict to
/// a dense table: the method at declaration index `i` is assigned slot
/// `first_slot + i`, and the table ends right after the last method, so it
/// has exactly one entry per method and no reserved one.
pub proof fn lemma_implicit_slots_are_dense(first_slot: nat, declared: Seq<Option<usize>>)
    requires
        forall|i: int| 0 <= i < declared.len() ==> (#[trigger] declared[i]) is None,
    ensures
        spec_slots_wf(first_slot, declared),
        spec_next_free(first_slot, declared) == first_slot + declared.len(),
        forall|i: int|
            0 <= i < declared.len() ==> #[trigger] spec_assigned_slot(first_slot, declared, i)
                == first_slot + i,
    decreases declared.len(),
{
    if declared.len() == 0 {
    } else {
        let prefix = declared.drop_last();
        assert(forall|i: int| 0 <= i < prefix.len() ==> (#[trigger] prefix[i]) is None);
        lemma_implicit_slots_are_dense(first_slot, prefix);
        assert(declared.take(declared.len() - 1) =~= prefix);
        assert forall|i: int| 0 <= i < declared.len() implies #[trigger] spec_assigned_slot(
            first_slot,
            declared,
            i,
        ) == first_slot + i by {
            assert(declared.take(i) =~= prefix.take(i));
            if i < declared.len() - 1 {
                assert(spec_assigned_slot(first_slot, prefix, i) == first_slot + i);
            }
        }
        assert forall|m: int| 0 <= m < declared.len() implies #[trigger] spec_assigned_slot(
            first_slot,
            declared,
            m,
        ) >= spec_next_free(first_slot, declared.take(m)) by {
            assert(declared[m] is None);
        }
    }
}

/// Law: a resolved table ends right after its last method.  The next free
/// slot — and with it the total slot count, base slots included — is one past
/// the highest assigned slot, which belongs to the last declared method; a
/// derived interface with a base of `first_slot` slots therefore has
/// `highest own slot index + 1` slots of its own on top of the base's.
pub proof fn lemma_slot_count_tracks_highest_slot(first_slot: nat, declared: Seq<Option<usize>>)
    requires
        spec_slots_wf(first_slot, declared),
        declared.len() > 0,
    ensures
        spec_next_free(first_slot, declared) == spec_assigned_slot(
            first_slot,
            declared,
            declared.len() - 1,
        ) + 1,
        forall|i: int|
            0 <= i < declared.len() ==> #[trigger] spec_assigned_slot(first_slot, declared, i)
                <= spec_assigned_slot(first_slot, declared, declared.len() - 1),
{
    let n = declared.len() as int;
    assert(declared.take(n) =~= declared);
    lemma_next_free_step(first_slot, declared, n - 1);
    assert forall|i: int| 0 <= i < n implies #[trigger] spec_assigned_slot(
        first_slot,
        declared,
        i,
    ) <= spec_assigned_slot(first_slot, declared, n - 1) by {
        lemma_next_free_step(first_slot, declared, i);
        lemma_next_free_monotone(first_slot, declared, i + 1, n);
    }
}

/// Law: when the method at declaration index `i` pins explicit slot `k`, the
/// resolved table holds reserved entries at exactly the slots from the lowest
/// one still free when the method is reached (`nf`, the running assigned
/// count) up to `k`; the method itself sits at slot `k`, and the slot right
/// below `nf`, when the table reaches it, belongs to the previous method.
/// Invoking any of those reserved entries is a fatal fault, never a silently
/// wrong call (see `crate::vtable::enter_entry`).
pub proof fn lemma_explicit_slot_gap(
    first_slot: nat,
    declared: Seq<Option<usize>>,
    table: Seq<SlotEntry>,
    i: int,
    k: usize,
)
    requires
        spec_slots_wf(first_slot, declared),
        0 <= i < declared.len(),
        declared[i] == Some(k),
        spec_is_resolved_table(first_slot, declared, table),
    ensures
        table[k - first_slot] == (SlotEntry::Method { method_index: i as usize }),
        forall|j: int|
            spec_next_free(first_slot, declared.take(i)) <= first_slot + j < k ==> 0 <= j
                < table.len() && (#[trigger] table[j]) is Reserved,
        i > 0 ==> spec_next_free(first_slot, declared.take(i)) == spec_assigned_slot(
            first_slot,
            declared,
            i - 1,
        ) + 1,
{
    let nf = spec_next_free(first_slot, declared.take(i));
    assert(spec_assigned_slot(first_slot, declared, i) == k as nat);
    assert(declared.take(declared.len() as int) =~= declared);
    lemma_next_free_monotone(first_slot, declared, i + 1, declared.len() as int);
    lemma_next_free_step(first_slot, declared, i);
    lemma_first_slot_le_next_free(first_slot, declared, i);
    assert forall|j: int| nf <= first_slot + j < k implies 0 <= j < table.len() && (
    #[trigger] table[j]) is Reserved by {
        assert(first_slot + j < spec_next_free(first_slot, declared));
        match table[j] {
            SlotEntry::Method { method_index } => {
                let m = method_index as int;
                assert(spec_assigned_slot(first_slot, declared, m) == first_slot + j);
                if m < i {
                    lemma_next_free_step(first_slot, declared, m);
                    lemma_next_free_monotone(first_slot, declared, m + 1, i);
                } else if m == i {
                } else {
                    lemma_next_free_monotone(first_slot, declared, i + 1, m);
                    assert(spec_assigned_slot(first_slot, declared, m) >= spec_next_free(
                        first_slot,
                        declared.take(m),
                    ));
                }
                assert(false);
            },
            SlotEntry::Reserved => {},
        }
    }
    if i > 0 {
        lemma_next_free_step(first_slot, declared, i - 1);
        assert(declared.take(i - 1 + 1) =~= declared.take(i));
    }
}

/// Resolve the slot assignment of `methods`, whose slots start at
/// `first_slot` (0 for a root interface, the base's slot count when one is
/// embedded).  On success the table covers slots `[first_slot, next_free)` in
/// ascending order: the method at declaration index `i` sits at its assigned
/// slot, every other position is a reserved gap.  A conflicting explicit
/// index fails with the offending method, its request, and the slot bound it
/// violated; nothing is silently reassigned or dropped.
pub fn resolve_slots(first_slot: usize, methods: &Vec<MethodDecl>) -> (r: Result<
    Vec<SlotEntry>,
    SlotConflict,
>)
    requires
        first_slot + methods@.len() <= usize::MAX,
        forall|i: int|
            0 <= i < methods@.len() && (#[trigger] methods@[i].declared_slot) is Some
                ==> methods@[i].declared_slot->0 + methods@.len() <= usize::MAX,
    ensures
        match r {
            Ok(table) => {
                let declared = declared_of(methods@);
                &&& spec_slots_wf(first_slot as nat, declared)
                &&& first_slot <= spec_next_free(first_slot as nat, declared) <= usize::MAX
                &&& spec_is_resolved_table(first_slot as nat, declared, table@)
            },
            Err(e) => {
                let declared = declared_of(methods@);
                &&& !spec_slots_wf(first_slot as nat, declared)
                &&& e.method_index < declared.len()
                &&& declared[e.method_index as int] == Some(e.declared_slot)
                &&& e.next_free == spec_next_free(
                    first_slot as nat,
                    declared.take(e.method_index as int),
                )
                &&& e.declared_slot < e.next_free
                &&& spec_slots_wf_upto(first_slot as nat, declared, e.method_index as int)
            },
        },
{
    let ghost declared = declared_of(methods@);
    let mut table: Vec<SlotEntry> = Vec::new();
    let mut next_free: usize = first_slot;
    let mut i: usize = 0;
    while i < methods.len()
        invariant
            first_slot + methods@.len() <= usize::MAX,
            forall|k: int|
                0 <= k < methods@.len() && (#[trigger] methods@[k].declared_slot) is Some
                    ==> methods@[k].declared_slot->0 + methods@.len() <= usize::MAX,
            declared == declared_of(methods@),
            i <= methods@.len(),
            next_free + (methods@.len() - i) <= usize::MAX,
            next_free as nat == spec_next_free(first_slot as nat, declared.take(i as int)),
            spec_slots_wf_upto(first_slot as nat, declared, i as int),
            first_slot <= next_free,
            table@.len() == next_free - first_slot,
            forall|k: int|
                0 <= k < i ==> {
                    let s = #[trigger] spec_assigned_slot(first_slot as nat, declared, k);
                    &&& first_slot <= s < first_slot + table@.len()
                    &&& table@[s - first_slot] == (SlotEntry::Method { method_index: k as usize })
                },
            forall|j: int|
                #![trigger table@[j]]
                0 <= j < table@.len() ==> match table@[j] {
                    SlotEntry::Method { method_index } => method_index < i && spec_assigned_slot(
                        first_slot as nat,
                        declared,
                        method_index as int,
                    ) == first_slot + j,
                    SlotEntry::Reserved => true,
                },
        decreases methods@.len() - i,
    {
        let ghost nf0 = next_free as nat;
        proof {
            assert(declared[i as int] == methods@[i as int].declared_slot);
        }
        let slot: usize = match methods[i].declared_slot {
            Some(k) => {
                if k < next_free {
                    proof {
                        assert(spec_assigned_slot(first_slot as nat, declared, i as int) == k as nat);
                        assert(!spec_slots_wf(first_slot as nat, declared));
                    }
                    return Err(SlotConflict { method_index: i, declared_slot: k, next_free });
                }
                // Fill the gap below the explicit index with reserved entries.
                while next_free < k
                    invariant
                        i < methods@.len(),
                        k + (methods@.len() - i) <= usize::MAX,
                        first_slot <= next_free <= k,
                        table@.len() == next_free - first_slot,
                        forall|m: int|
                            0 <= m < i ==> {
                                let s = #[trigger] spec_assigned_slot(
                                    first_slot as nat,
                                    declared,
                                    m,
                                );
                                &&& first_slot <= s < first_slot + table@.len()
                                &&& table@[s - first_slot] == (SlotEntry::Method {
                                    method_index: m as usize,
                                })
                            },
                        forall|j: int|
                            #![trigger table@[j]]
                            0 <= j < table@.len() ==> match table@[j] {
                                SlotEntry::Method { method_index } => method_index < i
                                    && spec_assigned_slot(
                                    first_slot as nat,
                                    declared,
                                    method_index as int,
                                ) == first_slot + j,
                                SlotEntry::Reserved => true,
                            },
                    decreases k - next_free,
                {
                    table.push(SlotEntry::Reserved);
                    next_free += 1;
                }
                k
            },
            None => next_free,
        };
        proof {
            assert(spec_assigned_slot(first_slot as nat, declared, i as int) == slot as nat);
            assert(slot as nat >= nf0);
            lemma_next_free_step(first_slot as nat, declared, i as int);
        }
        table.push(SlotEntry::Method { method_index: i });
        next_free = slot + 1;
        i += 1;
    }
    proof {
        assert(declared.take(i as int) =~= declared);
    }
    Ok(table)
}

} // verus!
