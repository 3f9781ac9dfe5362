//! C record layout: the byte offsets and total size a native compiler gives a
//! `repr(C)` struct.  The vtable records and the structs that hold vtable
//! pointers are laid out with these rules, so their offsets — the
//! this-adjustment constants — are computed here.

use vstd::prelude::*;

verus! {

/// Size and alignment of one field, in bytes.
#[derive(Clone, Copy, Debug, PartialEq, Eq, Structural)]
pub struct AbiField {
    /// Size of the field in bytes.
    pub size: usize,
    /// Alignment of the field in bytes, at least 1.
    pub align: usize,
}

/// The smallest multiple of `a` that is at least `n`.
pub open spec fn spec_align_up(n: int, a: int) -> int
    recommends
        n >= 0,
        a >= 1,
{
    if n % a == 0 {
        n
    } else {
        n + (a - n % a)
    }
}

/// Byte offset of field `i`: the end of the previous field, rounded up to
/// this field's alignment.  The first field sits at offset 0.
pub open spec fn spec_field_offset(fields: Seq<AbiField>, i: int) -> int
    recommends
        0 <= i < fields.len(),
    decreases i,
{
    if i <= 0 {
        0
    } else {
        spec_align_up(
            spec_field_offset(fields, i - 1) + fields[i - 1].size,
            fields[i].align as int,
        )
    }
}

/// End of the field data: the end of the last field, or 0 for an empty
/// record.
pub open spec fn spec_struct_end(fields: Seq<AbiField>) -> int {
    if fields.len() == 0 {
        0
    } else {
        spec_field_offset(fields, fields.len() - 1) + fields.last().size
    }
}

/// Alignment of the whole record: the largest field alignment, at least 1.
pub open spec fn spec_struct_align(fields: Seq<AbiField>) -> int
    decreases fields.len(),
{
    if fields.len() == 0 {
        1
    } else {
        let rest = spec_struct_align(fields.drop_last());
        if fields.last().align >= rest {
            fields.last().align as int
        } else {
            rest
        }
    }
}

/// Total size of the record: the end of its fields, padded to the record
/// alignment.
pub open spec fn spec_struct_size(fields: Seq<AbiField>) -> int {
    spec_align_up(spec_struct_end(fields), spec_struct_align(fields))
}

/// Every field alignment is at least 1.
pub open spec fn spec_fields_wf(fields: Seq<AbiField>) -> bool {
    forall|i: int| 0 <= i < fields.len() ==> (#[trigger] fields[i]).align >= 1
}

/// Rounding up to an alignment never moves down, and moves up by less than
/// the alignment.
pub proof fn lemma_align_up_bounds(n: int, a: int)
    requires
        n >= 0,
        a >= 1,
    ensures
        n <= spec_align_up(n, a) < n + a,
        spec_align_up(n, a) % a == 0,
{
    if n % a != 0 {
        assert(0 <= n % a < a);
        assert((n + (a - n % a)) % a == 0) by {
            vstd::arithmetic::div_mod::lemma_fundamental_div_mod(n, a);
            assert(n + (a - n % a) == (n / a + 1) * a) by {
                vstd::arithmetic::mul::lemma_mul_is_distributive_add(a, n / a, 1);
            }
            vstd::arithmetic::div_mod::lemma_mod_multiples_basic(n / a + 1, a);
        }
    }
}

/// The record alignment is at least 1 and at least every field's alignment.
pub proof fn lemma_struct_align_bounds(fields: Seq<AbiField>)
    ensures
        spec_struct_align(fields) >= 1,
        forall|i: int|
            0 <= i < fields.len() ==> (#[trigger] fields[i]).align <= spec_struct_align(fields),
    decreases fields.len(),
{
    if fields.len() > 0 {
        lemma_struct_align_bounds(fields.drop_last());
        assert forall|i: int| 0 <= i < fields.len() implies (#[trigger] fields[i]).align
            <= spec_struct_align(fields) by {
            if i < fields.len() - 1 {
                assert(fields.drop_last()[i] == fields[i]);
            }
        }
    }
}

/// Field offsets grow monotonically: each field starts at or after the end of
/// the previous one, and every field ends at or before the record end.
pub proof fn lemma_field_offset_bounds(fields: Seq<AbiField>, i: int)
    requires
        spec_fields_wf(fields),
        0 <= i < fields.len(),
    ensures
        0 <= spec_field_offset(fields, i),
        spec_field_offset(fields, i) + fields[i].size <= spec_struct_end(fields),
    decreases fields.len() - i,
{
    if i == 0 {
        assert(spec_field_offset(fields, 0) == 0);
    } else {
        assert(spec_field_offset(fields, i - 1) >= 0) by {
            lemma_offset_nonneg(fields, i - 1);
        }
        lemma_align_up_bounds(
            spec_field_offset(fields, i - 1) + fields[i - 1].size,
            fields[i].align as int,
        );
        lemma_offset_nonneg(fields, i - 1);
        lemma_size_nonneg_prefix(fields, i - 1);
    }
    if i + 1 < fields.len() {
        lemma_align_up_bounds(
            spec_field_offset(fields, i) + fields[i].size,
            fields[i + 1].align as int,
        );
        lemma_field_offset_bounds(fields, i + 1);
    }
}

/// Offsets are never negative.
proof fn lemma_offset_nonneg(fields: Seq<AbiField>, i: int)
    requires
        spec_fields_wf(fields),
        0 <= i < fields.len(),
    ensures
        spec_field_offset(fields, i) >= 0,
    decreases i,
{
    if i > 0 {
        lemma_offset_nonneg(fields, i - 1);
        lemma_align_up_bounds(
            spec_field_offset(fields, i - 1) + fields[i - 1].size,
            fields[i].align as int,
        );
    }
}

/// Helper: a field's start plus size is nonnegative.
proof fn lemma_size_nonneg_prefix(fields: Seq<AbiField>, i: int)
    requires
        spec_fields_wf(fields),
        0 <= i < fields.len(),
    ensures
        spec_field_offset(fields, i) + fields[i].size >= 0,
{
    lemma_offset_nonneg(fields, i);
}

/// The record end never exceeds the padded record size.
pub proof fn lemma_struct_end_le_size(fields: Seq<AbiField>)
    requires
        spec_fields_wf(fields),
    ensures
        0 <= spec_struct_end(fields) <= spec_struct_size(fields),
{
    lemma_struct_align_bounds(fields);
    if fields.len() > 0 {
        lemma_field_offset_bounds(fields, fields.len() - 1);
        lemma_offset_nonneg(fields, fields.len() - 1);
    }
    lemma_align_up_bounds(spec_struct_end(fields), spec_struct_align(fields));
}

/// A record of pointer-sized, pointer-aligned fields only — a vtable record —
/// has no padding anywhere: field `i` sits at byte `i * p` and the whole
/// record spans exactly one pointer per field.  The byte image of a vtable
/// record therefore is its slot table, nothing more: a record of N slots has
/// N function-pointer-sized fields and N pointer sizes of bytes, base slots
/// included.
pub proof fn lemma_uniform_pointer_layout(fields: Seq<AbiField>, p: usize)
    requires
        p >= 1,
        forall|i: int|
            0 <= i < fields.len() ==> #[trigger] fields[i] == (AbiField { size: p, align: p }),
    ensures
        forall|i: int|
            0 <= i < fields.len() ==> #[trigger] spec_field_offset(fields, i) == i * p,
        spec_struct_end(fields) == fields.len() * p,
        fields.len() > 0 ==> spec_struct_align(fields) == p,
        spec_struct_size(fields) == fields.len() * p,
    decreases fields.len(),
{
    assert forall|i: int| 0 <= i < fields.len() implies #[trigger] spec_field_offset(fields, i)
        == i * p by {
        lemma_uniform_offset(fields, p, i);
    }
    if fields.len() == 0 {
        vstd::arithmetic::div_mod::lemma_small_mod(0nat, 1nat);
    } else {
        let n = fields.len() as int;
        lemma_uniform_offset(fields, p, n - 1);
        assert((n - 1) * p + p == n * p) by (nonlinear_arith);
        assert(spec_struct_align(fields) == p) by {
            lemma_uniform_align(fields, p);
        }
        assert((n * p) % (p as int) == 0) by {
            vstd::arithmetic::div_mod::lemma_mod_multiples_basic(n, p as int);
        }
    }
}

/// Offsets of a uniform pointer record, one position at a time.
proof fn lemma_uniform_offset(fields: Seq<AbiField>, p: usize, i: int)
    requires
        p >= 1,
        forall|j: int|
            0 <= j < fields.len() ==> #[trigger] fields[j] == (AbiField { size: p, align: p }),
        0 <= i < fields.len(),
    ensures
        spec_field_offset(fields, i) == i * p,
    decreases i,
{
    if i == 0 {
    } else {
        lemma_uniform_offset(fields, p, i - 1);
        assert((i - 1) * p + p == i * p) by (nonlinear_arith);
        assert((i * p) % (p as int) == 0) by {
            vstd::arithmetic::div_mod::lemma_mod_multiples_basic(i, p as int);
        }
        assert(i * p >= 0) by (nonlinear_arith)
            requires
                i >= 1,
                p >= 1,
        ;
    }
}

/// The alignment of a uniform pointer record is the pointer alignment.
proof fn lemma_uniform_align(fields: Seq<AbiField>, p: usize)
    requires
        p >= 1,
        fields.len() > 0,
        forall|j: int|
            0 <= j < fields.len() ==> #[trigger] fields[j] == (AbiField { size: p, align: p }),
    ensures
        spec_struct_align(fields) == p,
    decreases fields.len(),
{
    assert(fields[fields.len() - 1] == (AbiField { size: p, align: p }));
    if fields.len() == 1 {
        assert(spec_struct_align(fields.drop_last()) == 1);
    } else {
        assert(forall|j: int|
            0 <= j < fields.len() - 1 ==> #[trigger] fields.drop_last()[j] == (AbiField {
                size: p,
                align: p,
            }));
        lemma_uniform_align(fields.drop_last(), p);
    }
}

/// The computed layout of a `repr(C)` record: one byte offset per field, the
/// padded total size, and the record alignment.
#[derive(Clone, Debug, PartialEq, Eq)]
pub struct StructLayout {
    /// Byte offset of each field, in field order.
    pub offsets: Vec<usize>,
    /// Total size of the record, padding included.
    pub size: usize,
    /// Alignment of the record.
    pub align: usize,
}

/// Round `n` up to a multiple of `a`.
pub fn align_up(n: usize, a: usize) -> (r: usize)
    requires
        a >= 1,
        spec_align_up(n as int, a as int) <= usize::MAX,
    ensures
        r as int == spec_align_up(n as int, a as int),
{
    let rem = n % a;
    if rem == 0 {
        n
    } else {
        proof {
            lemma_align_up_bounds(n as int, a as int);
        }
        n + (a - rem)
    }
}

/// Lay out a `repr(C)` record: field order is kept, each field starts at the
/// end of the previous one rounded up to its own alignment, and the record
/// size is the end of the last field padded to the largest field alignment —
/// exactly what the paired native compiler does.
pub fn compute_struct_layout(fields: &Vec<AbiField>) -> (r: StructLayout)
    requires
        spec_fields_wf(fields@),
        spec_struct_size(fields@) <= usize::MAX,
    ensures
        r.offsets@.len() == fields@.len(),
        forall|i: int|
            0 <= i < fields@.len() ==> #[trigger] r.offsets@[i] == spec_field_offset(fields@, i),
        r.size as int == spec_struct_size(fields@),
        r.align as int == spec_struct_align(fields@),
{
    let mut offsets: Vec<usize> = Vec::new();
    let mut end: usize = 0;
    let mut max_align: usize = 1;
    let mut i: usize = 0;
    proof {
        lemma_struct_end_le_size(fields@);
        lemma_struct_align_bounds(fields@);
    }
    while i < fields.len()
        invariant
            spec_fields_wf(fields@),
            spec_struct_size(fields@) <= usize::MAX,
            spec_struct_end(fields@) <= spec_struct_size(fields@),
            i <= fields@.len(),
            offsets@.len() == i,
            forall|j: int|
                0 <= j < i ==> #[trigger] offsets@[j] == spec_field_offset(fields@, j),
            end as int == if i == 0 {
                0int
            } else {
                spec_field_offset(fields@, i - 1) + fields@[i - 1].size
            },
            max_align as int == spec_struct_align(fields@.take(i as int)),
            max_align >= 1,
        decreases fields@.len() - i,
    {
        let f = fields[i];
        proof {
            lemma_field_offset_bounds(fields@, i as int);
            if i > 0 {
                lemma_field_offset_bounds(fields@, i - 1);
            }
            lemma_align_up_bounds(end as int, f.align as int);
        }
        let off = align_up(end, f.align);
        proof {
            if i == 0 {
                vstd::arithmetic::div_mod::lemma_small_mod(0nat, f.align as nat);
            }
            assert(off as int == spec_field_offset(fields@, i as int));
        }
        offsets.push(off);
        end = off + f.size;
        if f.align > max_align {
            max_align = f.align;
        }
        proof {
            assert(fields@.take(i + 1).drop_last() =~= fields@.take(i as int));
            assert(fields@.take(i + 1).last() == fields@[i as int]);
        }
        i += 1;
    }
    proof {
        assert(fields@.take(i as int) =~= fields@);
        lemma_struct_align_bounds(fields@);
    }
    let size = align_up(end, max_align);
    StructLayout { offsets, size, align: max_align }
}

} // verus!
