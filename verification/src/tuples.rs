use vstd::prelude::*;

use crate::bty::BytecodeType;
use crate::mem::align_i32_spec;
use crate::specialize::{
    as_ints, cache_wf, lemma_size_align_bounds, size_align_of, spec_size_align, spec_tuple_fold,
    spec_tuple_refs, spec_tuple_refs_ok, spec_ty_refs, tuple_offset, ShapeError,
};

use crate::vm::VM;

verus! {

/// The packed layout of one concrete tuple: member offsets in declaration
/// order, the offsets of contained references, and total size and
/// alignment.
#[derive(Clone, Debug)]
pub struct ConcreteTuple {
    pub offsets: Vec<i32>,
    pub references: Vec<i32>,
    pub size: i32,
    pub align: i32,
}

impl ConcreteTuple {
    pub fn offsets(&self) -> (r: &Vec<i32>)
        ensures
            r@ == self.offsets@,
    {
        &self.offsets
    }

    pub fn contains_references(&self) -> (r: bool)
        ensures
            r == (self.references@.len() > 0),
    {
        self.references.len() > 0
    }

    pub fn references(&self) -> (r: &Vec<i32>)
        ensures
            r@ == self.references@,
    {
        &self.references
    }

    pub fn size(&self) -> (r: i32)
        ensures
            r == self.size,
    {
        self.size
    }

    pub fn align(&self) -> (r: i32)
        ensures
            r == self.align,
    {
        self.align
    }
}

/// Packs the members of a tuple in declaration order at natural alignment.
pub fn get_concrete_tuple(vm: &VM, subtypes: &Vec<BytecodeType>) -> (r: Result<
    ConcreteTuple,
    ShapeError,
>)
    requires
        cache_wf(vm.struct_specializations@),
        cache_wf(vm.enum_specializations@),
    ensures
        r matches Ok(t) ==> {
            &&& spec_tuple_fold(*vm, subtypes@) matches Some(p) && t.size == align_i32_spec(
                p.0,
                p.1,
            ) && t.align == p.1
            &&& t.offsets@.len() == subtypes@.len()
            &&& (forall|i: int|
                0 <= i < subtypes@.len() ==> (#[trigger] t.offsets@[i]) as int == tuple_offset(
                    *vm,
                    subtypes@,
                    i,
                ))
            &&& spec_tuple_refs(*vm, subtypes@, 0) matches Some(refs) && as_ints(t.references@)
                == refs
        },
        r is Ok <==> (spec_tuple_refs_ok(*vm, subtypes@, 0) && align_i32_spec(
            (spec_tuple_fold(*vm, subtypes@)->0).0,
            (spec_tuple_fold(*vm, subtypes@)->0).1,
        ) <= i32::MAX),
        spec_tuple_fold(*vm, subtypes@) is None ==> r is Err,
{
    let mut offsets: Vec<i32> = Vec::new();
    let mut size: i32 = 0;
    let mut align: i32 = 0;
    let mut i: usize = 0;
    proof {
        assert(subtypes@.subrange(0, 0) =~= Seq::<BytecodeType>::empty());
    }
    while i < subtypes.len()
        invariant
            cache_wf(vm.struct_specializations@),
            cache_wf(vm.enum_specializations@),
            i <= subtypes@.len(),
            offsets@.len() == i,
            spec_tuple_fold(*vm, subtypes@.subrange(0, i as int)) == Some(
                (size as int, align as int),
            ),
            0 <= size,
            0 <= align <= 8,
            forall|k: int|
                0 <= k < i ==> spec_tuple_fold(*vm, #[trigger] subtypes@.subrange(0, k)) is Some
                    && spec_size_align(*vm, subtypes@[k]) is Some,
            forall|k: int|
                0 <= k < i ==> (#[trigger] offsets@[k]) as int == align_i32_spec(
                    (spec_tuple_fold(*vm, subtypes@.subrange(0, k))->0).0,
                    (spec_size_align(*vm, subtypes@[k])->0).1,
                ),
        decreases subtypes@.len() - i,
    {
        let (es, ea) = match size_align_of(vm, &subtypes[i]) {
            Ok(p) => p,
            Err(e) => {
                proof {
                    crate::specialize::lemma_tuple_fold_prefix_none(*vm, subtypes@, i as int);
                }
                return Err(e);
            },
        };
        proof {
            lemma_size_align_bounds(*vm, subtypes@[i as int]);
        }
        let offset = if ea == 0 {
            size
        } else {
            proof {
                crate::mem::lemma_align_nonneg(size as int, ea as int);
                crate::mem::lemma_align_grows(size as int, ea as int);
                crate::mem::lemma_align_upper(size as int, ea as int);
            }
            let a64: i64 = ((size as i64 + ea as i64 - 1) / ea as i64) * ea as i64;
            if a64 > i32::MAX as i64 {
                proof {
                    assert(subtypes@.subrange(0, i as int + 1).drop_last() =~= subtypes@.subrange(
                        0,
                        i as int,
                    ));
                    assert(subtypes@.subrange(0, i as int + 1).last() == subtypes@[i as int]);
                    crate::specialize::lemma_tuple_fold_none_extends(*vm, subtypes@, i as int + 1);
                }
                return Err(ShapeError::TooLarge);
            }
            a64 as i32
        };
        if offset > i32::MAX - es {
            proof {
                assert(subtypes@.subrange(0, i as int + 1).drop_last() =~= subtypes@.subrange(
                    0,
                    i as int,
                ));
                assert(subtypes@.subrange(0, i as int + 1).last() == subtypes@[i as int]);
                crate::specialize::lemma_tuple_fold_none_extends(*vm, subtypes@, i as int + 1);
            }
            return Err(ShapeError::TooLarge);
        }
        offsets.push(offset);
        size = offset + es;
        if ea > align {
            align = ea;
        }
        i = i + 1;
        proof {
            assert(subtypes@.subrange(0, i as int).drop_last() =~= subtypes@.subrange(
                0,
                i as int - 1,
            ));
            assert(subtypes@.subrange(0, i as int).last() == subtypes@[i as int - 1]);
        }
    }
    proof {
        assert(subtypes@.subrange(0, subtypes@.len() as int) =~= subtypes@);
    }
    let total = if align == 0 {
        size
    } else {
        proof {
            crate::mem::lemma_align_nonneg(size as int, align as int);
            crate::mem::lemma_align_grows(size as int, align as int);
            crate::mem::lemma_align_upper(size as int, align as int);
        }
        let a64: i64 = ((size as i64 + align as i64 - 1) / align as i64) * align as i64;
        if a64 > i32::MAX as i64 {
            return Err(ShapeError::TooLarge);
        }
        a64 as i32
    };
    let mut references: Vec<i32> = Vec::new();
    match crate::specialize::add_tuple_ref_fields(vm, &mut references, 0, subtypes) {
        Ok(_) => {},
        Err(e) => {
            return Err(e);
        },
    }
    proof {
        assert(as_ints(Seq::<i32>::empty()) =~= Seq::<int>::empty());
        if spec_tuple_refs(*vm, subtypes@, 0) is Some {
            assert(as_ints(references@) =~= Seq::<int>::empty() + spec_tuple_refs(
                *vm,
                subtypes@,
                0,
            )->0);
            assert(as_ints(references@) =~= spec_tuple_refs(*vm, subtypes@, 0)->0);
        }
    }
    Ok(ConcreteTuple { offsets, references, size: total, align })
}

/// Every prefix of a defined fold is defined.
proof fn lemma_fold_prefix_some(vm: VM, subtypes: Seq<BytecodeType>, n: int)
    requires
        0 <= n <= subtypes.len(),
        spec_tuple_fold(vm, subtypes) is Some,
    ensures
        spec_tuple_fold(vm, subtypes.subrange(0, n)) is Some,
{
    if spec_tuple_fold(vm, subtypes.subrange(0, n)) is None {
        crate::specialize::lemma_tuple_fold_none_extends(vm, subtypes, n);
    }
}

/// One step of the fold: the next running size is the member's offset plus
/// its size, and it never shrinks.
proof fn lemma_fold_step(vm: VM, subtypes: Seq<BytecodeType>, i: int)
    requires
        0 <= i < subtypes.len(),
        spec_tuple_fold(vm, subtypes.subrange(0, i + 1)) is Some,
    ensures
        spec_tuple_fold(vm, subtypes.subrange(0, i)) is Some,
        spec_size_align(vm, subtypes[i]) is Some,
        (spec_tuple_fold(vm, subtypes.subrange(0, i + 1))->0).0 == tuple_offset(vm, subtypes, i)
            + (spec_size_align(vm, subtypes[i])->0).0,
        (spec_tuple_fold(vm, subtypes.subrange(0, i))->0).0 <= tuple_offset(vm, subtypes, i),
        (spec_tuple_fold(vm, subtypes.subrange(0, i + 1))->0).0 >= (spec_tuple_fold(
            vm,
            subtypes.subrange(0, i),
        )->0).0,
{
    assert(subtypes.subrange(0, i + 1).drop_last() =~= subtypes.subrange(0, i));
    assert(subtypes.subrange(0, i + 1).last() == subtypes[i]);
    crate::specialize::lemma_tuple_fold_bounds(vm, subtypes.subrange(0, i));
    lemma_size_align_bounds(vm, subtypes[i]);
    let p = spec_tuple_fold(vm, subtypes.subrange(0, i))->0;
    let q = spec_size_align(vm, subtypes[i])->0;
    if q.1 > 0 {
        crate::mem::lemma_align_grows(p.0, q.1);
        crate::mem::lemma_align_nonneg(p.0, q.1);
    }
}

/// The running size never decreases along the members.
proof fn lemma_fold_mono(vm: VM, subtypes: Seq<BytecodeType>, i: int, j: int)
    requires
        0 <= i <= j <= subtypes.len(),
        spec_tuple_fold(vm, subtypes) is Some,
    ensures
        spec_tuple_fold(vm, subtypes.subrange(0, i)) is Some,
        spec_tuple_fold(vm, subtypes.subrange(0, j)) is Some,
        (spec_tuple_fold(vm, subtypes.subrange(0, i))->0).0 <= (spec_tuple_fold(
            vm,
            subtypes.subrange(0, j),
        )->0).0,
    decreases j - i,
{
    lemma_fold_prefix_some(vm, subtypes, i);
    lemma_fold_prefix_some(vm, subtypes, j);
    if i < j {
        lemma_fold_mono(vm, subtypes, i, j - 1);
        lemma_fold_prefix_some(vm, subtypes, j - 1);
        lemma_fold_step(vm, subtypes, j - 1);
    }
}

/// Tuple packing is sound: member offsets never decrease along the
/// declaration order, every member ends within the rounded total size, and
/// a positive alignment divides that size.
pub proof fn lemma_tuple_packing(vm: VM, subtypes: Seq<BytecodeType>)
    requires
        spec_tuple_fold(vm, subtypes) is Some,
    ensures
        forall|i: int, j: int|
            0 <= i <= j < subtypes.len() ==> tuple_offset(vm, subtypes, i) <= tuple_offset(
                vm,
                subtypes,
                j,
            ),
        forall|i: int|
            0 <= i < subtypes.len() ==> tuple_offset(vm, subtypes, i) + (spec_size_align(
                vm,
                subtypes[i],
            )->0).0 <= align_i32_spec(
                (spec_tuple_fold(vm, subtypes)->0).0,
                (spec_tuple_fold(vm, subtypes)->0).1,
            ),
        (spec_tuple_fold(vm, subtypes)->0).1 > 0 ==> align_i32_spec(
            (spec_tuple_fold(vm, subtypes)->0).0,
            (spec_tuple_fold(vm, subtypes)->0).1,
        ) % (spec_tuple_fold(vm, subtypes)->0).1 == 0,
{
    let n = subtypes.len() as int;
    let p = spec_tuple_fold(vm, subtypes)->0;
    crate::specialize::lemma_tuple_fold_bounds(vm, subtypes);
    assert(subtypes.subrange(0, n) =~= subtypes);
    assert forall|i: int, j: int|
        0 <= i <= j < subtypes.len() implies tuple_offset(vm, subtypes, i) <= tuple_offset(
        vm,
        subtypes,
        j,
    ) by {
        lemma_fold_prefix_some(vm, subtypes, i + 1);
        lemma_fold_prefix_some(vm, subtypes, j + 1);
        lemma_fold_step(vm, subtypes, i);
        lemma_fold_step(vm, subtypes, j);
        if i < j {
            lemma_fold_mono(vm, subtypes, i + 1, j);
        }
        lemma_size_align_bounds(vm, subtypes[i]);
    }
    assert forall|i: int|
        0 <= i < subtypes.len() implies tuple_offset(vm, subtypes, i) + (spec_size_align(
        vm,
        subtypes[i],
    )->0).0 <= align_i32_spec(p.0, p.1) by {
        lemma_fold_prefix_some(vm, subtypes, i + 1);
        lemma_fold_step(vm, subtypes, i);
        lemma_fold_mono(vm, subtypes, i + 1, n);
        if p.1 > 0 {
            crate::mem::lemma_align_grows(p.0, p.1);
        }
    }
    if p.1 > 0 {
        crate::mem::lemma_align_mod(p.0, p.1);
    }
}

/// A member type without nested aggregates: a primitive, the unit type, or
/// a reference.
pub open spec fn flat_member(ty: BytecodeType) -> bool {
    !(ty is Tuple) && !(ty is Struct) && !(ty is Enum) && !(ty is TypeParam)
}

/// The reference offsets of a flat member list, written out directly: one
/// entry per reference-typed member, at that member's offset, in order.
pub open spec fn flat_refs(vm: VM, subtypes: Seq<BytecodeType>, base: int) -> Seq<int>
    decreases subtypes,
{
    if subtypes.len() == 0 {
        Seq::<int>::empty()
    } else {
        flat_refs(vm, subtypes.drop_last(), base) + (
        if subtypes.last().is_reference_spec() {
            seq![base + tuple_offset(vm, subtypes, subtypes.len() - 1)]
        } else {
            Seq::<int>::empty()
        })
    }
}

/// Reference-bitmap coverage for flat member lists: the bitmap holds
/// exactly the offsets whose static type is a reference type, and nothing
/// else.
pub proof fn lemma_ref_bitmap_covers_references(vm: VM, subtypes: Seq<BytecodeType>, base: int)
    requires
        spec_tuple_fold(vm, subtypes) is Some,
        forall|i: int| 0 <= i < subtypes.len() ==> flat_member(#[trigger] subtypes[i]),
    ensures
        spec_tuple_refs(vm, subtypes, base) == Some(flat_refs(vm, subtypes, base)),
    decreases subtypes,
{
    if subtypes.len() > 0 {
        let n = subtypes.len() as int;
        assert(subtypes.subrange(0, n) =~= subtypes);
        crate::specialize::lemma_tuple_fold_some_prefix(vm, subtypes);
        lemma_ref_bitmap_covers_references(vm, subtypes.drop_last(), base);
        assert(forall|i: int|
            0 <= i < subtypes.drop_last().len() ==> #[trigger] subtypes.drop_last()[i]
                == subtypes[i]);
        let off = base + tuple_offset(vm, subtypes, n - 1);
        assert(subtypes.subrange(0, n - 1) =~= subtypes.drop_last());
        if subtypes.last().is_reference_spec() {
            assert(spec_ty_refs(vm, subtypes.last(), off) == Some(seq![off]));
        } else {
            assert(spec_ty_refs(vm, subtypes.last(), off) == Some(Seq::<int>::empty()));
        }
    }
}

/// The reference offsets of a flat member list are strictly increasing and
/// lie below the packed size: no offset is reported twice.
pub proof fn lemma_flat_refs_distinct(vm: VM, subtypes: Seq<BytecodeType>, base: int)
    requires
        spec_tuple_fold(vm, subtypes) is Some,
        forall|i: int| 0 <= i < subtypes.len() ==> flat_member(#[trigger] subtypes[i]),
    ensures
        forall|a: int, b: int|
            0 <= a < b < flat_refs(vm, subtypes, base).len() ==> flat_refs(vm, subtypes, base)[a]
                < flat_refs(vm, subtypes, base)[b],
        forall|a: int|
            0 <= a < flat_refs(vm, subtypes, base).len() ==> flat_refs(vm, subtypes, base)[a]
                < base + (spec_tuple_fold(vm, subtypes)->0).0,
    decreases subtypes,
{
    if subtypes.len() > 0 {
        let n = subtypes.len() as int;
        crate::specialize::lemma_tuple_fold_some_prefix(vm, subtypes);
        assert(forall|i: int|
            0 <= i < subtypes.drop_last().len() ==> #[trigger] subtypes.drop_last()[i]
                == subtypes[i]);
        lemma_flat_refs_distinct(vm, subtypes.drop_last(), base);
        lemma_size_align_bounds(vm, subtypes.last());
        let prefix = flat_refs(vm, subtypes.drop_last(), base);
        let p0 = (spec_tuple_fold(vm, subtypes.drop_last())->0).0;
        assert(subtypes.subrange(0, n) =~= subtypes);
        assert(subtypes.subrange(0, n - 1) =~= subtypes.drop_last());
        lemma_fold_step(vm, subtypes, n - 1);
        let off = tuple_offset(vm, subtypes, n - 1);
        let q = spec_size_align(vm, subtypes.last())->0;
        if subtypes.last().is_reference_spec() {
            assert(q.0 == 8);
            assert forall|a: int|
                0 <= a < flat_refs(vm, subtypes, base).len() implies flat_refs(
                vm,
                subtypes,
                base,
            )[a] < base + (spec_tuple_fold(vm, subtypes)->0).0 by {
                if a < prefix.len() {
                    assert(flat_refs(vm, subtypes, base)[a] == prefix[a]);
                } else {
                    assert(flat_refs(vm, subtypes, base)[a] == base + off);
                }
            }
            assert forall|a: int, b: int|
                0 <= a < b < flat_refs(vm, subtypes, base).len() implies flat_refs(
                vm,
                subtypes,
                base,
            )[a] < flat_refs(vm, subtypes, base)[b] by {
                if b < prefix.len() {
                    assert(flat_refs(vm, subtypes, base)[a] == prefix[a]);
                    assert(flat_refs(vm, subtypes, base)[b] == prefix[b]);
                } else {
                    assert(flat_refs(vm, subtypes, base)[a] == prefix[a]);
                    assert(flat_refs(vm, subtypes, base)[b] == base + off);
                    assert(prefix[a] < base + p0);
                }
            }
        } else {
            assert(flat_refs(vm, subtypes, base) =~= prefix);
        }
    }
}

} // verus!
