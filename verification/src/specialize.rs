use vstd::prelude::*;

use crate::bty::{lemma_reference_view, views_of, BtyV, BytecodeType, BytecodeTypeArray};
use crate::mem::align_i32_spec;
use crate::vm::{EnumLayout, VM};

verus! {

/// Why the shape layer refused a request.
#[derive(Clone, Copy, Debug, PartialEq, Eq, Structural)]
pub enum ShapeError {
    /// The type still holds a type parameter.
    NotConcrete,
    /// A nested struct or enum has not been specialized yet.
    MissingInstance,
    /// The computed layout exceeds the address space.
    TooLarge,
}

/// The key of one specialization-cache entry.
pub open spec fn cache_key(e: (u32, BytecodeTypeArray, usize)) -> (u32, Seq<BtyV>) {
    (e.0, e.1@)
}

/// Each key occurs at most once.
pub open spec fn cache_wf(entries: Seq<(u32, BytecodeTypeArray, usize)>) -> bool {
    forall|i: int, j: int|
        0 <= i < j < entries.len() ==> cache_key(#[trigger] entries[i]) != cache_key(
            #[trigger] entries[j],
        )
}

pub open spec fn cache_contains(
    entries: Seq<(u32, BytecodeTypeArray, usize)>,
    k: (u32, Seq<BtyV>),
) -> bool {
    exists|i: int| 0 <= i < entries.len() && cache_key(#[trigger] entries[i]) == k
}

/// The value stored under `k`.
pub open spec fn cache_at(entries: Seq<(u32, BytecodeTypeArray, usize)>, k: (u32, Seq<BtyV>)) -> usize {
    let i = choose|i: int| 0 <= i < entries.len() && cache_key(#[trigger] entries[i]) == k;
    entries[i].2
}

/// Every association of `pre` still holds in `post`.
pub open spec fn cache_preserves(
    pre: Seq<(u32, BytecodeTypeArray, usize)>,
    post: Seq<(u32, BytecodeTypeArray, usize)>,
) -> bool {
    forall|k: (u32, Seq<BtyV>)|
        cache_contains(pre, k) ==> #[trigger] cache_contains(post, k) && cache_at(post, k)
            == cache_at(pre, k)
}

/// Linear lookup in a specialization cache.
pub(crate) fn cache_get(
    entries: &Vec<(u32, BytecodeTypeArray, usize)>,
    id: u32,
    params: &BytecodeTypeArray,
) -> (r: Option<usize>)
    requires
        cache_wf(entries@),
    ensures
        r is Some <==> cache_contains(entries@, (id, params@)),
        r matches Some(v) ==> cache_at(entries@, (id, params@)) == v,
{
    let mut i: usize = 0;
    while i < entries.len()
        invariant
            cache_wf(entries@),
            i <= entries@.len(),
            forall|k: int| 0 <= k < i ==> cache_key(#[trigger] entries@[k]) != (id, params@),
        decreases entries@.len() - i,
    {
        if entries[i].0 == id && crate::code::bty_array_equal(&entries[i].1, params) {
            proof {
                let witness = i as int;
                assert(cache_key(entries@[witness]) == (id, params@));
                let j = choose|j: int|
                    0 <= j < entries@.len() && cache_key(#[trigger] entries@[j]) == (id, params@);
                assert(j == witness);
            }
            return Some(entries[i].2);
        }
        i = i + 1;
    }
    proof {
        if cache_contains(entries@, (id, params@)) {
            let j = choose|j: int|
                0 <= j < entries@.len() && cache_key(#[trigger] entries@[j]) == (id, params@);
            assert(cache_key(entries@[j]) == (id, params@));
            assert(false);
        }
    }
    None
}

/// Insertion under the double-check discipline: the key must still be
/// absent; everything present stays.
pub(crate) fn cache_insert(
    entries: &mut Vec<(u32, BytecodeTypeArray, usize)>,
    id: u32,
    params: BytecodeTypeArray,
    value: usize,
)
    requires
        cache_wf(old(entries)@),
        !cache_contains(old(entries)@, (id, params@)),
    ensures
        final (entries)@ == old(entries)@.push((id, params, value)),
        cache_wf(final (entries)@),
        cache_contains(final (entries)@, (id, params@)),
        cache_at(final (entries)@, (id, params@)) == value,
        cache_preserves(old(entries)@, final (entries)@),
{
    let ghost pre = entries@;
    let ghost newkey = (id, params@);
    entries.push((id, params, value));
    proof {
        let n = pre.len() as int;
        assert(cache_key(entries@[n]) == newkey);
        assert forall|i: int, j: int| 0 <= i < j < entries@.len() implies cache_key(
            #[trigger] entries@[i],
        ) != cache_key(#[trigger] entries@[j]) by {
            if j == n {
                if cache_key(entries@[i]) == newkey {
                    assert(entries@[i] == pre[i]);
                    assert(cache_key(pre[i]) == newkey);
                    assert(cache_contains(pre, newkey));
                    assert(false);
                }
            }
        }
        assert(cache_contains(entries@, newkey));
        let j = choose|j: int| 0 <= j < entries@.len() && cache_key(#[trigger] entries@[j]) == newkey;
        if j != n {
            assert(entries@[j] == pre[j]);
            assert(cache_key(pre[j]) == newkey);
            assert(cache_contains(pre, newkey));
            assert(false);
        }
        assert(cache_at(entries@, newkey) == value);
        assert forall|k: (u32, Seq<BtyV>)| cache_contains(pre, k) implies #[trigger] cache_contains(
            entries@,
            k,
        ) && cache_at(entries@, k) == cache_at(pre, k) by {
            let i0 = choose|i0: int| 0 <= i0 < pre.len() && cache_key(#[trigger] pre[i0]) == k;
            assert(entries@[i0] == pre[i0]);
            assert(cache_key(entries@[i0]) == k);
            assert(cache_contains(entries@, k));
            let j1 = choose|j1: int|
                0 <= j1 < entries@.len() && cache_key(#[trigger] entries@[j1]) == k;
            let j0 = choose|j0: int| 0 <= j0 < pre.len() && cache_key(#[trigger] pre[j0]) == k;
            if j1 == n {
                assert(k == newkey);
                assert(cache_contains(pre, newkey));
                assert(false);
            }
            assert(entries@[j1] == pre[j1]);
            assert(cache_key(pre[j1]) == k);
            if j0 != j1 {
                assert(cache_key(pre[j0]) == cache_key(pre[j1]));
                assert(false);
            }
        }
    }
}

/// Size and alignment of a concrete type, in bytes. Nested structs and
/// enums must already be specialized; `None` otherwise.
pub open spec fn spec_size_align(vm: VM, ty: BytecodeType) -> Option<(int, int)>
    decreases ty,
{
    match ty {
        BytecodeType::Unit => Some((0, 0)),
        BytecodeType::Bool => Some((1, 1)),
        BytecodeType::UInt8 => Some((1, 1)),
        BytecodeType::Char => Some((4, 4)),
        BytecodeType::Int32 => Some((4, 4)),
        BytecodeType::Int64 => Some((8, 8)),
        BytecodeType::Float32 => Some((4, 4)),
        BytecodeType::Float64 => Some((8, 8)),
        BytecodeType::Ptr => Some((8, 8)),
        BytecodeType::Class(_, _) => Some((8, 8)),
        BytecodeType::Trait(_, _) => Some((8, 8)),
        BytecodeType::Lambda(_, _) => Some((8, 8)),
        BytecodeType::TypeParam(_) => None,
        BytecodeType::Tuple(subtypes) => match spec_tuple_fold(vm, subtypes.0@) {
            Some((size, align)) => if align_i32_spec(size, align) <= i32::MAX {
                Some((align_i32_spec(size, align), align))
            } else {
                None
            },
            None => None,
        },
        BytecodeType::Struct(id, params) => if cache_contains(
            vm.struct_specializations@,
            (id.0, views_of(params.0@)),
        ) {
            let sid = cache_at(vm.struct_specializations@, (id.0, views_of(params.0@)));
            if sid < vm.struct_instances@.len() && 0 <= vm.struct_instances@[sid as int].size && 0
                <= vm.struct_instances@[sid as int].align <= 8 {
                Some(
                    (
                        vm.struct_instances@[sid as int].size as int,
                        vm.struct_instances@[sid as int].align as int,
                    ),
                )
            } else {
                None
            }
        } else {
            None
        },
        BytecodeType::Enum(id, params) => if cache_contains(
            vm.enum_specializations@,
            (id.0, views_of(params.0@)),
        ) {
            let eid = cache_at(vm.enum_specializations@, (id.0, views_of(params.0@)));
            if eid < vm.enum_instances@.len() {
                if vm.enum_instances@[eid as int].layout == EnumLayout::Int {
                    Some((4, 4))
                } else {
                    Some((8, 8))
                }
            } else {
                None
            }
        } else {
            None
        },
    }
}

/// Unrounded size and running alignment of a tuple's members, packed in
/// order at natural alignment.
pub open spec fn spec_tuple_fold(vm: VM, subtypes: Seq<BytecodeType>) -> Option<(int, int)>
    decreases subtypes,
{
    if subtypes.len() == 0 {
        Some((0, 0))
    } else {
        match (spec_tuple_fold(vm, subtypes.drop_last()), spec_size_align(vm, subtypes.last())) {
            (Some((size, align)), Some((es, ea))) => if align_i32_spec(size, ea) + es
                <= i32::MAX {
                Some(
                    (
                        align_i32_spec(size, ea) + es,
                        if align >= ea {
                            align
                        } else {
                            ea
                        },
                    ),
                )
            } else {
                None
            },
            _ => None,
        }
    }
}

/// Size and alignment of a concrete type. Mirrors `spec_size_align`; the
/// result is exact whenever one exists and fits.
pub fn size_align_of(vm: &VM, ty: &BytecodeType) -> (r: Result<(i32, i32), ShapeError>)
    requires
        cache_wf(vm.struct_specializations@),
        cache_wf(vm.enum_specializations@),
    ensures
        r is Ok <==> spec_size_align(*vm, *ty) is Some,
        r matches Ok(p) ==> spec_size_align(*vm, *ty) == Some((p.0 as int, p.1 as int)),
    decreases *ty,
{
    match ty {
        BytecodeType::Unit => Ok((0, 0)),
        BytecodeType::Bool => Ok((1, 1)),
        BytecodeType::UInt8 => Ok((1, 1)),
        BytecodeType::Char => Ok((4, 4)),
        BytecodeType::Int32 => Ok((4, 4)),
        BytecodeType::Int64 => Ok((8, 8)),
        BytecodeType::Float32 => Ok((4, 4)),
        BytecodeType::Float64 => Ok((8, 8)),
        BytecodeType::Ptr => Ok((8, 8)),
        BytecodeType::Class(_, _) => Ok((8, 8)),
        BytecodeType::Trait(_, _) => Ok((8, 8)),
        BytecodeType::Lambda(_, _) => Ok((8, 8)),
        BytecodeType::TypeParam(_) => Err(ShapeError::NotConcrete),
        BytecodeType::Tuple(subtypes) => {
            match tuple_fold(vm, &subtypes.0) {
                Ok((size, align)) => {
                    if align == 0 {
                        Ok((size, 0))
                    } else {
                        proof {
                            crate::mem::lemma_align_nonneg(size as int, align as int);
                            crate::mem::lemma_align_grows(size as int, align as int);
                            crate::mem::lemma_align_upper(size as int, align as int);
                        }
                        let rounded64: i64 = ((size as i64 + align as i64 - 1) / align as i64)
                            * align as i64;
                        if rounded64 > i32::MAX as i64 {
                            Err(ShapeError::TooLarge)
                        } else {
                            Ok((rounded64 as i32, align))
                        }
                    }
                },
                Err(e) => Err(e),
            }
        },
        BytecodeType::Struct(id, params) => {
            proof {
                crate::bty::lemma_views_of(params.0@);
            }
            match cache_get(&vm.struct_specializations, id.0, params) {
                Some(sid) => {
                    if sid < vm.struct_instances.len() {
                        let inst = &vm.struct_instances[sid];
                        if inst.size >= 0 && inst.align >= 0 && inst.align <= 8 {
                            Ok((inst.size, inst.align))
                        } else {
                            Err(ShapeError::MissingInstance)
                        }
                    } else {
                        Err(ShapeError::MissingInstance)
                    }
                },
                None => Err(ShapeError::MissingInstance),
            }
        },
        BytecodeType::Enum(id, params) => {
            proof {
                crate::bty::lemma_views_of(params.0@);
            }
            match cache_get(&vm.enum_specializations, id.0, params) {
                Some(eid) => {
                    if eid < vm.enum_instances.len() {
                        let inst = &vm.enum_instances[eid];
                        match inst.layout {
                            EnumLayout::Int => Ok((4, 4)),
                            _ => Ok((8, 8)),
                        }
                    } else {
                        Err(ShapeError::MissingInstance)
                    }
                },
                None => Err(ShapeError::MissingInstance),
            }
        },
    }
}

/// The member fold behind tuple sizes, bounded to stay within `i32`.
fn tuple_fold(vm: &VM, subtypes: &Vec<BytecodeType>) -> (r: Result<(i32, i32), ShapeError>)
    requires
        cache_wf(vm.struct_specializations@),
        cache_wf(vm.enum_specializations@),
    ensures
        r is Ok <==> spec_tuple_fold(*vm, subtypes@) is Some,
        r matches Ok(p) ==> spec_tuple_fold(*vm, subtypes@) == Some((p.0 as int, p.1 as int)) && 0
            <= p.0 && 0 <= p.1 <= 8,
    decreases subtypes@,
{
    let mut size: i32 = 0;
    let mut align: i32 = 0;
    let mut i: usize = 0;
    proof {
        assert(subtypes@.subrange(0, 0) =~= Seq::<BytecodeType>::empty());
    }
    while i < subtypes.len()
        invariant
            cache_wf(vm.struct_specializations@),
            cache_wf(vm.enum_specializations@),
            i <= subtypes@.len(),
            spec_tuple_fold(*vm, subtypes@.subrange(0, i as int)) == Some(
                (size as int, align as int),
            ),
            0 <= size,
            0 <= align <= 8,
        decreases subtypes@.len() - i,
    {
        let (es, ea) = match size_align_of(vm, &subtypes[i]) {
            Ok(p) => p,
            Err(e) => {
                proof {
                    lemma_tuple_fold_prefix_none(*vm, subtypes@, i as int);
                }
                return Err(e);
            },
        };
        proof {
            lemma_size_align_bounds(*vm, subtypes@[i as int]);
        }
        let aligned = if ea == 0 {
            size
        } else {
            proof {
                crate::mem::lemma_align_nonneg(size as int, ea as int);
                crate::mem::lemma_align_grows(size as int, ea as int);
                crate::mem::lemma_align_upper(size as int, ea as int);
            }
            let a64: i64 = ((size as i64 + ea as i64 - 1) / ea as i64) * ea as i64;
            if a64 > i32::MAX as i64 {
                proof {
                    assert(subtypes@.subrange(0, i as int + 1).drop_last() =~= subtypes@.subrange(
                        0,
                        i as int,
                    ));
                    assert(subtypes@.subrange(0, i as int + 1).last() == subtypes@[i as int]);
                    lemma_tuple_fold_none_extends(*vm, subtypes@, i as int + 1);
                }
                return Err(ShapeError::TooLarge);
            }
            a64 as i32
        };
        if aligned > i32::MAX - es {
            proof {
                assert(subtypes@.subrange(0, i as int + 1).drop_last() =~= subtypes@.subrange(
                    0,
                    i as int,
                ));
                assert(subtypes@.subrange(0, i as int + 1).last() == subtypes@[i as int]);
                lemma_tuple_fold_none_extends(*vm, subtypes@, i as int + 1);
            }
            return Err(ShapeError::TooLarge);
        }
        size = aligned + es;
        if ea > align {
            align = ea;
        }
        i = i + 1;
        proof {
            assert(subtypes@.subrange(0, i as int).drop_last() =~= subtypes@.subrange(
                0,
                i as int - 1,
            ));
            assert(subtypes@.subrange(0, i as int).last() == subtypes@[i as int - 1]);
        }
    }
    proof {
        assert(subtypes@.subrange(0, subtypes@.len() as int) =~= subtypes@);
    }
    Ok((size, align))
}

/// Any size/alignment `spec_size_align` yields is non-negative, with the
/// alignment at most a pointer's.
pub proof fn lemma_size_align_bounds(vm: VM, ty: BytecodeType)
    ensures
        spec_size_align(vm, ty) matches Some(p) ==> 0 <= p.0 && 0 <= p.1 <= 8,
    decreases ty,
{
    match ty {
        BytecodeType::Tuple(subtypes) => {
            lemma_tuple_fold_bounds(vm, subtypes.0@);
            if spec_tuple_fold(vm, subtypes.0@) is Some {
                let p = spec_tuple_fold(vm, subtypes.0@)->0;
                if p.1 > 0 {
                    crate::mem::lemma_align_nonneg(p.0, p.1);
                }
            }
        },
        _ => {},
    }
}

/// The tuple fold only grows and keeps its alignment within a pointer's.
pub proof fn lemma_tuple_fold_bounds(vm: VM, subtypes: Seq<BytecodeType>)
    ensures
        spec_tuple_fold(vm, subtypes) matches Some(p) ==> 0 <= p.0 && 0 <= p.1 <= 8,
    decreases subtypes,
{
    if subtypes.len() > 0 {
        lemma_tuple_fold_bounds(vm, subtypes.drop_last());
        lemma_size_align_bounds(vm, subtypes.last());
        if spec_tuple_fold(vm, subtypes.drop_last()) is Some && spec_size_align(
            vm,
            subtypes.last(),
        ) is Some {
            let p = spec_tuple_fold(vm, subtypes.drop_last())->0;
            let q = spec_size_align(vm, subtypes.last())->0;
            if q.1 > 0 {
                crate::mem::lemma_align_nonneg(p.0, q.1);
            }
        }
    }
}

/// A defined fold keeps its immediate prefix defined.
pub proof fn lemma_tuple_fold_some_prefix(vm: VM, subtypes: Seq<BytecodeType>)
    requires
        subtypes.len() > 0,
        spec_tuple_fold(vm, subtypes) is Some,
    ensures
        spec_tuple_fold(vm, subtypes.drop_last()) is Some,
        spec_size_align(vm, subtypes.last()) is Some,
{
}

/// A failing member makes the whole fold fail.
pub proof fn lemma_tuple_fold_prefix_none(vm: VM, subtypes: Seq<BytecodeType>, i: int)
    requires
        0 <= i < subtypes.len(),
        spec_size_align(vm, subtypes[i]) is None,
    ensures
        spec_tuple_fold(vm, subtypes) is None,
    decreases subtypes,
{
    if subtypes.len() > 0 {
        if i == subtypes.len() - 1 {
        } else {
            lemma_tuple_fold_prefix_none(vm, subtypes.drop_last(), i);
        }
    }
}

/// Once a prefix fold fails, every longer fold fails.
pub proof fn lemma_tuple_fold_none_extends(vm: VM, subtypes: Seq<BytecodeType>, n: int)
    requires
        0 <= n <= subtypes.len(),
        spec_tuple_fold(vm, subtypes.subrange(0, n)) is None,
    ensures
        spec_tuple_fold(vm, subtypes) is None,
    decreases subtypes.len() - n,
{
    if n == subtypes.len() {
        assert(subtypes.subrange(0, n) =~= subtypes);
    } else {
        assert(subtypes.subrange(0, n + 1).drop_last() =~= subtypes.subrange(0, n));
        lemma_tuple_fold_none_extends(vm, subtypes, n + 1);
    }
}


/// A sequence of stored offsets, as mathematical integers.
pub open spec fn as_ints(s: Seq<i32>) -> Seq<int> {
    s.map_values(|o: i32| o as int)
}

/// The same offsets translated by `offset`.
pub open spec fn shifted(s: Seq<i32>, offset: int) -> Seq<int> {
    s.map_values(|o: i32| o as int + offset)
}

/// The reference offsets a value of type `ty` placed at `offset`
/// contributes to its container's bitmap: none for primitives, the field
/// start for references and pointer-like enums, and the translated nested
/// offsets for tuples and structs.
pub open spec fn spec_ty_refs(vm: VM, ty: BytecodeType, offset: int) -> Option<Seq<int>>
    decreases ty,
{
    match ty {
        BytecodeType::Unit => Some(Seq::<int>::empty()),
        BytecodeType::Bool => Some(Seq::<int>::empty()),
        BytecodeType::UInt8 => Some(Seq::<int>::empty()),
        BytecodeType::Char => Some(Seq::<int>::empty()),
        BytecodeType::Int32 => Some(Seq::<int>::empty()),
        BytecodeType::Int64 => Some(Seq::<int>::empty()),
        BytecodeType::Float32 => Some(Seq::<int>::empty()),
        BytecodeType::Float64 => Some(Seq::<int>::empty()),
        BytecodeType::TypeParam(_) => None,
        BytecodeType::Ptr => Some(seq![offset]),
        BytecodeType::Class(_, _) => Some(seq![offset]),
        BytecodeType::Trait(_, _) => Some(seq![offset]),
        BytecodeType::Lambda(_, _) => Some(seq![offset]),
        BytecodeType::Tuple(subtypes) => spec_tuple_refs(vm, subtypes.0@, offset),
        BytecodeType::Struct(id, params) => if cache_contains(
            vm.struct_specializations@,
            (id.0, views_of(params.0@)),
        ) {
            let sid = cache_at(vm.struct_specializations@, (id.0, views_of(params.0@)));
            if sid < vm.struct_instances@.len() {
                Some(shifted(vm.struct_instances@[sid as int].ref_fields@, offset))
            } else {
                None
            }
        } else {
            None
        },
        BytecodeType::Enum(id, params) => if cache_contains(
            vm.enum_specializations@,
            (id.0, views_of(params.0@)),
        ) {
            let eid = cache_at(vm.enum_specializations@, (id.0, views_of(params.0@)));
            if eid < vm.enum_instances@.len() {
                if vm.enum_instances@[eid as int].layout == EnumLayout::Int {
                    Some(Seq::<int>::empty())
                } else {
                    Some(seq![offset])
                }
            } else {
                None
            }
        } else {
            None
        },
    }
}

/// The reference offsets of a packed member list starting at `base`.
pub open spec fn spec_tuple_refs(vm: VM, subtypes: Seq<BytecodeType>, base: int) -> Option<
    Seq<int>,
>
    decreases subtypes,
{
    if subtypes.len() == 0 {
        Some(Seq::<int>::empty())
    } else {
        match (
            spec_tuple_fold(vm, subtypes.drop_last()),
            spec_size_align(vm, subtypes.last()),
            spec_tuple_refs(vm, subtypes.drop_last(), base),
        ) {
            (Some((size, _align)), Some((_es, ea)), Some(prefix_refs)) => {
                match spec_ty_refs(vm, subtypes.last(), base + align_i32_spec(size, ea)) {
                    Some(last_refs) => Some(prefix_refs + last_refs),
                    None => None,
                }
            },
            _ => None,
        }
    }
}

/// The offset of member `i` of a packed member list: the running size of
/// the members before it, rounded up to the member's alignment.
pub open spec fn tuple_offset(vm: VM, subtypes: Seq<BytecodeType>, i: int) -> int {
    align_i32_spec(
        (spec_tuple_fold(vm, subtypes.subrange(0, i))->0).0,
        (spec_size_align(vm, subtypes[i])->0).1,
    )
}

/// When translating a value's reference offsets succeeds: the type is
/// concrete, every nested struct or enum is already specialized, and every
/// produced offset stays within `i32`.
pub open spec fn spec_ty_refs_ok(vm: VM, ty: BytecodeType, offset: int) -> bool
    decreases ty,
{
    match ty {
        BytecodeType::Unit
        | BytecodeType::Bool
        | BytecodeType::UInt8
        | BytecodeType::Char
        | BytecodeType::Int32
        | BytecodeType::Int64
        | BytecodeType::Float32
        | BytecodeType::Float64 => true,
        BytecodeType::TypeParam(_) => false,
        BytecodeType::Ptr
        | BytecodeType::Class(_, _)
        | BytecodeType::Trait(_, _)
        | BytecodeType::Lambda(_, _) => true,
        BytecodeType::Tuple(subtypes) => spec_tuple_refs_ok(vm, subtypes.0@, offset),
        BytecodeType::Struct(id, params) => {
            &&& cache_contains(vm.struct_specializations@, (id.0, views_of(params.0@)))
            &&& ({
                let sid = cache_at(vm.struct_specializations@, (id.0, views_of(params.0@)));
                &&& sid < vm.struct_instances@.len()
                &&& forall|k: int|
                    0 <= k < vm.struct_instances@[sid as int].ref_fields@.len() ==> 0
                        <= #[trigger] vm.struct_instances@[sid as int].ref_fields@[k]
                        && vm.struct_instances@[sid as int].ref_fields@[k] + offset <= i32::MAX
            })
        },
        BytecodeType::Enum(id, params) => {
            &&& cache_contains(vm.enum_specializations@, (id.0, views_of(params.0@)))
            &&& cache_at(vm.enum_specializations@, (id.0, views_of(params.0@)))
                < vm.enum_instances@.len()
        },
    }
}

/// When translating a packed member list's references succeeds: the layout
/// fold is defined and every member translates at its offset.
pub open spec fn spec_tuple_refs_ok(vm: VM, subtypes: Seq<BytecodeType>, base: int) -> bool
    decreases subtypes,
{
    &&& spec_tuple_fold(vm, subtypes) is Some
    &&& forall|j: int|
        0 <= j < subtypes.len() ==> base + tuple_offset(vm, subtypes, j) <= i32::MAX
            && spec_ty_refs_ok(vm, #[trigger] subtypes[j], base + tuple_offset(vm, subtypes, j))
}

/// Every stored offset is non-negative and stays within `i32` when
/// translated by `offset`.
fn offsets_translatable(refs: &Vec<i32>, offset: i32) -> (r: bool)
    requires
        0 <= offset,
    ensures
        r == (forall|k: int|
            0 <= k < refs@.len() ==> 0 <= #[trigger] refs@[k] && refs@[k] + offset <= i32::MAX),
{
    let mut k: usize = 0;
    while k < refs.len()
        invariant
            0 <= offset,
            k <= refs@.len(),
            forall|m: int| 0 <= m < k ==> 0 <= #[trigger] refs@[m] && refs@[m] + offset <= i32::MAX,
        decreases refs@.len() - k,
    {
        let o = refs[k];
        if o < 0 || o > i32::MAX - offset {
            return false;
        }
        k = k + 1;
    }
    true
}

/// Appends the reference offsets of a value of type `ty` placed at `offset`.
pub fn add_ref_fields(
    vm: &VM,
    ref_fields: &mut Vec<i32>,
    offset: i32,
    ty: &BytecodeType,
) -> (r: Result<(), ShapeError>)
    requires
        cache_wf(vm.struct_specializations@),
        cache_wf(vm.enum_specializations@),
        0 <= offset,
    ensures
        r is Ok <==> spec_ty_refs_ok(*vm, *ty, offset as int),
        r is Ok ==> (spec_ty_refs(*vm, *ty, offset as int) matches Some(refs) && as_ints(
            final (ref_fields)@,
        ) == as_ints(old(ref_fields)@) + refs),
        r is Err ==> final (ref_fields)@ == old(ref_fields)@,
        spec_ty_refs(*vm, *ty, offset as int) is None ==> r is Err,
    decreases *ty, 0int,
{
    match ty {
        BytecodeType::Unit
        | BytecodeType::Bool
        | BytecodeType::UInt8
        | BytecodeType::Char
        | BytecodeType::Int32
        | BytecodeType::Int64
        | BytecodeType::Float32
        | BytecodeType::Float64 => {
            proof {
                assert(as_ints(ref_fields@) =~= as_ints(old(ref_fields)@) + Seq::<int>::empty());
            }
            Ok(())
        },
        BytecodeType::TypeParam(_) => Err(ShapeError::NotConcrete),
        BytecodeType::Ptr
        | BytecodeType::Class(_, _)
        | BytecodeType::Trait(_, _)
        | BytecodeType::Lambda(_, _) => {
            ref_fields.push(offset);
            proof {
                assert(as_ints(ref_fields@) =~= as_ints(old(ref_fields)@) + seq![offset as int]);
            }
            Ok(())
        },
        BytecodeType::Tuple(subtypes) => add_tuple_ref_fields(vm, ref_fields, offset, &subtypes.0),
        BytecodeType::Struct(id, params) => {
            proof {
                crate::bty::lemma_views_of(params.0@);
            }
            match cache_get(&vm.struct_specializations, id.0, params) {
                Some(sid) => {
                    if sid < vm.struct_instances.len() {
                        let ghost pre = ref_fields@;
                        let inst_refs_len = vm.struct_instances[sid].ref_fields.len();
                        // first make sure every nested offset translates
                        if !offsets_translatable(&vm.struct_instances[sid].ref_fields, offset) {
                            return Err(ShapeError::TooLarge);
                        }
                        proof {
                            assert(vm.struct_instances@[sid as int].ref_fields@.subrange(0, 0)
                                =~= Seq::<i32>::empty());
                            assert(as_ints(ref_fields@) =~= as_ints(pre) + shifted(
                                vm.struct_instances@[sid as int].ref_fields@.subrange(0, 0),
                                offset as int,
                            ));
                        }
                        let mut k: usize = 0;
                        while k < inst_refs_len
                            invariant
                                sid < vm.struct_instances@.len(),
                                inst_refs_len == vm.struct_instances@[sid as int].ref_fields@.len(),
                                k <= inst_refs_len,
                                0 <= offset,
                                forall|m: int|
                                    0 <= m < inst_refs_len ==> 0 <= #[trigger] vm.struct_instances@[sid as int].ref_fields@[m] + offset <= i32::MAX,
                                as_ints(ref_fields@) =~= as_ints(pre) + shifted(
                                    vm.struct_instances@[sid as int].ref_fields@.subrange(
                                        0,
                                        k as int,
                                    ),
                                    offset as int,
                                ),
                            decreases inst_refs_len - k,
                        {
                            let o = vm.struct_instances[sid].ref_fields[k];
                            proof {
                                assert(0 <= vm.struct_instances@[sid as int].ref_fields@[k as int]
                                    + offset <= i32::MAX);
                            }
                            let ghost rf0 = ref_fields@;
                            ref_fields.push(offset + o);
                            proof {
                                let s = vm.struct_instances@[sid as int].ref_fields@;
                                assert(s.subrange(0, k as int + 1) =~= s.subrange(
                                    0,
                                    k as int,
                                ).push(o));
                                assert(as_ints(ref_fields@) =~= as_ints(rf0).push(
                                    o as int + offset,
                                ));
                                assert(shifted(s.subrange(0, k as int + 1), offset as int)
                                    =~= shifted(s.subrange(0, k as int), offset as int).push(
                                    o as int + offset,
                                ));
                                assert(as_ints(ref_fields@) =~= as_ints(pre) + shifted(
                                    s.subrange(0, k as int + 1),
                                    offset as int,
                                ));
                            }
                            k = k + 1;
                        }
                        proof {
                            assert(vm.struct_instances@[sid as int].ref_fields@.subrange(
                                0,
                                inst_refs_len as int,
                            ) =~= vm.struct_instances@[sid as int].ref_fields@);
                            assert(as_ints(ref_fields@) =~= as_ints(pre) + shifted(
                                vm.struct_instances@[sid as int].ref_fields@,
                                offset as int,
                            ));
                        }
                        Ok(())
                    } else {
                        Err(ShapeError::MissingInstance)
                    }
                },
                None => Err(ShapeError::MissingInstance),
            }
        },
        BytecodeType::Enum(id, params) => {
            proof {
                crate::bty::lemma_views_of(params.0@);
            }
            match cache_get(&vm.enum_specializations, id.0, params) {
                Some(eid) => {
                    if eid < vm.enum_instances.len() {
                        match vm.enum_instances[eid].layout {
                            EnumLayout::Int => {
                                proof {
                                    assert(as_ints(ref_fields@) =~= as_ints(old(ref_fields)@)
                                        + Seq::<int>::empty());
                                }
                                Ok(())
                            },
                            _ => {
                                ref_fields.push(offset);
                                proof {
                                    assert(as_ints(ref_fields@) =~= as_ints(old(ref_fields)@)
                                        + seq![offset as int]);
                                }
                                Ok(())
                            },
                        }
                    } else {
                        Err(ShapeError::MissingInstance)
                    }
                },
                None => Err(ShapeError::MissingInstance),
            }
        },
    }
}

/// Shortens the vector back to its first `n` elements.
fn truncate_to(v: &mut Vec<i32>, n: usize)
    requires
        n <= old(v)@.len(),
    ensures
        final (v)@ == old(v)@.subrange(0, n as int),
{
    while v.len() > n
        invariant
            n <= v@.len() <= old(v)@.len(),
            forall|i: int| 0 <= i < v@.len() ==> #[trigger] v@[i] == old(v)@[i],
        decreases v@.len(),
    {
        v.pop();
    }
    proof {
        assert(v@ =~= old(v)@.subrange(0, n as int));
    }
}

/// Appends the reference offsets of a packed member list placed at `base`.
#[verifier::rlimit(100)]
#[verifier::spinoff_prover]
pub(crate) fn add_tuple_ref_fields(
    vm: &VM,
    ref_fields: &mut Vec<i32>,
    base: i32,
    subtypes: &Vec<BytecodeType>,
) -> (r: Result<(), ShapeError>)
    requires
        cache_wf(vm.struct_specializations@),
        cache_wf(vm.enum_specializations@),
        0 <= base,
    ensures
        r is Ok <==> spec_tuple_refs_ok(*vm, subtypes@, base as int),
        r is Ok ==> (spec_tuple_refs(*vm, subtypes@, base as int) matches Some(refs) && as_ints(
            final (ref_fields)@,
        ) == as_ints(old(ref_fields)@) + refs),
        r is Err ==> final (ref_fields)@ == old(ref_fields)@,
        spec_tuple_refs(*vm, subtypes@, base as int) is None ==> r is Err,
    decreases subtypes@, 1int,
{
    // compute the member offsets first so that nothing is pushed on failure
    let mut offsets: Vec<i32> = Vec::new();
    let mut size: i32 = 0;
    let mut i: usize = 0;
    proof {
        assert(subtypes@.subrange(0, 0) =~= Seq::<BytecodeType>::empty());
    }
    while i < subtypes.len()
        invariant
            cache_wf(vm.struct_specializations@),
            cache_wf(vm.enum_specializations@),
            i <= subtypes@.len(),
            offsets@.len() == i,
            spec_tuple_fold(*vm, subtypes@.subrange(0, i as int)) == Some(
                (size as int, spec_fold_align(*vm, subtypes@.subrange(0, i as int))),
            ),
            0 <= size,
            forall|k: int|
                0 <= k < i ==> #[trigger] offsets@[k] as int == align_i32_spec(
                    (spec_tuple_fold(*vm, subtypes@.subrange(0, k))->0).0,
                    (spec_size_align(*vm, subtypes@[k])->0).1,
                ) && 0 <= offsets@[k],
            forall|k: int|
                0 <= k < i ==> spec_size_align(*vm, #[trigger] subtypes@[k]) is Some,
            forall|k: int|
                0 <= k <= i ==> spec_tuple_fold(*vm, #[trigger] subtypes@.subrange(0, k)) is Some,
        decreases subtypes@.len() - i,
    {
        let (es, ea) = match size_align_of(vm, &subtypes[i]) {
            Ok(p) => p,
            Err(e) => {
                proof {
                    lemma_tuple_fold_prefix_none(*vm, subtypes@, i as int);
                }
                return Err(e);
            },
        };
        proof {
            lemma_size_align_bounds(*vm, subtypes@[i as int]);
        }
        let aligned = if ea == 0 {
            size
        } else {
            proof {
                crate::mem::lemma_align_nonneg(size as int, ea as int);
                crate::mem::lemma_align_grows(size as int, ea as int);
                crate::mem::lemma_align_upper(size as int, ea as int);
            }
            let a64: i64 = ((size as i64 + ea as i64 - 1) / ea as i64) * ea as i64;
            if a64 > i32::MAX as i64 {
                proof {
                    assert(subtypes@.subrange(0, i as int + 1).drop_last() =~= subtypes@.subrange(
                        0,
                        i as int,
                    ));
                    assert(subtypes@.subrange(0, i as int + 1).last() == subtypes@[i as int]);
                    lemma_tuple_fold_none_extends(*vm, subtypes@, i as int + 1);
                }
                return Err(ShapeError::TooLarge);
            }
            a64 as i32
        };
        if aligned > i32::MAX - es {
            proof {
                assert(subtypes@.subrange(0, i as int + 1).drop_last() =~= subtypes@.subrange(
                    0,
                    i as int,
                ));
                assert(subtypes@.subrange(0, i as int + 1).last() == subtypes@[i as int]);
                lemma_tuple_fold_none_extends(*vm, subtypes@, i as int + 1);
            }
            return Err(ShapeError::TooLarge);
        }
        offsets.push(aligned);
        size = aligned + es;
        i = i + 1;
        proof {
            assert(subtypes@.subrange(0, i as int).drop_last() =~= subtypes@.subrange(
                0,
                i as int - 1,
            ));
            assert(subtypes@.subrange(0, i as int).last() == subtypes@[i as int - 1]);
        }
    }
    proof {
        assert(subtypes@.subrange(0, subtypes@.len() as int) =~= subtypes@);
    }
    // now translate each member's own references
    proof {
        assert forall|k: int| 0 <= k < subtypes@.len() implies #[trigger] offsets@[k] as int
            == tuple_offset(*vm, subtypes@, k) && 0 <= offsets@[k] by {}
    }
    translate_member_refs(vm, ref_fields, base, subtypes, &offsets)
}

/// Appends each member's reference offsets at its own base; restores the
/// vector on failure.
#[verifier::rlimit(100)]
#[verifier::spinoff_prover]
fn translate_member_refs(
    vm: &VM,
    ref_fields: &mut Vec<i32>,
    base: i32,
    subtypes: &Vec<BytecodeType>,
    offsets: &Vec<i32>,
) -> (r: Result<(), ShapeError>)
    requires
        cache_wf(vm.struct_specializations@),
        cache_wf(vm.enum_specializations@),
        0 <= base,
        offsets@.len() == subtypes@.len(),
        forall|k: int|
            0 <= k < subtypes@.len() ==> #[trigger] offsets@[k] as int == tuple_offset(
                *vm,
                subtypes@,
                k,
            ) && 0 <= offsets@[k],
        forall|k: int|
            0 <= k < subtypes@.len() ==> spec_tuple_fold(
                *vm,
                #[trigger] subtypes@.subrange(0, k),
            ) is Some,
        forall|k: int|
            0 <= k < subtypes@.len() ==> spec_size_align(*vm, #[trigger] subtypes@[k]) is Some,
        spec_tuple_fold(*vm, subtypes@) is Some,
    ensures
        r is Ok <==> spec_tuple_refs_ok(*vm, subtypes@, base as int),
        r is Ok ==> (spec_tuple_refs(*vm, subtypes@, base as int) matches Some(refs) && as_ints(
            final (ref_fields)@,
        ) == as_ints(old(ref_fields)@) + refs),
        r is Err ==> final (ref_fields)@ == old(ref_fields)@,
    decreases subtypes@, 0int,
{
    let ghost pre = ref_fields@;
    let pre_len = ref_fields.len();
    let mut j: usize = 0;
    proof {
        assert(subtypes@.subrange(0, 0) =~= Seq::<BytecodeType>::empty());
        assert(spec_tuple_refs(*vm, subtypes@.subrange(0, 0), base as int) == Some(
            Seq::<int>::empty(),
        ));
        assert(as_ints(ref_fields@) =~= as_ints(pre) + Seq::<int>::empty());
    }
    while j < subtypes.len()
        invariant
            cache_wf(vm.struct_specializations@),
            cache_wf(vm.enum_specializations@),
            j <= subtypes@.len(),
            offsets@.len() == subtypes@.len(),
            0 <= base,
            forall|k: int|
                0 <= k < subtypes@.len() ==> #[trigger] offsets@[k] as int == tuple_offset(
                    *vm,
                    subtypes@,
                    k,
                ) && 0 <= offsets@[k],
            forall|k: int|
                0 <= k < subtypes@.len() ==> spec_tuple_fold(
                    *vm,
                    #[trigger] subtypes@.subrange(0, k),
                ) is Some,
            forall|k: int|
                0 <= k < subtypes@.len() ==> spec_size_align(*vm, #[trigger] subtypes@[k]) is Some,
            spec_tuple_fold(*vm, subtypes@) is Some,
            pre == old(ref_fields)@,
            pre_len == pre.len(),
            ref_fields@.len() >= pre_len,
            ref_fields@.subrange(0, pre_len as int) =~= pre,
            forall|m: int|
                0 <= m < j ==> base + tuple_offset(*vm, subtypes@, m) <= i32::MAX
                    && spec_ty_refs_ok(
                    *vm,
                    #[trigger] subtypes@[m],
                    base + tuple_offset(*vm, subtypes@, m),
                ),
            spec_tuple_refs(*vm, subtypes@.subrange(0, j as int), base as int) matches Some(
                refs,
            ) && as_ints(ref_fields@) == as_ints(pre) + refs,
        decreases subtypes@.len() - j,
    {
        if base > i32::MAX - offsets[j] {
            // restore what was already pushed
            truncate_to(ref_fields, pre_len);
            proof {
                assert(ref_fields@ =~= pre);
                assert(offsets@[j as int] as int == tuple_offset(*vm, subtypes@, j as int));
                assert(!spec_tuple_refs_ok(*vm, subtypes@, base as int));
            }
            return Err(ShapeError::TooLarge);
        }
        let member_base = base + offsets[j];
        match add_ref_fields(vm, ref_fields, member_base, &subtypes[j]) {
            Ok(_) => (),
            Err(e) => {
                truncate_to(ref_fields, pre_len);
                proof {
                    assert(ref_fields@ =~= pre);
                    assert(offsets@[j as int] as int == tuple_offset(*vm, subtypes@, j as int));
                    assert(!spec_ty_refs_ok(*vm, subtypes@[j as int], base + tuple_offset(
                        *vm,
                        subtypes@,
                        j as int,
                    )));
                    assert(!spec_tuple_refs_ok(*vm, subtypes@, base as int));
                }
                return Err(e);
            },
        }
        j = j + 1;
        proof {
            lemma_tuple_refs_step(*vm, subtypes@, base as int, j as int - 1);
            assert(as_ints(ref_fields@) =~= as_ints(pre) + spec_tuple_refs(
                *vm,
                subtypes@.subrange(0, j as int),
                base as int,
            )->0);
            assert forall|m: int| 0 <= m < pre_len implies ref_fields@[m] == pre[m] by {
                assert(as_ints(ref_fields@)[m] == as_ints(pre)[m]);
            }
            assert(ref_fields@.subrange(0, pre_len as int) =~= pre);
            assert(offsets@[j as int - 1] as int == tuple_offset(*vm, subtypes@, j as int - 1));
        }
    }
    proof {
        assert(subtypes@.subrange(0, subtypes@.len() as int) =~= subtypes@);
        assert(spec_tuple_refs_ok(*vm, subtypes@, base as int));
    }
    Ok(())
}

/// The alignment component of the member fold.
pub open spec fn spec_fold_align(vm: VM, subtypes: Seq<BytecodeType>) -> int {
    match spec_tuple_fold(vm, subtypes) {
        Some((_s, a)) => a,
        None => -1,
    }
}

/// Unfolds one step of the member references.
proof fn lemma_tuple_refs_step(vm: VM, subtypes: Seq<BytecodeType>, base: int, j: int)
    requires
        0 <= j < subtypes.len(),
    ensures
        spec_tuple_refs(vm, subtypes.subrange(0, j + 1), base) == (match (
            spec_tuple_fold(vm, subtypes.subrange(0, j)),
            spec_size_align(vm, subtypes[j]),
            spec_tuple_refs(vm, subtypes.subrange(0, j), base),
        ) {
            (Some(p), Some(q), Some(prefix_refs)) => {
                match spec_ty_refs(vm, subtypes[j], base + align_i32_spec(p.0, q.1)) {
                    Some(last_refs) => Some(prefix_refs + last_refs),
                    None => None,
                }
            },
            _ => None,
        }),
{
    assert(subtypes.subrange(0, j + 1).drop_last() =~= subtypes.subrange(0, j));
    assert(subtypes.subrange(0, j + 1).last() == subtypes[j]);
}

/// Substitution of type arguments for type parameters, over views:
/// `TypeParam(k)` becomes `params[k]`, containers recurse, primitives pass
/// through.
pub open spec fn spec_specialize(ty: BtyV, params: Seq<BtyV>) -> BtyV
    decreases ty,
{
    match ty {
        BtyV::TypeParam(id) => if id < params.len() {
            params[id as int]
        } else {
            BtyV::TypeParam(id)
        },
        BtyV::Tuple(subtypes) => BtyV::Tuple(spec_specialize_seq(subtypes, params)),
        BtyV::Enum(id, ps) => BtyV::Enum(id, spec_specialize_seq(ps, params)),
        BtyV::Struct(id, ps) => BtyV::Struct(id, spec_specialize_seq(ps, params)),
        BtyV::Class(id, ps) => BtyV::Class(id, spec_specialize_seq(ps, params)),
        BtyV::Trait(id, ps) => BtyV::Trait(id, spec_specialize_seq(ps, params)),
        BtyV::Lambda(ps, ret) => BtyV::Lambda(
            spec_specialize_seq(ps, params),
            Box::new(spec_specialize(*ret, params)),
        ),
        _ => ty,
    }
}

pub open spec fn spec_specialize_seq(tys: Seq<BtyV>, params: Seq<BtyV>) -> Seq<BtyV>
    decreases tys,
{
    if tys.len() == 0 {
        Seq::<BtyV>::empty()
    } else {
        spec_specialize_seq(tys.drop_last(), params).push(spec_specialize(tys.last(), params))
    }
}

/// Substitutes the type arguments into one type; an out-of-range parameter
/// index stays as it is.
pub fn specialize_bty(ty: BytecodeType, type_params: &BytecodeTypeArray) -> (r: BytecodeType)
    ensures
        r@ == spec_specialize(ty@, type_params@),
{
    specialize_bty_ref(&ty, type_params)
}

fn specialize_bty_ref(ty: &BytecodeType, type_params: &BytecodeTypeArray) -> (r: BytecodeType)
    ensures
        r@ == spec_specialize((*ty)@, type_params@),
    decreases *ty,
{
    proof {
        crate::bty::lemma_views_of(type_params.0@);
    }
    match ty {
        BytecodeType::TypeParam(tpid) => {
            if (*tpid as usize) < type_params.len() {
                let t = type_params.get(*tpid as usize);
                t.clone()
            } else {
                BytecodeType::TypeParam(*tpid)
            }
        },
        BytecodeType::Class(cls_id, params) => {
            let params = specialize_bty_array(params, type_params);
            BytecodeType::Class(*cls_id, params)
        },
        BytecodeType::Trait(trait_id, params) => {
            let params = specialize_bty_array(params, type_params);
            BytecodeType::Trait(*trait_id, params)
        },
        BytecodeType::Struct(struct_id, params) => {
            let params = specialize_bty_array(params, type_params);
            BytecodeType::Struct(*struct_id, params)
        },
        BytecodeType::Enum(enum_id, params) => {
            let params = specialize_bty_array(params, type_params);
            BytecodeType::Enum(*enum_id, params)
        },
        BytecodeType::Lambda(params, return_type) => {
            let params = specialize_bty_array(params, type_params);
            let return_type = specialize_bty_ref(return_type, type_params);
            BytecodeType::Lambda(params, Box::new(return_type))
        },
        BytecodeType::Tuple(subtypes) => {
            let subtypes = specialize_bty_array(subtypes, type_params);
            BytecodeType::Tuple(subtypes)
        },
        other => other.clone(),
    }
}

/// Substitutes the type arguments into every member of a list.
pub fn specialize_bty_array(
    types: &BytecodeTypeArray,
    type_params: &BytecodeTypeArray,
) -> (r: BytecodeTypeArray)
    ensures
        r@ == spec_specialize_seq(types@, type_params@),
        r.0@.len() == types.0@.len(),
    decreases types,
{
    let mut v: Vec<BytecodeType> = Vec::new();
    let mut i: usize = 0;
    proof {
        crate::bty::lemma_views_of(types.0@);
        crate::bty::lemma_views_of(v@);
        assert(crate::bty::views_of(v@) =~= spec_specialize_seq(
            types@.subrange(0, 0),
            type_params@,
        ));
    }
    while i < types.0.len()
        invariant
            i <= types.0@.len(),
            v@.len() == i,
            crate::bty::views_of(v@) == spec_specialize_seq(
                types@.subrange(0, i as int),
                type_params@,
            ),
        decreases types.0@.len() - i,
    {
        let st = specialize_bty_ref(&types.0[i], type_params);
        let ghost v0 = v@;
        v.push(st);
        i = i + 1;
        proof {
            crate::bty::lemma_views_of(types.0@);
            crate::bty::lemma_views_of(v@);
            crate::bty::lemma_views_of(v0);
            assert(types@.subrange(0, i as int).drop_last() =~= types@.subrange(0, i as int - 1));
            crate::bty::lemma_views_of_push(v0, st);
            assert(crate::bty::views_of(v@) =~= crate::bty::views_of(v0).push(st@));
        }
    }
    proof {
        assert(types@.subrange(0, types@.len() as int) =~= types@);
        crate::bty::lemma_views_of(types.0@);
    }
    BytecodeTypeArray(v)
}

/// The types of a laid-out field list, in order.
pub open spec fn struct_field_tys(fields: Seq<crate::vm::StructInstanceField>) -> Seq<
    BytecodeType,
> {
    fields.map_values(|f: crate::vm::StructInstanceField| f.ty)
}

/// Everything in the tables except the struct caches is unchanged.
pub open spec fn vm_same_but_structs(pre: VM, post: VM) -> bool {
    &&& post.structs@ == pre.structs@
    &&& post.enums@ == pre.enums@
    &&& post.classes@ == pre.classes@
    &&& post.traits@ == pre.traits@
    &&& post.enum_instances@ == pre.enum_instances@
    &&& post.class_instances@ == pre.class_instances@
    &&& post.enum_specializations@ == pre.enum_specializations@
    &&& post.class_specializations@ == pre.class_specializations@
    &&& post.trait_vtables@ == pre.trait_vtables@
}

/// The whole table state is unchanged.
pub open spec fn vm_unchanged(pre: VM, post: VM) -> bool {
    &&& vm_same_but_structs(pre, post)
    &&& post.structs@ == pre.structs@
    &&& post.struct_instances@ == pre.struct_instances@
    &&& post.struct_specializations@ == pre.struct_specializations@
}

/// What a successful struct specialization leaves behind: either the cache
/// already held the key and nothing changed, or a new instance was laid out
/// field by field, its reference bitmap derived from the field types, and
/// the cache was extended by exactly this key.
pub open spec fn struct_instance_created(
    pre: VM,
    post: VM,
    struct_id: u32,
    params: Seq<BtyV>,
    id: usize,
) -> bool {
    if cache_contains(pre.struct_specializations@, (struct_id, params)) {
        &&& id == cache_at(pre.struct_specializations@, (struct_id, params))
        &&& vm_unchanged(pre, post)
    } else {
        &&& id == pre.struct_instances@.len()
        &&& post.struct_instances@.len() == pre.struct_instances@.len() + 1
        &&& post.struct_instances@ == pre.struct_instances@.push(post.struct_instances@.last())
        &&& ({
            let inst = post.struct_instances@.last();
            let ftys = struct_field_tys(inst.fields@);
            let def = pre.structs@[struct_id as int];
            &&& struct_id < pre.structs@.len()
            &&& inst.fields@.len() == def.fields@.len()
            &&& (forall|i: int|
                0 <= i < inst.fields@.len() ==> (#[trigger] inst.fields@[i]).ty@
                    == spec_specialize(def.fields@[i].ty@, params))
            &&& spec_tuple_fold(pre, ftys) matches Some(p) && inst.size == align_i32_spec(
                p.0,
                p.1,
            ) && inst.align == p.1
            &&& (forall|i: int|
                0 <= i < inst.fields@.len() ==> (#[trigger] inst.fields@[i]).offset as int
                    == align_i32_spec(
                    (spec_tuple_fold(pre, ftys.subrange(0, i))->0).0,
                    (spec_size_align(pre, ftys[i])->0).1,
                ))
            &&& spec_tuple_refs(pre, ftys, 0) matches Some(refs) && as_ints(inst.ref_fields@)
                == refs
        })
        &&& post.struct_specializations@ == pre.struct_specializations@.push(
            (struct_id, post.struct_specializations@.last().1, id),
        )
        &&& post.struct_specializations@.last().1@ == params
        &&& vm_same_but_structs(pre, post)
    }
}

/// Specializes a struct for concrete type arguments, caching the result:
/// the same definition and arguments always map to the same instance.
pub fn create_struct_instance(
    vm: &mut VM,
    struct_id: crate::bty::StructDefinitionId,
    type_params: BytecodeTypeArray,
) -> (r: Result<crate::vm::StructInstanceId, ShapeError>)
    requires
        cache_wf(old(vm).struct_specializations@),
        cache_wf(old(vm).enum_specializations@),
    ensures
        cache_wf(final (vm).struct_specializations@),
        cache_wf(final (vm).enum_specializations@),
        cache_preserves(old(vm).struct_specializations@, final (vm).struct_specializations@),
        cache_contains(old(vm).struct_specializations@, (struct_id.0, type_params@)) ==> (r
            matches Ok(id) && id.0 == cache_at(
            old(vm).struct_specializations@,
            (struct_id.0, type_params@),
        )),
        r matches Ok(id) ==> struct_instance_created(
            *old(vm),
            *final (vm),
            struct_id.0,
            type_params@,
            id.0,
        ) && cache_contains(
            final (vm).struct_specializations@,
            (struct_id.0, type_params@),
        ) && cache_at(final (vm).struct_specializations@, (struct_id.0, type_params@)) == id.0,
        r is Err ==> vm_unchanged(*old(vm), *final (vm)),
    decreases 0int,
{
    proof {
        crate::bty::lemma_views_of(type_params.0@);
    }
    match cache_get(&vm.struct_specializations, struct_id.0, &type_params) {
        Some(id) => {
            return Ok(crate::vm::StructInstanceId(id));
        },
        None => {},
    }
    if struct_id.0 as usize >= vm.structs.len() {
        return Err(ShapeError::MissingInstance);
    }
    // lay the fields out in declaration order
    let nfields = vm.structs[struct_id.0 as usize].fields.len();
    let mut fields: Vec<crate::vm::StructInstanceField> = Vec::new();
    let mut struct_size: i32 = 0;
    let mut struct_align: i32 = 0;
    let mut ref_fields: Vec<i32> = Vec::new();
    let mut i: usize = 0;
    proof {
        assert(struct_field_tys(fields@).subrange(0, 0) =~= Seq::<BytecodeType>::empty());
        assert(struct_field_tys(fields@) =~= Seq::<BytecodeType>::empty());
    }
    while i < nfields
        invariant
            cache_wf(vm.struct_specializations@),
            cache_wf(vm.enum_specializations@),
            vm == old(vm),
            !cache_contains(vm.struct_specializations@, (struct_id.0, type_params@)),
            (struct_id.0 as int) < vm.structs@.len(),
            nfields == vm.structs@[struct_id.0 as int].fields@.len(),
            i <= nfields,
            fields@.len() == i,
            forall|k: int|
                0 <= k < i ==> (#[trigger] fields@[k]).ty@ == spec_specialize(
                    vm.structs@[struct_id.0 as int].fields@[k].ty@,
                    type_params@,
                ),
            spec_tuple_fold(*vm, struct_field_tys(fields@)) == Some(
                (struct_size as int, struct_align as int),
            ),
            0 <= struct_size,
            0 <= struct_align <= 8,
            forall|k: int|
                0 <= k < i ==> (#[trigger] fields@[k]).offset as int == align_i32_spec(
                    (spec_tuple_fold(*vm, struct_field_tys(fields@).subrange(0, k))->0).0,
                    (spec_size_align(*vm, struct_field_tys(fields@)[k])->0).1,
                ),
            spec_tuple_refs(*vm, struct_field_tys(fields@), 0) matches Some(refs) && as_ints(
                ref_fields@,
            ) == refs,
        decreases nfields - i,
    {
        let fty = specialize_bty(vm.structs[struct_id.0 as usize].fields[i].ty.clone(), &type_params);
        let (field_size, field_align) = match size_align_of(vm, &fty) {
            Ok(p) => p,
            Err(e) => {
                return Err(e);
            },
        };
        proof {
            lemma_size_align_bounds(*vm, fty);
        }
        let ghost ftys0 = struct_field_tys(fields@);
        let offset = if field_align == 0 {
            struct_size
        } else {
            proof {
                crate::mem::lemma_align_nonneg(struct_size as int, field_align as int);
                crate::mem::lemma_align_grows(struct_size as int, field_align as int);
                crate::mem::lemma_align_upper(struct_size as int, field_align as int);
            }
            let a64: i64 = ((struct_size as i64 + field_align as i64 - 1) / field_align as i64)
                * field_align as i64;
            if a64 > i32::MAX as i64 {
                return Err(ShapeError::TooLarge);
            }
            a64 as i32
        };
        if offset > i32::MAX - field_size {
            return Err(ShapeError::TooLarge);
        }
        let ghost rf0 = ref_fields@;
        match add_ref_fields(vm, &mut ref_fields, offset, &fty) {
            Ok(_) => {},
            Err(e) => {
                return Err(e);
            },
        }
        fields.push(crate::vm::StructInstanceField { offset, ty: fty });
        struct_size = offset + field_size;
        if field_align > struct_align {
            struct_align = field_align;
        }
        i = i + 1;
        proof {
            let ftys = struct_field_tys(fields@);
            assert(ftys =~= ftys0.push(fields@.last().ty));
            assert(ftys.drop_last() =~= ftys0);
            assert(ftys.subrange(0, i as int - 1) =~= ftys0);
            assert forall|k: int| 0 <= k < i - 1 implies #[trigger] ftys.subrange(0, k)
                =~= ftys0.subrange(0, k) by {}
            assert forall|k: int| 0 <= k < i - 1 implies spec_tuple_fold(
                *vm,
                #[trigger] ftys.subrange(0, k),
            ) == spec_tuple_fold(*vm, ftys0.subrange(0, k)) by {
                assert(ftys.subrange(0, k) =~= ftys0.subrange(0, k));
            }
        }
    }
    let total64: i64 = if struct_align == 0 {
        struct_size as i64
    } else {
        proof {
            crate::mem::lemma_align_nonneg(struct_size as int, struct_align as int);
            crate::mem::lemma_align_grows(struct_size as int, struct_align as int);
            crate::mem::lemma_align_upper(struct_size as int, struct_align as int);
        }
        ((struct_size as i64 + struct_align as i64 - 1) / struct_align as i64) * struct_align as i64
    };
    if total64 > i32::MAX as i64 {
        return Err(ShapeError::TooLarge);
    }
    let total = total64 as i32;

    // double-check and insert
    let id = vm.struct_instances.len();
    vm.struct_instances.push(
        crate::vm::StructInstance {
            size: total,
            align: struct_align,
            fields,
            ref_fields,
        },
    );
    cache_insert(&mut vm.struct_specializations, struct_id.0, type_params, id);
    Ok(crate::vm::StructInstanceId(id))
}

/// The specialization cache never hands out two ids for one key: however
/// often an instance is requested, every caller that hits the same
/// definition and type arguments sees the same id.
pub proof fn lemma_specialization_idempotent(
    pre: VM,
    mid: VM,
    post: VM,
    struct_id: u32,
    params: Seq<BtyV>,
    id1: usize,
    id2: usize,
)
    requires
        struct_instance_created(pre, mid, struct_id, params, id1),
        cache_contains(mid.struct_specializations@, (struct_id, params)),
        cache_at(mid.struct_specializations@, (struct_id, params)) == id1,
        struct_instance_created(mid, post, struct_id, params, id2),
    ensures
        id2 == id1,
{
}

/// A view is a reference type.
pub open spec fn view_is_reference(t: BtyV) -> bool {
    t is Ptr || t is Class || t is Trait || t is Lambda
}

/// Every variant of the enum is empty.
pub open spec fn all_variants_empty(def: crate::vm::EnumDefinition) -> bool {
    forall|i: int| 0 <= i < def.variants@.len() ==> (#[trigger] def.variants@[i]).types@.len() == 0
}

/// The enum has exactly two variants, one empty and the other holding a
/// single field that specializes to a reference type.
pub open spec fn enum_ptr_shape(def: crate::vm::EnumDefinition, params: Seq<BtyV>) -> bool {
    &&& def.variants@.len() == 2
    &&& ({
        let first_empty = def.variants@[0].types@.len() == 0;
        let none_v = if first_empty {
            def.variants@[0]
        } else {
            def.variants@[1]
        };
        let some_v = if first_empty {
            def.variants@[1]
        } else {
            def.variants@[0]
        };
        &&& none_v.types@.len() == 0
        &&& some_v.types@.len() == 1
        &&& view_is_reference(spec_specialize(some_v.types@[0]@, params))
    })
}

/// The storage layout chosen for an enum: `Int` when every variant is
/// empty, `Ptr` for the option-of-reference shape, `Tagged` otherwise.
pub open spec fn spec_enum_layout(def: crate::vm::EnumDefinition, params: Seq<BtyV>) -> EnumLayout {
    if all_variants_empty(def) {
        EnumLayout::Int
    } else if enum_ptr_shape(def, params) {
        EnumLayout::Ptr
    } else {
        EnumLayout::Tagged
    }
}

/// The layout selection rule, stated both ways: `Int` exactly for all-empty
/// enums, `Ptr` exactly for the two-variant reference shape among the rest,
/// and `Tagged` for everything else.
pub proof fn lemma_enum_layout_selection(def: crate::vm::EnumDefinition, params: Seq<BtyV>)
    ensures
        spec_enum_layout(def, params) == EnumLayout::Int <==> all_variants_empty(def),
        spec_enum_layout(def, params) == EnumLayout::Ptr <==> (!all_variants_empty(def)
            && enum_ptr_shape(def, params)),
        spec_enum_layout(def, params) == EnumLayout::Tagged <==> (!all_variants_empty(def)
            && !enum_ptr_shape(def, params)),
{
}

/// Everything but the enum tables is unchanged.
pub open spec fn vm_same_but_enums(pre: VM, post: VM) -> bool {
    &&& post.structs@ == pre.structs@
    &&& post.enums@ == pre.enums@
    &&& post.classes@ == pre.classes@
    &&& post.traits@ == pre.traits@
    &&& post.struct_instances@ == pre.struct_instances@
    &&& post.class_instances@ == pre.class_instances@
    &&& post.struct_specializations@ == pre.struct_specializations@
    &&& post.class_specializations@ == pre.class_specializations@
    &&& post.trait_vtables@ == pre.trait_vtables@
}

/// What a successful enum specialization leaves behind.
pub open spec fn enum_instance_created(
    pre: VM,
    post: VM,
    enum_id: u32,
    params: Seq<BtyV>,
    id: usize,
) -> bool {
    if cache_contains(pre.enum_specializations@, (enum_id, params)) {
        &&& id == cache_at(pre.enum_specializations@, (enum_id, params))
        &&& vm_unchanged_enums(pre, post)
    } else {
        &&& id == pre.enum_instances@.len()
        &&& post.enum_instances@ == pre.enum_instances@.push(post.enum_instances@.last())
        &&& ({
            let inst = post.enum_instances@.last();
            let def = pre.enums@[enum_id as int];
            &&& enum_id < pre.enums@.len()
            &&& inst.enum_id.0 == enum_id
            &&& inst.type_params@ == params
            &&& inst.layout == spec_enum_layout(def, params)
            &&& (inst.layout == EnumLayout::Tagged ==> inst.variants@.len()
                == def.variants@.len() && (forall|i: int|
                0 <= i < inst.variants@.len() ==> (#[trigger] inst.variants@[i]) is None))
            &&& (inst.layout != EnumLayout::Tagged ==> inst.variants@.len() == 0)
        })
        &&& post.enum_specializations@ == pre.enum_specializations@.push(
            (enum_id, post.enum_specializations@.last().1, id),
        )
        &&& post.enum_specializations@.last().1@ == params
        &&& vm_same_but_enums(pre, post)
    }
}

/// The enum tables are unchanged too.
pub open spec fn vm_unchanged_enums(pre: VM, post: VM) -> bool {
    &&& vm_same_but_enums(pre, post)
    &&& post.enum_instances@ == pre.enum_instances@
    &&& post.enum_specializations@ == pre.enum_specializations@
}

/// Specializes an enum for concrete type arguments, selecting its storage
/// layout and caching the result.
pub fn create_enum_instance(
    vm: &mut VM,
    enum_id: crate::bty::EnumDefinitionId,
    type_params: BytecodeTypeArray,
) -> (r: Result<crate::vm::EnumInstanceId, ShapeError>)
    requires
        cache_wf(old(vm).enum_specializations@),
    ensures
        cache_wf(final (vm).enum_specializations@),
        cache_wf(final (vm).struct_specializations@) == cache_wf(
            old(vm).struct_specializations@,
        ),
        cache_preserves(old(vm).enum_specializations@, final (vm).enum_specializations@),
        r is Ok <==> (cache_contains(old(vm).enum_specializations@, (enum_id.0, type_params@))
            || (enum_id.0 as int) < old(vm).enums@.len()),
        cache_contains(old(vm).enum_specializations@, (enum_id.0, type_params@)) ==> (r matches Ok(
            id,
        ) && id.0 == cache_at(old(vm).enum_specializations@, (enum_id.0, type_params@))),
        r matches Ok(id) ==> enum_instance_created(
            *old(vm),
            *final (vm),
            enum_id.0,
            type_params@,
            id.0,
        ) && cache_contains(final (vm).enum_specializations@, (enum_id.0, type_params@))
            && cache_at(final (vm).enum_specializations@, (enum_id.0, type_params@)) == id.0,
        r is Err ==> vm_unchanged_enums(*old(vm), *final (vm)),
{
    proof {
        crate::bty::lemma_views_of(type_params.0@);
    }
    match cache_get(&vm.enum_specializations, enum_id.0, &type_params) {
        Some(id) => {
            return Ok(crate::vm::EnumInstanceId(id));
        },
        None => {},
    }
    if enum_id.0 as usize >= vm.enums.len() {
        return Err(ShapeError::MissingInstance);
    }
    let layout = if enum_is_simple_integer(&vm.enums[enum_id.0 as usize]) {
        EnumLayout::Int
    } else if enum_is_ptr(&vm.enums[enum_id.0 as usize], &type_params) {
        EnumLayout::Ptr
    } else {
        EnumLayout::Tagged
    };

    let nvariants = vm.enums[enum_id.0 as usize].variants.len();
    let mut variants: Vec<Option<crate::vm::ClassInstanceId>> = Vec::new();
    if layout == EnumLayout::Tagged {
        let mut i: usize = 0;
        while i < nvariants
            invariant
                i <= nvariants,
                variants@.len() == i,
                forall|k: int| 0 <= k < i ==> (#[trigger] variants@[k]) is None,
            decreases nvariants - i,
        {
            variants.push(None);
            i = i + 1;
        }
    }
    let id = vm.enum_instances.len();
    vm.enum_instances.push(
        crate::vm::EnumInstance {
            enum_id,
            type_params: type_params.clone(),
            layout,
            variants,
        },
    );
    cache_insert(&mut vm.enum_specializations, enum_id.0, type_params, id);
    Ok(crate::vm::EnumInstanceId(id))
}

/// Every variant carries no payload.
fn enum_is_simple_integer(def: &crate::vm::EnumDefinition) -> (r: bool)
    ensures
        r == all_variants_empty(*def),
{
    let mut i: usize = 0;
    while i < def.variants.len()
        invariant
            i <= def.variants@.len(),
            forall|k: int| 0 <= k < i ==> (#[trigger] def.variants@[k]).types@.len() == 0,
        decreases def.variants@.len() - i,
    {
        if def.variants[i].types.len() != 0 {
            return false;
        }
        i = i + 1;
    }
    true
}

/// The option-of-reference shape: two variants, one empty, one holding a
/// single field that specializes to a reference.
fn enum_is_ptr(def: &crate::vm::EnumDefinition, type_params: &BytecodeTypeArray) -> (r: bool)
    ensures
        r == enum_ptr_shape(*def, type_params@),
{
    if def.variants.len() != 2 {
        return false;
    }
    let first_empty = def.variants[0].types.len() == 0;
    let none_idx: usize = if first_empty {
        0
    } else {
        1
    };
    let some_idx: usize = if first_empty {
        1
    } else {
        0
    };

    if def.variants[none_idx].types.len() != 0 {
        return false;
    }
    if def.variants[some_idx].types.len() != 1 {
        return false;
    }
    let specialized = specialize_bty(def.variants[some_idx].types[0].clone(), type_params);
    let is_ref = specialized.is_reference_type();
    proof {
        lemma_reference_view(specialized);
    }
    is_ref
}

/// The types of a laid-out class field list, in order.
pub open spec fn class_field_tys(fields: Seq<crate::vm::FieldInstance>) -> Seq<BytecodeType> {
    fields.map_values(|f: crate::vm::FieldInstance| f.ty)
}

/// Everything but the class tables is unchanged.
pub open spec fn vm_same_but_classes(pre: VM, post: VM) -> bool {
    &&& post.structs@ == pre.structs@
    &&& post.enums@ == pre.enums@
    &&& post.classes@ == pre.classes@
    &&& post.traits@ == pre.traits@
    &&& post.struct_instances@ == pre.struct_instances@
    &&& post.enum_instances@ == pre.enum_instances@
    &&& post.struct_specializations@ == pre.struct_specializations@
    &&& post.enum_specializations@ == pre.enum_specializations@
}

/// The class tables are unchanged too.
pub open spec fn vm_unchanged_classes(pre: VM, post: VM) -> bool {
    &&& vm_same_but_classes(pre, post)
    &&& post.class_instances@ == pre.class_instances@
    &&& post.class_specializations@ == pre.class_specializations@
    &&& post.trait_vtables@ == pre.trait_vtables@
}

/// The size class of an array whose elements have the given type.
pub open spec fn spec_array_instance_size(vm: VM, elem: BytecodeType) -> Option<
    crate::vm::InstanceSize,
> {
    match elem {
        BytecodeType::Unit => Some(crate::vm::InstanceSize::UnitArray),
        BytecodeType::Ptr
        | BytecodeType::Class(_, _)
        | BytecodeType::Trait(_, _)
        | BytecodeType::Lambda(_, _) => Some(crate::vm::InstanceSize::ObjArray),
        BytecodeType::TypeParam(_) => None,
        BytecodeType::Tuple(_) => match spec_size_align(vm, elem) {
            Some(p) => Some(crate::vm::InstanceSize::StructArray(p.0 as i32)),
            None => None,
        },
        BytecodeType::Struct(_, _) => match spec_size_align(vm, elem) {
            Some(p) => Some(crate::vm::InstanceSize::StructArray(p.0 as i32)),
            None => None,
        },
        BytecodeType::Enum(id, params) => if cache_contains(
            vm.enum_specializations@,
            (id.0, views_of(params.0@)),
        ) {
            let eid = cache_at(vm.enum_specializations@, (id.0, views_of(params.0@)));
            if eid < vm.enum_instances@.len() {
                if vm.enum_instances@[eid as int].layout == EnumLayout::Int {
                    Some(crate::vm::InstanceSize::PrimitiveArray(4))
                } else {
                    Some(crate::vm::InstanceSize::ObjArray)
                }
            } else {
                None
            }
        } else {
            None
        },
        _ => match spec_size_align(vm, elem) {
            Some(p) => Some(crate::vm::InstanceSize::PrimitiveArray(p.0 as i32)),
            None => None,
        },
    }
}

/// What a successful class specialization leaves behind: a cached id, or a
/// freshly laid-out instance. Regular classes place their fields behind the
/// object header; array and string classes get a size class chosen by
/// element type.
pub open spec fn class_instance_created(
    pre: VM,
    post: VM,
    cls_id: u32,
    params: Seq<BtyV>,
    id: usize,
) -> bool {
    if cache_contains(pre.class_specializations@, (cls_id, params)) {
        &&& id == cache_at(pre.class_specializations@, (cls_id, params))
        &&& vm_unchanged_classes(pre, post)
    } else {
        &&& id == pre.class_instances@.len()
        &&& post.class_instances@ == pre.class_instances@.push(post.class_instances@.last())
        &&& cls_id < pre.classes@.len()
        &&& ({
            let inst = post.class_instances@.last();
            let def = pre.classes@[cls_id as int];
            &&& inst.kind matches crate::vm::ShapeKind::Class(k, kp) && k.0 == cls_id && kp@
                == params
            &&& inst.vtable_entries == 0
            &&& (if def.is_array || def.is_str {
                let elem = post.class_specializations@.last().1.0@[0];
                &&& inst.fields@.len() == 0
                &&& inst.ref_fields@.len() == 0
                &&& (def.is_array ==> params.len() > 0 && (spec_array_instance_size(pre, elem)
                    matches Some(s) && inst.size == s))
                &&& (!def.is_array ==> inst.size == crate::vm::InstanceSize::Str)
            } else {
                let ftys = class_field_tys(inst.fields@);
                &&& inst.fields@.len() == def.fields@.len()
                &&& (forall|i: int|
                    0 <= i < inst.fields@.len() ==> (#[trigger] inst.fields@[i]).ty@
                        == spec_specialize(def.fields@[i].ty@, params))
                &&& spec_tuple_fold(pre, ftys) matches Some(p) && inst.size
                    == crate::vm::InstanceSize::Fixed(
                    align_i32_spec(crate::mem::HEADER_SIZE + p.0, crate::mem::PTR_WIDTH as int) as i32,
                )
                &&& (forall|i: int|
                    0 <= i < inst.fields@.len() ==> (#[trigger] inst.fields@[i]).offset as int
                        == crate::mem::HEADER_SIZE + align_i32_spec(
                        (spec_tuple_fold(pre, ftys.subrange(0, i))->0).0,
                        (spec_size_align(pre, ftys[i])->0).1,
                    ))
                &&& spec_tuple_refs(pre, ftys, crate::mem::HEADER_SIZE as int) matches Some(refs)
                    && as_ints(inst.ref_fields@) == refs
            })
        })
        &&& post.class_specializations@ == pre.class_specializations@.push(
            (cls_id, post.class_specializations@.last().1, id),
        )
        &&& post.class_specializations@.last().1@ == params
        &&& vm_same_but_classes(pre, post)
        &&& post.trait_vtables@ == pre.trait_vtables@
    }
}

/// Specializes a class for concrete type arguments. Regular classes get a
/// field layout behind the header; the array and string classes get their
/// size class from the element type. The result is cached.
pub fn create_class_instance(
    vm: &mut VM,
    cls_id: crate::bty::ClassDefinitionId,
    type_params: &BytecodeTypeArray,
) -> (r: Result<crate::vm::ClassInstanceId, ShapeError>)
    requires
        cache_wf(old(vm).class_specializations@),
        cache_wf(old(vm).struct_specializations@),
        cache_wf(old(vm).enum_specializations@),
    ensures
        cache_wf(final (vm).class_specializations@),
        cache_preserves(old(vm).class_specializations@, final (vm).class_specializations@),
        cache_contains(old(vm).class_specializations@, (cls_id.0, type_params@)) ==> (r matches Ok(
            id,
        ) && id.0 == cache_at(old(vm).class_specializations@, (cls_id.0, type_params@))),
        r matches Ok(id) ==> class_instance_created(
            *old(vm),
            *final (vm),
            cls_id.0,
            type_params@,
            id.0,
        ) && cache_contains(final (vm).class_specializations@, (cls_id.0, type_params@))
            && cache_at(final (vm).class_specializations@, (cls_id.0, type_params@)) == id.0,
        r is Err ==> vm_unchanged_classes(*old(vm), *final (vm)),
{
    proof {
        crate::bty::lemma_views_of(type_params.0@);
    }
    match cache_get(&vm.class_specializations, cls_id.0, type_params) {
        Some(id) => {
            return Ok(crate::vm::ClassInstanceId(id));
        },
        None => {},
    }
    if cls_id.0 as usize >= vm.classes.len() {
        return Err(ShapeError::MissingInstance);
    }
    let is_array = vm.classes[cls_id.0 as usize].is_array;
    let is_str = vm.classes[cls_id.0 as usize].is_str;

    if is_array || is_str {
        let tp_cache = type_params.clone();
        let size = if is_array {
            if tp_cache.len() == 0 {
                return Err(ShapeError::MissingInstance);
            }
            let elem = tp_cache.get(0);
            match array_instance_size(vm, elem) {
                Ok(s) => s,
                Err(e) => {
                    return Err(e);
                },
            }
        } else {
            crate::vm::InstanceSize::Str
        };
        let id = vm.class_instances.len();
        vm.class_instances.push(
            crate::vm::ClassInstance {
                kind: crate::vm::ShapeKind::Class(cls_id, type_params.clone()),
                size,
                fields: Vec::new(),
                ref_fields: Vec::new(),
                vtable_entries: 0,
            },
        );
        cache_insert(&mut vm.class_specializations, cls_id.0, tp_cache, id);
        return Ok(crate::vm::ClassInstanceId(id));
    }
    // lay the declared fields out behind the object header
    let nfields = vm.classes[cls_id.0 as usize].fields.len();
    let mut fields: Vec<crate::vm::FieldInstance> = Vec::new();
    let mut fsize: i32 = 0;
    let mut ref_fields: Vec<i32> = Vec::new();
    let mut i: usize = 0;
    proof {
        assert(class_field_tys(fields@) =~= Seq::<BytecodeType>::empty());
    }
    while i < nfields
        invariant
            cache_wf(vm.class_specializations@),
            cache_wf(vm.struct_specializations@),
            cache_wf(vm.enum_specializations@),
            vm == old(vm),
            !cache_contains(vm.class_specializations@, (cls_id.0, type_params@)),
            (cls_id.0 as int) < vm.classes@.len(),
            nfields == vm.classes@[cls_id.0 as int].fields@.len(),
            i <= nfields,
            fields@.len() == i,
            forall|k: int|
                0 <= k < i ==> (#[trigger] fields@[k]).ty@ == spec_specialize(
                    vm.classes@[cls_id.0 as int].fields@[k].ty@,
                    type_params@,
                ),
            spec_tuple_fold(*vm, class_field_tys(fields@)) matches Some(p) && p.0 == fsize
                && 0 <= fsize,
            forall|k: int|
                0 <= k < i ==> (#[trigger] fields@[k]).offset as int == crate::mem::HEADER_SIZE
                    + align_i32_spec(
                    (spec_tuple_fold(*vm, class_field_tys(fields@).subrange(0, k))->0).0,
                    (spec_size_align(*vm, class_field_tys(fields@)[k])->0).1,
                ),
            spec_tuple_refs(*vm, class_field_tys(fields@), crate::mem::HEADER_SIZE as int)
                matches Some(refs) && as_ints(ref_fields@) == refs,
        decreases nfields - i,
    {
        let fty = specialize_bty(
            vm.classes[cls_id.0 as usize].fields[i].ty.clone(),
            type_params,
        );
        let (field_size, field_align) = match size_align_of(vm, &fty) {
            Ok(p) => p,
            Err(e) => {
                return Err(e);
            },
        };
        proof {
            lemma_size_align_bounds(*vm, fty);
        }
        let ghost ftys0 = class_field_tys(fields@);
        let rel_offset = if field_align == 0 {
            fsize
        } else {
            proof {
                crate::mem::lemma_align_nonneg(fsize as int, field_align as int);
                crate::mem::lemma_align_grows(fsize as int, field_align as int);
                crate::mem::lemma_align_upper(fsize as int, field_align as int);
            }
            let a64: i64 = ((fsize as i64 + field_align as i64 - 1) / field_align as i64)
                * field_align as i64;
            if a64 > i32::MAX as i64 - crate::mem::HEADER_SIZE as i64 {
                return Err(ShapeError::TooLarge);
            }
            a64 as i32
        };
        if rel_offset > i32::MAX - crate::mem::HEADER_SIZE - field_size {
            return Err(ShapeError::TooLarge);
        }
        match add_ref_fields(vm, &mut ref_fields, crate::mem::HEADER_SIZE + rel_offset, &fty) {
            Ok(_) => {},
            Err(e) => {
                return Err(e);
            },
        }
        fields.push(
            crate::vm::FieldInstance { offset: crate::mem::HEADER_SIZE + rel_offset, ty: fty },
        );
        fsize = rel_offset + field_size;
        i = i + 1;
        proof {
            let ftys = class_field_tys(fields@);
            assert(ftys =~= ftys0.push(fields@.last().ty));
            assert(ftys.drop_last() =~= ftys0);
            assert(ftys.subrange(0, i as int - 1) =~= ftys0);
            assert forall|k: int| 0 <= k < i - 1 implies spec_tuple_fold(
                *vm,
                #[trigger] ftys.subrange(0, k),
            ) == spec_tuple_fold(*vm, ftys0.subrange(0, k)) by {
                assert(ftys.subrange(0, k) =~= ftys0.subrange(0, k));
            }
        }
    }
    proof {
        crate::mem::lemma_align_nonneg(
            crate::mem::HEADER_SIZE as int + fsize as int,
            crate::mem::PTR_WIDTH as int,
        );
        crate::mem::lemma_align_grows(
            crate::mem::HEADER_SIZE as int + fsize as int,
            crate::mem::PTR_WIDTH as int,
        );
        crate::mem::lemma_align_upper(
            crate::mem::HEADER_SIZE as int + fsize as int,
            crate::mem::PTR_WIDTH as int,
        );
    }
    let csize64: i64 = crate::mem::HEADER_SIZE as i64 + fsize as i64;
    let total64: i64 = ((csize64 + 8 - 1) / 8) * 8;
    if total64 > i32::MAX as i64 {
        return Err(ShapeError::TooLarge);
    }
    let total = total64 as i32;

    let id = vm.class_instances.len();
    vm.class_instances.push(
        crate::vm::ClassInstance {
            kind: crate::vm::ShapeKind::Class(cls_id, type_params.clone()),
            size: crate::vm::InstanceSize::Fixed(total),
            fields,
            ref_fields,
            vtable_entries: 0,
        },
    );
    cache_insert(&mut vm.class_specializations, cls_id.0, type_params.clone(), id);
    Ok(crate::vm::ClassInstanceId(id))
}

/// The size class of an array of the given element type.
fn array_instance_size(vm: &VM, elem: &BytecodeType) -> (r: Result<
    crate::vm::InstanceSize,
    ShapeError,
>)
    requires
        cache_wf(vm.struct_specializations@),
        cache_wf(vm.enum_specializations@),
    ensures
        r matches Ok(s) ==> spec_array_instance_size(*vm, *elem) == Some(s),
        spec_array_instance_size(*vm, *elem) is None ==> r is Err,
{
    match elem {
        BytecodeType::Unit => Ok(crate::vm::InstanceSize::UnitArray),
        BytecodeType::Ptr
        | BytecodeType::Class(_, _)
        | BytecodeType::Trait(_, _)
        | BytecodeType::Lambda(_, _) => Ok(crate::vm::InstanceSize::ObjArray),
        BytecodeType::TypeParam(_) => Err(ShapeError::NotConcrete),
        BytecodeType::Tuple(_) | BytecodeType::Struct(_, _) => {
            match size_align_of(vm, elem) {
                Ok((s, _a)) => Ok(crate::vm::InstanceSize::StructArray(s)),
                Err(e) => Err(e),
            }
        },
        BytecodeType::Enum(id, params) => {
            proof {
                crate::bty::lemma_views_of(params.0@);
            }
            match cache_get(&vm.enum_specializations, id.0, params) {
                Some(eid) => {
                    if eid < vm.enum_instances.len() {
                        match vm.enum_instances[eid].layout {
                            EnumLayout::Int => Ok(crate::vm::InstanceSize::PrimitiveArray(4)),
                            _ => Ok(crate::vm::InstanceSize::ObjArray),
                        }
                    } else {
                        Err(ShapeError::MissingInstance)
                    }
                },
                None => Err(ShapeError::MissingInstance),
            }
        },
        _ => {
            match size_align_of(vm, elem) {
                Ok((s, _a)) => Ok(crate::vm::InstanceSize::PrimitiveArray(s)),
                Err(e) => Err(e),
            }
        },
    }
}

/// A class instance standing for a lambda object: one context pointer
/// behind the header, one vtable slot for the invoke target.
pub fn ensure_class_instance_for_lambda(
    vm: &mut VM,
    fct_id: crate::bty::FctDefinitionId,
    type_params: BytecodeTypeArray,
) -> (r: crate::vm::ClassInstanceId)
    ensures
        r.0 == old(vm).class_instances@.len(),
        final (vm).class_instances@ == old(vm).class_instances@.push(
            final (vm).class_instances@.last(),
        ),
        ({
            let inst = final (vm).class_instances@.last();
            &&& inst.kind matches crate::vm::ShapeKind::Lambda(f, tp) && f == fct_id && tp@
                == type_params@
            &&& inst.size == crate::vm::InstanceSize::Fixed(
                (crate::mem::HEADER_SIZE + crate::mem::PTR_WIDTH) as i32,
            )
            &&& inst.fields@.len() == 1
            &&& inst.fields@[0].offset == crate::mem::HEADER_SIZE
            &&& inst.fields@[0].ty == BytecodeType::Ptr
            &&& as_ints(inst.ref_fields@) == seq![crate::mem::HEADER_SIZE as int]
            &&& inst.vtable_entries == 1
        }),
        final (vm).structs@ == old(vm).structs@,
        final (vm).enums@ == old(vm).enums@,
        final (vm).classes@ == old(vm).classes@,
        final (vm).traits@ == old(vm).traits@,
        final (vm).struct_instances@ == old(vm).struct_instances@,
        final (vm).enum_instances@ == old(vm).enum_instances@,
        final (vm).struct_specializations@ == old(vm).struct_specializations@,
        final (vm).enum_specializations@ == old(vm).enum_specializations@,
        final (vm).class_specializations@ == old(vm).class_specializations@,
        final (vm).trait_vtables@ == old(vm).trait_vtables@,
{
    // a lambda object holds only its context pointer
    let mut fields: Vec<crate::vm::FieldInstance> = Vec::new();
    fields.push(
        crate::vm::FieldInstance { offset: crate::mem::HEADER_SIZE, ty: BytecodeType::Ptr },
    );
    let mut ref_fields: Vec<i32> = Vec::new();
    ref_fields.push(crate::mem::HEADER_SIZE);
    let id = vm.class_instances.len();
    vm.class_instances.push(
        crate::vm::ClassInstance {
            kind: crate::vm::ShapeKind::Lambda(fct_id, type_params),
            size: crate::vm::InstanceSize::Fixed(crate::mem::HEADER_SIZE + crate::mem::PTR_WIDTH),
            fields,
            ref_fields,
            vtable_entries: 1,
        },
    );
    proof {
        assert(as_ints(final (vm).class_instances@.last().ref_fields@) =~= seq![
            crate::mem::HEADER_SIZE as int,
        ]);
    }
    crate::vm::ClassInstanceId(id)
}

/// A class instance standing for a trait object wrapping `object_type`: the
/// wrapped value behind the header and one vtable slot per trait method, in
/// declaration order. Keyed by trait and combined type arguments; built
/// once per key.
pub fn ensure_class_instance_for_trait_object(
    vm: &mut VM,
    trait_id: crate::bty::TraitDefinitionId,
    trait_type_params: &BytecodeTypeArray,
    object_type: BytecodeType,
) -> (r: Result<crate::vm::ClassInstanceId, ShapeError>)
    requires
        cache_wf(old(vm).trait_vtables@),
        cache_wf(old(vm).struct_specializations@),
        cache_wf(old(vm).enum_specializations@),
    ensures
        cache_wf(final (vm).trait_vtables@),
        cache_preserves(old(vm).trait_vtables@, final (vm).trait_vtables@),
        cache_contains(old(vm).trait_vtables@, (trait_id.0, trait_type_params@.push(object_type@)))
            ==> (r matches Ok(id) && id.0 == cache_at(
            old(vm).trait_vtables@,
            (trait_id.0, trait_type_params@.push(object_type@)),
        )),
        r matches Ok(id) ==> cache_contains(
            final (vm).trait_vtables@,
            (trait_id.0, trait_type_params@.push(object_type@)),
        ) && cache_at(
            final (vm).trait_vtables@,
            (trait_id.0, trait_type_params@.push(object_type@)),
        ) == id.0,
        r matches Ok(id) ==> (cache_contains(
            old(vm).trait_vtables@,
            (trait_id.0, trait_type_params@.push(object_type@)),
        ) ==> id.0 == cache_at(
            old(vm).trait_vtables@,
            (trait_id.0, trait_type_params@.push(object_type@)),
        ) && final (vm).class_instances@ == old(vm).class_instances@),
        r matches Ok(id) ==> (!cache_contains(
            old(vm).trait_vtables@,
            (trait_id.0, trait_type_params@.push(object_type@)),
        ) ==> id.0 == old(vm).class_instances@.len() && final (vm).class_instances@ == old(vm).class_instances@.push(
            final (vm).class_instances@.last(),
        ) && ({
            let inst = final (vm).class_instances@.last();
            &&& inst.kind matches crate::vm::ShapeKind::TraitObject {
                object_ty,
                trait_id: t,
                combined_type_params,
            } && object_ty@ == object_type@ && t == trait_id && combined_type_params@
                == trait_type_params@.push(object_type@)
            &&& trait_id.0 < old(vm).traits@.len()
            &&& inst.vtable_entries == old(vm).traits@[trait_id.0 as int].methods@.len()
            &&& inst.fields@.len() == 1
            &&& inst.fields@[0].ty@ == object_type@
            &&& spec_size_align(*old(vm), inst.fields@[0].ty) matches Some(p)
                && inst.fields@[0].offset as int == crate::mem::HEADER_SIZE + (
            if p.1 > 0 {
                align_i32_spec(0, p.1)
            } else {
                0
            })
            &&& spec_ty_refs(*old(vm), inst.fields@[0].ty, inst.fields@[0].offset as int)
                matches Some(refs) && as_ints(inst.ref_fields@) == refs
            &&& (spec_size_align(*old(vm), inst.fields@[0].ty) matches Some(q) && inst.size
                == crate::vm::InstanceSize::Fixed(
                align_i32_spec(
                    inst.fields@[0].offset + q.0,
                    crate::mem::PTR_WIDTH as int,
                ) as i32,
            ))
        })),
        r is Err ==> final (vm).class_instances@ == old(vm).class_instances@ && final (vm).trait_vtables@ == old(vm).trait_vtables@,
        final (vm).structs@ == old(vm).structs@,
        final (vm).enums@ == old(vm).enums@,
        final (vm).classes@ == old(vm).classes@,
        final (vm).traits@ == old(vm).traits@,
        final (vm).struct_instances@ == old(vm).struct_instances@,
        final (vm).enum_instances@ == old(vm).enum_instances@,
        final (vm).struct_specializations@ == old(vm).struct_specializations@,
        final (vm).enum_specializations@ == old(vm).enum_specializations@,
        final (vm).class_specializations@ == old(vm).class_specializations@,
{
    let combined_type_params = trait_type_params.append(object_type.clone());
    proof {
        crate::bty::lemma_views_of(combined_type_params.0@);
    }
    match cache_get(&vm.trait_vtables, trait_id.0, &combined_type_params) {
        Some(id) => {
            return Ok(crate::vm::ClassInstanceId(id));
        },
        None => {},
    }
    if trait_id.0 as usize >= vm.traits.len() {
        return Err(ShapeError::MissingInstance);
    }
    let (field_size, field_align) = match size_align_of(vm, &object_type) {
        Ok(p) => p,
        Err(e) => {
            return Err(e);
        },
    };
    proof {
        lemma_size_align_bounds(*vm, object_type);
    }
    let rel_offset: i32 = if field_align == 0 {
        0
    } else {
        proof {
            crate::mem::lemma_align_nonneg(0, field_align as int);
            crate::mem::lemma_align_upper(0, field_align as int);
        }
        ((0 + field_align as i64 - 1) / field_align as i64 * field_align as i64) as i32
    };
    let offset = crate::mem::HEADER_SIZE + rel_offset;
    let mut ref_fields: Vec<i32> = Vec::new();
    match add_ref_fields(vm, &mut ref_fields, offset, &object_type) {
        Ok(_) => {},
        Err(e) => {
            return Err(e);
        },
    }
    // the object is the only field; the instance covers header and object
    if field_size > i32::MAX - offset {
        return Err(ShapeError::TooLarge);
    }
    proof {
        crate::mem::lemma_align_nonneg(
            offset as int + field_size as int,
            crate::mem::PTR_WIDTH as int,
        );
        crate::mem::lemma_align_grows(
            offset as int + field_size as int,
            crate::mem::PTR_WIDTH as int,
        );
        crate::mem::lemma_align_upper(
            offset as int + field_size as int,
            crate::mem::PTR_WIDTH as int,
        );
    }
    let csize64: i64 = offset as i64 + field_size as i64;
    let total64: i64 = ((csize64 + 8 - 1) / 8) * 8;
    if total64 > i32::MAX as i64 {
        return Err(ShapeError::TooLarge);
    }
    let total = total64 as i32;

    let mut fields: Vec<crate::vm::FieldInstance> = Vec::new();
    let object_copy = object_type.clone();
    fields.push(crate::vm::FieldInstance { offset, ty: object_type });
    let nmethods = vm.traits[trait_id.0 as usize].methods.len();

    let id = vm.class_instances.len();
    vm.class_instances.push(
        crate::vm::ClassInstance {
            kind: crate::vm::ShapeKind::TraitObject {
                object_ty: object_copy,
                trait_id,
                combined_type_params: combined_type_params.clone(),
            },
            size: crate::vm::InstanceSize::Fixed(total),
            fields,
            ref_fields,
            vtable_entries: nmethods,
        },
    );
    cache_insert(&mut vm.trait_vtables, trait_id.0, combined_type_params, id);
    Ok(crate::vm::ClassInstanceId(id))
}

/// The class instance standing for one constructed variant of a `Tagged`
/// enum: a 32-bit discriminant behind the header, then the variant's
/// payload at natural alignment. Built on first use and remembered in the
/// enum instance.
pub fn ensure_class_instance_for_enum_variant(
    vm: &mut VM,
    edef_id: crate::vm::EnumInstanceId,
    variant_idx: usize,
) -> (r: Result<crate::vm::ClassInstanceId, ShapeError>)
    requires
        cache_wf(old(vm).struct_specializations@),
        cache_wf(old(vm).enum_specializations@),
        edef_id.0 < old(vm).enum_instances@.len(),
        old(vm).enum_instances@[edef_id.0 as int].layout == EnumLayout::Tagged,
        (old(vm).enum_instances@[edef_id.0 as int].enum_id.0 as int) < old(vm).enums@.len(),
        variant_idx < old(vm).enum_instances@[edef_id.0 as int].variants@.len(),
        old(vm).enums@[old(vm).enum_instances@[edef_id.0 as int].enum_id.0 as int].variants@.len()
            == old(vm).enum_instances@[edef_id.0 as int].variants@.len(),
    ensures
        old(vm).enum_instances@[edef_id.0 as int].variants@[variant_idx as int] matches Some(cid)
            ==> r == Ok::<_, ShapeError>(cid) && *final (vm) == *old(vm),
        r is Err ==> *final (vm) == *old(vm),
        ({
            old(vm).enum_instances@[edef_id.0 as int].variants@[variant_idx as int] is None
                && r is Ok
        }) ==> ({
            let id = r->Ok_0;
            let inst = final (vm).class_instances@.last();
            let edef = old(vm).enum_instances@[edef_id.0 as int];
            let def = old(vm).enums@[edef.enum_id.0 as int];
            let ftys = class_field_tys(inst.fields@);
            &&& id.0 == old(vm).class_instances@.len()
            &&& final (vm).class_instances@ == old(vm).class_instances@.push(inst)
            &&& inst.kind matches crate::vm::ShapeKind::Enum(e, tp) && e == edef.enum_id && tp@
                == edef.type_params@
            &&& inst.vtable_entries == 0
            &&& inst.fields@.len() == 1 + def.variants@[variant_idx as int].types@.len()
            &&& inst.fields@[0].ty == BytecodeType::Int32
            &&& inst.fields@[0].offset == crate::mem::HEADER_SIZE
            &&& (forall|i: int|
                1 <= i < inst.fields@.len() ==> (#[trigger] inst.fields@[i]).ty@
                    == spec_specialize(
                    def.variants@[variant_idx as int].types@[i - 1]@,
                    edef.type_params@,
                ))
            &&& spec_tuple_fold(*old(vm), ftys) matches Some(p) && inst.size
                == crate::vm::InstanceSize::Fixed(
                align_i32_spec(crate::mem::HEADER_SIZE + p.0, crate::mem::PTR_WIDTH as int) as i32,
            )
            &&& (forall|i: int|
                0 <= i < inst.fields@.len() ==> (#[trigger] inst.fields@[i]).offset as int
                    == crate::mem::HEADER_SIZE + align_i32_spec(
                    (spec_tuple_fold(*old(vm), ftys.subrange(0, i))->0).0,
                    (spec_size_align(*old(vm), ftys[i])->0).1,
                ))
            &&& spec_tuple_refs(*old(vm), ftys, crate::mem::HEADER_SIZE as int) matches Some(refs)
                && as_ints(inst.ref_fields@) == refs
            &&& final (vm).enum_instances@ == old(vm).enum_instances@.update(
                edef_id.0 as int,
                final (vm).enum_instances@[edef_id.0 as int],
            )
            &&& ({
                let updated = final (vm).enum_instances@[edef_id.0 as int];
                &&& updated.enum_id == edef.enum_id
                &&& updated.type_params@ == edef.type_params@
                &&& updated.layout == edef.layout
                &&& updated.variants@ == edef.variants@.update(variant_idx as int, Some(id))
            })
            &&& final (vm).structs@ == old(vm).structs@
            &&& final (vm).enums@ == old(vm).enums@
            &&& final (vm).classes@ == old(vm).classes@
            &&& final (vm).traits@ == old(vm).traits@
            &&& final (vm).struct_instances@ == old(vm).struct_instances@
            &&& final (vm).struct_specializations@ == old(vm).struct_specializations@
            &&& final (vm).enum_specializations@ == old(vm).enum_specializations@
            &&& final (vm).class_specializations@ == old(vm).class_specializations@
            &&& final (vm).trait_vtables@ == old(vm).trait_vtables@
        }),
{
    match vm.enum_instances[edef_id.0].variants[variant_idx] {
        Some(cid) => {
            return Ok(cid);
        },
        None => {},
    }
    let enum_def_id = vm.enum_instances[edef_id.0].enum_id;
    let npayload = vm.enums[enum_def_id.0 as usize].variants[variant_idx].types.len();
    let type_params = vm.enum_instances[edef_id.0].type_params.clone();
    let ghost params_view = vm.enum_instances@[edef_id.0 as int].type_params@;

    let mut fields: Vec<crate::vm::FieldInstance> = Vec::new();
    let mut ref_fields: Vec<i32> = Vec::new();
    fields.push(
        crate::vm::FieldInstance { offset: crate::mem::HEADER_SIZE, ty: BytecodeType::Int32 },
    );
    let mut fsize: i32 = 4;
    let mut i: usize = 0;
    proof {
        let ftys = class_field_tys(fields@);
        assert(ftys =~= Seq::<BytecodeType>::empty().push(BytecodeType::Int32));
        assert(ftys.drop_last() =~= Seq::<BytecodeType>::empty());
        assert(ftys.subrange(0, 0) =~= Seq::<BytecodeType>::empty());
        assert(spec_tuple_fold(*vm, Seq::<BytecodeType>::empty()) == Some((0int, 0int)));
        assert(spec_tuple_refs(*vm, Seq::<BytecodeType>::empty(), crate::mem::HEADER_SIZE as int)
            == Some(Seq::<int>::empty()));
        assert(spec_size_align(*vm, BytecodeType::Int32) == Some((4int, 4int)));
        assert(spec_ty_refs(
            *vm,
            BytecodeType::Int32,
            crate::mem::HEADER_SIZE as int + align_i32_spec(0, 4),
        ) == Some(Seq::<int>::empty()));
        assert(spec_tuple_fold(*vm, ftys) is Some);
        assert(spec_tuple_refs(*vm, ftys, crate::mem::HEADER_SIZE as int) is Some);
        assert(spec_tuple_refs(*vm, ftys, crate::mem::HEADER_SIZE as int)->0 =~= Seq::<int>::empty());
        assert(as_ints(ref_fields@) =~= Seq::<int>::empty());
    }
    while i < npayload
        invariant
            old(vm).enum_instances@[edef_id.0 as int].variants@[variant_idx as int] is None,
            cache_wf(vm.struct_specializations@),
            cache_wf(vm.enum_specializations@),
            vm == old(vm),
            edef_id.0 < vm.enum_instances@.len(),
            enum_def_id == vm.enum_instances@[edef_id.0 as int].enum_id,
            (enum_def_id.0 as int) < vm.enums@.len(),
            variant_idx < vm.enums@[enum_def_id.0 as int].variants@.len(),
            npayload == vm.enums@[enum_def_id.0 as int].variants@[variant_idx as int].types@.len(),
            type_params@ == vm.enum_instances@[edef_id.0 as int].type_params@,
            i <= npayload,
            fields@.len() == i + 1,
            fields@[0].ty == BytecodeType::Int32,
            fields@[0].offset == crate::mem::HEADER_SIZE,
            forall|k: int|
                1 <= k < fields@.len() ==> (#[trigger] fields@[k]).ty@ == spec_specialize(
                    vm.enums@[enum_def_id.0 as int].variants@[variant_idx as int].types@[k - 1]@,
                    type_params@,
                ),
            spec_tuple_fold(*vm, class_field_tys(fields@)) matches Some(p) && p.0 == fsize && 4
                <= fsize,
            forall|k: int|
                0 <= k < fields@.len() ==> (#[trigger] fields@[k]).offset as int
                    == crate::mem::HEADER_SIZE + align_i32_spec(
                    (spec_tuple_fold(*vm, class_field_tys(fields@).subrange(0, k))->0).0,
                    (spec_size_align(*vm, class_field_tys(fields@)[k])->0).1,
                ),
            spec_tuple_refs(*vm, class_field_tys(fields@), crate::mem::HEADER_SIZE as int)
                matches Some(refs) && as_ints(ref_fields@) == refs,
        decreases npayload - i,
    {
        let fty = specialize_bty(
            vm.enums[enum_def_id.0 as usize].variants[variant_idx].types[i].clone(),
            &type_params,
        );
        let (field_size, field_align) = match size_align_of(vm, &fty) {
            Ok(p) => p,
            Err(e) => {
                return Err(e);
            },
        };
        proof {
            lemma_size_align_bounds(*vm, fty);
        }
        let ghost ftys0 = class_field_tys(fields@);
        let rel_offset = if field_align == 0 {
            fsize
        } else {
            proof {
                crate::mem::lemma_align_nonneg(fsize as int, field_align as int);
                crate::mem::lemma_align_grows(fsize as int, field_align as int);
                crate::mem::lemma_align_upper(fsize as int, field_align as int);
            }
            let a64: i64 = ((fsize as i64 + field_align as i64 - 1) / field_align as i64)
                * field_align as i64;
            if a64 > i32::MAX as i64 - crate::mem::HEADER_SIZE as i64 {
                return Err(ShapeError::TooLarge);
            }
            a64 as i32
        };
        if rel_offset > i32::MAX - crate::mem::HEADER_SIZE - field_size {
            return Err(ShapeError::TooLarge);
        }
        match add_ref_fields(vm, &mut ref_fields, crate::mem::HEADER_SIZE + rel_offset, &fty) {
            Ok(_) => {},
            Err(e) => {
                return Err(e);
            },
        }
        fields.push(
            crate::vm::FieldInstance { offset: crate::mem::HEADER_SIZE + rel_offset, ty: fty },
        );
        fsize = rel_offset + field_size;
        i = i + 1;
        proof {
            let ftys = class_field_tys(fields@);
            assert(ftys =~= ftys0.push(fields@.last().ty));
            assert(ftys.drop_last() =~= ftys0);
            assert(ftys.subrange(0, i as int) =~= ftys0);
            assert forall|k: int| 0 <= k < i implies spec_tuple_fold(
                *vm,
                #[trigger] ftys.subrange(0, k),
            ) == spec_tuple_fold(*vm, ftys0.subrange(0, k)) by {
                assert(ftys.subrange(0, k) =~= ftys0.subrange(0, k));
            }
        }
    }
    proof {
        crate::mem::lemma_align_nonneg(
            crate::mem::HEADER_SIZE as int + fsize as int,
            crate::mem::PTR_WIDTH as int,
        );
        crate::mem::lemma_align_grows(
            crate::mem::HEADER_SIZE as int + fsize as int,
            crate::mem::PTR_WIDTH as int,
        );
        crate::mem::lemma_align_upper(
            crate::mem::HEADER_SIZE as int + fsize as int,
            crate::mem::PTR_WIDTH as int,
        );
    }
    let csize64: i64 = crate::mem::HEADER_SIZE as i64 + fsize as i64;
    let total64: i64 = ((csize64 + 8 - 1) / 8) * 8;
    if total64 > i32::MAX as i64 {
        return Err(ShapeError::TooLarge);
    }
    let total = total64 as i32;

    let id = vm.class_instances.len();
    vm.class_instances.push(
        crate::vm::ClassInstance {
            kind: crate::vm::ShapeKind::Enum(enum_def_id, type_params.clone()),
            size: crate::vm::InstanceSize::Fixed(total),
            fields,
            ref_fields,
            vtable_entries: 0,
        },
    );

    // remember the variant's class instance inside the enum instance
    let mut new_variants: Vec<Option<crate::vm::ClassInstanceId>> = Vec::new();
    let nvariants = vm.enum_instances[edef_id.0].variants.len();
    let mut k: usize = 0;
    while k < nvariants
        invariant
            edef_id.0 < vm.enum_instances@.len(),
            nvariants == vm.enum_instances@[edef_id.0 as int].variants@.len(),
            variant_idx < nvariants,
            k <= nvariants,
            new_variants@.len() == k,
            forall|m: int|
                0 <= m < k ==> #[trigger] new_variants@[m] == (if m == variant_idx {
                    Some(crate::vm::ClassInstanceId(id))
                } else {
                    vm.enum_instances@[edef_id.0 as int].variants@[m]
                }),
        decreases nvariants - k,
    {
        if k == variant_idx {
            new_variants.push(Some(crate::vm::ClassInstanceId(id)));
        } else {
            new_variants.push(vm.enum_instances[edef_id.0].variants[k]);
        }
        k = k + 1;
    }
    let layout = vm.enum_instances[edef_id.0].layout;
    let updated = crate::vm::EnumInstance {
        enum_id: enum_def_id,
        type_params,
        layout,
        variants: new_variants,
    };
    vm.enum_instances.set(edef_id.0, updated);
    proof {
        assert(final (vm).enum_instances@[edef_id.0 as int].variants@ =~= old(
            vm,
        ).enum_instances@[edef_id.0 as int].variants@.update(
            variant_idx as int,
            Some(crate::vm::ClassInstanceId(id)),
        ));
    }
    Ok(crate::vm::ClassInstanceId(id))
}

} // verus!
