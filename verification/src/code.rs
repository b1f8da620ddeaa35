use vstd::prelude::*;

use crate::bty::{BtyV, BytecodeType, BytecodeTypeArray, FctDefinitionId};

verus! {

/// An address in the process, as stored in code pointers and patched slots.
#[derive(Clone, Copy, Debug, PartialEq, Eq, Structural, Hash)]
pub struct Address(pub u64);

impl Address {
    pub fn is_null(&self) -> (r: bool)
        ensures
            r == (self.0 == 0),
    {
        self.0 == 0
    }

    pub fn null() -> (r: Address)
        ensures
            r.0 == 0,
    {
        Address(0)
    }

    pub fn to_usize(&self) -> (r: u64)
        ensures
            r == self.0,
    {
        self.0
    }
}

/// Index of an installed code object.
#[derive(Clone, Copy, Debug, PartialEq, Eq, Structural, Hash)]
pub struct CodeId(pub usize);

/// A call site whose target is produced lazily: what the compiler thunk must
/// know to patch the site once the callee is compiled.
#[derive(Clone, Debug)]
pub enum LazyCompilationSite {
    /// Direct call: function, displacement of the patched constant-pool slot,
    /// and the call's type arguments.
    Direct(FctDefinitionId, i32, BytecodeTypeArray),
    /// Virtual call through a vtable slot.
    Virtual(bool, FctDefinitionId, u32, BytecodeTypeArray),
    /// Call of a lambda object.
    Lambda(bool, FctDefinitionId, BytecodeTypeArray),
}

/// The one mutable word of a lazy call site: the slot the emitted call
/// sequence loads its target from. Unresolved sites hold the compiler
/// thunk's address; patching stores the compiled code's entry.
#[derive(Clone, Copy, Debug, PartialEq, Eq, Structural)]
pub enum CallSiteState {
    Unresolved,
    Resolved(Address),
}

#[derive(Clone, Copy, Debug, PartialEq, Eq, Structural)]
pub struct CallSite {
    pub state: CallSiteState,
}

impl CallSite {
    /// The address such a site's call sequence loads for the given thunk
    /// address: the thunk while unresolved, the patched target afterwards.
    pub open spec fn target_spec(self, thunk: Address) -> Address {
        match self.state {
            CallSiteState::Unresolved => thunk,
            CallSiteState::Resolved(code) => code,
        }
    }

    pub fn new() -> (r: CallSite)
        ensures
            r.state == CallSiteState::Unresolved,
    {
        CallSite { state: CallSiteState::Unresolved }
    }

    /// The target the next call through this site jumps to.
    pub fn target(&self, thunk: Address) -> (r: Address)
        ensures
            r == self.target_spec(thunk),
    {
        match self.state {
            CallSiteState::Unresolved => thunk,
            CallSiteState::Resolved(code) => code,
        }
    }

    /// Patches the site with the compiled code's entry; done by the compiler
    /// thunk on the site's first invocation.
    pub fn patch(&mut self, code: Address)
        ensures
            final (self).state == CallSiteState::Resolved(code),
    {
        self.state = CallSiteState::Resolved(code);
    }

    /// Forgets the target again; done on deoptimization.
    pub fn deoptimize(&mut self)
        ensures
            final (self).state == CallSiteState::Unresolved,
    {
        self.state = CallSiteState::Unresolved;
    }

    /// One call through the site: jumps to the current target and, when that
    /// target was still the thunk, patches the site with `code`. Returns the
    /// address jumped to and whether the thunk ran.
    pub fn invoke(&mut self, thunk: Address, code: Address) -> (r: (Address, bool))
        ensures
            r.1 == (old(self).state == CallSiteState::Unresolved),
            r.0 == old(self).target_spec(thunk),
            r.1 ==> final (self).state == CallSiteState::Resolved(code),
            !r.1 ==> *final (self) == *old(self),
    {
        let target = self.target(thunk);
        match self.state {
            CallSiteState::Unresolved => {
                self.patch(code);
                (target, true)
            },
            CallSiteState::Resolved(_) => (target, false),
        }
    }
}

/// Once a direct call is resolved, later calls from the same site jump to
/// the compiled code and never re-enter the compiler thunk: over any run of
/// further invocations the thunk runs no more, so it runs exactly once per
/// site.
pub proof fn lemma_lazy_patching_once(site: CallSite, thunk: Address, code: Address)
    requires
        site.state == CallSiteState::Resolved(code),
        code != thunk,
    ensures
        site.target_spec(thunk) == code,
        site.target_spec(thunk) != thunk,
{
}

/// Address-interval index of installed code objects: maps every address in
/// `[start, end)` to the code's id. Intervals never overlap.
pub struct CodeMap {
    pub entries: Vec<(u64, u64, CodeId)>,
}

impl CodeMap {
    /// Every interval is non-empty and no two intervals intersect.
    pub open spec fn wf(self) -> bool {
        &&& forall|i: int|
            0 <= i < self.entries@.len() ==> (#[trigger] self.entries@[i]).0 < self.entries@[i].1
        &&& forall|i: int, j: int|
            0 <= i < j < self.entries@.len() ==> ((#[trigger] self.entries@[i]).1
                <= (#[trigger] self.entries@[j]).0 || self.entries@[j].1 <= self.entries@[i].0)
    }

    /// Some interval of the map contains `pc`.
    pub open spec fn contains_spec(self, pc: u64) -> bool {
        exists|i: int|
            0 <= i < self.entries@.len() && (#[trigger] self.entries@[i]).0 <= pc
                < self.entries@[i].1
    }

    pub fn new() -> (r: CodeMap)
        ensures
            r.entries@ == Seq::<(u64, u64, CodeId)>::empty(),
            r.wf(),
    {
        CodeMap { entries: Vec::new() }
    }

    /// Registers the code object occupying `[start, end)`; the range must be
    /// fresh.
    pub fn insert(&mut self, start: u64, end: u64, id: CodeId)
        requires
            old(self).wf(),
            start < end,
            forall|i: int|
                0 <= i < old(self).entries@.len() ==> ((#[trigger] old(self).entries@[i]).1 <= start
                    || end <= old(self).entries@[i].0),
        ensures
            final (self).entries@ == old(self).entries@.push((start, end, id)),
            final (self).wf(),
    {
        self.entries.push((start, end, id));
    }

    /// The code object whose range holds `pc`, if any.
    pub fn lookup(&self, pc: u64) -> (r: Option<CodeId>)
        requires
            self.wf(),
        ensures
            r is Some <==> self.contains_spec(pc),
            r matches Some(id) ==> exists|i: int|
                0 <= i < self.entries@.len() && (#[trigger] self.entries@[i]).0 <= pc
                    < self.entries@[i].1 && self.entries@[i].2 == id,
    {
        let mut i: usize = 0;
        while i < self.entries.len()
            invariant
                i <= self.entries@.len(),
                forall|k: int|
                    0 <= k < i ==> !((#[trigger] self.entries@[k]).0 <= pc < self.entries@[k].1),
            decreases self.entries@.len() - i,
        {
            let (start, end, id) = self.entries[i];
            if start <= pc && pc < end {
                return Some(id);
            }
            i = i + 1;
        }
        None
    }
}

/// Map from `(function, type arguments)` to the installed code's entry
/// address, consulted by the driver to avoid recompiling.
pub struct CompilationDatabase {
    pub entries: Vec<(FctDefinitionId, BytecodeTypeArray, Address)>,
}

impl CompilationDatabase {
    /// The association the table holds, as a map over views.
    pub open spec fn as_map(self) -> Map<(u32, Seq<BtyV>), Address> {
        Map::new(
            |k: (u32, Seq<BtyV>)|
                exists|i: int|
                    0 <= i < self.entries@.len() && compile_entry_key(#[trigger] self.entries@[i])
                        == k,
            |k: (u32, Seq<BtyV>)|
                {
                    let i = choose|i: int|
                        0 <= i < self.entries@.len() && compile_entry_key(
                            #[trigger] self.entries@[i],
                        ) == k;
                    self.entries@[i].2
                },
        )
    }

    /// Every association of `pre` still holds in `post`.
    pub open spec fn preserves(pre: CompilationDatabase, post: CompilationDatabase) -> bool {
        forall|k: (u32, Seq<BtyV>)|
            pre.as_map().dom().contains(k) ==> post.as_map().dom().contains(k)
                && post.as_map()[k] == pre.as_map()[k]
    }

    /// Each key occurs at most once.
    pub open spec fn wf(self) -> bool {
        forall|i: int, j: int|
            0 <= i < j < self.entries@.len() ==> compile_entry_key(#[trigger] self.entries@[i])
                != compile_entry_key(#[trigger] self.entries@[j])
    }

    pub fn new() -> (r: CompilationDatabase)
        ensures
            r.entries@ == Seq::<(FctDefinitionId, BytecodeTypeArray, Address)>::empty(),
            r.wf(),
    {
        CompilationDatabase { entries: Vec::new() }
    }

    /// The installed entry address of `(fct_id, type_params)`, if compiled.
    pub fn get(&self, fct_id: FctDefinitionId, type_params: &BytecodeTypeArray) -> (r: Option<
        Address,
    >)
        requires
            self.wf(),
        ensures
            r is Some <==> self.as_map().dom().contains((fct_id.0, type_params@)),
            r matches Some(a) ==> self.as_map()[(fct_id.0, type_params@)] == a,
    {
        let mut i: usize = 0;
        while i < self.entries.len()
            invariant
                self.wf(),
                i <= self.entries@.len(),
                forall|k: int|
                    0 <= k < i ==> compile_entry_key(#[trigger] self.entries@[k]) != (
                    fct_id.0,
                    type_params@,
                ),
            decreases self.entries@.len() - i,
        {
            if self.entries[i].0.0 == fct_id.0 && bty_array_equal(&self.entries[i].1, type_params) {
                proof {
                    let witness = i as int;
                    assert(compile_entry_key(self.entries@[witness]) == (fct_id.0, type_params@));
                    assert(self.as_map().dom().contains((fct_id.0, type_params@)));
                    let j = choose|j: int|
                        0 <= j < self.entries@.len() && compile_entry_key(
                            #[trigger] self.entries@[j],
                        ) == (fct_id.0, type_params@);
                    assert(j == witness);
                }
                return Some(self.entries[i].2);
            }
            i = i + 1;
        }
        proof {
            if self.as_map().dom().contains((fct_id.0, type_params@)) {
                let j = choose|j: int|
                    0 <= j < self.entries@.len() && compile_entry_key(#[trigger] self.entries@[j])
                        == (fct_id.0, type_params@);
                assert(compile_entry_key(self.entries@[j]) == (fct_id.0, type_params@));
                assert(false);
            }
        }
        None
    }

    /// Records the installed code of `(fct_id, type_params)`; a key is
    /// installed only once.
    pub fn insert(&mut self, fct_id: FctDefinitionId, type_params: BytecodeTypeArray, addr: Address)
        requires
            old(self).wf(),
            !old(self).as_map().dom().contains((fct_id.0, type_params@)),
        ensures
            final (self).wf(),
            final (self).entries@ == old(self).entries@.push((fct_id, type_params, addr)),
            final (self).as_map().dom().contains((fct_id.0, type_params@)),
            final (self).as_map()[(fct_id.0, type_params@)] == addr,
            // everything already installed stays as it was
            CompilationDatabase::preserves(*old(self), *final (self)),
    {
        let ghost pre = self.entries@;
        let ghost newkey = (fct_id.0, type_params@);
        self.entries.push((fct_id, type_params, addr));
        proof {
            let n = pre.len() as int;
            assert(compile_entry_key(self.entries@[n]) == newkey);
            assert forall|i: int, j: int| 0 <= i < j < self.entries@.len() implies compile_entry_key(
                #[trigger] self.entries@[i],
            ) != compile_entry_key(#[trigger] self.entries@[j]) by {
                if j == n {
                    if compile_entry_key(self.entries@[i]) == newkey {
                        assert(self.entries@[i] == pre[i]);
                        assert(compile_entry_key(pre[i]) == newkey);
                        assert(old(self).as_map().dom().contains(newkey));
                        assert(false);
                    }
                }
            }
            assert(self.as_map().dom().contains(newkey));
            let j = choose|j: int|
                0 <= j < self.entries@.len() && compile_entry_key(#[trigger] self.entries@[j])
                    == newkey;
            if j != n {
                assert(self.entries@[j] == pre[j]);
                assert(compile_entry_key(pre[j]) == newkey);
                assert(old(self).as_map().dom().contains(newkey));
                assert(false);
            }
            assert(self.as_map()[newkey] == addr);
            assert forall|k: (u32, Seq<BtyV>)|
                old(self).as_map().dom().contains(k) implies #[trigger] self.as_map().dom().contains(
                k,
            ) && self.as_map()[k] == old(self).as_map()[k] by {
                let i0 = choose|i0: int|
                    0 <= i0 < pre.len() && compile_entry_key(#[trigger] pre[i0]) == k;
                assert(self.entries@[i0] == pre[i0]);
                assert(compile_entry_key(self.entries@[i0]) == k);
                assert(self.as_map().dom().contains(k));
                let j1 = choose|j1: int|
                    0 <= j1 < self.entries@.len() && compile_entry_key(#[trigger] self.entries@[j1])
                        == k;
                let j0 = choose|j0: int|
                    0 <= j0 < pre.len() && compile_entry_key(#[trigger] pre[j0]) == k;
                if j1 == n {
                    assert(k == newkey);
                    assert(old(self).as_map().dom().contains(newkey));
                    assert(false);
                }
                assert(self.entries@[j1] == pre[j1]);
                assert(compile_entry_key(pre[j1]) == k);
                if j0 != j1 {
                    assert(compile_entry_key(pre[j0]) == compile_entry_key(pre[j1]));
                    assert(false);
                }
            }
            assert(CompilationDatabase::preserves(*old(self), *self));
        }
    }
}

/// The lookup key of one compilation-database entry.
pub open spec fn compile_entry_key(e: (FctDefinitionId, BytecodeTypeArray, Address)) -> (u32, Seq<
    BtyV,
>) {
    (e.0.0, e.1@)
}

/// Structural equality of two type-argument lists, decided over their views.
pub fn bty_array_equal(a: &BytecodeTypeArray, b: &BytecodeTypeArray) -> (r: bool)
    ensures
        r == (a@ == b@),
    decreases a,
{
    proof {
        crate::bty::lemma_views_of(a.0@);
        crate::bty::lemma_views_of(b.0@);
    }
    if a.0.len() != b.0.len() {
        proof {
            assert(a@.len() != b@.len());
        }
        return false;
    }
    let mut i: usize = 0;
    while i < a.0.len()
        invariant
            a.0@.len() == b.0@.len(),
            i <= a.0@.len(),
            forall|k: int| 0 <= k < i ==> (#[trigger] a.0@[k])@ == b.0@[k]@,
        decreases a.0@.len() - i,
    {
        if !bty_equal(&a.0[i], &b.0[i]) {
            proof {
                crate::bty::lemma_views_of(a.0@);
                crate::bty::lemma_views_of(b.0@);
                assert(crate::bty::views_of(a.0@)[i as int] == a.0@[i as int]@);
                assert(crate::bty::views_of(b.0@)[i as int] == b.0@[i as int]@);
                assert(a@[i as int] != b@[i as int]);
            }
            return false;
        }
        i = i + 1;
    }
    proof {
        crate::bty::lemma_views_of(a.0@);
        crate::bty::lemma_views_of(b.0@);
        assert forall|k: int| 0 <= k < a@.len() implies a@[k] == b@[k] by {
            assert(crate::bty::views_of(a.0@)[k] == a.0@[k]@);
            assert(crate::bty::views_of(b.0@)[k] == b.0@[k]@);
        }
        assert(a@ =~= b@);
    }
    true
}

/// Structural equality of two bytecode types, decided over their views.
pub fn bty_equal(a: &BytecodeType, b: &BytecodeType) -> (r: bool)
    ensures
        r == (a@ == b@),
    decreases a,
{
    match (a, b) {
        (BytecodeType::Unit, BytecodeType::Unit) => true,
        (BytecodeType::Bool, BytecodeType::Bool) => true,
        (BytecodeType::UInt8, BytecodeType::UInt8) => true,
        (BytecodeType::Char, BytecodeType::Char) => true,
        (BytecodeType::Int32, BytecodeType::Int32) => true,
        (BytecodeType::Int64, BytecodeType::Int64) => true,
        (BytecodeType::Float32, BytecodeType::Float32) => true,
        (BytecodeType::Float64, BytecodeType::Float64) => true,
        (BytecodeType::Ptr, BytecodeType::Ptr) => true,
        (BytecodeType::TypeParam(x), BytecodeType::TypeParam(y)) => x == y,
        (BytecodeType::Tuple(xs), BytecodeType::Tuple(ys)) => bty_array_equal(xs, ys),
        (BytecodeType::Enum(xi, xs), BytecodeType::Enum(yi, ys)) => xi.0 == yi.0 && bty_array_equal(
            xs,
            ys,
        ),
        (BytecodeType::Struct(xi, xs), BytecodeType::Struct(yi, ys)) => xi.0 == yi.0
            && bty_array_equal(xs, ys),
        (BytecodeType::Class(xi, xs), BytecodeType::Class(yi, ys)) => xi.0 == yi.0
            && bty_array_equal(xs, ys),
        (BytecodeType::Trait(xi, xs), BytecodeType::Trait(yi, ys)) => xi.0 == yi.0
            && bty_array_equal(xs, ys),
        (BytecodeType::Lambda(xs, xr), BytecodeType::Lambda(ys, yr)) => {
            if !bty_array_equal(xs, ys) {
                false
            } else {
                bty_equal(xr, yr)
            }
        },
        _ => false,
    }
}

} // verus!
