use vstd::prelude::*;

verus! {

/// Identifier of a class definition in the program.
#[derive(Clone, Copy, Debug, PartialEq, Eq, Structural, Hash)]
pub struct ClassDefinitionId(pub u32);

/// Identifier of a struct definition in the program.
#[derive(Clone, Copy, Debug, PartialEq, Eq, Structural, Hash)]
pub struct StructDefinitionId(pub u32);

/// Identifier of an enum definition in the program.
#[derive(Clone, Copy, Debug, PartialEq, Eq, Structural, Hash)]
pub struct EnumDefinitionId(pub u32);

/// Identifier of a trait definition in the program.
#[derive(Clone, Copy, Debug, PartialEq, Eq, Structural, Hash)]
pub struct TraitDefinitionId(pub u32);

/// Identifier of a function definition in the program.
#[derive(Clone, Copy, Debug, PartialEq, Eq, Structural, Hash)]
pub struct FctDefinitionId(pub u32);

/// Identifier of a global variable in the program.
#[derive(Clone, Copy, Debug, PartialEq, Eq, Structural, Hash)]
pub struct GlobalDefinitionId(pub u32);

/// The discriminant-only view of a bytecode type.
#[derive(Clone, Copy, Debug, PartialEq, Eq, Structural)]
pub enum BytecodeTypeKind {
    Unit,
    Bool,
    UInt8,
    Char,
    Int32,
    Int64,
    Float32,
    Float64,
    Ptr,
    Tuple,
    TypeParam,
    Enum,
    Struct,
    Class,
    Trait,
    Lambda,
}

/// The type of a bytecode register or operand. A type is concrete when it
/// holds no `TypeParam` anywhere; only concrete types reach the shape layer.
#[derive(Debug, PartialEq, Eq, Hash)]
pub enum BytecodeType {
    Unit,
    Bool,
    UInt8,
    Char,
    Int32,
    Int64,
    Float32,
    Float64,
    Ptr,
    Tuple(BytecodeTypeArray),
    TypeParam(u32),
    Enum(EnumDefinitionId, BytecodeTypeArray),
    Struct(StructDefinitionId, BytecodeTypeArray),
    Class(ClassDefinitionId, BytecodeTypeArray),
    Trait(TraitDefinitionId, BytecodeTypeArray),
    Lambda(BytecodeTypeArray, Box<BytecodeType>),
}

/// An ordered list of bytecode types with structural equality; used both for
/// type arguments and for tuple element lists.
#[derive(Debug, PartialEq, Eq, Hash)]
pub struct BytecodeTypeArray(pub Vec<BytecodeType>);

/// The mathematical shape of a bytecode type: the same tree with sequences
/// in place of vectors. Contracts speak of this view.
pub enum BtyV {
    Unit,
    Bool,
    UInt8,
    Char,
    Int32,
    Int64,
    Float32,
    Float64,
    Ptr,
    Tuple(Seq<BtyV>),
    TypeParam(u32),
    Enum(u32, Seq<BtyV>),
    Struct(u32, Seq<BtyV>),
    Class(u32, Seq<BtyV>),
    Trait(u32, Seq<BtyV>),
    Lambda(Seq<BtyV>, Box<BtyV>),
}

/// The view of one bytecode type: the same tree over sequences.
pub open spec fn bty_view(t: BytecodeType) -> BtyV
    decreases t,
{
    match t {
        BytecodeType::Unit => BtyV::Unit,
        BytecodeType::Bool => BtyV::Bool,
        BytecodeType::UInt8 => BtyV::UInt8,
        BytecodeType::Char => BtyV::Char,
        BytecodeType::Int32 => BtyV::Int32,
        BytecodeType::Int64 => BtyV::Int64,
        BytecodeType::Float32 => BtyV::Float32,
        BytecodeType::Float64 => BtyV::Float64,
        BytecodeType::Ptr => BtyV::Ptr,
        BytecodeType::Tuple(subtypes) => BtyV::Tuple(views_of(subtypes.0@)),
        BytecodeType::TypeParam(id) => BtyV::TypeParam(id),
        BytecodeType::Enum(id, params) => BtyV::Enum(id.0, views_of(params.0@)),
        BytecodeType::Struct(id, params) => BtyV::Struct(id.0, views_of(params.0@)),
        BytecodeType::Class(id, params) => BtyV::Class(id.0, views_of(params.0@)),
        BytecodeType::Trait(id, params) => BtyV::Trait(id.0, views_of(params.0@)),
        BytecodeType::Lambda(params, ret) => BtyV::Lambda(
            views_of(params.0@),
            Box::new(bty_view(*ret)),
        ),
    }
}

/// The views of the members of a sequence of bytecode types, in order.
pub open spec fn views_of(s: Seq<BytecodeType>) -> Seq<BtyV>
    decreases s,
{
    if s.len() == 0 {
        Seq::<BtyV>::empty()
    } else {
        views_of(s.drop_last()).push(bty_view(s.last()))
    }
}

impl View for BytecodeType {
    type V = BtyV;

    open spec fn view(&self) -> BtyV {
        bty_view(*self)
    }
}

impl View for BytecodeTypeArray {
    type V = Seq<BtyV>;

    open spec fn view(&self) -> Seq<BtyV> {
        views_of(self.0@)
    }
}

/// `views_of` is the pointwise view.
pub proof fn lemma_views_of(s: Seq<BytecodeType>)
    ensures
        views_of(s).len() == s.len(),
        forall|i: int| 0 <= i < s.len() ==> views_of(s)[i] == (#[trigger] s[i])@,
    decreases s,
{
    if s.len() > 0 {
        lemma_views_of(s.drop_last());
        assert forall|i: int| 0 <= i < s.len() implies views_of(s)[i] == (#[trigger] s[i])@ by {
            if i < s.len() - 1 {
                assert(s.drop_last()[i] == s[i]);
            }
        }
    }
}

/// A push on the vector is a push on the view.
pub proof fn lemma_views_of_push(s: Seq<BytecodeType>, t: BytecodeType)
    ensures
        views_of(s.push(t)) == views_of(s).push(t@),
{
    assert(s.push(t).drop_last() =~= s);
    assert(s.push(t).last() == t);
}

impl Clone for BytecodeType {
    fn clone(&self) -> (r: BytecodeType)
        ensures
            r@ == (*self)@,
            r.kind_spec() == self.kind_spec(),
        decreases self,
    {
        match self {
            BytecodeType::Unit => BytecodeType::Unit,
            BytecodeType::Bool => BytecodeType::Bool,
            BytecodeType::UInt8 => BytecodeType::UInt8,
            BytecodeType::Char => BytecodeType::Char,
            BytecodeType::Int32 => BytecodeType::Int32,
            BytecodeType::Int64 => BytecodeType::Int64,
            BytecodeType::Float32 => BytecodeType::Float32,
            BytecodeType::Float64 => BytecodeType::Float64,
            BytecodeType::Ptr => BytecodeType::Ptr,
            BytecodeType::Tuple(subtypes) => BytecodeType::Tuple(subtypes.clone()),
            BytecodeType::TypeParam(id) => BytecodeType::TypeParam(*id),
            BytecodeType::Enum(id, params) => BytecodeType::Enum(*id, params.clone()),
            BytecodeType::Struct(id, params) => BytecodeType::Struct(*id, params.clone()),
            BytecodeType::Class(id, params) => BytecodeType::Class(*id, params.clone()),
            BytecodeType::Trait(id, params) => BytecodeType::Trait(*id, params.clone()),
            BytecodeType::Lambda(params, ret) => BytecodeType::Lambda(
                params.clone(),
                Box::new((**ret).clone()),
            ),
        }
    }
}

impl Clone for BytecodeTypeArray {
    fn clone(&self) -> (r: BytecodeTypeArray)
        ensures
            r@ == (*self)@,
            r.0@.len() == self.0@.len(),
        decreases self,
    {
        let mut v: Vec<BytecodeType> = Vec::new();
        let mut i: usize = 0;
        while i < self.0.len()
            invariant
                i <= self.0@.len(),
                v@.len() == i,
                forall|k: int| 0 <= k < i ==> (#[trigger] v@[k])@ == self.0@[k]@,
            decreases self.0@.len() - i,
        {
            v.push(self.0[i].clone());
            i = i + 1;
        }
        proof {
            lemma_views_of(v@);
            lemma_views_of(self.0@);
            assert forall|k: int| 0 <= k < v@.len() implies views_of(v@)[k] == views_of(
                self.0@,
            )[k] by {
                assert(views_of(v@)[k] == v@[k]@);
                assert(views_of(self.0@)[k] == self.0@[k]@);
            }
            assert(views_of(v@) =~= views_of(self.0@));
        }
        BytecodeTypeArray(v)
    }
}

impl BytecodeType {
    /// No `TypeParam` occurs anywhere inside the type.
    pub open spec fn is_concrete_spec(self) -> bool
        decreases self,
    {
        match self {
            BytecodeType::TypeParam(_) => false,
            BytecodeType::Tuple(subtypes) => BytecodeType::all_concrete(subtypes.0@),
            BytecodeType::Enum(_, params) => BytecodeType::all_concrete(params.0@),
            BytecodeType::Struct(_, params) => BytecodeType::all_concrete(params.0@),
            BytecodeType::Class(_, params) => BytecodeType::all_concrete(params.0@),
            BytecodeType::Trait(_, params) => BytecodeType::all_concrete(params.0@),
            BytecodeType::Lambda(params, ret) => BytecodeType::all_concrete(params.0@)
                && ret.is_concrete_spec(),
            _ => true,
        }
    }

    pub open spec fn all_concrete(types: Seq<BytecodeType>) -> bool
        decreases types,
    {
        forall|i: int| 0 <= i < types.len() ==> (#[trigger] types[i]).is_concrete_spec()
    }

    pub fn kind(&self) -> (r: BytecodeTypeKind)
        ensures
            r == self.kind_spec(),
    {
        match self {
            BytecodeType::Unit => BytecodeTypeKind::Unit,
            BytecodeType::Bool => BytecodeTypeKind::Bool,
            BytecodeType::UInt8 => BytecodeTypeKind::UInt8,
            BytecodeType::Char => BytecodeTypeKind::Char,
            BytecodeType::Int32 => BytecodeTypeKind::Int32,
            BytecodeType::Int64 => BytecodeTypeKind::Int64,
            BytecodeType::Float32 => BytecodeTypeKind::Float32,
            BytecodeType::Float64 => BytecodeTypeKind::Float64,
            BytecodeType::Ptr => BytecodeTypeKind::Ptr,
            BytecodeType::Tuple(_) => BytecodeTypeKind::Tuple,
            BytecodeType::TypeParam(_) => BytecodeTypeKind::TypeParam,
            BytecodeType::Enum(_, _) => BytecodeTypeKind::Enum,
            BytecodeType::Struct(_, _) => BytecodeTypeKind::Struct,
            BytecodeType::Class(_, _) => BytecodeTypeKind::Class,
            BytecodeType::Trait(_, _) => BytecodeTypeKind::Trait,
            BytecodeType::Lambda(_, _) => BytecodeTypeKind::Lambda,
        }
    }

    pub open spec fn kind_spec(self) -> BytecodeTypeKind {
        match self {
            BytecodeType::Unit => BytecodeTypeKind::Unit,
            BytecodeType::Bool => BytecodeTypeKind::Bool,
            BytecodeType::UInt8 => BytecodeTypeKind::UInt8,
            BytecodeType::Char => BytecodeTypeKind::Char,
            BytecodeType::Int32 => BytecodeTypeKind::Int32,
            BytecodeType::Int64 => BytecodeTypeKind::Int64,
            BytecodeType::Float32 => BytecodeTypeKind::Float32,
            BytecodeType::Float64 => BytecodeTypeKind::Float64,
            BytecodeType::Ptr => BytecodeTypeKind::Ptr,
            BytecodeType::Tuple(_) => BytecodeTypeKind::Tuple,
            BytecodeType::TypeParam(_) => BytecodeTypeKind::TypeParam,
            BytecodeType::Enum(_, _) => BytecodeTypeKind::Enum,
            BytecodeType::Struct(_, _) => BytecodeTypeKind::Struct,
            BytecodeType::Class(_, _) => BytecodeTypeKind::Class,
            BytecodeType::Trait(_, _) => BytecodeTypeKind::Trait,
            BytecodeType::Lambda(_, _) => BytecodeTypeKind::Lambda,
        }
    }

    pub fn is_any_float(&self) -> (r: bool)
        ensures
            r == (self is Float32 || self is Float64),
    {
        match self {
            BytecodeType::Float32 | BytecodeType::Float64 => true,
            _ => false,
        }
    }

    pub fn is_ptr(&self) -> (r: bool)
        ensures
            r == (self is Ptr),
    {
        match self {
            BytecodeType::Ptr => true,
            _ => false,
        }
    }

    pub fn is_unit(&self) -> (r: bool)
        ensures
            r == (self is Unit),
    {
        match self {
            BytecodeType::Unit => true,
            _ => false,
        }
    }

    pub fn is_class(&self) -> (r: bool)
        ensures
            r == (self is Class),
    {
        match self {
            BytecodeType::Class(_, _) => true,
            _ => false,
        }
    }

    pub fn is_enum(&self) -> (r: bool)
        ensures
            r == (self is Enum),
    {
        match self {
            BytecodeType::Enum(_, _) => true,
            _ => false,
        }
    }

    pub fn is_struct(&self) -> (r: bool)
        ensures
            r == (self is Struct),
    {
        match self {
            BytecodeType::Struct(_, _) => true,
            _ => false,
        }
    }

    pub fn is_tuple(&self) -> (r: bool)
        ensures
            r == (self is Tuple),
    {
        match self {
            BytecodeType::Tuple(_) => true,
            _ => false,
        }
    }

    pub fn is_trait(&self) -> (r: bool)
        ensures
            r == (self is Trait),
    {
        match self {
            BytecodeType::Trait(_, _) => true,
            _ => false,
        }
    }

    pub fn is_type_param(&self) -> (r: bool)
        ensures
            r == (self is TypeParam),
    {
        match self {
            BytecodeType::TypeParam(_) => true,
            _ => false,
        }
    }

    /// A value of this type is a heap reference.
    pub fn is_reference_type(&self) -> (r: bool)
        ensures
            r == self.is_reference_spec(),
    {
        match self {
            BytecodeType::Ptr
            | BytecodeType::Class(_, _)
            | BytecodeType::Trait(_, _)
            | BytecodeType::Lambda(_, _) => true,
            _ => false,
        }
    }

    pub open spec fn is_reference_spec(self) -> bool {
        self is Ptr || self is Class || self is Trait || self is Lambda
    }

    /// The element list of a tuple type.
    pub fn tuple_subtypes(&self) -> (r: BytecodeTypeArray)
        requires
            self is Tuple,
        ensures
            (*self)@ == BtyV::Tuple(r@),
    {
        match self {
            BytecodeType::Tuple(subtypes) => subtypes.clone(),
            _ => {
                proof {
                    assert(false);
                }
                BytecodeTypeArray(Vec::new())
            },
        }
    }
}

impl BytecodeTypeArray {
    pub fn new(types: Vec<BytecodeType>) -> (r: BytecodeTypeArray)
        ensures
            r.0@ == types@,
    {
        BytecodeTypeArray(types)
    }

    pub fn one(ty: BytecodeType) -> (r: BytecodeTypeArray)
        ensures
            r.0@ == seq![ty],
    {
        let mut v = Vec::new();
        v.push(ty);
        BytecodeTypeArray(v)
    }

    pub fn empty() -> (r: BytecodeTypeArray)
        ensures
            r.0@ == Seq::<BytecodeType>::empty(),
    {
        BytecodeTypeArray(Vec::new())
    }

    pub fn len(&self) -> (r: usize)
        ensures
            r == self.0@.len(),
    {
        self.0.len()
    }

    pub fn get(&self, idx: usize) -> (r: &BytecodeType)
        requires
            idx < self.0@.len(),
        ensures
            *r == self.0@[idx as int],
    {
        &self.0[idx]
    }

    /// A new list with `ty` added at the end.
    pub fn append(&self, ty: BytecodeType) -> (r: BytecodeTypeArray)
        ensures
            r@ == self@.push(ty@),
            r.0@.len() == self.0@.len() + 1,
    {
        let mut arr = self.clone();
        let ghost pre = arr.0@;
        arr.0.push(ty);
        proof {
            lemma_views_of_push(pre, ty);
        }
        arr
    }

    pub open spec fn all_concrete_spec(self) -> bool {
        BytecodeType::all_concrete(self.0@)
    }

    /// Every member is concrete.
    pub fn is_concrete(&self) -> (r: bool)
        ensures
            r == self.all_concrete_spec(),
    {
        all_concrete_types(&self.0)
    }
}

/// Whether the type holds no `TypeParam` anywhere.
pub fn is_concrete_type(ty: &BytecodeType) -> (r: bool)
    ensures
        r == ty.is_concrete_spec(),
    decreases *ty,
{
    match ty {
        BytecodeType::TypeParam(_) => false,
        BytecodeType::Tuple(subtypes) => all_concrete_types(&subtypes.0),
        BytecodeType::Enum(_, params) => all_concrete_types(&params.0),
        BytecodeType::Struct(_, params) => all_concrete_types(&params.0),
        BytecodeType::Class(_, params) => all_concrete_types(&params.0),
        BytecodeType::Trait(_, params) => all_concrete_types(&params.0),
        BytecodeType::Lambda(params, ret) => {
            if !all_concrete_types(&params.0) {
                false
            } else {
                is_concrete_type(ret)
            }
        },
        _ => true,
    }
}

fn all_concrete_types(types: &Vec<BytecodeType>) -> (r: bool)
    ensures
        r == BytecodeType::all_concrete(types@),
    decreases types@,
{
    let mut i: usize = 0;
    while i < types.len()
        invariant
            i <= types@.len(),
            forall|k: int| 0 <= k < i ==> (#[trigger] types@[k]).is_concrete_spec(),
        decreases types@.len() - i,
    {
        if !is_concrete_type(&types[i]) {
            return false;
        }
        i = i + 1;
    }
    true
}

/// A type is a reference exactly when its view is.
pub proof fn lemma_reference_view(t: BytecodeType)
    ensures
        t.is_reference_spec() <==> (t@ is Ptr || t@ is Class || t@ is Trait || t@ is Lambda),
{
    match t {
        BytecodeType::Unit => {},
        BytecodeType::Bool => {},
        BytecodeType::UInt8 => {},
        BytecodeType::Char => {},
        BytecodeType::Int32 => {},
        BytecodeType::Int64 => {},
        BytecodeType::Float32 => {},
        BytecodeType::Float64 => {},
        BytecodeType::Ptr => {},
        BytecodeType::Tuple(_) => {},
        BytecodeType::TypeParam(_) => {},
        BytecodeType::Enum(_, _) => {},
        BytecodeType::Struct(_, _) => {},
        BytecodeType::Class(_, _) => {},
        BytecodeType::Trait(_, _) => {},
        BytecodeType::Lambda(_, _) => {},
    }
}

} // verus!
