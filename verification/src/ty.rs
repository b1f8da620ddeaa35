use vstd::prelude::*;

use crate::bty::{
    ClassDefinitionId, EnumDefinitionId, StructDefinitionId, TraitDefinitionId,
};

verus! {

/// Identifier of an interned tuple type.
#[derive(Clone, Copy, Debug, PartialEq, Eq, Structural, Hash)]
pub struct TupleId(pub u32);

/// Identifier of a type parameter in scope.
#[derive(Clone, Copy, Debug, PartialEq, Eq, Structural, Hash)]
pub struct TypeParamId(pub usize);

/// Identifier of an interned lambda type.
#[derive(Clone, Copy, Debug, PartialEq, Eq, Structural, Hash)]
pub struct LambdaId(pub usize);

/// The front end's type language: nominal types with argument lists,
/// interned tuples and lambdas, and the sentinels used during checking.
#[derive(Debug, PartialEq, Eq, Hash)]
pub enum SourceType {
    /// Could not be determined because of an earlier error.
    Error,
    /// Any type; used during inference.
    Any,
    Unit,
    Bool,
    Char,
    UInt8,
    Int32,
    Int64,
    Float32,
    Float64,
    /// Pointer to an object; internal only.
    Ptr,
    /// The self type inside a trait or impl.
    This,
    Class(ClassDefinitionId, SourceTypeArray),
    Struct(StructDefinitionId, SourceTypeArray),
    Tuple(TupleId),
    Trait(TraitDefinitionId, SourceTypeArray),
    TypeParam(TypeParamId),
    Lambda(LambdaId),
    Enum(EnumDefinitionId, SourceTypeArray),
}

/// An ordered list of source types; empty lists share one representation.
#[derive(Debug, PartialEq, Eq, Hash)]
pub enum SourceTypeArray {
    Empty,
    List(Vec<SourceType>),
}


/// The mathematical shape of a source type: the same tree with sequences
/// in place of vectors. Contracts speak of this view.
pub enum StyV {
    Error,
    Any,
    Unit,
    Bool,
    Char,
    UInt8,
    Int32,
    Int64,
    Float32,
    Float64,
    Ptr,
    This,
    Class(u32, Seq<StyV>),
    Struct(u32, Seq<StyV>),
    Tuple(u32),
    Trait(u32, Seq<StyV>),
    TypeParam(int),
    Lambda(int),
    Enum(u32, Seq<StyV>),
}

/// The view of one source type.
pub open spec fn sty_view(t: SourceType) -> StyV
    decreases t,
{
    match t {
        SourceType::Error => StyV::Error,
        SourceType::Any => StyV::Any,
        SourceType::Unit => StyV::Unit,
        SourceType::Bool => StyV::Bool,
        SourceType::Char => StyV::Char,
        SourceType::UInt8 => StyV::UInt8,
        SourceType::Int32 => StyV::Int32,
        SourceType::Int64 => StyV::Int64,
        SourceType::Float32 => StyV::Float32,
        SourceType::Float64 => StyV::Float64,
        SourceType::Ptr => StyV::Ptr,
        SourceType::This => StyV::This,
        SourceType::Class(id, params) => StyV::Class(id.0, sty_views_of_array(params)),
        SourceType::Struct(id, params) => StyV::Struct(id.0, sty_views_of_array(params)),
        SourceType::Tuple(id) => StyV::Tuple(id.0),
        SourceType::Trait(id, params) => StyV::Trait(id.0, sty_views_of_array(params)),
        SourceType::TypeParam(id) => StyV::TypeParam(id.0 as int),
        SourceType::Lambda(id) => StyV::Lambda(id.0 as int),
        SourceType::Enum(id, params) => StyV::Enum(id.0, sty_views_of_array(params)),
    }
}

/// The views of an argument list's members, in order.
pub open spec fn sty_views_of(s: Seq<SourceType>) -> Seq<StyV>
    decreases s,
{
    if s.len() == 0 {
        Seq::<StyV>::empty()
    } else {
        sty_views_of(s.drop_last()).push(sty_view(s.last()))
    }
}

/// The view of a whole list; the empty representation and an empty vector
/// have the same view.
pub open spec fn sty_views_of_array(a: SourceTypeArray) -> Seq<StyV>
    decreases a,
{
    match a {
        SourceTypeArray::Empty => Seq::<StyV>::empty(),
        SourceTypeArray::List(types) => sty_views_of(types@),
    }
}

impl View for SourceType {
    type V = StyV;

    open spec fn view(&self) -> StyV {
        sty_view(*self)
    }
}

impl View for SourceTypeArray {
    type V = Seq<StyV>;

    open spec fn view(&self) -> Seq<StyV> {
        sty_views_of_array(*self)
    }
}

/// `sty_views_of` is the pointwise view.
pub proof fn lemma_sty_views_of(s: Seq<SourceType>)
    ensures
        sty_views_of(s).len() == s.len(),
        forall|i: int| 0 <= i < s.len() ==> sty_views_of(s)[i] == (#[trigger] s[i])@,
    decreases s,
{
    if s.len() > 0 {
        lemma_sty_views_of(s.drop_last());
        assert forall|i: int| 0 <= i < s.len() implies sty_views_of(s)[i] == (#[trigger] s[i])@ by {
            if i < s.len() - 1 {
                assert(s.drop_last()[i] == s[i]);
            }
        }
    }
}

impl Clone for SourceType {
    fn clone(&self) -> (r: SourceType)
        ensures
            r@ == (*self)@,
        decreases self,
    {
        match self {
            SourceType::Error => SourceType::Error,
            SourceType::Any => SourceType::Any,
            SourceType::Unit => SourceType::Unit,
            SourceType::Bool => SourceType::Bool,
            SourceType::Char => SourceType::Char,
            SourceType::UInt8 => SourceType::UInt8,
            SourceType::Int32 => SourceType::Int32,
            SourceType::Int64 => SourceType::Int64,
            SourceType::Float32 => SourceType::Float32,
            SourceType::Float64 => SourceType::Float64,
            SourceType::Ptr => SourceType::Ptr,
            SourceType::This => SourceType::This,
            SourceType::Class(id, params) => SourceType::Class(*id, params.clone()),
            SourceType::Struct(id, params) => SourceType::Struct(*id, params.clone()),
            SourceType::Tuple(id) => SourceType::Tuple(*id),
            SourceType::Trait(id, params) => SourceType::Trait(*id, params.clone()),
            SourceType::TypeParam(id) => SourceType::TypeParam(*id),
            SourceType::Lambda(id) => SourceType::Lambda(*id),
            SourceType::Enum(id, params) => SourceType::Enum(*id, params.clone()),
        }
    }
}

impl Clone for SourceTypeArray {
    fn clone(&self) -> (r: SourceTypeArray)
        ensures
            r@ == (*self)@,
            r.len_spec() == self.len_spec(),
            r is List <==> self is List,
        decreases self,
    {
        match self {
            SourceTypeArray::Empty => SourceTypeArray::Empty,
            SourceTypeArray::List(types) => SourceTypeArray::List(clone_source_types(types)),
        }
    }
}

fn clone_source_types(types: &Vec<SourceType>) -> (r: Vec<SourceType>)
    ensures
        r@.len() == types@.len(),
        sty_views_of(r@) == sty_views_of(types@),
    decreases types@,
{
    let mut v: Vec<SourceType> = Vec::new();
    let mut i: usize = 0;
    while i < types.len()
        invariant
            i <= types@.len(),
            v@.len() == i,
            forall|k: int| 0 <= k < i ==> (#[trigger] v@[k])@ == types@[k]@,
        decreases types@.len() - i,
    {
        v.push(types[i].clone());
        i = i + 1;
    }
    proof {
        lemma_sty_views_of(v@);
        lemma_sty_views_of(types@);
        assert forall|k: int| 0 <= k < v@.len() implies sty_views_of(v@)[k] == sty_views_of(
            types@,
        )[k] by {
            assert(sty_views_of(v@)[k] == v@[k]@);
            assert(sty_views_of(types@)[k] == types@[k]@);
        }
        assert(sty_views_of(v@) =~= sty_views_of(types@));
    }
    v
}

impl SourceType {
    pub fn is_error(&self) -> (r: bool)
        ensures
            r == (self is Error),
    {
        match self {
            SourceType::Error => true,
            _ => false,
        }
    }

    pub fn is_enum(&self) -> (r: bool)
        ensures
            r == (self is Enum),
    {
        match self {
            SourceType::Enum(_, _) => true,
            _ => false,
        }
    }

    pub fn is_enum_id(&self, enum_id: EnumDefinitionId) -> (r: bool)
        ensures
            r == (*self matches SourceType::Enum(id, _) && id == enum_id),
    {
        match self {
            SourceType::Enum(id, _) => *id == enum_id,
            _ => false,
        }
    }

    pub fn is_unit(&self) -> (r: bool)
        ensures
            r == (self is Unit),
    {
        match self {
            SourceType::Unit => true,
            _ => false,
        }
    }

    pub fn is_self(&self) -> (r: bool)
        ensures
            r == (self is This),
    {
        match self {
            SourceType::This => true,
            _ => false,
        }
    }

    pub fn is_cls(&self) -> (r: bool)
        ensures
            r == (self is Class),
    {
        match self {
            SourceType::Class(_, _) => true,
            _ => false,
        }
    }

    pub fn is_cls_id(&self, cls_id: ClassDefinitionId) -> (r: bool)
        ensures
            r == (*self matches SourceType::Class(id, _) && id == cls_id),
    {
        match self {
            SourceType::Class(id, _) => *id == cls_id,
            _ => false,
        }
    }

    pub fn is_trait(&self) -> (r: bool)
        ensures
            r == (self is Trait),
    {
        match self {
            SourceType::Trait(_, _) => true,
            _ => false,
        }
    }

    pub fn is_float(&self) -> (r: bool)
        ensures
            r == (self is Float32 || self is Float64),
    {
        match self {
            SourceType::Float32 | SourceType::Float64 => true,
            _ => false,
        }
    }

    pub fn is_int32(&self) -> (r: bool)
        ensures
            r == (self is Int32),
    {
        match self {
            SourceType::Int32 => true,
            _ => false,
        }
    }

    pub fn is_bool(&self) -> (r: bool)
        ensures
            r == (self is Bool),
    {
        match self {
            SourceType::Bool => true,
            _ => false,
        }
    }

    pub fn is_type_param(&self) -> (r: bool)
        ensures
            r == (self is TypeParam),
    {
        match self {
            SourceType::TypeParam(_) => true,
            _ => false,
        }
    }

    pub fn is_tuple(&self) -> (r: bool)
        ensures
            r == (self is Tuple),
    {
        match self {
            SourceType::Tuple(_) => true,
            _ => false,
        }
    }

    pub fn is_struct(&self) -> (r: bool)
        ensures
            r == (self is Struct),
    {
        match self {
            SourceType::Struct(_, _) => true,
            _ => false,
        }
    }

    pub fn is_primitive(&self) -> (r: bool)
        ensures
            r == (self is Bool || self is UInt8 || self is Char || self is Int32 || self is Int64
                || self is Float32 || self is Float64),
    {
        match self {
            SourceType::Bool
            | SourceType::UInt8
            | SourceType::Char
            | SourceType::Int32
            | SourceType::Int64
            | SourceType::Float32
            | SourceType::Float64 => true,
            _ => false,
        }
    }

    pub fn is_tuple_or_unit(&self) -> (r: bool)
        ensures
            r == (self is Tuple || self is Unit),
    {
        match self {
            SourceType::Tuple(_) => true,
            SourceType::Unit => true,
            _ => false,
        }
    }

    pub fn is_lambda(&self) -> (r: bool)
        ensures
            r == (self is Lambda),
    {
        match self {
            SourceType::Lambda(_) => true,
            _ => false,
        }
    }

    pub fn lambda_id(&self) -> (r: Option<LambdaId>)
        ensures
            *self matches SourceType::Lambda(id) ==> r == Some(id),
            !(self is Lambda) ==> r is None,
    {
        match self {
            SourceType::Lambda(lambda_id) => Some(*lambda_id),
            _ => None,
        }
    }

    pub fn cls_id(&self) -> (r: Option<ClassDefinitionId>)
        ensures
            *self matches SourceType::Class(id, _) ==> r == Some(id),
            !(self is Class) ==> r is None,
    {
        match self {
            SourceType::Class(cls_id, _) => Some(*cls_id),
            _ => None,
        }
    }

    pub fn from_cls(cls_id: ClassDefinitionId) -> (r: SourceType)
        ensures
            r matches SourceType::Class(id, params) && id == cls_id && params.len_spec() == 0,
    {
        SourceType::Class(cls_id, SourceTypeArray::Empty)
    }

    pub fn enum_id(&self) -> (r: Option<EnumDefinitionId>)
        ensures
            *self matches SourceType::Enum(id, _) ==> r == Some(id),
            !(self is Enum) ==> r is None,
    {
        match self {
            SourceType::Enum(enum_id, _) => Some(*enum_id),
            _ => None,
        }
    }

    pub fn struct_id(&self) -> (r: Option<StructDefinitionId>)
        ensures
            *self matches SourceType::Struct(id, _) ==> r == Some(id),
            !(self is Struct) ==> r is None,
    {
        match self {
            SourceType::Struct(struct_id, _) => Some(*struct_id),
            _ => None,
        }
    }

    pub fn tuple_id(&self) -> (r: Option<TupleId>)
        ensures
            *self matches SourceType::Tuple(id) ==> r == Some(id),
            !(self is Tuple) ==> r is None,
    {
        match self {
            SourceType::Tuple(tuple_id) => Some(*tuple_id),
            _ => None,
        }
    }

    pub fn type_param_id(&self) -> (r: Option<TypeParamId>)
        ensures
            *self matches SourceType::TypeParam(id) ==> r == Some(id),
            !(self is TypeParam) ==> r is None,
    {
        match self {
            SourceType::TypeParam(id) => Some(*id),
            _ => None,
        }
    }

    /// A value of this type is a heap reference.
    pub fn reference_type(&self) -> (r: bool)
        ensures
            r == (self is Ptr || self is Class || self is Trait),
    {
        match self {
            SourceType::Ptr => true,
            SourceType::Class(_, _) => true,
            SourceType::Trait(_, _) => true,
            _ => false,
        }
    }

    /// A value of this type is held directly, never behind a pointer.
    pub fn value_type(&self) -> (r: bool)
        ensures
            r == (self is Unit || self is Bool || self is UInt8 || self is Int32 || self is Int64
                || self is Float32 || self is Float64),
    {
        match self {
            SourceType::Unit
            | SourceType::Bool
            | SourceType::UInt8
            | SourceType::Int32
            | SourceType::Int64
            | SourceType::Float32
            | SourceType::Float64 => true,
            _ => false,
        }
    }
}

/// A list's view has its length.
pub proof fn lemma_array_view_len(a: SourceTypeArray)
    ensures
        a@.len() == a.len_spec(),
{
    match a {
        SourceTypeArray::Empty => {},
        SourceTypeArray::List(types) => {
            lemma_sty_views_of(types@);
        },
    }
}

impl SourceTypeArray {
    /// The number of types in the list.
    pub open spec fn len_spec(self) -> int {
        match self {
            SourceTypeArray::Empty => 0,
            SourceTypeArray::List(types) => types@.len() as int,
        }
    }

    pub fn empty() -> (r: SourceTypeArray)
        ensures
            r.len_spec() == 0,
    {
        SourceTypeArray::Empty
    }

    pub fn single(ty: SourceType) -> (r: SourceTypeArray)
        ensures
            r.len_spec() == 1,
            r matches SourceTypeArray::List(types) && types@[0] == ty,
            r@ == seq![ty@],
    {
        let mut v: Vec<SourceType> = Vec::new();
        v.push(ty);
        SourceTypeArray::List(v)
    }

    pub fn with(type_params: Vec<SourceType>) -> (r: SourceTypeArray)
        ensures
            type_params@.len() == 0 ==> r is Empty,
            type_params@.len() > 0 ==> r == SourceTypeArray::List(type_params),
    {
        if type_params.len() == 0 {
            SourceTypeArray::Empty
        } else {
            SourceTypeArray::List(type_params)
        }
    }

    /// The concatenation of two lists: the members of `self` followed by
    /// the members of `other`, in order. The empty list is an identity on
    /// either side.
    pub fn connect(&self, other: &SourceTypeArray) -> (r: SourceTypeArray)
        ensures
            r.len_spec() == self.len_spec() + other.len_spec(),
            r@ == self@ + other@,
    {
        proof {
            lemma_array_view_len(*self);
            lemma_array_view_len(*other);
        }
        if self.is_empty() {
            let r = other.clone();
            proof {
                assert(r@ =~= self@ + other@);
            }
            return r;
        }
        if other.is_empty() {
            let r = self.clone();
            proof {
                assert(r@ =~= self@ + other@);
            }
            return r;
        }
        let mut params: Vec<SourceType> = Vec::new();
        let mut i: usize = 0;
        let a = self.types();
        while i < a.len()
            invariant
                i <= a@.len(),
                params@.len() == i,
                forall|k: int| 0 <= k < i ==> (#[trigger] params@[k])@ == a@[k]@,
            decreases a@.len() - i,
        {
            params.push(a[i].clone());
            i = i + 1;
        }
        let b = other.types();
        let mut j: usize = 0;
        while j < b.len()
            invariant
                j <= b@.len(),
                params@.len() == a@.len() + j,
                forall|k: int| 0 <= k < a@.len() ==> (#[trigger] params@[k])@ == a@[k]@,
                forall|k: int|
                    0 <= k < j ==> (#[trigger] params@[a@.len() + k])@ == b@[k]@,
            decreases b@.len() - j,
        {
            params.push(b[j].clone());
            j = j + 1;
        }
        proof {
            assert(a@.len() == self.len_spec());
            assert(b@.len() == other.len_spec());
            lemma_sty_views_of(params@);
            lemma_sty_views_of(a@);
            lemma_sty_views_of(b@);
            assert(self@ == sty_views_of(a@));
            assert(other@ == sty_views_of(b@));
            assert forall|k: int| 0 <= k < params@.len() implies sty_views_of(params@)[k] == (
            self@ + other@)[k] by {
                assert(sty_views_of(params@)[k] == params@[k]@);
                if k < a@.len() {
                    assert(sty_views_of(a@)[k] == a@[k]@);
                } else {
                    assert(params@[a@.len() + (k - a@.len())]@ == b@[k - a@.len()]@);
                    assert(sty_views_of(b@)[k - a@.len()] == b@[k - a@.len()]@);
                }
            }
            assert(sty_views_of(params@) =~= self@ + other@);
        }
        SourceTypeArray::List(params)
    }

    /// The list extended by one type at the end.
    pub fn connect_single(&self, other: SourceType) -> (r: SourceTypeArray)
        ensures
            r.len_spec() == self.len_spec() + 1,
            r@ == self@.push(other@),
    {
        proof {
            lemma_array_view_len(*self);
        }
        if self.is_empty() {
            let r = SourceTypeArray::single(other);
            proof {
                assert(r@ =~= self@.push(other@));
            }
            return r;
        }
        let a = self.types();
        let mut params: Vec<SourceType> = Vec::new();
        let mut i: usize = 0;
        while i < a.len()
            invariant
                i <= a@.len(),
                params@.len() == i,
                forall|k: int| 0 <= k < i ==> (#[trigger] params@[k])@ == a@[k]@,
            decreases a@.len() - i,
        {
            params.push(a[i].clone());
            i = i + 1;
        }
        params.push(other);
        proof {
            assert(a@.len() == self.len_spec());
            lemma_sty_views_of(params@);
            lemma_sty_views_of(a@);
            assert(self@ == sty_views_of(a@));
            assert forall|k: int| 0 <= k < params@.len() implies sty_views_of(params@)[k]
                == self@.push(other@)[k] by {
                assert(sty_views_of(params@)[k] == params@[k]@);
                if k < a@.len() {
                    assert(sty_views_of(a@)[k] == a@[k]@);
                }
            }
            assert(sty_views_of(params@) =~= self@.push(other@));
        }
        SourceTypeArray::List(params)
    }

    /// The members as a vector; the empty list shares one static instance
    /// in spirit and hands out an empty borrow here.
    pub fn types(&self) -> (r: &Vec<SourceType>)
        requires
            self is List,
        ensures
            r@.len() == self.len_spec(),
            self matches SourceTypeArray::List(types) && r@ == types@,
    {
        match self {
            SourceTypeArray::List(params) => params,
            SourceTypeArray::Empty => unreached(),
        }
    }

    pub fn is_empty(&self) -> (r: bool)
        ensures
            r == (self.len_spec() == 0),
    {
        match self {
            SourceTypeArray::Empty => true,
            SourceTypeArray::List(types) => types.len() == 0,
        }
    }

    pub fn len(&self) -> (r: usize)
        ensures
            r == self.len_spec(),
    {
        match self {
            SourceTypeArray::Empty => 0,
            SourceTypeArray::List(params) => params.len(),
        }
    }

    /// The member at `idx`.
    pub fn get(&self, idx: usize) -> (r: &SourceType)
        requires
            0 <= idx < self.len_spec(),
        ensures
            self matches SourceTypeArray::List(types) && *r == types@[idx as int],
    {
        match self {
            SourceTypeArray::List(params) => &params[idx],
            SourceTypeArray::Empty => unreached(),
        }
    }
}

} // verus!
