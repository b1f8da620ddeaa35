use vstd::prelude::*;

use crate::position::{Position, Span};
use crate::token::{IntBase, IntSuffix};

verus! {

/// Identifier of one node of the syntax tree.
#[derive(Clone, Copy, Debug, PartialEq, Eq, Structural, Hash)]
pub struct NodeId(pub usize);

/// An interned identifier.
#[derive(Clone, Copy, Debug, PartialEq, Eq, Structural, Hash)]
pub struct Name(pub usize);

/// A type as written in source: the self type, a named type with optional
/// arguments, a tuple, or a function type.
#[derive(Debug)]
pub enum Type {
    TypeSelf(TypeSelfType),
    TypeBasic(TypeBasicType),
    TypeTuple(TypeTupleType),
    TypeLambda(TypeLambdaType),
}

#[derive(Debug, Clone, Copy, PartialEq, Eq, Structural)]
pub struct TypeSelfType {
    pub id: NodeId,
    pub pos: Position,
    pub span: Span,
}

#[derive(Clone, Debug)]
pub struct TypeTupleType {
    pub id: NodeId,
    pub pos: Position,
    pub span: Span,
    pub subtypes: Vec<Box<Type>>,
}

#[derive(Clone, Debug)]
pub struct TypeLambdaType {
    pub id: NodeId,
    pub pos: Position,
    pub span: Span,
    pub params: Vec<Box<Type>>,
    pub ret: Box<Type>,
}

#[derive(Clone, Debug)]
pub struct TypeBasicType {
    pub id: NodeId,
    pub pos: Position,
    pub span: Span,
    pub name: Name,
    pub params: Vec<Box<Type>>,
}

impl Clone for Type {
    fn clone(&self) -> (r: Type)
        decreases self,
    {
        match self {
            Type::TypeSelf(val) => Type::TypeSelf(TypeSelfType { id: val.id, pos: val.pos, span: val.span }),
            Type::TypeBasic(val) => Type::TypeBasic(
                TypeBasicType {
                    id: val.id,
                    pos: val.pos,
                    span: val.span,
                    name: val.name,
                    params: clone_boxed_types(&val.params),
                },
            ),
            Type::TypeTuple(val) => Type::TypeTuple(
                TypeTupleType {
                    id: val.id,
                    pos: val.pos,
                    span: val.span,
                    subtypes: clone_boxed_types(&val.subtypes),
                },
            ),
            Type::TypeLambda(val) => Type::TypeLambda(
                TypeLambdaType {
                    id: val.id,
                    pos: val.pos,
                    span: val.span,
                    params: clone_boxed_types(&val.params),
                    ret: Box::new((*val.ret).clone()),
                },
            ),
        }
    }
}

fn clone_boxed_types(types: &Vec<Box<Type>>) -> (r: Vec<Box<Type>>)
    ensures
        r@.len() == types@.len(),
    decreases types@,
{
    let mut v: Vec<Box<Type>> = Vec::new();
    let mut i: usize = 0;
    while i < types.len()
        invariant
            i <= types@.len(),
            v@.len() == i,
        decreases types@.len() - i,
    {
        v.push(Box::new((*types[i]).clone()));
        i = i + 1;
    }
    v
}

impl Type {
    pub fn create_self(id: NodeId, pos: Position, span: Span) -> (r: Type)
        ensures
            r == Type::TypeSelf(TypeSelfType { id, pos, span }),
    {
        Type::TypeSelf(TypeSelfType { id, pos, span })
    }

    pub fn create_basic(
        id: NodeId,
        pos: Position,
        span: Span,
        name: Name,
        params: Vec<Box<Type>>,
    ) -> (r: Type)
        ensures
            r == Type::TypeBasic(TypeBasicType { id, pos, span, name, params }),
    {
        Type::TypeBasic(TypeBasicType { id, pos, span, name, params })
    }

    pub fn create_fct(
        id: NodeId,
        pos: Position,
        span: Span,
        params: Vec<Box<Type>>,
        ret: Box<Type>,
    ) -> (r: Type)
        ensures
            r == Type::TypeLambda(TypeLambdaType { id, pos, span, params, ret }),
    {
        Type::TypeLambda(TypeLambdaType { id, pos, span, params, ret })
    }

    pub fn create_tuple(id: NodeId, pos: Position, span: Span, subtypes: Vec<Box<Type>>) -> (r:
        Type)
        ensures
            r == Type::TypeTuple(TypeTupleType { id, pos, span, subtypes }),
    {
        Type::TypeTuple(TypeTupleType { id, pos, span, subtypes })
    }

    pub fn to_basic(&self) -> (r: Option<&TypeBasicType>)
        ensures
            self matches Type::TypeBasic(val) ==> (r matches Some(v) && *v == val),
            !(self is TypeBasic) ==> r is None,
    {
        match self {
            Type::TypeBasic(val) => Some(val),
            _ => None,
        }
    }

    /// The name of a basic type written without type arguments.
    pub fn to_basic_without_type_params(&self) -> (r: Option<Name>)
        ensures
            r matches Some(name) ==> (self matches Type::TypeBasic(basic) && basic.params@.len()
                == 0 && name == basic.name),
            r is None ==> !(self matches Type::TypeBasic(basic) && basic.params@.len() == 0),
    {
        match self {
            Type::TypeBasic(basic) => {
                if basic.params.len() == 0 {
                    Some(basic.name)
                } else {
                    None
                }
            },
            _ => None,
        }
    }

    pub fn to_tuple(&self) -> (r: Option<&TypeTupleType>)
        ensures
            self matches Type::TypeTuple(val) ==> (r matches Some(v) && *v == val),
            !(self is TypeTuple) ==> r is None,
    {
        match self {
            Type::TypeTuple(val) => Some(val),
            _ => None,
        }
    }

    pub fn to_fct(&self) -> (r: Option<&TypeLambdaType>)
        ensures
            self matches Type::TypeLambda(val) ==> (r matches Some(v) && *v == val),
            !(self is TypeLambda) ==> r is None,
    {
        match self {
            Type::TypeLambda(val) => Some(val),
            _ => None,
        }
    }

    /// The empty tuple, as source syntax.
    pub fn is_unit(&self) -> (r: bool)
        ensures
            r == (self matches Type::TypeTuple(val) && val.subtypes@.len() == 0),
    {
        match self {
            Type::TypeTuple(val) => val.subtypes.len() == 0,
            _ => false,
        }
    }

    pub fn pos(&self) -> (r: Position)
        ensures
            r == self.pos_spec(),
    {
        match self {
            Type::TypeSelf(val) => val.pos,
            Type::TypeBasic(val) => val.pos,
            Type::TypeTuple(val) => val.pos,
            Type::TypeLambda(val) => val.pos,
        }
    }

    pub open spec fn pos_spec(self) -> Position {
        match self {
            Type::TypeSelf(val) => val.pos,
            Type::TypeBasic(val) => val.pos,
            Type::TypeTuple(val) => val.pos,
            Type::TypeLambda(val) => val.pos,
        }
    }

    pub fn id(&self) -> (r: NodeId)
        ensures
            r == self.id_spec(),
    {
        match self {
            Type::TypeSelf(val) => val.id,
            Type::TypeBasic(val) => val.id,
            Type::TypeTuple(val) => val.id,
            Type::TypeLambda(val) => val.id,
        }
    }

    pub open spec fn id_spec(self) -> NodeId {
        match self {
            Type::TypeSelf(val) => val.id,
            Type::TypeBasic(val) => val.id,
            Type::TypeTuple(val) => val.id,
            Type::TypeLambda(val) => val.id,
        }
    }
}

/// An enum declaration.
#[derive(Clone, Debug)]
pub struct Enum {
    pub id: NodeId,
    pub pos: Position,
    pub span: Span,
    pub name: Name,
    pub type_params: Option<Vec<TypeParam>>,
    pub variants: Vec<EnumVariant>,
}

/// One variant of an enum declaration.
#[derive(Clone, Debug)]
pub struct EnumVariant {
    pub id: NodeId,
    pub pos: Position,
    pub span: Span,
    pub name: Name,
    pub types: Option<Vec<Type>>,
}

/// A type alias declaration.
#[derive(Clone, Debug)]
pub struct Alias {
    pub id: NodeId,
    pub pos: Position,
    pub span: Span,
    pub name: Name,
    pub ty: Type,
}

/// A struct declaration.
#[derive(Clone, Debug)]
pub struct Struct {
    pub id: NodeId,
    pub pos: Position,
    pub span: Span,
    pub name: Name,
    pub fields: Vec<StructField>,
}

/// One field of a struct declaration.
#[derive(Clone, Debug)]
pub struct StructField {
    pub id: NodeId,
    pub name: Name,
    pub pos: Position,
    pub span: Span,
    pub data_type: Type,
}

/// A declared type parameter with its bounds.
#[derive(Clone, Debug)]
pub struct TypeParam {
    pub name: Name,
    pub pos: Position,
    pub span: Span,
    pub bounds: Vec<Type>,
}

/// One parameter of a constructor declaration.
#[derive(Clone, Debug)]
pub struct ConstructorParam {
    pub name: Name,
    pub pos: Position,
    pub span: Span,
    pub data_type: Type,
    pub field: bool,
    pub reassignable: bool,
    pub variadic: bool,
}

/// One parameter of an annotation declaration.
#[derive(Clone, Debug)]
pub struct AnnotationParam {
    pub name: Name,
    pub pos: Position,
    pub span: Span,
    pub data_type: Type,
}

/// One parameter of a function declaration.
#[derive(Clone, Debug)]
pub struct Param {
    pub id: NodeId,
    pub idx: u32,
    pub name: Name,
    pub pos: Position,
    pub span: Span,
    pub data_type: Type,
    pub variadic: bool,
}

/// The modifiers written in front of a declaration.
#[derive(Clone, Debug)]
pub struct Modifiers(pub Vec<ModifierElement>);

impl Modifiers {
    pub fn new() -> (r: Modifiers)
        ensures
            r.0@.len() == 0,
    {
        Modifiers(Vec::new())
    }

    pub fn contains(&self, modifier: Modifier) -> (r: bool)
        ensures
            r == exists|i: int|
                0 <= i < self.0@.len() && (#[trigger] self.0@[i]).value == modifier,
    {
        let mut i: usize = 0;
        while i < self.0.len()
            invariant
                i <= self.0@.len(),
                forall|k: int| 0 <= k < i ==> (#[trigger] self.0@[k]).value != modifier,
            decreases self.0@.len() - i,
        {
            if self.0[i].value == modifier {
                return true;
            }
            i = i + 1;
        }
        false
    }

    pub fn add(&mut self, modifier: Modifier, pos: Position, span: Span)
        ensures
            final (self).0@ == old(self).0@.push(ModifierElement { value: modifier, pos, span }),
    {
        self.0.push(ModifierElement { value: modifier, pos, span });
    }

    /// All written modifiers, in order.
    pub fn iter(&self) -> (r: &Vec<ModifierElement>)
        ensures
            r@ == self.0@,
    {
        &self.0
    }
}

/// One written modifier with its position.
#[derive(Clone, Copy, Debug, PartialEq, Eq, Structural)]
pub struct ModifierElement {
    pub value: Modifier,
    pub pos: Position,
    pub span: Span,
}

/// The modifiers the language knows.
#[derive(Clone, Copy, Debug, PartialEq, Eq, Structural)]
pub enum Modifier {
    Abstract,
    Override,
    Open,
    Final,
    Internal,
    Pub,
    Static,
    Test,
    Cannon,
    OptimizeImmediately,
    NewCall,
}

/// The modifier an identifier spells, if any.
pub open spec fn modifier_spec(s: Seq<char>) -> Option<Modifier> {
    if s == "abstract"@ {
        Some(Modifier::Abstract)
    } else if s == "open"@ {
        Some(Modifier::Open)
    } else if s == "override"@ {
        Some(Modifier::Override)
    } else if s == "final"@ {
        Some(Modifier::Final)
    } else if s == "internal"@ {
        Some(Modifier::Internal)
    } else if s == "pub"@ {
        Some(Modifier::Pub)
    } else if s == "static"@ {
        Some(Modifier::Static)
    } else if s == "test"@ {
        Some(Modifier::Test)
    } else if s == "cannon"@ {
        Some(Modifier::Cannon)
    } else if s == "optimizeImmediately"@ {
        Some(Modifier::OptimizeImmediately)
    } else if s == "newcall"@ {
        Some(Modifier::NewCall)
    } else {
        None
    }
}

/// The canonical spelling of each modifier.
pub open spec fn modifier_name_spec(m: Modifier) -> Seq<char> {
    match m {
        Modifier::Abstract => "abstract"@,
        Modifier::Open => "open"@,
        Modifier::Override => "override"@,
        Modifier::Final => "final"@,
        Modifier::Internal => "internal"@,
        Modifier::Pub => "pub"@,
        Modifier::Static => "static"@,
        Modifier::Test => "test"@,
        Modifier::Cannon => "cannon"@,
        Modifier::OptimizeImmediately => "optimizeImmediately"@,
        Modifier::NewCall => "newcall"@,
    }
}

impl Modifier {
    /// Looks a written word up in the modifier table.
    pub fn find(name: &str) -> (r: Option<Modifier>)
        ensures
            r == modifier_spec(name@),
    {
        let name = String::from_str(name);
        if name == String::from_str("abstract") {
            Some(Modifier::Abstract)
        } else if name == String::from_str("open") {
            Some(Modifier::Open)
        } else if name == String::from_str("override") {
            Some(Modifier::Override)
        } else if name == String::from_str("final") {
            Some(Modifier::Final)
        } else if name == String::from_str("internal") {
            Some(Modifier::Internal)
        } else if name == String::from_str("pub") {
            Some(Modifier::Pub)
        } else if name == String::from_str("static") {
            Some(Modifier::Static)
        } else if name == String::from_str("test") {
            Some(Modifier::Test)
        } else if name == String::from_str("cannon") {
            Some(Modifier::Cannon)
        } else if name == String::from_str("optimizeImmediately") {
            Some(Modifier::OptimizeImmediately)
        } else if name == String::from_str("newcall") {
            Some(Modifier::NewCall)
        } else {
            None
        }
    }

    /// The canonical spelling.
    pub fn name(&self) -> (r: &'static str)
        ensures
            r@ == modifier_name_spec(*self),
    {
        match self {
            Modifier::Abstract => "abstract",
            Modifier::Open => "open",
            Modifier::Override => "override",
            Modifier::Final => "final",
            Modifier::Internal => "internal",
            Modifier::Pub => "pub",
            Modifier::Static => "static",
            Modifier::Test => "test",
            Modifier::Cannon => "cannon",
            Modifier::OptimizeImmediately => "optimizeImmediately",
            Modifier::NewCall => "newcall",
        }
    }
}

/// The binding side of a `let`: a name, a tuple of patterns, or the
/// discard.
#[derive(Debug)]
pub enum LetPattern {
    Ident(LetIdentType),
    Tuple(LetTupleType),
    Underscore(LetUnderscoreType),
}

impl Clone for LetPattern {
    fn clone(&self) -> (r: LetPattern)
        decreases self,
    {
        match self {
            LetPattern::Ident(val) => LetPattern::Ident(*val),
            LetPattern::Underscore(val) => LetPattern::Underscore(*val),
            LetPattern::Tuple(val) => LetPattern::Tuple(
                LetTupleType {
                    id: val.id,
                    pos: val.pos,
                    span: val.span,
                    parts: clone_patterns(&val.parts),
                },
            ),
        }
    }
}

fn clone_patterns(parts: &Vec<Box<LetPattern>>) -> (r: Vec<Box<LetPattern>>)
    ensures
        r@.len() == parts@.len(),
    decreases parts@,
{
    let mut v: Vec<Box<LetPattern>> = Vec::new();
    let mut i: usize = 0;
    while i < parts.len()
        invariant
            i <= parts@.len(),
            v@.len() == i,
        decreases parts@.len() - i,
    {
        v.push(Box::new((*parts[i]).clone()));
        i = i + 1;
    }
    v
}

impl LetPattern {
    pub fn is_ident(&self) -> (r: bool)
        ensures
            r == (self is Ident),
    {
        match self {
            LetPattern::Ident(_) => true,
            _ => false,
        }
    }

    pub fn is_tuple(&self) -> (r: bool)
        ensures
            r == (self is Tuple),
    {
        match self {
            LetPattern::Tuple(_) => true,
            _ => false,
        }
    }

    pub fn is_underscore(&self) -> (r: bool)
        ensures
            r == (self is Underscore),
    {
        match self {
            LetPattern::Underscore(_) => true,
            _ => false,
        }
    }

    pub fn to_name(&self) -> (r: Option<Name>)
        ensures
            self matches LetPattern::Ident(ident) ==> r == Some(ident.name),
            !(self is Ident) ==> r is None,
    {
        match self {
            LetPattern::Ident(ident) => Some(ident.name),
            _ => None,
        }
    }

    pub fn to_ident(&self) -> (r: Option<&LetIdentType>)
        ensures
            self matches LetPattern::Ident(ident) ==> (r matches Some(v) && *v == ident),
            !(self is Ident) ==> r is None,
    {
        match self {
            LetPattern::Ident(ident) => Some(ident),
            _ => None,
        }
    }

    pub fn to_tuple(&self) -> (r: Option<&LetTupleType>)
        ensures
            self matches LetPattern::Tuple(tuple) ==> (r matches Some(v) && *v == tuple),
            !(self is Tuple) ==> r is None,
    {
        match self {
            LetPattern::Tuple(tuple) => Some(tuple),
            _ => None,
        }
    }
}

#[derive(Clone, Copy, Debug, PartialEq, Eq, Structural)]
pub struct LetUnderscoreType {
    pub id: NodeId,
    pub pos: Position,
    pub span: Span,
}

#[derive(Clone, Copy, Debug, PartialEq, Eq, Structural)]
pub struct LetIdentType {
    pub id: NodeId,
    pub pos: Position,
    pub span: Span,
    pub mutable: bool,
    pub name: Name,
}

#[derive(Debug)]
pub struct LetTupleType {
    pub id: NodeId,
    pub pos: Position,
    pub span: Span,
    pub parts: Vec<Box<LetPattern>>,
}

#[derive(Clone, Copy, Debug, PartialEq, Eq, Structural)]
pub struct StmtBreakType {
    pub id: NodeId,
    pub pos: Position,
    pub span: Span,
}

#[derive(Clone, Copy, Debug, PartialEq, Eq, Structural)]
pub struct StmtContinueType {
    pub id: NodeId,
    pub pos: Position,
    pub span: Span,
}

/// The unary operators.
#[derive(Clone, Copy, Debug, PartialEq, Eq, Structural)]
pub enum UnOp {
    Plus,
    Neg,
    Not,
}

pub open spec fn un_op_str(op: UnOp) -> Seq<char> {
    match op {
        UnOp::Plus => "+"@,
        UnOp::Neg => "-"@,
        UnOp::Not => "!"@,
    }
}

impl UnOp {
    pub fn as_str(&self) -> (r: &'static str)
        ensures
            r@ == un_op_str(*self),
    {
        match self {
            UnOp::Plus => "+",
            UnOp::Neg => "-",
            UnOp::Not => "!",
        }
    }
}

/// The comparison operators.
#[derive(Clone, Copy, Debug, PartialEq, Eq, Structural)]
pub enum CmpOp {
    Eq,
    Ne,
    Lt,
    Le,
    Gt,
    Ge,
    Is,
    IsNot,
}

pub open spec fn cmp_op_str(op: CmpOp) -> Seq<char> {
    match op {
        CmpOp::Eq => "=="@,
        CmpOp::Ne => "!="@,
        CmpOp::Lt => "<"@,
        CmpOp::Le => "<="@,
        CmpOp::Gt => ">"@,
        CmpOp::Ge => ">="@,
        CmpOp::Is => "==="@,
        CmpOp::IsNot => "!=="@,
    }
}

impl CmpOp {
    pub fn as_str(&self) -> (r: &'static str)
        ensures
            r@ == cmp_op_str(*self),
    {
        match self {
            CmpOp::Eq => "==",
            CmpOp::Ne => "!=",
            CmpOp::Lt => "<",
            CmpOp::Le => "<=",
            CmpOp::Gt => ">",
            CmpOp::Ge => ">=",
            CmpOp::Is => "===",
            CmpOp::IsNot => "!==",
        }
    }
}

/// The binary operators.
#[derive(Clone, Copy, Debug, PartialEq, Eq, Structural)]
pub enum BinOp {
    Assign,
    Add,
    Sub,
    Mul,
    Div,
    Mod,
    Cmp(CmpOp),
    Or,
    And,
    BitOr,
    BitAnd,
    BitXor,
    ShiftL,
    ArithShiftR,
    LogicalShiftR,
}

pub open spec fn bin_op_str(op: BinOp) -> Seq<char> {
    match op {
        BinOp::Assign => "="@,
        BinOp::Add => "+"@,
        BinOp::Sub => "-"@,
        BinOp::Mul => "*"@,
        BinOp::Div => "/"@,
        BinOp::Mod => "%"@,
        BinOp::Cmp(cmp) => cmp_op_str(cmp),
        BinOp::Or => "||"@,
        BinOp::And => "&&"@,
        BinOp::BitOr => "|"@,
        BinOp::BitAnd => "&"@,
        BinOp::BitXor => "^"@,
        BinOp::ShiftL => "<<"@,
        BinOp::ArithShiftR => ">>"@,
        BinOp::LogicalShiftR => ">>>"@,
    }
}

impl BinOp {
    pub fn as_str(&self) -> (r: &'static str)
        ensures
            r@ == bin_op_str(*self),
    {
        match self {
            BinOp::Assign => "=",
            BinOp::Add => "+",
            BinOp::Sub => "-",
            BinOp::Mul => "*",
            BinOp::Div => "/",
            BinOp::Mod => "%",
            BinOp::Cmp(cmp) => cmp.as_str(),
            BinOp::Or => "||",
            BinOp::And => "&&",
            BinOp::BitOr => "|",
            BinOp::BitAnd => "&",
            BinOp::BitXor => "^",
            BinOp::ShiftL => "<<",
            BinOp::ArithShiftR => ">>",
            BinOp::LogicalShiftR => ">>>",
        }
    }

    pub fn is_any_assign(&self) -> (r: bool)
        ensures
            r == (self is Assign),
    {
        match self {
            BinOp::Assign => true,
            _ => false,
        }
    }

    /// A comparison on values; pointer identity tests do not count.
    pub fn is_compare(&self) -> (r: bool)
        ensures
            r == (self matches BinOp::Cmp(cmp) && cmp != CmpOp::Is && cmp != CmpOp::IsNot),
    {
        match self {
            BinOp::Cmp(cmp) => *cmp != CmpOp::Is && *cmp != CmpOp::IsNot,
            _ => false,
        }
    }
}

/// A character literal in source.
#[derive(Clone, Copy, Debug, PartialEq, Eq, Structural)]
pub struct ExprLitCharType {
    pub id: NodeId,
    pub pos: Position,
    pub span: Span,
    pub value: char,
}

/// An integer literal in source, already parsed to its value.
#[derive(Clone, Copy, Debug, PartialEq, Eq, Structural)]
pub struct ExprLitIntType {
    pub id: NodeId,
    pub pos: Position,
    pub span: Span,
    pub value: u64,
    pub base: IntBase,
    pub suffix: IntSuffix,
}

/// A string literal in source.
#[derive(Clone, Debug)]
pub struct ExprLitStrType {
    pub id: NodeId,
    pub pos: Position,
    pub span: Span,
    pub value: String,
}

/// A boolean literal in source.
#[derive(Clone, Copy, Debug, PartialEq, Eq, Structural)]
pub struct ExprLitBoolType {
    pub id: NodeId,
    pub pos: Position,
    pub span: Span,
    pub value: bool,
}

/// The `super` expression.
#[derive(Clone, Copy, Debug, PartialEq, Eq, Structural)]
pub struct ExprSuperType {
    pub id: NodeId,
    pub pos: Position,
    pub span: Span,
}

/// The `self` expression.
#[derive(Clone, Copy, Debug, PartialEq, Eq, Structural)]
pub struct ExprSelfType {
    pub id: NodeId,
    pub pos: Position,
    pub span: Span,
}

/// A name used as an expression, with optional type arguments.
#[derive(Clone, Debug)]
pub struct ExprIdentType {
    pub id: NodeId,
    pub pos: Position,
    pub span: Span,
    pub name: Name,
    pub type_params: Option<Vec<Type>>,
}

} // verus!
