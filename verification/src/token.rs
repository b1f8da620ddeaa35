use vstd::prelude::*;

use crate::position::{Position, Span};

verus! {

/// Numeric base of an integer literal.
#[derive(Clone, Copy, Debug, PartialEq, Eq, Structural)]
pub enum IntBase {
    Bin,
    Dec,
    Hex,
}

impl IntBase {
    /// The radix digits of the literal are read in.
    pub fn num(self) -> (r: u32)
        ensures
            r == self.num_spec(),
    {
        match self {
            IntBase::Bin => 2,
            IntBase::Dec => 10,
            IntBase::Hex => 16,
        }
    }

    pub open spec fn num_spec(self) -> u32 {
        match self {
            IntBase::Bin => 2,
            IntBase::Dec => 10,
            IntBase::Hex => 16,
        }
    }
}

/// Width suffix of an integer literal.
#[derive(Clone, Copy, Debug, PartialEq, Eq, Structural)]
pub enum IntSuffix {
    NoSuffix,
    UInt8,
    Int32,
    Int64,
}

/// Width suffix of a float literal.
#[derive(Clone, Copy, Debug, PartialEq, Eq, Structural)]
pub enum FloatSuffix {
    Float32,
    Float64,
}

/// One lexical token. Literal values stay textual: the lexer does not
/// convert numbers.
#[derive(Clone, Debug, PartialEq)]
pub enum TokenKind {
    // literals
    StringTail(String),
    StringExpr(String),
    LitChar(char),
    LitInt(String, IntBase, IntSuffix, Option<String>),
    LitFloat(String, FloatSuffix, Option<String>),
    Identifier(String),
    True,
    False,
    End,
    // keywords
    Class,
    Enum,
    Struct,
    Trait,
    Impl,
    Annotation,
    Mod,
    Use,
    Package,
    Fn,
    Let,
    Mut,
    Var,
    Const,
    Return,
    If,
    Else,
    While,
    For,
    In,
    Break,
    Continue,
    Match,
    This,
    Super,
    Is,
    As,
    Type,
    Alias,
    CapitalThis,
    Underscore,
    // operators
    Add,
    Sub,
    Mul,
    Div,
    Modulo,
    Not,
    LParen,
    RParen,
    LBracket,
    RBracket,
    LBrace,
    RBrace,
    Comma,
    Semicolon,
    Dot,
    DotDotDot,
    Colon,
    ColonColon,
    Arrow,
    DoubleArrow,
    Or,
    OrOr,
    And,
    AndAnd,
    Caret,
    At,
    Eq,
    EqEq,
    EqEqEq,
    NotEq,
    NeEqEq,
    Lt,
    Le,
    Gt,
    Ge,
    LtLt,
    GtGt,
    GtGtGt,
}

/// A token together with the position and span it was read at.
#[derive(Clone, Debug)]
pub struct Token {
    pub kind: TokenKind,
    pub position: Position,
    pub span: Span,
}

impl Token {
    pub fn new(kind: TokenKind, position: Position, span: Span) -> (r: Token)
        ensures
            r.kind == kind,
            r.position == position,
            r.span == span,
    {
        Token { kind, position, span }
    }

    pub fn is_eof(&self) -> (r: bool)
        ensures
            r == (self.kind is End),
    {
        match self.kind {
            TokenKind::End => true,
            _ => false,
        }
    }
}

} // verus!
