use vstd::prelude::*;

use crate::position::Position;

verus! {

/// The ways the lexer can reject its input.
#[derive(Clone, Debug, PartialEq, Eq, Structural)]
pub enum ParseError {
    UnknownChar(char),
    UnclosedComment,
    UnclosedString,
    UnclosedChar,
    InvalidEscapeSequence(char),
}

/// An error together with the position it was raised at.
#[derive(Clone, Debug, PartialEq, Eq, Structural)]
pub struct ParseErrorAndPos {
    pub pos: Position,
    pub error: ParseError,
}

impl ParseErrorAndPos {
    pub fn new(pos: Position, error: ParseError) -> (r: ParseErrorAndPos)
        ensures
            r.pos == pos,
            r.error == error,
    {
        ParseErrorAndPos { pos, error }
    }
}

} // verus!
