use vstd::prelude::*;

use crate::utils::{dec_str, push_dec};
use crate::utils::push_char;

verus! {

/// A line/column pair inside a source file; both components start at 1.
#[derive(Clone, Copy, Debug, PartialEq, Eq, Structural)]
pub struct Position {
    pub line: u32,
    pub column: u32,
}

impl Position {
    pub fn new(l: u32, c: u32) -> (r: Position)
        requires
            l >= 1,
            c >= 1,
        ensures
            r.line == l,
            r.column == c,
    {
        Position { line: l, column: c }
    }

    /// The canonical rendering "line:column".
    pub fn display(&self) -> (r: String)
        ensures
            r@ == dec_str(self.line as nat) + seq![':'] + dec_str(self.column as nat),
    {
        let mut s = String::new();
        push_dec(&mut s, self.line);
        push_char(&mut s, ':');
        push_dec(&mut s, self.column);
        assert(s@ =~= dec_str(self.line as nat) + seq![':'] + dec_str(self.column as nat));
        s
    }
}

/// A half-open byte range inside a source file.
#[derive(Clone, Copy, Debug, PartialEq, Eq, Structural)]
pub struct Span {
    pub start: u32,
    pub len: u32,
}

impl Span {
    pub fn new(start: u32, len: u32) -> (r: Span)
        ensures
            r.start == start,
            r.len == len,
    {
        Span { start, len }
    }

    /// The empty span at `start`.
    pub fn at(start: u32) -> (r: Span)
        ensures
            r.start == start,
            r.len == 0,
    {
        Span { start, len: 0 }
    }

    pub fn start(&self) -> (r: u32)
        ensures
            r == self.start,
    {
        self.start
    }

    pub fn len(&self) -> (r: u32)
        ensures
            r == self.len,
    {
        self.len
    }

    pub fn end(&self) -> (r: u32)
        requires
            self.start + self.len <= u32::MAX,
        ensures
            r == self.start + self.len,
    {
        self.start + self.len
    }
}

} // verus!
