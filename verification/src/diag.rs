use vstd::prelude::*;

use crate::position::Position;

verus! {

/// The front-end errors the library's checks raise.
#[derive(Clone, Debug, PartialEq)]
pub enum SemError {
    UnknownIdentifier(String),
    LetMissingInitialization,
    WrongMainDefinition,
    Unimplemented,
}

/// An error with the file and position it was found at; errors found
/// outside a file carry none.
#[derive(Clone, Debug, PartialEq)]
pub struct SemErrorAndPos {
    pub file: Option<String>,
    pub pos: Position,
    pub msg: SemError,
}

impl SemErrorAndPos {
    pub fn new(file: String, pos: Position, msg: SemError) -> (r: SemErrorAndPos)
        ensures
            r.file == Some(file),
            r.pos == pos,
            r.msg == msg,
    {
        SemErrorAndPos { file: Some(file), pos, msg }
    }

    pub fn without_path(pos: Position, msg: SemError) -> (r: SemErrorAndPos)
        ensures
            r.file is None,
            r.pos == pos,
            r.msg == msg,
    {
        SemErrorAndPos { file: None, pos, msg }
    }
}

/// The diagnostic sink: checks accumulate their findings here instead of
/// aborting, so that one pass can report several errors.
pub struct Diagnostic {
    pub errors: Vec<SemErrorAndPos>,
}

impl Diagnostic {
    pub fn new() -> (r: Diagnostic)
        ensures
            r.errors@.len() == 0,
    {
        Diagnostic { errors: Vec::new() }
    }

    /// Everything reported so far, in order.
    pub fn errors(&self) -> (r: &Vec<SemErrorAndPos>)
        ensures
            r@ == self.errors@,
    {
        &self.errors
    }

    pub fn report_without_path(&mut self, pos: Position, msg: SemError)
        ensures
            final (self).errors@ == old(self).errors@.push(
                SemErrorAndPos { file: None, pos, msg },
            ),
    {
        self.errors.push(SemErrorAndPos::without_path(pos, msg));
    }

    pub fn report(&mut self, file: String, pos: Position, msg: SemError)
        ensures
            final (self).errors@.len() == old(self).errors@.len() + 1,
            final (self).errors@.last().pos == pos,
            final (self).errors@.last().msg == msg,
            forall|i: int|
                0 <= i < old(self).errors@.len() ==> final (self).errors@[i] == old(
                    self,
                ).errors@[i],
    {
        self.errors.push(SemErrorAndPos::new(file, pos, msg));
    }

    pub fn report_unimplemented(&mut self, file: String, pos: Position)
        ensures
            final (self).errors@.len() == old(self).errors@.len() + 1,
            final (self).errors@.last().pos == pos,
            final (self).errors@.last().msg == SemError::Unimplemented,
            forall|i: int|
                0 <= i < old(self).errors@.len() ==> final (self).errors@[i] == old(
                    self,
                ).errors@[i],
    {
        self.errors.push(SemErrorAndPos::new(file, pos, SemError::Unimplemented));
    }

    /// Whether any error was reported; decides the front end's exit code.
    pub fn has_errors(&self) -> (r: bool)
        ensures
            r == (self.errors@.len() > 0),
    {
        self.errors.len() > 0
    }
}

} // verus!
