use vstd::prelude::*;

use crate::position::Position;

verus! {

/// Relies on `str::chars` (collected): the characters of the string, in
/// order.
#[verifier::external_body]
fn chars_of(s: &str) -> (r: Vec<char>)
    ensures
        r@ == s@,
{
    s.chars().collect()
}

/// Line/column step of reading one character: a newline starts the next
/// line, a tab advances the column to the next tab stop, anything else
/// moves one column right.
pub open spec fn advance_pos(line: int, col: int, ch: char, tabwidth: int) -> (int, int) {
    if ch == '\n' {
        (line + 1, 1)
    } else if ch == '\t' {
        (line, 1 + ((col - 1) / tabwidth + 1) * tabwidth)
    } else {
        (line, col + 1)
    }
}

/// The line/column reached after reading the first `n` characters,
/// starting from 1:1.
pub open spec fn pos_at(content: Seq<char>, n: int, tabwidth: int) -> (int, int)
    decreases n,
{
    if n <= 0 {
        (1, 1)
    } else {
        let p = pos_at(content, n - 1, tabwidth);
        advance_pos(p.0, p.1, content[n - 1], tabwidth)
    }
}

/// Character cursor over a source text, tracking the line/column position
/// of the read head.
pub struct Reader {
    pub content: Vec<char>,
    pub idx: usize,
    pub line: u32,
    pub column: u32,
    pub tabwidth: u32,
}

impl Reader {
    /// Cursor in range, tab width sane, position derived from the prefix
    /// already read, and the text small enough that no position overflows.
    pub open spec fn wf(self) -> bool {
        &&& self.idx <= self.content@.len()
        &&& 1 <= self.tabwidth <= 16
        &&& self.content@.len() <= 0xff_ffff
        &&& (self.line as int, self.column as int) == pos_at(
            self.content@,
            self.idx as int,
            self.tabwidth as int,
        )
    }

    /// Bounds of the tracked position: lines only grow with characters
    /// read, and a column is below `1 + idx * tabwidth`.
    proof fn lemma_pos_at_bounds(content: Seq<char>, n: int, tabwidth: int)
        requires
            0 <= n,
            1 <= tabwidth <= 16,
        ensures
            1 <= pos_at(content, n, tabwidth).0 <= n + 1,
            1 <= pos_at(content, n, tabwidth).1 <= 1 + n * tabwidth,
        decreases n,
    {
        if n > 0 {
            Reader::lemma_pos_at_bounds(content, n - 1, tabwidth);
            let p = pos_at(content, n - 1, tabwidth);
            assert((n - 1) * tabwidth + tabwidth == n * tabwidth && (n - 1) * tabwidth + 1 <= n
                * tabwidth) by (nonlinear_arith)
                requires
                    1 <= tabwidth,
                    1 <= n,
            ;
            if content[n - 1] == '\t' {
                assert(0 <= ((p.1 - 1) / tabwidth + 1) * tabwidth <= p.1 - 1 + tabwidth) by (
                nonlinear_arith)
                    requires
                        1 <= tabwidth,
                        0 <= p.1 - 1,
                ;
            }
        }
    }

    pub fn from_string(code: &str) -> (r: Reader)
        requires
            code@.len() <= 0xff_ffff,
        ensures
            r.wf(),
            r.content@ == code@,
            r.idx == 0,
            r.tabwidth == 4,
    {
        Reader { content: chars_of(code), idx: 0, line: 1, column: 1, tabwidth: 4 }
    }

    pub fn set_tabwidth(&mut self, tabwidth: u32)
        requires
            old(self).wf(),
            old(self).idx == 0,
            1 <= tabwidth <= 16,
        ensures
            final (self).wf(),
            final (self).content@ == old(self).content@,
            final (self).idx == 0,
            final (self).tabwidth == tabwidth,
    {
        self.tabwidth = tabwidth;
    }

    /// The character under the cursor, if any.
    pub fn curr(&self) -> (r: Option<char>)
        ensures
            self.idx < self.content@.len() ==> r == Some(self.content@[self.idx as int]),
            self.idx >= self.content@.len() ==> r is None,
    {
        if self.idx < self.content.len() {
            Some(self.content[self.idx])
        } else {
            None
        }
    }

    /// The character `offset` places past the cursor, if any.
    pub fn nth(&self, offset: usize) -> (r: Option<char>)
        requires
            self.idx + offset <= usize::MAX,
        ensures
            self.idx + offset < self.content@.len() ==> r == Some(
                self.content@[self.idx + offset],
            ),
            self.idx + offset >= self.content@.len() ==> r is None,
    {
        if self.idx + offset < self.content.len() {
            Some(self.content[self.idx + offset])
        } else {
            None
        }
    }

    /// Moves the cursor one character forward, updating line and column.
    pub fn advance(&mut self)
        requires
            old(self).wf(),
            old(self).idx < old(self).content@.len(),
        ensures
            final (self).wf(),
            final (self).content@ == old(self).content@,
            final (self).tabwidth == old(self).tabwidth,
            final (self).idx == old(self).idx + 1,
    {
        proof {
            Reader::lemma_pos_at_bounds(self.content@, self.idx as int, self.tabwidth as int);
            Reader::lemma_pos_at_bounds(self.content@, self.idx as int + 1, self.tabwidth as int);
            assert(self.idx as int * self.tabwidth as int <= 0xff_ffff * 16 && (self.idx as int
                + 1) * self.tabwidth as int <= (0xff_ffff + 1) * 16) by (nonlinear_arith)
                requires
                    self.idx <= 0xff_ffff,
                    self.tabwidth <= 16,
            ;
        }
        let ch = self.content[self.idx];
        if ch == '\n' {
            self.line = self.line + 1;
            self.column = 1;
        } else if ch == '\t' {
            let col = self.column;
            proof {
                assert(((col - 1) / self.tabwidth as int + 1) * self.tabwidth as int <= col - 1
                    + self.tabwidth as int && 0 <= ((col - 1) / self.tabwidth as int + 1)
                    * self.tabwidth as int) by (nonlinear_arith)
                    requires
                        1 <= self.tabwidth <= 16,
                        1 <= col,
                ;
            }
            self.column = 1 + ((col - 1) / self.tabwidth + 1) * self.tabwidth;
        } else {
            self.column = self.column + 1;
        }
        self.idx = self.idx + 1;
    }

    /// The current position.
    pub fn pos(&self) -> (r: Position)
        ensures
            r.line == self.line,
            r.column == self.column,
    {
        Position { line: self.line, column: self.column }
    }

    /// The current offset into the text.
    pub fn idx(&self) -> (r: u32)
        requires
            self.wf(),
        ensures
            r == self.idx,
    {
        self.idx as u32
    }
}

} // verus!
