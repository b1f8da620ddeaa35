use vstd::prelude::*;

use crate::error::{ParseError, ParseErrorAndPos};
use crate::position::{Position, Span};
use crate::reader::Reader;
use crate::token::{FloatSuffix, IntBase, IntSuffix, Token, TokenKind};
use crate::utils::push_char;

verus! {

pub open spec fn is_digit_spec(ch: char) -> bool {
    '0' <= ch <= '9'
}

pub fn is_digit(ch: Option<char>) -> (r: bool)
    ensures
        r == (ch matches Some(c) && is_digit_spec(c)),
{
    match ch {
        Some(c) => '0' <= c && c <= '9',
        None => false,
    }
}

pub open spec fn digit_in_base_spec(ch: char, base: IntBase) -> bool {
    match base {
        IntBase::Bin => '0' <= ch <= '1',
        IntBase::Dec => '0' <= ch <= '9',
        IntBase::Hex => '0' <= ch <= '9' || 'a' <= ch <= 'f' || 'A' <= ch <= 'F',
    }
}

pub open spec fn is_digit_or_underscore_spec(ch: char, base: IntBase) -> bool {
    digit_in_base_spec(ch, base) || ch == '_'
}

pub fn is_digit_or_underscore(ch: Option<char>, base: IntBase) -> (r: bool)
    ensures
        r == (ch matches Some(c) && is_digit_or_underscore_spec(c, base)),
{
    match ch {
        Some(c) => match base {
            IntBase::Bin => ('0' <= c && c <= '1') || c == '_',
            IntBase::Dec => ('0' <= c && c <= '9') || c == '_',
            IntBase::Hex => ('0' <= c && c <= '9') || ('a' <= c && c <= 'f') || ('A' <= c && c
                <= 'F') || c == '_',
        },
        None => false,
    }
}

pub open spec fn is_whitespace_spec(ch: char) -> bool {
    ch == ' ' || ch == '\t' || ch == '\n' || ch == '\r' || ch == '\u{0b}' || ch == '\u{0c}'
}

pub fn is_whitespace(ch: Option<char>) -> (r: bool)
    ensures
        r == (ch matches Some(c) && is_whitespace_spec(c)),
{
    match ch {
        Some(c) => c == ' ' || c == '\t' || c == '\n' || c == '\r' || c == '\u{0b}' || c
            == '\u{0c}',
        None => false,
    }
}

pub fn is_newline(ch: Option<char>) -> (r: bool)
    ensures
        r == (ch == Some('\n')),
{
    ch == Some('\n')
}

pub fn is_quote(ch: Option<char>) -> (r: bool)
    ensures
        r == (ch == Some('\"')),
{
    ch == Some('\"')
}

pub fn is_char_quote(ch: Option<char>) -> (r: bool)
    ensures
        r == (ch == Some('\'')),
{
    ch == Some('\'')
}

pub open spec fn is_operator_spec(ch: char) -> bool {
    ch == '^' || ch == '+' || ch == '-' || ch == '*' || ch == '/' || ch == '%' || ch == '&' || ch
        == '|' || ch == ',' || ch == '=' || ch == '!' || ch == '~' || ch == ';' || ch == ':' || ch
        == '.' || ch == '(' || ch == ')' || ch == '[' || ch == ']' || ch == '{' || ch == '}' || ch
        == '<' || ch == '>' || ch == '@'
}

pub fn is_operator(ch: Option<char>) -> (r: bool)
    ensures
        r == (ch matches Some(c) && is_operator_spec(c)),
{
    match ch {
        Some(c) => c == '^' || c == '+' || c == '-' || c == '*' || c == '/' || c == '%' || c == '&'
            || c == '|' || c == ',' || c == '=' || c == '!' || c == '~' || c == ';' || c == ':'
            || c == '.' || c == '(' || c == ')' || c == '[' || c == ']' || c == '{' || c == '}'
            || c == '<' || c == '>' || c == '@',
        None => false,
    }
}

pub open spec fn is_identifier_start_spec(ch: char) -> bool {
    ('a' <= ch <= 'z') || ('A' <= ch <= 'Z') || ch == '_'
}

pub fn is_identifier_start(ch: Option<char>) -> (r: bool)
    ensures
        r == (ch matches Some(c) && is_identifier_start_spec(c)),
{
    match ch {
        Some(c) => ('a' <= c && c <= 'z') || ('A' <= c && c <= 'Z') || c == '_',
        None => false,
    }
}

pub open spec fn is_identifier_spec(ch: char) -> bool {
    is_identifier_start_spec(ch) || is_digit_spec(ch)
}

pub fn is_identifier(ch: Option<char>) -> (r: bool)
    ensures
        r == (ch matches Some(c) && is_identifier_spec(c)),
{
    is_identifier_start(ch) || is_digit(ch)
}

/// The character a backslash escape stands for, if it is one of the
/// recognized escapes.
pub open spec fn escape_char(c: char) -> Option<char> {
    if c == '\\' {
        Some('\\')
    } else if c == 'n' {
        Some('\n')
    } else if c == 't' {
        Some('\t')
    } else if c == 'r' {
        Some('\r')
    } else if c == '\"' {
        Some('\"')
    } else if c == '\'' {
        Some('\'')
    } else if c == '0' {
        Some('\0')
    } else if c == '$' {
        Some('$')
    } else {
        None
    }
}

/// The token a keyword spells, if the identifier is one.
pub open spec fn keyword_spec(s: Seq<char>) -> Option<TokenKind> {
    if s == "true"@ {
        Some(TokenKind::True)
    } else if s == "false"@ {
        Some(TokenKind::False)
    } else if s == "class"@ {
        Some(TokenKind::Class)
    } else if s == "enum"@ {
        Some(TokenKind::Enum)
    } else if s == "struct"@ {
        Some(TokenKind::Struct)
    } else if s == "trait"@ {
        Some(TokenKind::Trait)
    } else if s == "impl"@ {
        Some(TokenKind::Impl)
    } else if s == "annotation"@ {
        Some(TokenKind::Annotation)
    } else if s == "mod"@ {
        Some(TokenKind::Mod)
    } else if s == "use"@ {
        Some(TokenKind::Use)
    } else if s == "package"@ {
        Some(TokenKind::Package)
    } else if s == "fn"@ {
        Some(TokenKind::Fn)
    } else if s == "let"@ {
        Some(TokenKind::Let)
    } else if s == "mut"@ {
        Some(TokenKind::Mut)
    } else if s == "var"@ {
        Some(TokenKind::Var)
    } else if s == "const"@ {
        Some(TokenKind::Const)
    } else if s == "return"@ {
        Some(TokenKind::Return)
    } else if s == "if"@ {
        Some(TokenKind::If)
    } else if s == "else"@ {
        Some(TokenKind::Else)
    } else if s == "while"@ {
        Some(TokenKind::While)
    } else if s == "for"@ {
        Some(TokenKind::For)
    } else if s == "in"@ {
        Some(TokenKind::In)
    } else if s == "break"@ {
        Some(TokenKind::Break)
    } else if s == "continue"@ {
        Some(TokenKind::Continue)
    } else if s == "match"@ {
        Some(TokenKind::Match)
    } else if s == "self"@ {
        Some(TokenKind::This)
    } else if s == "super"@ {
        Some(TokenKind::Super)
    } else if s == "is"@ {
        Some(TokenKind::Is)
    } else if s == "as"@ {
        Some(TokenKind::As)
    } else if s == "type"@ {
        Some(TokenKind::Type)
    } else if s == "alias"@ {
        Some(TokenKind::Alias)
    } else if s == "Self"@ {
        Some(TokenKind::CapitalThis)
    } else {
        None
    }
}

/// Looks an identifier up in the keyword table.
pub fn keyword_lookup(value: &String) -> (r: Option<TokenKind>)
    ensures
        r == keyword_spec(value@),
{
    if *value == String::from_str("true") {
        Some(TokenKind::True)
    } else if *value == String::from_str("false") {
        Some(TokenKind::False)
    } else if *value == String::from_str("class") {
        Some(TokenKind::Class)
    } else if *value == String::from_str("enum") {
        Some(TokenKind::Enum)
    } else if *value == String::from_str("struct") {
        Some(TokenKind::Struct)
    } else if *value == String::from_str("trait") {
        Some(TokenKind::Trait)
    } else if *value == String::from_str("impl") {
        Some(TokenKind::Impl)
    } else if *value == String::from_str("annotation") {
        Some(TokenKind::Annotation)
    } else if *value == String::from_str("mod") {
        Some(TokenKind::Mod)
    } else if *value == String::from_str("use") {
        Some(TokenKind::Use)
    } else if *value == String::from_str("package") {
        Some(TokenKind::Package)
    } else if *value == String::from_str("fn") {
        Some(TokenKind::Fn)
    } else if *value == String::from_str("let") {
        Some(TokenKind::Let)
    } else if *value == String::from_str("mut") {
        Some(TokenKind::Mut)
    } else if *value == String::from_str("var") {
        Some(TokenKind::Var)
    } else if *value == String::from_str("const") {
        Some(TokenKind::Const)
    } else if *value == String::from_str("return") {
        Some(TokenKind::Return)
    } else if *value == String::from_str("if") {
        Some(TokenKind::If)
    } else if *value == String::from_str("else") {
        Some(TokenKind::Else)
    } else if *value == String::from_str("while") {
        Some(TokenKind::While)
    } else if *value == String::from_str("for") {
        Some(TokenKind::For)
    } else if *value == String::from_str("in") {
        Some(TokenKind::In)
    } else if *value == String::from_str("break") {
        Some(TokenKind::Break)
    } else if *value == String::from_str("continue") {
        Some(TokenKind::Continue)
    } else if *value == String::from_str("match") {
        Some(TokenKind::Match)
    } else if *value == String::from_str("self") {
        Some(TokenKind::This)
    } else if *value == String::from_str("super") {
        Some(TokenKind::Super)
    } else if *value == String::from_str("is") {
        Some(TokenKind::Is)
    } else if *value == String::from_str("as") {
        Some(TokenKind::As)
    } else if *value == String::from_str("type") {
        Some(TokenKind::Type)
    } else if *value == String::from_str("alias") {
        Some(TokenKind::Alias)
    } else if *value == String::from_str("Self") {
        Some(TokenKind::CapitalThis)
    } else {
        None
    }
}

/// The operator token starting with the up to three characters shown, and
/// how many characters it takes. Characters outside the table give `None`.
pub open spec fn operator_token(c1: char, c2: Option<char>, c3: Option<char>) -> Option<
    (TokenKind, int),
> {
    if c1 == '+' {
        Some((TokenKind::Add, 1))
    } else if c1 == '-' {
        if c2 == Some('>') {
            Some((TokenKind::Arrow, 2))
        } else {
            Some((TokenKind::Sub, 1))
        }
    } else if c1 == '*' {
        Some((TokenKind::Mul, 1))
    } else if c1 == '/' {
        Some((TokenKind::Div, 1))
    } else if c1 == '%' {
        Some((TokenKind::Modulo, 1))
    } else if c1 == '(' {
        Some((TokenKind::LParen, 1))
    } else if c1 == ')' {
        Some((TokenKind::RParen, 1))
    } else if c1 == '[' {
        Some((TokenKind::LBracket, 1))
    } else if c1 == ']' {
        Some((TokenKind::RBracket, 1))
    } else if c1 == '{' {
        Some((TokenKind::LBrace, 1))
    } else if c1 == '}' {
        Some((TokenKind::RBrace, 1))
    } else if c1 == '|' {
        if c2 == Some('|') {
            Some((TokenKind::OrOr, 2))
        } else {
            Some((TokenKind::Or, 1))
        }
    } else if c1 == '&' {
        if c2 == Some('&') {
            Some((TokenKind::AndAnd, 2))
        } else {
            Some((TokenKind::And, 1))
        }
    } else if c1 == '^' {
        Some((TokenKind::Caret, 1))
    } else if c1 == ',' {
        Some((TokenKind::Comma, 1))
    } else if c1 == ';' {
        Some((TokenKind::Semicolon, 1))
    } else if c1 == ':' {
        if c2 == Some(':') {
            Some((TokenKind::ColonColon, 2))
        } else {
            Some((TokenKind::Colon, 1))
        }
    } else if c1 == '.' {
        if c2 == Some('.') && c3 == Some('.') {
            Some((TokenKind::DotDotDot, 3))
        } else {
            Some((TokenKind::Dot, 1))
        }
    } else if c1 == '=' {
        if c2 == Some('=') {
            if c3 == Some('=') {
                Some((TokenKind::EqEqEq, 3))
            } else {
                Some((TokenKind::EqEq, 2))
            }
        } else if c2 == Some('>') {
            Some((TokenKind::DoubleArrow, 2))
        } else {
            Some((TokenKind::Eq, 1))
        }
    } else if c1 == '<' {
        if c2 == Some('=') {
            Some((TokenKind::Le, 2))
        } else if c2 == Some('<') {
            Some((TokenKind::LtLt, 2))
        } else {
            Some((TokenKind::Lt, 1))
        }
    } else if c1 == '>' {
        if c2 == Some('=') {
            Some((TokenKind::Ge, 2))
        } else if c2 == Some('>') {
            if c3 == Some('>') {
                Some((TokenKind::GtGtGt, 3))
            } else {
                Some((TokenKind::GtGt, 2))
            }
        } else {
            Some((TokenKind::Gt, 1))
        }
    } else if c1 == '!' {
        if c2 == Some('=') {
            if c3 == Some('=') {
                Some((TokenKind::NeEqEq, 3))
            } else {
                Some((TokenKind::NotEq, 2))
            }
        } else {
            Some((TokenKind::Not, 1))
        }
    } else if c1 == '@' {
        Some((TokenKind::At, 1))
    } else {
        None
    }
}

/// A token an identifier-like word can lex to: a name, the discard, or a
/// keyword.
pub open spec fn is_word_token(k: TokenKind) -> bool {
    k is Identifier || k is Underscore || k == TokenKind::True || k == TokenKind::False || k == TokenKind::Class || k == TokenKind::Enum || k == TokenKind::Struct || k == TokenKind::Trait || k == TokenKind::Impl || k == TokenKind::Annotation || k == TokenKind::Mod || k == TokenKind::Use || k == TokenKind::Package || k == TokenKind::Fn || k == TokenKind::Let || k == TokenKind::Mut || k == TokenKind::Var || k == TokenKind::Const || k == TokenKind::Return || k == TokenKind::If || k == TokenKind::Else || k == TokenKind::While || k == TokenKind::For || k == TokenKind::In || k == TokenKind::Break || k == TokenKind::Continue || k == TokenKind::Match || k == TokenKind::This || k == TokenKind::Super || k == TokenKind::Is || k == TokenKind::As || k == TokenKind::Type || k == TokenKind::Alias || k == TokenKind::CapitalThis
}

/// A recognized keyword always lexes to a word token.
pub proof fn lemma_keyword_is_word(s: Seq<char>)
    ensures
        keyword_spec(s) matches Some(k) ==> is_word_token(k),
{
}

/// What kind of token begins at `start`: numbers from digits, strings from
/// a double quote, character literals from an apostrophe, words from an
/// identifier start, and for an operator character exactly the token of
/// the operator table.
pub open spec fn token_matches_start(content: Seq<char>, start: int, k: TokenKind) -> bool {
    let c1 = content[start];
    let c2 = if start + 1 < content.len() {
        Some(content[start + 1])
    } else {
        None
    };
    let c3 = if start + 2 < content.len() {
        Some(content[start + 2])
    } else {
        None
    };
    &&& (is_digit_spec(c1) ==> (k is LitInt || k is LitFloat))
    &&& (c1 == '\"' ==> (k is StringTail || k is StringExpr))
    &&& (c1 == '\'' ==> k is LitChar)
    &&& (is_identifier_start_spec(c1) ==> is_word_token(k))
    &&& (is_operator_spec(c1) ==> (operator_token(c1, c2, c3) matches Some(p) && k == p.0))
}

/// The outcome of scanning a string literal's body from position `i`: the
/// decoded characters up to a closing quote, up to an interpolation start,
/// or the failure.
pub enum StringScan {
    /// Closed by a quote; holds the decoded characters and the position
    /// after the quote.
    Tail(Seq<char>, int),
    /// Interrupted by an interpolated expression; holds the decoded
    /// characters and the position after the opening brace.
    Expr(Seq<char>, int),
    /// The text ends before the string closes.
    Unclosed,
    /// An unknown escape; holds the offending character.
    BadEscape(char),
}

/// Scans a string literal's body: quote closes it, `${` interrupts it,
/// anything else is one (possibly escaped) content character.
pub open spec fn scan_string(content: Seq<char>, i: int) -> StringScan
    decreases content.len() - i,
{
    if i < 0 || i >= content.len() {
        StringScan::Unclosed
    } else if content[i] == '\"' {
        StringScan::Tail(Seq::<char>::empty(), i + 1)
    } else if content[i] == '$' && i + 1 < content.len() && content[i + 1] == '{' {
        StringScan::Expr(Seq::<char>::empty(), i + 2)
    } else if content[i] == '\\' {
        if i + 1 >= content.len() {
            StringScan::Unclosed
        } else {
            match escape_char(content[i + 1]) {
                Some(c) => match scan_string(content, i + 2) {
                    StringScan::Tail(v, e) => StringScan::Tail(seq![c] + v, e),
                    StringScan::Expr(v, e) => StringScan::Expr(seq![c] + v, e),
                    other => other,
                },
                None => StringScan::BadEscape(content[i + 1]),
            }
        }
    } else {
        match scan_string(content, i + 1) {
            StringScan::Tail(v, e) => StringScan::Tail(seq![content[i]] + v, e),
            StringScan::Expr(v, e) => StringScan::Expr(seq![content[i]] + v, e),
            other => other,
        }
    }
}

/// Splits a source text into tokens.
pub struct Lexer {
    pub reader: Reader,
}

impl Lexer {
    pub open spec fn wf(self) -> bool {
        self.reader.wf()
    }

    pub open spec fn content(self) -> Seq<char> {
        self.reader.content@
    }

    pub open spec fn idx(self) -> int {
        self.reader.idx as int
    }

    /// The lexer state moved forward over the same text.
    pub open spec fn advanced(pre: Lexer, post: Lexer) -> bool {
        &&& post.wf()
        &&& post.content() == pre.content()
        &&& post.reader.tabwidth == pre.reader.tabwidth
        &&& post.idx() >= pre.idx()
    }

    pub fn from_str(code: &str) -> (r: Lexer)
        requires
            code@.len() <= 0xff_ffff,
        ensures
            r.wf(),
            r.content() == code@,
            r.idx() == 0,
    {
        let reader = Reader::from_string(code);
        Lexer::new(reader)
    }

    pub fn new(reader: Reader) -> (r: Lexer)
        requires
            reader.wf(),
        ensures
            r.wf(),
            r.reader == reader,
    {
        Lexer { reader }
    }

    /// Reads the next token. Whitespace and comments are skipped; the end of
    /// the text gives the `End` token at every further call.
    pub fn read_token(&mut self) -> (r: Result<Token, ParseErrorAndPos>)
        requires
            old(self).wf(),
        ensures
            Lexer::advanced(*old(self), *final (self)),
            r matches Ok(t) && t.kind is End ==> final (self).idx() == final (self).content().len(),
            r matches Ok(t) && !(t.kind is End) ==> final (self).idx() > old(self).idx(),
            r matches Ok(t) ==> (t.kind is End || ({
                &&& (t.span.start as int) < final (self).content().len()
                &&& token_matches_start(final (self).content(), t.span.start as int, t.kind)
            })),
    {
        loop
            invariant
                self.wf(),
                self.content() == old(self).content(),
                self.reader.tabwidth == old(self).reader.tabwidth,
                self.idx() >= old(self).idx(),
            decreases self.content().len() - self.idx(),
        {
            self.skip_white();

            let pos = self.reader.pos();
            let idx = self.reader.idx();
            let ch = self.curr();

            if ch.is_none() {
                return Ok(Token::new(TokenKind::End, pos, Span::at(idx)));
            }
            if is_digit(ch) {
                return self.read_number();
            } else if self.is_comment_start() {
                match self.read_comment() {
                    Ok(_) => (),
                    Err(e) => {
                        return Err(e);
                    },
                }
            } else if self.is_multi_comment_start() {
                match self.read_multi_comment() {
                    Ok(_) => (),
                    Err(e) => {
                        return Err(e);
                    },
                }
            } else if is_identifier_start(ch) {
                return self.read_identifier();
            } else if is_quote(ch) {
                return self.read_string(true);
            } else if is_char_quote(ch) {
                return self.read_char_literal();
            } else if is_operator(ch) {
                return self.read_operator();
            } else {
                let ch = match ch {
                    Some(c) => c,
                    None => {
                        proof {
                            assert(false);
                        }
                        ' '
                    },
                };

                return Err(ParseErrorAndPos::new(pos, ParseError::UnknownChar(ch)));
            }
        }
    }

    /// Skips whitespace; afterwards the cursor stands on a non-whitespace
    /// character or at the end.
    fn skip_white(&mut self)
        requires
            old(self).wf(),
        ensures
            Lexer::advanced(*old(self), *final (self)),
            final (self).idx() == final (self).content().len() || !is_whitespace_spec(
                final (self).content()[final (self).idx()],
            ),
    {
        while is_whitespace(self.curr())
            invariant
                self.wf(),
                self.content() == old(self).content(),
                self.reader.tabwidth == old(self).reader.tabwidth,
                self.idx() >= old(self).idx(),
            decreases self.content().len() - self.idx(),
        {
            self.read_char();
        }
    }

    /// Skips a line comment: everything up to (but not including) the next
    /// newline or the end of the text.
    fn read_comment(&mut self) -> (r: Result<(), ParseErrorAndPos>)
        requires
            old(self).wf(),
        ensures
            Lexer::advanced(*old(self), *final (self)),
            r is Ok,
            final (self).idx() == final (self).content().len() || final (self).content()[final (self).idx()] == '\n',
            old(self).idx() < old(self).content().len() && old(self).content()[old(self).idx()]
                != '\n' ==> final (self).idx() > old(self).idx(),
    {
        while !self.curr().is_none() && !is_newline(self.curr())
            invariant
                self.wf(),
                self.content() == old(self).content(),
                self.reader.tabwidth == old(self).reader.tabwidth,
                self.idx() >= old(self).idx(),
                old(self).idx() < old(self).content().len() && old(self).content()[old(
                    self,
                ).idx()] != '\n' ==> self.idx() > old(self).idx() || self.idx() == old(
                    self,
                ).idx(),
                self.idx() == old(self).idx() || self.idx() > old(self).idx(),
            decreases self.content().len() - self.idx(),
        {
            self.read_char();
        }

        Ok(())
    }

    /// Skips a block comment; an unterminated one is an error reported at
    /// its opening position.
    fn read_multi_comment(&mut self) -> (r: Result<(), ParseErrorAndPos>)
        requires
            old(self).wf(),
            old(self).idx() + 2 <= old(self).content().len(),
        ensures
            Lexer::advanced(*old(self), *final (self)),
            final (self).idx() > old(self).idx(),
            r matches Err(e) ==> e.error == ParseError::UnclosedComment,
    {
        let pos = self.reader.pos();

        self.read_char();
        self.read_char();

        while !self.curr().is_none() && !self.is_multi_comment_end()
            invariant
                self.wf(),
                self.content() == old(self).content(),
                self.reader.tabwidth == old(self).reader.tabwidth,
                self.idx() >= old(self).idx() + 2,
            decreases self.content().len() - self.idx(),
        {
            self.read_char();
        }

        if self.curr().is_none() {
            return Err(ParseErrorAndPos::new(pos, ParseError::UnclosedComment));
        }
        self.read_char();
        self.read_char();

        Ok(())
    }

    /// Reads an identifier or a keyword.
    fn read_identifier(&mut self) -> (r: Result<Token, ParseErrorAndPos>)
        requires
            old(self).wf(),
            old(self).idx() < old(self).content().len(),
            is_identifier_start_spec(old(self).content()[old(self).idx()]),
        ensures
            Lexer::advanced(*old(self), *final (self)),
            final (self).idx() > old(self).idx(),
            r matches Ok(t) ==> {
                let word = old(self).content().subrange(old(self).idx(), final (self).idx());
                &&& t.span == Span { start: old(self).idx() as u32, len: (final (self).idx() - old(
                    self,
                ).idx()) as u32 }
                &&& (match keyword_spec(word) {
                    Some(kind) => t.kind == kind,
                    None => if word == "_"@ {
                        t.kind == TokenKind::Underscore
                    } else {
                        t.kind matches TokenKind::Identifier(v) && v@ == word
                    },
                })
            },
            r is Ok,
    {
        let pos = self.reader.pos();
        let idx = self.reader.idx();
        let value = self.read_identifier_as_string();

        let lookup = keyword_lookup(&value);
        let ttype = if let Some(tok_type) = lookup {
            tok_type
        } else if value == String::from_str("_") {
            TokenKind::Underscore
        } else {
            TokenKind::Identifier(value)
        };

        let span = self.span_from(idx);
        Ok(Token::new(ttype, pos, span))
    }

    /// Reads the longest identifier run under the cursor.
    fn read_identifier_as_string(&mut self) -> (r: String)
        requires
            old(self).wf(),
        ensures
            Lexer::advanced(*old(self), *final (self)),
            r@ == old(self).content().subrange(old(self).idx(), final (self).idx()),
            final (self).idx() == final (self).content().len() || !is_identifier_spec(
                final (self).content()[final (self).idx()],
            ),
            old(self).idx() < old(self).content().len() && is_identifier_spec(
                old(self).content()[old(self).idx()],
            ) ==> final (self).idx() > old(self).idx(),
    {
        let mut value = String::new();

        while is_identifier(self.curr())
            invariant
                self.wf(),
                self.content() == old(self).content(),
                self.reader.tabwidth == old(self).reader.tabwidth,
                old(self).idx() <= self.idx(),
                value@ == old(self).content().subrange(old(self).idx(), self.idx()),
            decreases self.content().len() - self.idx(),
        {
            let ch = match self.curr() {
                Some(c) => c,
                None => {
                    proof {
                        assert(false);
                    }
                    ' '
                },
            };
            self.read_char();
            push_char(&mut value, ch);
            proof {
                assert(value@ =~= old(self).content().subrange(old(self).idx(), self.idx()));
            }
        }

        value
    }

    /// Reads a character literal, including its quotes.
    fn read_char_literal(&mut self) -> (r: Result<Token, ParseErrorAndPos>)
        requires
            old(self).wf(),
            old(self).idx() < old(self).content().len(),
            old(self).content()[old(self).idx()] == '\'',
        ensures
            Lexer::advanced(*old(self), *final (self)),
            final (self).idx() > old(self).idx(),
            r matches Ok(t) ==> t.kind is LitChar && t.span.start == old(self).idx(),
            r matches Err(e) ==> e.error == ParseError::UnclosedChar || e.error matches
                ParseError::InvalidEscapeSequence(_),
    {
        let pos = self.reader.pos();
        let idx = self.reader.idx();

        self.read_char();
        let ch = match self.read_escaped_char(pos, ParseError::UnclosedChar) {
            Ok(ch) => ch,
            Err(e) => {
                return Err(e);
            },
        };

        if is_char_quote(self.curr()) {
            self.read_char();

            let ttype = TokenKind::LitChar(ch);
            let span = self.span_from(idx);
            Ok(Token::new(ttype, pos, span))
        } else {
            Err(ParseErrorAndPos::new(pos, ParseError::UnclosedChar))
        }
    }

    /// Reads one character, resolving a backslash escape; `unclosed` is
    /// reported when the text ends inside the escape.
    fn read_escaped_char(&mut self, pos: Position, unclosed: ParseError) -> (r: Result<
        char,
        ParseErrorAndPos,
    >)
        requires
            old(self).wf(),
        ensures
            Lexer::advanced(*old(self), *final (self)),
            r is Ok ==> final (self).idx() > old(self).idx(),
            r matches Err(e) ==> (e.error == unclosed || e.error matches
                ParseError::InvalidEscapeSequence(_)) && e.pos == pos,
            old(self).idx() >= old(self).content().len() ==> (r matches Err(e) && e.error
                == unclosed),
            old(self).idx() < old(self).content().len() && old(self).content()[old(self).idx()]
                != '\\' ==> r == Ok::<char, ParseErrorAndPos>(
                old(self).content()[old(self).idx()],
            ) && final (self).idx() == old(self).idx() + 1,
            old(self).idx() + 1 == old(self).content().len() && old(self).content()[old(
                self,
            ).idx()] == '\\' ==> (r matches Err(e) && e.error == unclosed),
            old(self).idx() + 1 < old(self).content().len() && old(self).content()[old(
                self,
            ).idx()] == '\\' ==> (match escape_char(old(self).content()[old(self).idx() + 1]) {
                Some(c) => r == Ok::<char, ParseErrorAndPos>(c) && final (self).idx() == old(
                    self,
                ).idx() + 2,
                None => (r matches Err(e) && e.error == ParseError::InvalidEscapeSequence(
                    old(self).content()[old(self).idx() + 1],
                )) && final (self).idx() == old(self).idx() + 2,
            }),
    {
        if let Some(ch) = self.curr() {
            self.read_char();

            if ch == '\\' {
                let ch = if let Some(ch) = self.curr() {
                    ch
                } else {
                    return Err(ParseErrorAndPos::new(pos, unclosed));
                };

                self.read_char();

                match ch {
                    '\\' => Ok('\\'),
                    'n' => Ok('\n'),
                    't' => Ok('\t'),
                    'r' => Ok('\r'),
                    '\"' => Ok('\"'),
                    '\'' => Ok('\''),
                    '0' => Ok('\0'),
                    '$' => Ok('$'),
                    _ => {
                        let msg = ParseError::InvalidEscapeSequence(ch);
                        Err(ParseErrorAndPos::new(pos, msg))
                    },
                }
            } else {
                Ok(ch)
            }
        } else {
            Err(ParseErrorAndPos::new(pos, unclosed))
        }
    }

    /// Reads a string segment. A `${` inside it ends the segment as a
    /// `StringExpr`; a closing quote ends it as a `StringTail`.
    fn read_string(&mut self, skip_quote: bool) -> (r: Result<Token, ParseErrorAndPos>)
        requires
            old(self).wf(),
            skip_quote ==> old(self).idx() < old(self).content().len() && old(self).content()[old(
                self,
            ).idx()] == '\"',
        ensures
            Lexer::advanced(*old(self), *final (self)),
            skip_quote ==> final (self).idx() > old(self).idx(),
            r matches Ok(t) ==> (t.kind is StringTail || t.kind is StringExpr) && t.span.start
                == old(self).idx(),
            r matches Err(e) ==> (e.error == ParseError::UnclosedString || e.error matches
                ParseError::InvalidEscapeSequence(_)) && e.pos == (Position {
                line: old(self).reader.line,
                column: old(self).reader.column,
            }),
            ({
                let scanned = scan_string(
                    old(self).content(),
                    old(self).idx() + (if skip_quote {
                        1int
                    } else {
                        0int
                    }),
                );
                match scanned {
                    StringScan::Tail(v, e) => r matches Ok(t) && (t.kind matches
                        TokenKind::StringTail(s) && s@ == v) && final (self).idx() == e,
                    StringScan::Expr(v, e) => r matches Ok(t) && (t.kind matches
                        TokenKind::StringExpr(s) && s@ == v) && final (self).idx() == e,
                    StringScan::Unclosed => r matches Err(er) && er.error
                        == ParseError::UnclosedString,
                    StringScan::BadEscape(c) => r matches Err(er) && er.error
                        == ParseError::InvalidEscapeSequence(c),
                }
            }),
    {
        let pos = self.reader.pos();
        let idx = self.reader.idx();
        let mut value = String::new();

        if skip_quote {
            self.read_char();
        }
        let ghost s0 = self.idx();
        proof {
            assert forall|v: Seq<char>| Seq::<char>::empty() + v =~= v by {}
        }
        while self.curr().is_some() && !is_quote(self.curr())
            invariant
                self.wf(),
                self.content() == old(self).content(),
                self.reader.tabwidth == old(self).reader.tabwidth,
                self.idx() >= old(self).idx(),
                skip_quote ==> self.idx() > old(self).idx(),
                idx == old(self).reader.idx,
                pos == (Position { line: old(self).reader.line, column: old(self).reader.column }),
                s0 == old(self).idx() + (if skip_quote {
                    1int
                } else {
                    0int
                }),
                s0 <= self.idx(),
                (scan_string(self.content(), self.idx()) matches StringScan::Tail(v, e)
                    ==> scan_string(self.content(), s0) == StringScan::Tail(value@ + v, e)),
                (scan_string(self.content(), self.idx()) matches StringScan::Expr(v, e)
                    ==> scan_string(self.content(), s0) == StringScan::Expr(value@ + v, e)),
                (scan_string(self.content(), self.idx()) is Unclosed ==> scan_string(
                    self.content(),
                    s0,
                ) is Unclosed),
                (scan_string(self.content(), self.idx()) matches StringScan::BadEscape(c)
                    ==> scan_string(self.content(), s0) == StringScan::BadEscape(c)),
            decreases self.content().len() - self.idx(),
        {
            if self.curr() == Some('$') && self.next() == Some('{') {
                let ghost cur0 = self.idx();
                self.read_char();
                self.read_char();
                proof {
                    assert(scan_string(self.content(), cur0) == StringScan::Expr(
                        Seq::<char>::empty(),
                        cur0 + 2,
                    ));
                    assert(value@ + Seq::<char>::empty() =~= value@);
                }
                let ttype = TokenKind::StringExpr(value);
                let span = self.span_from(idx);
                return Ok(Token::new(ttype, pos, span));
            }
            let ghost cur0 = self.idx();
            let ghost pre_value = value@;
            let ch = match self.read_escaped_char(pos, ParseError::UnclosedString) {
                Ok(ch) => ch,
                Err(e) => {
                    proof {
                        assert(scan_string(self.content(), cur0) is Unclosed || scan_string(
                            self.content(),
                            cur0,
                        ) is BadEscape);
                    }
                    return Err(e);
                },
            };
            push_char(&mut value, ch);
            proof {
                let c = self.content();
                let cur1 = self.idx();
                match scan_string(c, cur1) {
                    StringScan::Tail(v, e) => {
                        assert(scan_string(c, cur0) == StringScan::Tail(seq![ch] + v, e));
                        assert(pre_value + (seq![ch] + v) =~= value@ + v);
                    },
                    StringScan::Expr(v, e) => {
                        assert(scan_string(c, cur0) == StringScan::Expr(seq![ch] + v, e));
                        assert(pre_value + (seq![ch] + v) =~= value@ + v);
                    },
                    StringScan::Unclosed => {},
                    StringScan::BadEscape(_) => {},
                }
            }
        }

        if is_quote(self.curr()) {
            let ghost cur0 = self.idx();
            self.read_char();
            proof {
                assert(scan_string(self.content(), cur0) == StringScan::Tail(
                    Seq::<char>::empty(),
                    cur0 + 1,
                ));
                assert(value@ + Seq::<char>::empty() =~= value@);
            }
            let ttype = TokenKind::StringTail(value);
            let span = self.span_from(idx);
            Ok(Token::new(ttype, pos, span))
        } else {
            proof {
                assert(scan_string(self.content(), self.idx()) is Unclosed);
            }
            Err(ParseErrorAndPos::new(pos, ParseError::UnclosedString))
        }
    }

    /// Continues a string after an interpolated expression.
    pub fn read_string_continuation(&mut self) -> (r: Result<Token, ParseErrorAndPos>)
        requires
            old(self).wf(),
        ensures
            Lexer::advanced(*old(self), *final (self)),
            r matches Ok(t) ==> t.kind is StringTail || t.kind is StringExpr,
            r matches Err(e) ==> e.error == ParseError::UnclosedString || e.error matches
                ParseError::InvalidEscapeSequence(_),
            ({
                let scanned = scan_string(old(self).content(), old(self).idx());
                match scanned {
                    StringScan::Tail(v, e) => r matches Ok(t) && (t.kind matches
                        TokenKind::StringTail(s) && s@ == v) && final (self).idx() == e,
                    StringScan::Expr(v, e) => r matches Ok(t) && (t.kind matches
                        TokenKind::StringExpr(s) && s@ == v) && final (self).idx() == e,
                    StringScan::Unclosed => r matches Err(er) && er.error
                        == ParseError::UnclosedString,
                    StringScan::BadEscape(c) => r matches Err(er) && er.error
                        == ParseError::InvalidEscapeSequence(c),
                }
            }),
    {
        self.read_string(false)
    }

    /// Reads an operator token according to the operator table.
    fn read_operator(&mut self) -> (r: Result<Token, ParseErrorAndPos>)
        requires
            old(self).wf(),
            old(self).idx() < old(self).content().len(),
        ensures
            Lexer::advanced(*old(self), *final (self)),
            ({
                let c1 = old(self).content()[old(self).idx()];
                let c2 = if old(self).idx() + 1 < old(self).content().len() {
                    Some(old(self).content()[old(self).idx() + 1])
                } else {
                    None
                };
                let c3 = if old(self).idx() + 2 < old(self).content().len() {
                    Some(old(self).content()[old(self).idx() + 2])
                } else {
                    None
                };
                match operator_token(c1, c2, c3) {
                    Some(p) => {
                        &&& r matches Ok(t)
                        &&& t.kind == p.0
                        &&& t.span == Span {
                            start: old(self).idx() as u32,
                            len: p.1 as u32,
                        }
                        &&& final (self).idx() == old(self).idx() + p.1
                    },
                    None => {
                        &&& r matches Err(e)
                        &&& e.error == ParseError::UnknownChar(c1)
                        &&& final (self).idx() == old(self).idx() + 1
                    },
                }
            }),
    {
        let pos = self.reader.pos();
        let idx = self.reader.idx();
        let ch = match self.curr() {
            Some(c) => c,
            None => {
                proof {
                    assert(false);
                }
                ' '
            },
        };
        self.read_char();

        let nch_opt = self.curr();
        let nnch_opt = self.next();
        let nch = match nch_opt {
            Some(c) => c,
            None => 'x',
        };
        let nnch = match nnch_opt {
            Some(c) => c,
            None => 'x',
        };

        let kind: TokenKind = if ch == '+' {
            TokenKind::Add
        } else if ch == '-' {
            if nch_opt == Some('>') {
                self.read_char();
                TokenKind::Arrow
            } else {
                TokenKind::Sub
            }
        } else if ch == '*' {
            TokenKind::Mul
        } else if ch == '/' {
            TokenKind::Div
        } else if ch == '%' {
            TokenKind::Modulo
        } else if ch == '(' {
            TokenKind::LParen
        } else if ch == ')' {
            TokenKind::RParen
        } else if ch == '[' {
            TokenKind::LBracket
        } else if ch == ']' {
            TokenKind::RBracket
        } else if ch == '{' {
            TokenKind::LBrace
        } else if ch == '}' {
            TokenKind::RBrace
        } else if ch == '|' {
            if nch_opt == Some('|') {
                self.read_char();
                TokenKind::OrOr
            } else {
                TokenKind::Or
            }
        } else if ch == '&' {
            if nch_opt == Some('&') {
                self.read_char();
                TokenKind::AndAnd
            } else {
                TokenKind::And
            }
        } else if ch == '^' {
            TokenKind::Caret
        } else if ch == ',' {
            TokenKind::Comma
        } else if ch == ';' {
            TokenKind::Semicolon
        } else if ch == ':' {
            if nch_opt == Some(':') {
                self.read_char();
                TokenKind::ColonColon
            } else {
                TokenKind::Colon
            }
        } else if ch == '.' {
            if nch_opt == Some('.') && nnch_opt == Some('.') {
                self.read_char();
                self.read_char();
                TokenKind::DotDotDot
            } else {
                TokenKind::Dot
            }
        } else if ch == '=' {
            if nch_opt == Some('=') {
                self.read_char();
                if nnch_opt == Some('=') {
                    self.read_char();
                    TokenKind::EqEqEq
                } else {
                    TokenKind::EqEq
                }
            } else if nch_opt == Some('>') {
                self.read_char();
                TokenKind::DoubleArrow
            } else {
                TokenKind::Eq
            }
        } else if ch == '<' {
            if nch_opt == Some('=') {
                self.read_char();
                TokenKind::Le
            } else if nch_opt == Some('<') {
                self.read_char();
                TokenKind::LtLt
            } else {
                TokenKind::Lt
            }
        } else if ch == '>' {
            if nch_opt == Some('=') {
                self.read_char();
                TokenKind::Ge
            } else if nch_opt == Some('>') {
                self.read_char();
                if nnch_opt == Some('>') {
                    self.read_char();
                    TokenKind::GtGtGt
                } else {
                    TokenKind::GtGt
                }
            } else {
                TokenKind::Gt
            }
        } else if ch == '!' {
            if nch_opt == Some('=') {
                self.read_char();
                if nnch_opt == Some('=') {
                    self.read_char();
                    TokenKind::NeEqEq
                } else {
                    TokenKind::NotEq
                }
            } else {
                TokenKind::Not
            }
        } else if ch == '@' {
            TokenKind::At
        } else {
            let _ = nch;
            let _ = nnch;
            return Err(ParseErrorAndPos::new(pos, ParseError::UnknownChar(ch)));
        };

        let span = self.span_from(idx);
        Ok(Token::new(kind, pos, span))
    }

    /// Reads a number literal; never fails.
    fn read_number(&mut self) -> (r: Result<Token, ParseErrorAndPos>)
        requires
            old(self).wf(),
            old(self).idx() < old(self).content().len(),
            is_digit_spec(old(self).content()[old(self).idx()]),
        ensures
            Lexer::advanced(*old(self), *final (self)),
            final (self).idx() > old(self).idx(),
            r matches Ok(t) ==> (t.kind is LitInt || t.kind is LitFloat) && t.span == (Span {
                start: old(self).idx() as u32,
                len: (final (self).idx() - old(self).idx()) as u32,
            }),
            r is Ok,
    {
        let pos = self.reader.pos();
        let idx = self.reader.idx();
        let mut value = String::new();

        let base = if self.curr() == Some('0') {
            let next = self.next();

            match next {
                Some('x') => {
                    self.read_char();
                    self.read_char();

                    IntBase::Hex
                },
                Some('b') => {
                    self.read_char();
                    self.read_char();

                    IntBase::Bin
                },
                _ => IntBase::Dec,
            }
        } else {
            IntBase::Dec
        };

        self.read_digits(&mut value, base);

        if base == IntBase::Dec && self.curr() == Some('.') && is_digit(self.next()) {
            return self.read_number_as_float(pos, idx, value);
        }
        let kind: TokenKind = match self.curr() {
            Some('L') => {
                self.read_char();
                TokenKind::LitInt(value, base, IntSuffix::Int64, None)
            },
            Some('Y') => {
                self.read_char();
                TokenKind::LitInt(value, base, IntSuffix::UInt8, None)
            },
            Some('I') => {
                self.read_char();
                TokenKind::LitInt(value, base, IntSuffix::Int32, None)
            },
            Some('D') if base == IntBase::Dec => {
                self.read_char();
                TokenKind::LitFloat(value, FloatSuffix::Float64, None)
            },
            Some('F') if base == IntBase::Dec => {
                self.read_char();
                TokenKind::LitFloat(value, FloatSuffix::Float32, None)
            },
            _ => {
                let suffix = if is_identifier_start(self.curr()) {
                    Some(self.read_identifier_as_string())
                } else {
                    None
                };

                TokenKind::LitInt(value, base, IntSuffix::NoSuffix, suffix)
            },
        };

        let span = self.span_from(idx);
        Ok(Token::new(kind, pos, span))
    }

    /// Continues a decimal literal after its dot, including an optional
    /// exponent and width suffix.
    fn read_number_as_float(&mut self, pos: Position, idx: u32, value: String) -> (r: Result<
        Token,
        ParseErrorAndPos,
    >)
        requires
            old(self).wf(),
            old(self).idx() < old(self).content().len(),
            idx <= old(self).idx(),
        ensures
            Lexer::advanced(*old(self), *final (self)),
            final (self).idx() > old(self).idx(),
            r matches Ok(t) ==> t.kind is LitFloat && t.span == (Span {
                start: idx,
                len: (final (self).reader.idx - idx) as u32,
            }),
            r is Ok,
    {
        let mut value = value;
        self.read_char();
        push_char(&mut value, '.');

        self.read_digits(&mut value, IntBase::Dec);

        if self.curr() == Some('e') || self.curr() == Some('E') {
            let ch = match self.curr() {
                Some(c) => c,
                None => {
                    proof {
                        assert(false);
                    }
                    ' '
                },
            };
            push_char(&mut value, ch);
            self.read_char();

            if self.curr() == Some('+') || self.curr() == Some('-') {
                let ch = match self.curr() {
                    Some(c) => c,
                    None => {
                        proof {
                            assert(false);
                        }
                        ' '
                    },
                };
                push_char(&mut value, ch);
                self.read_char();
            }
            self.read_digits(&mut value, IntBase::Dec);
        }
        let suffix = match self.curr() {
            Some('D') => {
                self.read_char();
                FloatSuffix::Float64
            },
            Some('F') => {
                self.read_char();
                FloatSuffix::Float32
            },
            _ => FloatSuffix::Float64,
        };

        let ttype = TokenKind::LitFloat(value, suffix, None);
        let span = self.span_from(idx);
        Ok(Token::new(ttype, pos, span))
    }

    /// The span from `start` to the cursor.
    fn span_from(&self, start: u32) -> (r: Span)
        requires
            self.wf(),
            start <= self.idx(),
        ensures
            r == (Span { start, len: (self.idx() - start) as u32 }),
    {
        Span::new(start, self.reader.idx() - start)
    }

    /// Appends the digits (and digit separators) of the given base under
    /// the cursor to `buffer`.
    fn read_digits(&mut self, buffer: &mut String, base: IntBase)
        requires
            old(self).wf(),
        ensures
            Lexer::advanced(*old(self), *final (self)),
            final (self).idx() == final (self).content().len() || !is_digit_or_underscore_spec(
                final (self).content()[final (self).idx()],
                base,
            ),
            old(self).idx() < old(self).content().len() && is_digit_or_underscore_spec(
                old(self).content()[old(self).idx()],
                base,
            ) ==> final (self).idx() > old(self).idx(),
    {
        while is_digit_or_underscore(self.curr(), base)
            invariant
                self.wf(),
                self.content() == old(self).content(),
                self.reader.tabwidth == old(self).reader.tabwidth,
                self.idx() >= old(self).idx(),
            decreases self.content().len() - self.idx(),
        {
            let ch = match self.curr() {
                Some(c) => c,
                None => {
                    proof {
                        assert(false);
                    }
                    ' '
                },
            };
            self.read_char();
            push_char(buffer, ch);
        }
    }

    fn read_char(&mut self)
        requires
            old(self).wf(),
            old(self).idx() < old(self).content().len(),
        ensures
            final (self).wf(),
            final (self).content() == old(self).content(),
            final (self).reader.tabwidth == old(self).reader.tabwidth,
            final (self).idx() == old(self).idx() + 1,
    {
        self.reader.advance();
    }

    fn curr(&self) -> (r: Option<char>)
        ensures
            self.idx() < self.content().len() ==> r == Some(self.content()[self.idx()]),
            self.idx() >= self.content().len() ==> r is None,
    {
        self.reader.curr()
    }

    fn next(&self) -> (r: Option<char>)
        requires
            self.wf(),
        ensures
            self.idx() + 1 < self.content().len() ==> r == Some(self.content()[self.idx() + 1]),
            self.idx() + 1 >= self.content().len() ==> r is None,
    {
        self.reader.nth(1)
    }

    fn is_comment_start(&self) -> (r: bool)
        requires
            self.wf(),
        ensures
            r == (self.idx() < self.content().len() && self.content()[self.idx()] == '/'
                && self.idx() + 1 < self.content().len() && self.content()[self.idx() + 1] == '/'),
    {
        self.curr() == Some('/') && self.next() == Some('/')
    }

    fn is_multi_comment_start(&self) -> (r: bool)
        requires
            self.wf(),
        ensures
            r == (self.idx() < self.content().len() && self.content()[self.idx()] == '/'
                && self.idx() + 1 < self.content().len() && self.content()[self.idx() + 1] == '*'),
    {
        self.curr() == Some('/') && self.next() == Some('*')
    }

    fn is_multi_comment_end(&self) -> (r: bool)
        requires
            self.wf(),
        ensures
            r == (self.idx() < self.content().len() && self.content()[self.idx()] == '*'
                && self.idx() + 1 < self.content().len() && self.content()[self.idx() + 1] == '/'),
    {
        self.curr() == Some('*') && self.next() == Some('/')
    }
}

} // verus!
