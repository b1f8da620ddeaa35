use dora::error::ParseError;
use dora::lexer::Lexer;
use dora::reader::Reader;
use dora::token::{FloatSuffix, IntBase, IntSuffix, TokenKind};

fn assert_end(reader: &mut Lexer, l: u32, c: u32) {
    assert_tok(reader, TokenKind::End, l, c);
}

fn assert_tok(reader: &mut Lexer, kind: TokenKind, l: u32, c: u32) {
    let tok = reader.read_token().unwrap();
    assert_eq!(kind, tok.kind);
    assert_eq!(l, tok.position.line);
    assert_eq!(c, tok.position.column);
}

fn assert_err(reader: &mut Lexer, msg: ParseError, l: u32, c: u32) {
    let err = reader.read_token().unwrap_err();
    assert_eq!(msg, err.error);
    assert_eq!(l, err.pos.line);
    assert_eq!(c, err.pos.column);
}

#[test]
fn test_read_empty_file() {
    let mut reader = Lexer::from_str("");
    assert_end(&mut reader, 1, 1);
    assert_end(&mut reader, 1, 1);
}

#[test]
fn test_read_numbers() {
    let mut reader = Lexer::from_str("1 2\n0123 10");
    assert_tok(
        &mut reader,
        TokenKind::LitInt("1".into(), IntBase::Dec, IntSuffix::NoSuffix, None),
        1,
        1,
    );
    assert_tok(
        &mut reader,
        TokenKind::LitInt("2".into(), IntBase::Dec, IntSuffix::NoSuffix, None),
        1,
        3,
    );
    assert_tok(
        &mut reader,
        TokenKind::LitInt("0123".into(), IntBase::Dec, IntSuffix::NoSuffix, None),
        2,
        1,
    );
    assert_tok(
        &mut reader,
        TokenKind::LitInt("10".into(), IntBase::Dec, IntSuffix::NoSuffix, None),
        2,
        6,
    );
    assert_end(&mut reader, 2, 8);

    let mut reader = Lexer::from_str("12Y 300Y 1_000 1__1");
    assert_tok(
        &mut reader,
        TokenKind::LitInt("12".into(), IntBase::Dec, IntSuffix::UInt8, None),
        1,
        1,
    );
    assert_tok(
        &mut reader,
        TokenKind::LitInt("300".into(), IntBase::Dec, IntSuffix::UInt8, None),
        1,
        5,
    );
    assert_tok(
        &mut reader,
        TokenKind::LitInt("1_000".into(), IntBase::Dec, IntSuffix::NoSuffix, None),
        1,
        10,
    );
    assert_tok(
        &mut reader,
        TokenKind::LitInt("1__1".into(), IntBase::Dec, IntSuffix::NoSuffix, None),
        1,
        16,
    );
}

#[test]
fn test_read_numbers_with_suffix() {
    let mut reader = Lexer::from_str("1i32 2u8 3i64 4unknown");
    assert_tok(
        &mut reader,
        TokenKind::LitInt(
            "1".into(),
            IntBase::Dec,
            IntSuffix::NoSuffix,
            Some("i32".into()),
        ),
        1,
        1,
    );
    assert_tok(
        &mut reader,
        TokenKind::LitInt("2".into(), IntBase::Dec, IntSuffix::NoSuffix, Some("u8".into())),
        1,
        6,
    );
    assert_tok(
        &mut reader,
        TokenKind::LitInt(
            "3".into(),
            IntBase::Dec,
            IntSuffix::NoSuffix,
            Some("i64".into()),
        ),
        1,
        10,
    );
    assert_tok(
        &mut reader,
        TokenKind::LitInt(
            "4".into(),
            IntBase::Dec,
            IntSuffix::NoSuffix,
            Some("unknown".into()),
        ),
        1,
        15,
    );
    assert_end(&mut reader, 1, 23);
}

#[test]
fn test_skip_single_line_comment() {
    let mut reader = Lexer::from_str("//test\n1");
    assert_tok(
        &mut reader,
        TokenKind::LitInt("1".into(), IntBase::Dec, IntSuffix::NoSuffix, None),
        2,
        1,
    );
    assert_end(&mut reader, 2, 2);
}

#[test]
fn test_unfinished_line_comment() {
    let mut reader = Lexer::from_str("//abc");
    assert_end(&mut reader, 1, 6);
}

#[test]
fn test_skip_multi_comment() {
    let mut reader = Lexer::from_str("/*test*/1");
    assert_tok(
        &mut reader,
        TokenKind::LitInt("1".into(), IntBase::Dec, IntSuffix::NoSuffix, None),
        1,
        9,
    );
    assert_end(&mut reader, 1, 10);
}

#[test]
fn test_unfinished_multi_comment() {
    let mut reader = Lexer::from_str("/*test");
    assert_err(&mut reader, ParseError::UnclosedComment, 1, 1);

    let mut reader = Lexer::from_str("1/*test");
    assert_tok(
        &mut reader,
        TokenKind::LitInt("1".into(), IntBase::Dec, IntSuffix::NoSuffix, None),
        1,
        1,
    );
    assert_err(&mut reader, ParseError::UnclosedComment, 1, 2);
}

#[test]
fn test_read_identifier() {
    let mut reader = Lexer::from_str("abc ident test");
    assert_tok(&mut reader, TokenKind::Identifier("abc".into()), 1, 1);
    assert_tok(&mut reader, TokenKind::Identifier("ident".into()), 1, 5);
    assert_tok(&mut reader, TokenKind::Identifier("test".into()), 1, 11);
    assert_end(&mut reader, 1, 15);
}

#[test]
fn test_code_with_spaces() {
    let mut reader = Lexer::from_str("1 2 3");
    assert_tok(
        &mut reader,
        TokenKind::LitInt("1".into(), IntBase::Dec, IntSuffix::NoSuffix, None),
        1,
        1,
    );
    assert_tok(
        &mut reader,
        TokenKind::LitInt("2".into(), IntBase::Dec, IntSuffix::NoSuffix, None),
        1,
        3,
    );
    assert_tok(
        &mut reader,
        TokenKind::LitInt("3".into(), IntBase::Dec, IntSuffix::NoSuffix, None),
        1,
        5,
    );
    assert_end(&mut reader, 1, 6);
}

#[test]
fn test_float_numbers() {
    let mut reader = Lexer::from_str("1F 1.0 0.1F 1.3D 4D");
    assert_tok(
        &mut reader,
        TokenKind::LitFloat("1".into(), FloatSuffix::Float32, None),
        1,
        1,
    );
    assert_tok(
        &mut reader,
        TokenKind::LitFloat("1.0".into(), FloatSuffix::Float64, None),
        1,
        4,
    );
    assert_tok(
        &mut reader,
        TokenKind::LitFloat("0.1".into(), FloatSuffix::Float32, None),
        1,
        8,
    );
    assert_tok(
        &mut reader,
        TokenKind::LitFloat("1.3".into(), FloatSuffix::Float64, None),
        1,
        13,
    );
    assert_tok(
        &mut reader,
        TokenKind::LitFloat("4".into(), FloatSuffix::Float64, None),
        1,
        18,
    );
}

#[test]
fn test_float_scientific_notation() {
    let mut reader = Lexer::from_str("1.0e1 1.0E1 1.0e+1 1.0e-1");
    assert_tok(
        &mut reader,
        TokenKind::LitFloat("1.0e1".into(), FloatSuffix::Float64, None),
        1,
        1,
    );
    assert_tok(
        &mut reader,
        TokenKind::LitFloat("1.0E1".into(), FloatSuffix::Float64, None),
        1,
        7,
    );
    assert_tok(
        &mut reader,
        TokenKind::LitFloat("1.0e+1".into(), FloatSuffix::Float64, None),
        1,
        13,
    );
    assert_tok(
        &mut reader,
        TokenKind::LitFloat("1.0e-1".into(), FloatSuffix::Float64, None),
        1,
        20,
    );
}

#[test]
fn test_hex_numbers() {
    let mut reader = Lexer::from_str("0x1 0x2L 0xABCDEF 0xB1L");

    assert_tok(
        &mut reader,
        TokenKind::LitInt("1".into(), IntBase::Hex, IntSuffix::NoSuffix, None),
        1,
        1,
    );
    assert_tok(
        &mut reader,
        TokenKind::LitInt("2".into(), IntBase::Hex, IntSuffix::Int64, None),
        1,
        5,
    );
    assert_tok(
        &mut reader,
        TokenKind::LitInt("ABCDEF".into(), IntBase::Hex, IntSuffix::NoSuffix, None),
        1,
        10,
    );
    assert_tok(
        &mut reader,
        TokenKind::LitInt("B1".into(), IntBase::Hex, IntSuffix::Int64, None),
        1,
        19,
    );
}

#[test]
fn test_code_with_newlines() {
    let mut reader = Lexer::from_str("1\n2\n3");
    assert_tok(
        &mut reader,
        TokenKind::LitInt("1".into(), IntBase::Dec, IntSuffix::NoSuffix, None),
        1,
        1,
    );
    assert_tok(
        &mut reader,
        TokenKind::LitInt("2".into(), IntBase::Dec, IntSuffix::NoSuffix, None),
        2,
        1,
    );
    assert_tok(
        &mut reader,
        TokenKind::LitInt("3".into(), IntBase::Dec, IntSuffix::NoSuffix, None),
        3,
        1,
    );
    assert_end(&mut reader, 3, 2);
}

#[test]
fn test_code_with_tabs() {
    let mut reader = Lexer::from_str("1\t2\t3");
    assert_tok(
        &mut reader,
        TokenKind::LitInt("1".into(), IntBase::Dec, IntSuffix::NoSuffix, None),
        1,
        1,
    );
    assert_tok(
        &mut reader,
        TokenKind::LitInt("2".into(), IntBase::Dec, IntSuffix::NoSuffix, None),
        1,
        5,
    );
    assert_tok(
        &mut reader,
        TokenKind::LitInt("3".into(), IntBase::Dec, IntSuffix::NoSuffix, None),
        1,
        9,
    );
    assert_end(&mut reader, 1, 10);
}

#[test]
fn test_code_with_tabwidth8() {
    let mut reader = Reader::from_string("1\t2\n1234567\t8\n12345678\t9");
    reader.set_tabwidth(8);
    let mut reader = Lexer::new(reader);

    assert_tok(
        &mut reader,
        TokenKind::LitInt("1".into(), IntBase::Dec, IntSuffix::NoSuffix, None),
        1,
        1,
    );
    assert_tok(
        &mut reader,
        TokenKind::LitInt("2".into(), IntBase::Dec, IntSuffix::NoSuffix, None),
        1,
        9,
    );
    assert_tok(
        &mut reader,
        TokenKind::LitInt("1234567".into(), IntBase::Dec, IntSuffix::NoSuffix, None),
        2,
        1,
    );
    assert_tok(
        &mut reader,
        TokenKind::LitInt("8".into(), IntBase::Dec, IntSuffix::NoSuffix, None),
        2,
        9,
    );
    assert_tok(
        &mut reader,
        TokenKind::LitInt("12345678".into(), IntBase::Dec, IntSuffix::NoSuffix, None),
        3,
        1,
    );
    assert_tok(
        &mut reader,
        TokenKind::LitInt("9".into(), IntBase::Dec, IntSuffix::NoSuffix, None),
        3,
        17,
    );
    assert_end(&mut reader, 3, 18);
}

#[test]
fn test_string_with_newline() {
    let mut reader = Lexer::from_str("\"abc\ndef\"");
    assert_tok(&mut reader, TokenKind::StringTail("abc\ndef".into()), 1, 1);
}

#[test]
fn test_escape_sequences() {
    let mut reader = Lexer::from_str("\"\\\"\"");
    assert_tok(&mut reader, TokenKind::StringTail("\"".into()), 1, 1);

    let mut reader = Lexer::from_str("\"\\$\"");
    assert_tok(&mut reader, TokenKind::StringTail("$".into()), 1, 1);

    let mut reader = Lexer::from_str("\"\\\'\"");
    assert_tok(&mut reader, TokenKind::StringTail("'".into()), 1, 1);

    let mut reader = Lexer::from_str("\"\\t\"");
    assert_tok(&mut reader, TokenKind::StringTail("\t".into()), 1, 1);

    let mut reader = Lexer::from_str("\"\\n\"");
    assert_tok(&mut reader, TokenKind::StringTail("\n".into()), 1, 1);

    let mut reader = Lexer::from_str("\"\\r\"");
    assert_tok(&mut reader, TokenKind::StringTail("\r".into()), 1, 1);

    let mut reader = Lexer::from_str("\"\\\\\"");
    assert_tok(&mut reader, TokenKind::StringTail("\\".into()), 1, 1);

    let mut reader = Lexer::from_str("\"\\");
    assert_err(&mut reader, ParseError::UnclosedString, 1, 1);
}

#[test]
fn test_unclosed_string() {
    let mut reader = Lexer::from_str("\"abc");
    assert_err(&mut reader, ParseError::UnclosedString, 1, 1);
}

#[test]
fn test_unclosed_char() {
    let mut reader = Lexer::from_str("'a");
    assert_err(&mut reader, ParseError::UnclosedChar, 1, 1);

    let mut reader = Lexer::from_str("'\\");
    assert_err(&mut reader, ParseError::UnclosedChar, 1, 1);

    let mut reader = Lexer::from_str("'\\n");
    assert_err(&mut reader, ParseError::UnclosedChar, 1, 1);

    let mut reader = Lexer::from_str("'ab'");
    assert_err(&mut reader, ParseError::UnclosedChar, 1, 1);

    let mut reader = Lexer::from_str("'");
    assert_err(&mut reader, ParseError::UnclosedChar, 1, 1);
}

#[test]
fn test_string() {
    let mut reader = Lexer::from_str("\"abc\"");
    assert_tok(&mut reader, TokenKind::StringTail("abc".into()), 1, 1);
    assert_end(&mut reader, 1, 6);
}

#[test]
fn test_keywords() {
    let mut reader = Lexer::from_str("fn let while if else match");
    assert_tok(&mut reader, TokenKind::Fn, 1, 1);
    assert_tok(&mut reader, TokenKind::Let, 1, 4);
    assert_tok(&mut reader, TokenKind::While, 1, 8);
    assert_tok(&mut reader, TokenKind::If, 1, 14);
    assert_tok(&mut reader, TokenKind::Else, 1, 17);
    assert_tok(&mut reader, TokenKind::Match, 1, 22);

    let mut reader = Lexer::from_str("self class super mod");
    assert_tok(&mut reader, TokenKind::This, 1, 1);
    assert_tok(&mut reader, TokenKind::Class, 1, 6);
    assert_tok(&mut reader, TokenKind::Super, 1, 12);
    assert_tok(&mut reader, TokenKind::Mod, 1, 18);

    let mut reader = Lexer::from_str("break continue return");
    assert_tok(&mut reader, TokenKind::Break, 1, 1);
    assert_tok(&mut reader, TokenKind::Continue, 1, 7);
    assert_tok(&mut reader, TokenKind::Return, 1, 16);

    let mut reader = Lexer::from_str("type struct enum alias trait const");
    assert_tok(&mut reader, TokenKind::Type, 1, 1);
    assert_tok(&mut reader, TokenKind::Struct, 1, 6);
    assert_tok(&mut reader, TokenKind::Enum, 1, 13);
    assert_tok(&mut reader, TokenKind::Alias, 1, 18);
    assert_tok(&mut reader, TokenKind::Trait, 1, 24);
    assert_tok(&mut reader, TokenKind::Const, 1, 30);

    let mut reader = Lexer::from_str("for in impl Self mut");
    assert_tok(&mut reader, TokenKind::For, 1, 1);
    assert_tok(&mut reader, TokenKind::In, 1, 5);
    assert_tok(&mut reader, TokenKind::Impl, 1, 8);
    assert_tok(&mut reader, TokenKind::CapitalThis, 1, 13);
    assert_tok(&mut reader, TokenKind::Mut, 1, 18);
}

#[test]
fn test_operators() {
    let mut reader = Lexer::from_str("==-*/%.@...,");
    assert_tok(&mut reader, TokenKind::EqEq, 1, 1);
    assert_tok(&mut reader, TokenKind::Sub, 1, 3);
    assert_tok(&mut reader, TokenKind::Mul, 1, 4);
    assert_tok(&mut reader, TokenKind::Div, 1, 5);
    assert_tok(&mut reader, TokenKind::Modulo, 1, 6);
    assert_tok(&mut reader, TokenKind::Dot, 1, 7);
    assert_tok(&mut reader, TokenKind::At, 1, 8);
    assert_tok(&mut reader, TokenKind::DotDotDot, 1, 9);
    assert_tok(&mut reader, TokenKind::Comma, 1, 12);

    let mut reader = Lexer::from_str("<=<>=><");
    assert_tok(&mut reader, TokenKind::Le, 1, 1);
    assert_tok(&mut reader, TokenKind::Lt, 1, 3);
    assert_tok(&mut reader, TokenKind::Ge, 1, 4);
    assert_tok(&mut reader, TokenKind::Gt, 1, 6);
    assert_tok(&mut reader, TokenKind::Lt, 1, 7);

    let mut reader = Lexer::from_str("!=====!");
    assert_tok(&mut reader, TokenKind::NeEqEq, 1, 1);
    assert_tok(&mut reader, TokenKind::EqEqEq, 1, 4);
    assert_tok(&mut reader, TokenKind::Not, 1, 7);

    let mut reader = Lexer::from_str("!=!");
    assert_tok(&mut reader, TokenKind::NotEq, 1, 1);
    assert_tok(&mut reader, TokenKind::Not, 1, 3);

    let mut reader = Lexer::from_str("=>->");
    assert_tok(&mut reader, TokenKind::DoubleArrow, 1, 1);
    assert_tok(&mut reader, TokenKind::Arrow, 1, 3);

    let mut reader = Lexer::from_str(">><<>>>_::");
    assert_tok(&mut reader, TokenKind::GtGt, 1, 1);
    assert_tok(&mut reader, TokenKind::LtLt, 1, 3);
    assert_tok(&mut reader, TokenKind::GtGtGt, 1, 5);
    assert_tok(&mut reader, TokenKind::Underscore, 1, 8);
    assert_tok(&mut reader, TokenKind::ColonColon, 1, 9);
}
