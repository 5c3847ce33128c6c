use oxyjs::parser::ast_builder::{FullToken, FullTokenizerMode};
use oxyjs::parser::char_utils::AsciiChar;
use oxyjs::parser::input_stream::VecInputStream;
use oxyjs::parser::token_kind::TokenKind;
use oxyjs::parser::tokenizer::{dec_string, TokenError, Tokenizer};

fn make_tokenizer(src: &str) -> Tokenizer {
    oxyjs::initialize_library();
    let stream = VecInputStream::new(src.as_bytes().to_vec());
    Tokenizer::new(stream, FullTokenizerMode {})
}

fn lex_all(src: &str) -> Vec<FullToken> {
    let mut tokenizer = make_tokenizer(src);
    let mut out = Vec::new();
    loop {
        let tok = tokenizer.next_token(true);
        let kind = tok.kind();
        out.push(tok);
        if kind.is_end() || kind.is_error() {
            break;
        }
    }
    out
}

/// The lexeme round-trip: tokenizing a single lexeme yields one token
/// whose location slices back to exactly that lexeme's bytes.
fn assert_single_lexeme(src: &str, check: impl Fn(TokenKind) -> bool) {
    let toks = lex_all(src);
    assert_eq!(toks.len(), 2, "expected one token plus end for {:?}", src);
    let tok = &toks[0];
    assert!(check(tok.kind()), "unexpected kind for {:?}: {}", src, tok.kind().name());
    let start = tok.location().start_offset().value() as usize;
    let end = tok.location().end_offset().value() as usize;
    assert_eq!(&src.as_bytes()[start..end], src.as_bytes(), "lexeme slice mismatch for {:?}", src);
    assert_eq!(start, 0);
    assert_eq!(end, src.len());
    assert!(toks[1].kind().is_end());
}

#[test]
fn round_trip_whitespace_and_identifiers() {
    assert_single_lexeme("   \t ", |k| k.is_whitespace());
    assert_single_lexeme("abc_1$", |k| k.is_identifier());
    assert_single_lexeme("_", |k| k.is_identifier());
}

#[test]
fn round_trip_numbers() {
    assert_single_lexeme("0", |k| k.is_integer_literal());
    assert_single_lexeme("123", |k| k.is_integer_literal());
    assert_single_lexeme("0x1Fa", |k| k.is_hex_integer_literal());
    assert_single_lexeme("0755", |k| k.is_oct_integer_literal());
    assert_single_lexeme("1.5", |k| k.is_float_literal());
    assert_single_lexeme("0.25", |k| k.is_float_literal());
    assert_single_lexeme("0.", |k| k.is_float_literal());
    assert_single_lexeme("1e10", |k| k.is_float_literal());
    assert_single_lexeme("2.5e-3", |k| k.is_float_literal());
    assert_single_lexeme("7E+2", |k| k.is_float_literal());
}

#[test]
fn round_trip_operators_and_punctuation() {
    assert_single_lexeme("(", |k| k.is_open_paren());
    assert_single_lexeme("}", |k| k.is_close_brace());
    assert_single_lexeme(";", |k| k.is_semicolon());
    assert_single_lexeme("~", |k| k.is_tilde());
    assert_single_lexeme("=", |k| k.is_assign());
    assert_single_lexeme("==", |k| k.is_equal());
    assert_single_lexeme("===", |k| k.is_strict_equal());
    assert_single_lexeme("!=", |k| k.is_not_equal());
    assert_single_lexeme("!==", |k| k.is_strict_not_equal());
    assert_single_lexeme("<", |k| k.is_less());
    assert_single_lexeme("<=", |k| k.is_less_equal());
    assert_single_lexeme("<<", |k| k.is_shift_left());
    assert_single_lexeme("<<=", |k| k.is_shift_left_assign());
    assert_single_lexeme(">>", |k| k.is_shift_right());
    assert_single_lexeme(">>>", |k| k.is_arithmetic_shift_right());
    assert_single_lexeme(">>>=", |k| k.is_arithmetic_shift_right_assign());
    assert_single_lexeme("++", |k| k.is_plus_plus());
    assert_single_lexeme("--", |k| k.is_minus_minus());
    assert_single_lexeme("+=", |k| k.is_plus_assign());
    assert_single_lexeme("&&", |k| k.is_logical_and());
    assert_single_lexeme("||", |k| k.is_logical_or());
    assert_single_lexeme("&=", |k| k.is_bit_and_assign());
    assert_single_lexeme("^", |k| k.is_bit_xor());
    assert_single_lexeme("/", |k| k.is_slash());
    assert_single_lexeme("/=", |k| k.is_slash_assign());
    assert_single_lexeme("%", |k| k.is_percent());
}

#[test]
fn round_trip_comments_and_newlines() {
    assert_single_lexeme("// hi", |k| k.is_comment());
    assert_single_lexeme("// hi\n", |k| k.is_comment());
    assert_single_lexeme("/* block */", |k| k.is_comment());
    assert_single_lexeme("/* a * b **/", |k| k.is_comment());
    assert_single_lexeme("\n", |k| k.is_newline());
    assert_single_lexeme("\r", |k| k.is_newline());
    assert_single_lexeme("\r\n", |k| k.is_newline());
}

#[test]
fn round_trip_keywords() {
    let kws: Vec<(&str, fn(&TokenKind) -> bool)> = vec![
        ("break", TokenKind::is_break_keyword),
        ("case", TokenKind::is_case_keyword),
        ("catch", TokenKind::is_catch_keyword),
        ("continue", TokenKind::is_continue_keyword),
        ("default", TokenKind::is_default_keyword),
        ("delete", TokenKind::is_delete_keyword),
        ("do", TokenKind::is_do_keyword),
        ("else", TokenKind::is_else_keyword),
        ("finally", TokenKind::is_finally_keyword),
        ("for", TokenKind::is_for_keyword),
        ("function", TokenKind::is_function_keyword),
        ("if", TokenKind::is_if_keyword),
        ("in", TokenKind::is_in_keyword),
        ("instanceof", TokenKind::is_instanceof_keyword),
        ("new", TokenKind::is_new_keyword),
        ("return", TokenKind::is_return_keyword),
        ("switch", TokenKind::is_switch_keyword),
        ("this", TokenKind::is_this_keyword),
        ("throw", TokenKind::is_throw_keyword),
        ("try", TokenKind::is_try_keyword),
        ("typeof", TokenKind::is_typeof_keyword),
        ("var", TokenKind::is_var_keyword),
        ("void", TokenKind::is_void_keyword),
        ("while", TokenKind::is_while_keyword),
    ];
    for (text, pred) in kws {
        let toks = lex_all(text);
        assert_eq!(toks.len(), 2, "keyword {:?}", text);
        assert!(pred(&toks[0].kind()), "keyword {:?} got {}", text, toks[0].kind().name());
        assert_eq!(toks[0].location().end_offset().value() as usize, text.len());
    }
}

/// Keyword boundary: a tail-word collision without confirmation must
/// fall through to a plain identifier.
#[test]
fn keyword_boundary() {
    assert_single_lexeme("thistle", |k| k.is_identifier());
    assert_single_lexeme("xthis", |k| k.is_identifier());
    assert_single_lexeme("contXinue", |k| k.is_identifier());
    assert_single_lexeme("iffy", |k| k.is_identifier());
    assert_single_lexeme("varx", |k| k.is_identifier());
    assert_single_lexeme("xvar", |k| k.is_identifier());
    assert_single_lexeme("newt", |k| k.is_identifier());
    assert_single_lexeme("win", |k| k.is_identifier());
    assert_single_lexeme("donut", |k| k.is_identifier());
    assert_single_lexeme("instancexceof", |k| k.is_identifier());
}

/// When keyword checking is off, every keyword is a plain identifier.
#[test]
fn keywords_off() {
    let mut tokenizer = make_tokenizer("var");
    let tok = tokenizer.next_token(false);
    assert!(tok.kind().is_identifier());
}

#[test]
fn token_stream_sequence() {
    let toks = lex_all("var x=1;");
    let kinds: Vec<&str> = toks.iter().map(|t| t.kind().name()).collect();
    assert_eq!(
        kinds,
        vec![
            "var_keyword",
            "whitespace",
            "identifier",
            "assign",
            "integer_literal",
            "semicolon",
            "end"
        ]
    );
}

/// Pushback idempotence: a pushed-back token is re-delivered unchanged.
#[test]
fn pushback_idempotence() {
    let mut tokenizer = make_tokenizer("foo bar");
    let t1 = tokenizer.next_token(true);
    assert!(t1.kind().is_identifier());
    tokenizer.push_back_token(t1.clone());
    let t2 = tokenizer.next_token(true);
    assert_eq!(t1, t2);
    // The stream continues where the token had ended.
    let t3 = tokenizer.next_token(true);
    assert!(t3.kind().is_whitespace());
}

/// Backtrack exactness: rewinding to a mark replays the same bytes.
#[test]
fn backtrack_exactness() {
    let mut stream = VecInputStream::new(b"abc".to_vec());
    let first = stream.read_ascii();
    assert_eq!(first.octet_value(), b'a');
    let mark = stream.mark();
    let b1 = stream.read_ascii();
    let c1 = stream.read_ascii();
    stream.rewind(mark);
    let b2 = stream.read_ascii();
    let c2 = stream.read_ascii();
    assert_eq!(b1.octet_value(), b2.octet_value());
    assert_eq!(c1.octet_value(), c2.octet_value());
    assert_eq!(b2.octet_value(), b'b');
    assert_eq!(c2.octet_value(), b'c');
}

#[test]
fn tokenizer_position_rewind() {
    let mut tokenizer = make_tokenizer("a b");
    let pos = tokenizer.mark_position();
    let t1 = tokenizer.next_token(true);
    assert!(t1.kind().is_identifier());
    tokenizer.rewind_position(pos);
    let t2 = tokenizer.next_token(true);
    assert_eq!(t1, t2);
}

#[test]
fn unread_ascii_restores_byte() {
    let mut stream = VecInputStream::new(b"xy".to_vec());
    let x = stream.read_ascii();
    stream.unread_ascii(x);
    let x2 = stream.read_ascii();
    assert_eq!(x.octet_value(), x2.octet_value());
    assert_eq!(x2.octet_value(), b'x');
}

#[test]
fn check_ascii_text_matches() {
    let stream = VecInputStream::new(b"function".to_vec());
    let start = stream.mark();
    assert!(stream.check_ascii_text("func", start));
    assert!(!stream.check_ascii_text("fund", start));
}

fn expect_error(src: &[u8], expected: TokenError) {
    oxyjs::initialize_library();
    let stream = VecInputStream::new(src.to_vec());
    let mut tokenizer = Tokenizer::new(stream, FullTokenizerMode {});
    loop {
        let tok = tokenizer.next_token(true);
        if tok.kind().is_error() {
            assert_eq!(tokenizer.get_error(), expected, "for {:?}", src);
            return;
        }
        if tok.kind().is_end() {
            panic!("no error raised for {:?}", src);
        }
    }
}

#[test]
fn lexical_errors() {
    expect_error(b"0x", TokenError::BadNumber);
    expect_error(b"0xg", TokenError::BadNumber);
    expect_error(b"123abc", TokenError::BadNumber);
    expect_error(b"078", TokenError::BadNumber);
    expect_error(b"1e", TokenError::PrematureEnd(TokenKind::float_literal()));
    expect_error(b"1e+", TokenError::PrematureEnd(TokenKind::float_literal()));
    expect_error(b"1e.", TokenError::BadNumber);
    expect_error(b"/* open", TokenError::PrematureEnd(TokenKind::newline()));
    expect_error(b"@", TokenError::UnrecognizedChar('@'));
    expect_error(b"#", TokenError::UnrecognizedChar('#'));
    expect_error(&[0x80], TokenError::CantHandleUnicodeYet);
    expect_error(b"0\xc3\xa9", TokenError::CantHandleUnicodeYet);
}

#[test]
fn ascii_char_classifiers() {
    let a = AsciiChar::new(b'a');
    assert!(a.is_identifier_start());
    assert!(a.is_hex_digit());
    assert!(!a.is_digit());
    let nine = AsciiChar::new(b'9');
    assert!(nine.is_digit());
    assert!(nine.is_identifier_continue());
    assert!(!nine.is_identifier_start());
    assert!(!nine.is_oct_digit());
    let seven = AsciiChar::new(b'7');
    assert!(seven.is_oct_digit());
    let end = AsciiChar::end();
    assert!(end.is_end());
    assert!(end.is_ascii_or_end());
    assert!(!end.is_identifier_continue());
    let ws = AsciiChar::new(b' ');
    assert!(ws.is_whitespace());
    let cr = AsciiChar::new(b'\r');
    assert!(cr.is_carriage_return());
    let lf = AsciiChar::new(b'\n');
    assert!(lf.is_line_feed());
}

#[test]
fn token_kind_groups() {
    assert!(TokenKind::plus_assign().is_assignment_op());
    assert!(TokenKind::assign().is_assignment_op());
    assert!(TokenKind::bit_xor_assign().is_assignment_op());
    assert!(!TokenKind::plus().is_assignment_op());
    assert!(TokenKind::var_keyword().is_keyword());
    assert!(!TokenKind::identifier().is_keyword());
    assert!(TokenKind::identifier().is_atomic_expr());
    assert!(TokenKind::float_literal().is_atomic_expr());
    assert!(!TokenKind::plus().is_atomic_expr());
    assert!(TokenKind::bang().is_unary_op());
    assert!(TokenKind::typeof_keyword().is_unary_op());
    assert!(TokenKind::strict_equal().is_equality_op());
    assert!(TokenKind::less().is_relational_op());
    assert!(TokenKind::instanceof_keyword().is_relational_op());
    assert!(TokenKind::shift_left().is_shift_op());
    assert_eq!(TokenKind::error().name(), "error");
    assert_eq!(TokenKind::while_keyword().name(), "while_keyword");
}

#[test]
fn decimal_strings() {
    assert_eq!(dec_string(0), "0");
    assert_eq!(dec_string(7), "7");
    assert_eq!(dec_string(10), "10");
    assert_eq!(dec_string(1234567), "1234567");
    assert_eq!(dec_string(u32::MAX), "4294967295");
}

#[test]
fn location_range_string() {
    let toks = lex_all("abc");
    assert_eq!(toks[0].location().range_string(), "0-3");
    assert_eq!(toks[0].token_string(), "Token(identifier@0-3)");
}
