//! The tokenizer: consumes the input stream and produces tokens on
//! demand, with one token of pushback and position-based backtracking.
//!
//! The lexical rules are stated by the `scan_*` specification functions
//! in this module; `Tokenizer::next_token` is verified against them.

use vstd::prelude::*;
use crate::parser::ast_builder::{FullToken, FullTokenizerMode};
use crate::parser::char_utils::AsciiChar;
use crate::parser::char_utils::{
    digit_code,
    hex_digit_code,
    identifier_continue_code,
    identifier_start_code,
    oct_digit_code,
    ws_code,
};
use crate::parser::fingerprint::{
    lemma_ident_tail,
    lemma_scan_while,
    lemma_tail_fp_small,
    pack2,
    pack3,
    pack4,
    scan_while,
    tail_fp,
};
use crate::parser::input_stream::{StreamPosition, VecInputStream};
use crate::parser::token_kind::TokenKind;
use crate::parser::token_kind::{
    TOK_ARITHMETIC_SHIFT_RIGHT, TOK_ARITHMETIC_SHIFT_RIGHT_ASSIGN, TOK_ASSIGN, TOK_BANG,
    TOK_BIT_AND, TOK_BIT_AND_ASSIGN, TOK_BIT_OR, TOK_BIT_OR_ASSIGN, TOK_BIT_XOR,
    TOK_BIT_XOR_ASSIGN, TOK_BREAK_KEYWORD, TOK_CASE_KEYWORD, TOK_CATCH_KEYWORD, TOK_CLOSE_BRACE,
    TOK_CLOSE_BRACKET, TOK_CLOSE_PAREN, TOK_COLON, TOK_COMMA, TOK_COMMENT, TOK_CONTINUE_KEYWORD,
    TOK_DEFAULT_KEYWORD, TOK_DELETE_KEYWORD, TOK_DO_KEYWORD, TOK_DOT, TOK_ELSE_KEYWORD, TOK_END,
    TOK_EQUAL, TOK_ERROR, TOK_FINALLY_KEYWORD, TOK_FLOAT_LITERAL, TOK_FOR_KEYWORD,
    TOK_FUNCTION_KEYWORD, TOK_GREATER, TOK_GREATER_EQUAL, TOK_HEX_INTEGER_LITERAL,
    TOK_IDENTIFIER, TOK_IF_KEYWORD, TOK_IN_KEYWORD, TOK_INSTANCEOF_KEYWORD,
    TOK_INTEGER_LITERAL, TOK_LESS, TOK_LESS_EQUAL, TOK_LOGICAL_AND, TOK_LOGICAL_OR, TOK_MINUS,
    TOK_MINUS_ASSIGN, TOK_MINUS_MINUS, TOK_NEWLINE, TOK_NEW_KEYWORD, TOK_NOT_EQUAL,
    TOK_OCT_INTEGER_LITERAL, TOK_OPEN_BRACE, TOK_OPEN_BRACKET, TOK_OPEN_PAREN, TOK_PERCENT,
    TOK_PERCENT_ASSIGN, TOK_PLUS, TOK_PLUS_ASSIGN, TOK_PLUS_PLUS, TOK_QUESTION,
    TOK_RETURN_KEYWORD, TOK_SEMICOLON, TOK_SHIFT_LEFT, TOK_SHIFT_LEFT_ASSIGN, TOK_SHIFT_RIGHT,
    TOK_SHIFT_RIGHT_ASSIGN, TOK_SLASH, TOK_SLASH_ASSIGN, TOK_STAR, TOK_STAR_ASSIGN,
    TOK_STRICT_EQUAL, TOK_STRICT_NOT_EQUAL, TOK_SWITCH_KEYWORD, TOK_THIS_KEYWORD,
    TOK_THROW_KEYWORD, TOK_TILDE, TOK_TRY_KEYWORD, TOK_TYPEOF_KEYWORD, TOK_VAR_KEYWORD,
    TOK_VOID_KEYWORD, TOK_WHILE_KEYWORD, TOK_WHITESPACE,
};

verus! {

broadcast use crate::parser::token_kind::lemma_kind_from_id, crate::parser::token_kind::lemma_kind_id_injective, crate::parser::fingerprint::lemma_pack4_injective, crate::parser::fingerprint::lemma_pack3_injective, crate::parser::fingerprint::lemma_pack2_injective, crate::parser::fingerprint::lemma_pack4_range, crate::parser::fingerprint::lemma_pack3_range, crate::parser::fingerprint::lemma_pack2_range;

/// A lexical error. Once the tokenizer has raised one, the current
/// tokenization attempt is over and the parse must be treated as failed.
#[derive(Debug, Clone, Copy, PartialEq, Eq, Structural)]
pub enum TokenError {
    PrematureEnd(TokenKind),
    CantHandleUnicodeYet,
    BadNumber,
    UnrecognizedChar(char),
}

/// The raw information required to extract a token's text from the
/// source buffer: its start and end byte offsets. The token never owns a
/// copy of its text.
#[derive(Debug, Clone, Copy, PartialEq, Eq, Structural)]
pub struct TokenLocation {
    start_offset: StreamPosition,
    end_offset: StreamPosition,
}

impl TokenLocation {
    pub closed spec fn spec_start_offset(self) -> StreamPosition {
        self.start_offset
    }

    pub closed spec fn spec_end_offset(self) -> StreamPosition {
        self.end_offset
    }

    pub fn new(start_offset: StreamPosition, end_offset: StreamPosition) -> (r: TokenLocation)
        ensures
            r.spec_start_offset() == start_offset,
            r.spec_end_offset() == end_offset,
    {
        TokenLocation { start_offset, end_offset }
    }

    pub fn default() -> (r: TokenLocation)
        ensures
            r.spec_start_offset().spec_value() == u32::MAX,
            r.spec_end_offset().spec_value() == u32::MAX,
    {
        Self::new(StreamPosition::default(), StreamPosition::default())
    }

    pub fn start_offset(&self) -> (r: StreamPosition)
        ensures
            r == self.spec_start_offset(),
    {
        self.start_offset
    }

    pub fn end_offset(&self) -> (r: StreamPosition)
        ensures
            r == self.spec_end_offset(),
    {
        self.end_offset
    }

    /// The location as text: the start and end offsets in decimal,
    /// separated by a dash.
    pub fn range_string(&self) -> (r: String)
        ensures
            r@ == dec_str(self.spec_start_offset().spec_value() as nat) + "-"@ + dec_str(
                self.spec_end_offset().spec_value() as nat,
            ),
    {
        let mut s = dec_string(self.start_offset.value());
        s.append("-");
        let tail = dec_string(self.end_offset.value());
        s.append(tail.as_str());
        s
    }
}

/// The decimal digit character for a value below ten.
pub open spec fn dec_digit(d: int) -> char {
    if d == 0 {
        '0'
    } else if d == 1 {
        '1'
    } else if d == 2 {
        '2'
    } else if d == 3 {
        '3'
    } else if d == 4 {
        '4'
    } else if d == 5 {
        '5'
    } else if d == 6 {
        '6'
    } else if d == 7 {
        '7'
    } else if d == 8 {
        '8'
    } else {
        '9'
    }
}

/// The decimal spelling of a number, most significant digit first.
pub open spec fn dec_str(n: nat) -> Seq<char>
    decreases n,
{
    if n < 10 {
        seq![dec_digit(n as int)]
    } else {
        dec_str(n / 10).push(dec_digit((n % 10) as int))
    }
}

/// One decimal digit as text.
fn dec_digit_str(d: u32) -> (r: &'static str)
    requires
        d < 10,
    ensures
        r@ == seq![dec_digit(d as int)],
{
    proof {
        reveal_strlit("0");
        reveal_strlit("1");
        reveal_strlit("2");
        reveal_strlit("3");
        reveal_strlit("4");
        reveal_strlit("5");
        reveal_strlit("6");
        reveal_strlit("7");
        reveal_strlit("8");
        reveal_strlit("9");
    }
    let r: &'static str = if d == 0 {
        "0"
    } else if d == 1 {
        "1"
    } else if d == 2 {
        "2"
    } else if d == 3 {
        "3"
    } else if d == 4 {
        "4"
    } else if d == 5 {
        "5"
    } else if d == 6 {
        "6"
    } else if d == 7 {
        "7"
    } else if d == 8 {
        "8"
    } else {
        "9"
    };
    proof {
        assert(r@ =~= seq![dec_digit(d as int)]);
    }
    r
}

/// The decimal spelling of a value, as a string.
pub fn dec_string(v: u32) -> (r: String)
    ensures
        r@ == dec_str(v as nat),
    decreases v,
{
    if v < 10 {
        let mut s = String::new();
        s.append(dec_digit_str(v));
        proof {
            assert(s@ =~= dec_str(v as nat));
        }
        s
    } else {
        let mut s = dec_string(v / 10);
        s.append(dec_digit_str(v % 10));
        proof {
            assert(s@ =~= dec_str(v as nat));
        }
        s
    }
}

impl TokenLocation {
    /// The location spanning the given offsets.
    pub closed spec fn at(start: int, end: int) -> TokenLocation {
        TokenLocation {
            start_offset: StreamPosition::at(start as u32),
            end_offset: StreamPosition::at(end as u32),
        }
    }

    /// A location is determined by its two offsets.
    pub proof fn lemma_fixed_by_offsets(l: TokenLocation, start: int, end: int)
        requires
            l.spec_start_offset().spec_value() == start,
            l.spec_end_offset().spec_value() == end,
        ensures
            l == TokenLocation::at(start, end),
    {
        StreamPosition::lemma_at_value(start as u32);
        StreamPosition::lemma_at_value(end as u32);
        StreamPosition::lemma_fixed_by_value(l.spec_start_offset(), StreamPosition::at(
            start as u32,
        ));
        StreamPosition::lemma_fixed_by_value(l.spec_end_offset(), StreamPosition::at(end as u32));
    }
}

/// A position in the token stream that the tokenizer can rewind to: the
/// byte offset at which the next token would start.
#[derive(Debug, Clone, Copy, PartialEq, Eq, Structural)]
pub struct TokenizerPosition {
    position: StreamPosition,
}

impl TokenizerPosition {
    pub closed spec fn spec_value(self) -> u32 {
        self.position.spec_value()
    }

    #[verifier::when_used_as_spec(spec_value)]
    pub fn value(self) -> (r: u32)
        ensures
            r == self.spec_value(),
    {
        self.position.value()
    }
}

/// What one scan of the tokenizer does: the kind of the token it emits
/// (as a `TOK_*` identifier), the byte offset its cursor stops at, and
/// the lexical error it raises, if any (in which case the emitted token
/// has the error kind).
pub struct ScanResult {
    pub kind: u8,
    pub end: int,
    pub err: Option<TokenError>,
}

/// A successfully scanned token ending at `end`.
pub open spec fn scan_ok(kind: u8, end: int) -> ScanResult {
    ScanResult { kind, end, err: None }
}

/// A failed scan: the emitted token has the error kind and spans up to
/// `end`, and `err` is recorded.
pub open spec fn scan_fail(err: TokenError, end: int) -> ScanResult {
    ScanResult { kind: TOK_ERROR, end, err: Some(err) }
}


/// The byte code at `i`, or the end sentinel -1 past the buffer.
pub open spec fn peek(data: Seq<u8>, i: int) -> int {
    if 0 <= i < data.len() {
        data[i] as int
    } else {
        -1
    }
}

/// The single-character token table: the kind for a byte that alone
/// forms a token, or `TOK_ERROR` for every other byte.
pub open spec fn single_char_kind(c: int) -> u8 {
    if c == '(' as int {
        TOK_OPEN_PAREN
    } else if c == ')' as int {
        TOK_CLOSE_PAREN
    } else if c == '[' as int {
        TOK_OPEN_BRACKET
    } else if c == ']' as int {
        TOK_CLOSE_BRACKET
    } else if c == '{' as int {
        TOK_OPEN_BRACE
    } else if c == '}' as int {
        TOK_CLOSE_BRACE
    } else if c == '.' as int {
        TOK_DOT
    } else if c == ';' as int {
        TOK_SEMICOLON
    } else if c == ',' as int {
        TOK_COMMA
    } else if c == '?' as int {
        TOK_QUESTION
    } else if c == ':' as int {
        TOK_COLON
    } else if c == '~' as int {
        TOK_TILDE
    } else {
        TOK_ERROR
    }
}

/// Keyword recognition: an identifier span is a reserved keyword
/// exactly when its bytes spell that keyword.
pub open spec fn is_kw_break(data: Seq<u8>, start: int, end: int) -> bool {
    &&& end - start == 5
    &&& data[start + 0] as int == 'b' as int
    &&& data[start + 1] as int == 'r' as int
    &&& data[start + 2] as int == 'e' as int
    &&& data[start + 3] as int == 'a' as int
    &&& data[start + 4] as int == 'k' as int
}

pub open spec fn is_kw_case(data: Seq<u8>, start: int, end: int) -> bool {
    &&& end - start == 4
    &&& data[start + 0] as int == 'c' as int
    &&& data[start + 1] as int == 'a' as int
    &&& data[start + 2] as int == 's' as int
    &&& data[start + 3] as int == 'e' as int
}

pub open spec fn is_kw_catch(data: Seq<u8>, start: int, end: int) -> bool {
    &&& end - start == 5
    &&& data[start + 0] as int == 'c' as int
    &&& data[start + 1] as int == 'a' as int
    &&& data[start + 2] as int == 't' as int
    &&& data[start + 3] as int == 'c' as int
    &&& data[start + 4] as int == 'h' as int
}

pub open spec fn is_kw_continue(data: Seq<u8>, start: int, end: int) -> bool {
    &&& end - start == 8
    &&& data[start + 0] as int == 'c' as int
    &&& data[start + 1] as int == 'o' as int
    &&& data[start + 2] as int == 'n' as int
    &&& data[start + 3] as int == 't' as int
    &&& data[start + 4] as int == 'i' as int
    &&& data[start + 5] as int == 'n' as int
    &&& data[start + 6] as int == 'u' as int
    &&& data[start + 7] as int == 'e' as int
}

pub open spec fn is_kw_default(data: Seq<u8>, start: int, end: int) -> bool {
    &&& end - start == 7
    &&& data[start + 0] as int == 'd' as int
    &&& data[start + 1] as int == 'e' as int
    &&& data[start + 2] as int == 'f' as int
    &&& data[start + 3] as int == 'a' as int
    &&& data[start + 4] as int == 'u' as int
    &&& data[start + 5] as int == 'l' as int
    &&& data[start + 6] as int == 't' as int
}

pub open spec fn is_kw_delete(data: Seq<u8>, start: int, end: int) -> bool {
    &&& end - start == 6
    &&& data[start + 0] as int == 'd' as int
    &&& data[start + 1] as int == 'e' as int
    &&& data[start + 2] as int == 'l' as int
    &&& data[start + 3] as int == 'e' as int
    &&& data[start + 4] as int == 't' as int
    &&& data[start + 5] as int == 'e' as int
}

pub open spec fn is_kw_do(data: Seq<u8>, start: int, end: int) -> bool {
    &&& end - start == 2
    &&& data[start + 0] as int == 'd' as int
    &&& data[start + 1] as int == 'o' as int
}

pub open spec fn is_kw_else(data: Seq<u8>, start: int, end: int) -> bool {
    &&& end - start == 4
    &&& data[start + 0] as int == 'e' as int
    &&& data[start + 1] as int == 'l' as int
    &&& data[start + 2] as int == 's' as int
    &&& data[start + 3] as int == 'e' as int
}

pub open spec fn is_kw_finally(data: Seq<u8>, start: int, end: int) -> bool {
    &&& end - start == 7
    &&& data[start + 0] as int == 'f' as int
    &&& data[start + 1] as int == 'i' as int
    &&& data[start + 2] as int == 'n' as int
    &&& data[start + 3] as int == 'a' as int
    &&& data[start + 4] as int == 'l' as int
    &&& data[start + 5] as int == 'l' as int
    &&& data[start + 6] as int == 'y' as int
}

pub open spec fn is_kw_for(data: Seq<u8>, start: int, end: int) -> bool {
    &&& end - start == 3
    &&& data[start + 0] as int == 'f' as int
    &&& data[start + 1] as int == 'o' as int
    &&& data[start + 2] as int == 'r' as int
}

pub open spec fn is_kw_function(data: Seq<u8>, start: int, end: int) -> bool {
    &&& end - start == 8
    &&& data[start + 0] as int == 'f' as int
    &&& data[start + 1] as int == 'u' as int
    &&& data[start + 2] as int == 'n' as int
    &&& data[start + 3] as int == 'c' as int
    &&& data[start + 4] as int == 't' as int
    &&& data[start + 5] as int == 'i' as int
    &&& data[start + 6] as int == 'o' as int
    &&& data[start + 7] as int == 'n' as int
}

pub open spec fn is_kw_if(data: Seq<u8>, start: int, end: int) -> bool {
    &&& end - start == 2
    &&& data[start + 0] as int == 'i' as int
    &&& data[start + 1] as int == 'f' as int
}

pub open spec fn is_kw_in(data: Seq<u8>, start: int, end: int) -> bool {
    &&& end - start == 2
    &&& data[start + 0] as int == 'i' as int
    &&& data[start + 1] as int == 'n' as int
}

pub open spec fn is_kw_instanceof(data: Seq<u8>, start: int, end: int) -> bool {
    &&& end - start == 10
    &&& data[start + 0] as int == 'i' as int
    &&& data[start + 1] as int == 'n' as int
    &&& data[start + 2] as int == 's' as int
    &&& data[start + 3] as int == 't' as int
    &&& data[start + 4] as int == 'a' as int
    &&& data[start + 5] as int == 'n' as int
    &&& data[start + 6] as int == 'c' as int
    &&& data[start + 7] as int == 'e' as int
    &&& data[start + 8] as int == 'o' as int
    &&& data[start + 9] as int == 'f' as int
}

pub open spec fn is_kw_new(data: Seq<u8>, start: int, end: int) -> bool {
    &&& end - start == 3
    &&& data[start + 0] as int == 'n' as int
    &&& data[start + 1] as int == 'e' as int
    &&& data[start + 2] as int == 'w' as int
}

pub open spec fn is_kw_return(data: Seq<u8>, start: int, end: int) -> bool {
    &&& end - start == 6
    &&& data[start + 0] as int == 'r' as int
    &&& data[start + 1] as int == 'e' as int
    &&& data[start + 2] as int == 't' as int
    &&& data[start + 3] as int == 'u' as int
    &&& data[start + 4] as int == 'r' as int
    &&& data[start + 5] as int == 'n' as int
}

pub open spec fn is_kw_switch(data: Seq<u8>, start: int, end: int) -> bool {
    &&& end - start == 6
    &&& data[start + 0] as int == 's' as int
    &&& data[start + 1] as int == 'w' as int
    &&& data[start + 2] as int == 'i' as int
    &&& data[start + 3] as int == 't' as int
    &&& data[start + 4] as int == 'c' as int
    &&& data[start + 5] as int == 'h' as int
}

pub open spec fn is_kw_this(data: Seq<u8>, start: int, end: int) -> bool {
    &&& end - start == 4
    &&& data[start + 0] as int == 't' as int
    &&& data[start + 1] as int == 'h' as int
    &&& data[start + 2] as int == 'i' as int
    &&& data[start + 3] as int == 's' as int
}

pub open spec fn is_kw_throw(data: Seq<u8>, start: int, end: int) -> bool {
    &&& end - start == 5
    &&& data[start + 0] as int == 't' as int
    &&& data[start + 1] as int == 'h' as int
    &&& data[start + 2] as int == 'r' as int
    &&& data[start + 3] as int == 'o' as int
    &&& data[start + 4] as int == 'w' as int
}

pub open spec fn is_kw_try(data: Seq<u8>, start: int, end: int) -> bool {
    &&& end - start == 3
    &&& data[start + 0] as int == 't' as int
    &&& data[start + 1] as int == 'r' as int
    &&& data[start + 2] as int == 'y' as int
}

pub open spec fn is_kw_typeof(data: Seq<u8>, start: int, end: int) -> bool {
    &&& end - start == 6
    &&& data[start + 0] as int == 't' as int
    &&& data[start + 1] as int == 'y' as int
    &&& data[start + 2] as int == 'p' as int
    &&& data[start + 3] as int == 'e' as int
    &&& data[start + 4] as int == 'o' as int
    &&& data[start + 5] as int == 'f' as int
}

pub open spec fn is_kw_var(data: Seq<u8>, start: int, end: int) -> bool {
    &&& end - start == 3
    &&& data[start + 0] as int == 'v' as int
    &&& data[start + 1] as int == 'a' as int
    &&& data[start + 2] as int == 'r' as int
}

pub open spec fn is_kw_void(data: Seq<u8>, start: int, end: int) -> bool {
    &&& end - start == 4
    &&& data[start + 0] as int == 'v' as int
    &&& data[start + 1] as int == 'o' as int
    &&& data[start + 2] as int == 'i' as int
    &&& data[start + 3] as int == 'd' as int
}

pub open spec fn is_kw_while(data: Seq<u8>, start: int, end: int) -> bool {
    &&& end - start == 5
    &&& data[start + 0] as int == 'w' as int
    &&& data[start + 1] as int == 'h' as int
    &&& data[start + 2] as int == 'i' as int
    &&& data[start + 3] as int == 'l' as int
    &&& data[start + 4] as int == 'e' as int
}

/// The kind of an identifier span: a keyword's kind where the bytes
/// spell it, else the plain identifier kind.
pub open spec fn keyword_kind_at(data: Seq<u8>, start: int, end: int) -> u8 {
    if is_kw_break(data, start, end) {
        TOK_BREAK_KEYWORD
    } else if is_kw_case(data, start, end) {
        TOK_CASE_KEYWORD
    } else if is_kw_catch(data, start, end) {
        TOK_CATCH_KEYWORD
    } else if is_kw_continue(data, start, end) {
        TOK_CONTINUE_KEYWORD
    } else if is_kw_default(data, start, end) {
        TOK_DEFAULT_KEYWORD
    } else if is_kw_delete(data, start, end) {
        TOK_DELETE_KEYWORD
    } else if is_kw_do(data, start, end) {
        TOK_DO_KEYWORD
    } else if is_kw_else(data, start, end) {
        TOK_ELSE_KEYWORD
    } else if is_kw_finally(data, start, end) {
        TOK_FINALLY_KEYWORD
    } else if is_kw_for(data, start, end) {
        TOK_FOR_KEYWORD
    } else if is_kw_function(data, start, end) {
        TOK_FUNCTION_KEYWORD
    } else if is_kw_if(data, start, end) {
        TOK_IF_KEYWORD
    } else if is_kw_in(data, start, end) {
        TOK_IN_KEYWORD
    } else if is_kw_instanceof(data, start, end) {
        TOK_INSTANCEOF_KEYWORD
    } else if is_kw_new(data, start, end) {
        TOK_NEW_KEYWORD
    } else if is_kw_return(data, start, end) {
        TOK_RETURN_KEYWORD
    } else if is_kw_switch(data, start, end) {
        TOK_SWITCH_KEYWORD
    } else if is_kw_this(data, start, end) {
        TOK_THIS_KEYWORD
    } else if is_kw_throw(data, start, end) {
        TOK_THROW_KEYWORD
    } else if is_kw_try(data, start, end) {
        TOK_TRY_KEYWORD
    } else if is_kw_typeof(data, start, end) {
        TOK_TYPEOF_KEYWORD
    } else if is_kw_var(data, start, end) {
        TOK_VAR_KEYWORD
    } else if is_kw_void(data, start, end) {
        TOK_VOID_KEYWORD
    } else if is_kw_while(data, start, end) {
        TOK_WHILE_KEYWORD
    } else {
        TOK_IDENTIFIER
    }
}

/// A `//` comment: consumed through the terminating newline, or to the
/// end of input.
pub open spec fn scan_line_comment(data: Seq<u8>, p: int) -> ScanResult
    decreases data.len() - p,
{
    if p >= data.len() {
        scan_ok(TOK_COMMENT, p)
    } else if data[p] as int == '\n' as int {
        scan_ok(TOK_COMMENT, p + 1)
    } else if data[p] as int == '\r' as int {
        scan_ok(TOK_COMMENT, if peek(data, p + 1) == '\n' as int {
            p + 2
        } else {
            p + 1
        })
    } else if data[p] >= 0x80 {
        scan_fail(TokenError::CantHandleUnicodeYet, p + 1)
    } else {
        scan_line_comment(data, p + 1)
    }
}

/// A `/* */` comment: consumed through the terminator; end of input
/// before it is a premature-end error.
pub open spec fn scan_block_comment(data: Seq<u8>, p: int) -> ScanResult
    decreases data.len() - p,
{
    if p >= data.len() {
        scan_fail(
            TokenError::PrematureEnd(crate::parser::token_kind::kind_from_id(TOK_NEWLINE)),
            p,
        )
    } else if data[p] as int == '*' as int {
        if peek(data, p + 1) == '/' as int {
            scan_ok(TOK_COMMENT, p + 2)
        } else {
            scan_block_comment(data, p + 1)
        }
    } else if data[p] >= 0x80 {
        scan_fail(TokenError::CantHandleUnicodeYet, p + 1)
    } else {
        scan_block_comment(data, p + 1)
    }
}

/// The trailing check shared by the integer-shaped literals: an
/// identifier-continuation byte right after a number is an error.
pub open spec fn scan_num_tail(data: Seq<u8>, e: int, kind: u8) -> ScanResult {
    if identifier_continue_code(peek(data, e)) {
        scan_fail(TokenError::BadNumber, e + 1)
    } else if peek(data, e) >= 0x80 {
        scan_fail(TokenError::CantHandleUnicodeYet, e + 1)
    } else {
        scan_ok(kind, e)
    }
}

/// A hex literal, after the `0x` prefix.
pub open spec fn scan_hex(data: Seq<u8>, p: int) -> ScanResult {
    if hex_digit_code(peek(data, p)) {
        scan_num_tail(data, scan_while(data, p + 1, |c: int| hex_digit_code(c)), TOK_HEX_INTEGER_LITERAL)
    } else if peek(data, p) >= 0x80 {
        scan_fail(TokenError::CantHandleUnicodeYet, p + 1)
    } else if peek(data, p) == -1 {
        scan_fail(TokenError::BadNumber, p)
    } else {
        scan_fail(TokenError::BadNumber, p + 1)
    }
}

/// An octal literal, after `0` and one further digit.
pub open spec fn scan_oct(data: Seq<u8>, p: int) -> ScanResult {
    scan_num_tail(data, scan_while(data, p, |c: int| oct_digit_code(c)), TOK_OCT_INTEGER_LITERAL)
}

/// The digit run of a float exponent, after its first digit.
pub open spec fn scan_exp_digits(data: Seq<u8>, p: int) -> ScanResult {
    scan_num_tail(data, scan_while(data, p, |c: int| digit_code(c)), TOK_FLOAT_LITERAL)
}

/// A float exponent, after the `e`/`E` sigil: an optional sign, then at
/// least one digit.
pub open spec fn scan_exponent(data: Seq<u8>, p: int) -> ScanResult {
    if peek(data, p) == '+' as int || peek(data, p) == '-' as int {
        if digit_code(peek(data, p + 1)) {
            scan_exp_digits(data, p + 2)
        } else if identifier_continue_code(peek(data, p + 1)) {
            scan_fail(TokenError::BadNumber, p + 2)
        } else if peek(data, p + 1) >= 0x80 {
            scan_fail(TokenError::CantHandleUnicodeYet, p + 2)
        } else if peek(data, p + 1) == -1 {
            scan_fail(
                TokenError::PrematureEnd(
                    crate::parser::token_kind::kind_from_id(TOK_FLOAT_LITERAL),
                ),
                p + 1,
            )
        } else {
            scan_fail(TokenError::BadNumber, p + 1)
        }
    } else if digit_code(peek(data, p)) {
        scan_exp_digits(data, p + 1)
    } else if identifier_continue_code(peek(data, p)) {
        scan_fail(TokenError::BadNumber, p + 1)
    } else if peek(data, p) >= 0x80 {
        scan_fail(TokenError::CantHandleUnicodeYet, p + 1)
    } else if peek(data, p) == -1 {
        scan_fail(
            TokenError::PrematureEnd(crate::parser::token_kind::kind_from_id(TOK_FLOAT_LITERAL)),
            p,
        )
    } else {
        scan_fail(TokenError::BadNumber, p)
    }
}

/// A float fraction, after the decimal point.
pub open spec fn scan_fraction(data: Seq<u8>, p: int) -> ScanResult {
    let e = scan_while(data, p, |c: int| digit_code(c));
    if peek(data, e) == 'e' as int || peek(data, e) == 'E' as int {
        scan_exponent(data, e + 1)
    } else if identifier_continue_code(peek(data, e)) {
        scan_fail(TokenError::BadNumber, e + 1)
    } else if peek(data, e) >= 0x80 {
        scan_fail(TokenError::CantHandleUnicodeYet, e + 1)
    } else {
        scan_ok(TOK_FLOAT_LITERAL, e)
    }
}

/// A decimal literal, after a leading non-zero digit, with optional
/// fraction and exponent extensions.
pub open spec fn scan_decimal(data: Seq<u8>, p: int) -> ScanResult {
    let e = scan_while(data, p, |c: int| digit_code(c));
    if peek(data, e) == '.' as int {
        scan_fraction(data, e + 1)
    } else if peek(data, e) == 'e' as int || peek(data, e) == 'E' as int {
        scan_exponent(data, e + 1)
    } else if identifier_continue_code(peek(data, e)) {
        scan_fail(TokenError::BadNumber, e + 1)
    } else if peek(data, e) >= 0x80 {
        scan_fail(TokenError::CantHandleUnicodeYet, e + 1)
    } else {
        scan_ok(TOK_INTEGER_LITERAL, e)
    }
}

/// A literal with a leading zero: hex, octal, float, or plain `0`.
pub open spec fn scan_zero_number(data: Seq<u8>, p: int) -> ScanResult {
    if peek(data, p) == 'x' as int || peek(data, p) == 'X' as int {
        scan_hex(data, p + 1)
    } else if digit_code(peek(data, p)) {
        scan_oct(data, p + 1)
    } else if peek(data, p) == '.' as int {
        scan_fraction(data, p + 1)
    } else if peek(data, p) == 'e' as int || peek(data, p) == 'E' as int {
        scan_exponent(data, p + 1)
    } else if identifier_continue_code(peek(data, p)) {
        scan_fail(TokenError::BadNumber, p + 1)
    } else if peek(data, p) >= 0x80 {
        scan_fail(TokenError::CantHandleUnicodeYet, p + 1)
    } else {
        scan_ok(TOK_INTEGER_LITERAL, p)
    }
}

/// What one fresh scan starting at `pos` produces: the lexical rules of
/// the language, in the tokenizer's dispatch order.
pub open spec fn scan_token(data: Seq<u8>, pos: int, check_kw: bool) -> ScanResult {
    if pos >= data.len() {
        scan_ok(TOK_END, pos)
    } else {
        let c = data[pos] as int;
        if ws_code(c) {
            scan_ok(TOK_WHITESPACE, scan_while(data, pos + 1, |b: int| ws_code(b)))
        } else if identifier_start_code(c) {
            let e = scan_while(data, pos + 1, |b: int| identifier_continue_code(b));
            scan_ok(
                if check_kw {
                    keyword_kind_at(data, pos, e)
                } else {
                    TOK_IDENTIFIER
                },
                e,
            )
        } else if single_char_kind(c) != TOK_ERROR {
            scan_ok(single_char_kind(c), pos + 1)
        } else if digit_code(c) {
            if c == '0' as int {
                scan_zero_number(data, pos + 1)
            } else {
                scan_decimal(data, pos + 1)
            }
        } else if c == '/' as int {
            if peek(data, pos + 1) == '/' as int {
                scan_line_comment(data, pos + 2)
            } else if peek(data, pos + 1) == '*' as int {
                scan_block_comment(data, pos + 2)
            } else if peek(data, pos + 1) == '=' as int {
                scan_ok(TOK_SLASH_ASSIGN, pos + 2)
            } else {
                scan_ok(TOK_SLASH, pos + 1)
            }
        } else if c == '=' as int {
            if peek(data, pos + 1) == '=' as int {
                if peek(data, pos + 2) == '=' as int {
                    scan_ok(TOK_STRICT_EQUAL, pos + 3)
                } else {
                    scan_ok(TOK_EQUAL, pos + 2)
                }
            } else {
                scan_ok(TOK_ASSIGN, pos + 1)
            }
        } else if c == '!' as int {
            if peek(data, pos + 1) == '=' as int {
                if peek(data, pos + 2) == '=' as int {
                    scan_ok(TOK_STRICT_NOT_EQUAL, pos + 3)
                } else {
                    scan_ok(TOK_NOT_EQUAL, pos + 2)
                }
            } else {
                scan_ok(TOK_BANG, pos + 1)
            }
        } else if c == '<' as int {
            if peek(data, pos + 1) == '=' as int {
                scan_ok(TOK_LESS_EQUAL, pos + 2)
            } else if peek(data, pos + 1) == '<' as int {
                if peek(data, pos + 2) == '=' as int {
                    scan_ok(TOK_SHIFT_LEFT_ASSIGN, pos + 3)
                } else {
                    scan_ok(TOK_SHIFT_LEFT, pos + 2)
                }
            } else {
                scan_ok(TOK_LESS, pos + 1)
            }
        } else if c == '>' as int {
            if peek(data, pos + 1) == '=' as int {
                scan_ok(TOK_GREATER_EQUAL, pos + 2)
            } else if peek(data, pos + 1) == '>' as int {
                if peek(data, pos + 2) == '=' as int {
                    scan_ok(TOK_SHIFT_RIGHT_ASSIGN, pos + 3)
                } else if peek(data, pos + 2) == '>' as int {
                    if peek(data, pos + 3) == '=' as int {
                        scan_ok(TOK_ARITHMETIC_SHIFT_RIGHT_ASSIGN, pos + 4)
                    } else {
                        scan_ok(TOK_ARITHMETIC_SHIFT_RIGHT, pos + 3)
                    }
                } else {
                    scan_ok(TOK_SHIFT_RIGHT, pos + 2)
                }
            } else {
                scan_ok(TOK_GREATER, pos + 1)
            }
        } else if c == '*' as int {
            if peek(data, pos + 1) == '=' as int {
                scan_ok(TOK_STAR_ASSIGN, pos + 2)
            } else {
                scan_ok(TOK_STAR, pos + 1)
            }
        } else if c == '+' as int {
            if peek(data, pos + 1) == '+' as int {
                scan_ok(TOK_PLUS_PLUS, pos + 2)
            } else if peek(data, pos + 1) == '=' as int {
                scan_ok(TOK_PLUS_ASSIGN, pos + 2)
            } else {
                scan_ok(TOK_PLUS, pos + 1)
            }
        } else if c == '-' as int {
            if peek(data, pos + 1) == '-' as int {
                scan_ok(TOK_MINUS_MINUS, pos + 2)
            } else if peek(data, pos + 1) == '=' as int {
                scan_ok(TOK_MINUS_ASSIGN, pos + 2)
            } else {
                scan_ok(TOK_MINUS, pos + 1)
            }
        } else if c == '%' as int {
            if peek(data, pos + 1) == '=' as int {
                scan_ok(TOK_PERCENT_ASSIGN, pos + 2)
            } else {
                scan_ok(TOK_PERCENT, pos + 1)
            }
        } else if c == '&' as int {
            if peek(data, pos + 1) == '=' as int {
                scan_ok(TOK_BIT_AND_ASSIGN, pos + 2)
            } else if peek(data, pos + 1) == '&' as int {
                scan_ok(TOK_LOGICAL_AND, pos + 2)
            } else {
                scan_ok(TOK_BIT_AND, pos + 1)
            }
        } else if c == '|' as int {
            if peek(data, pos + 1) == '=' as int {
                scan_ok(TOK_BIT_OR_ASSIGN, pos + 2)
            } else if peek(data, pos + 1) == '|' as int {
                scan_ok(TOK_LOGICAL_OR, pos + 2)
            } else {
                scan_ok(TOK_BIT_OR, pos + 1)
            }
        } else if c == '^' as int {
            if peek(data, pos + 1) == '=' as int {
                scan_ok(TOK_BIT_XOR_ASSIGN, pos + 2)
            } else {
                scan_ok(TOK_BIT_XOR, pos + 1)
            }
        } else if c == '\n' as int {
            scan_ok(TOK_NEWLINE, pos + 1)
        } else if c == '\r' as int {
            scan_ok(TOK_NEWLINE, if peek(data, pos + 1) == '\n' as int {
                pos + 2
            } else {
                pos + 1
            })
        } else if c >= 0x80 {
            scan_fail(TokenError::CantHandleUnicodeYet, pos + 1)
        } else {
            scan_fail(TokenError::UnrecognizedChar(data[pos] as char), pos + 1)
        }
    }
}


/// The common postcondition of one scanning helper: the stream advanced
/// to the scan's end, the scan's error (if any) was recorded, and the
/// returned token carries the scan's kind over the token's span.
spec fn scanned(pre: Tokenizer, post: Tokenizer, r: FullToken, res: ScanResult) -> bool {
    &&& post.wf()
    &&& post.bytes() == pre.bytes()
    &&& post.pushback() == pre.pushback()
    &&& post.token_start_position == pre.token_start_position
    &&& post.cursor() == res.end
    &&& post.error() == res.err
    &&& r.spec_kind().id() == res.kind
    &&& r.spec_location().spec_start_offset() == pre.token_start_position
    &&& r.spec_location().spec_end_offset().spec_value() == res.end
}


/// Bounds of a line-comment scan: the cursor stays inside the buffer.
pub proof fn lemma_scan_line_comment_bounds(data: Seq<u8>, p: int)
    requires
        0 <= p <= data.len(),
    ensures
        p <= scan_line_comment(data, p).end <= data.len(),
        scan_line_comment(data, p).kind == TOK_COMMENT || scan_line_comment(data, p).kind
            == TOK_ERROR,
        scan_line_comment(data, p).err is Some <==> scan_line_comment(data, p).kind == TOK_ERROR,
    decreases data.len() - p,
{
    if p < data.len() && data[p] as int != '\n' as int && data[p] as int != '\r' as int && data[p]
        < 0x80 {
        lemma_scan_line_comment_bounds(data, p + 1);
    }
}

/// Bounds of a block-comment scan.
pub proof fn lemma_scan_block_comment_bounds(data: Seq<u8>, p: int)
    requires
        0 <= p <= data.len(),
    ensures
        p <= scan_block_comment(data, p).end <= data.len(),
        scan_block_comment(data, p).kind == TOK_COMMENT || scan_block_comment(data, p).kind
            == TOK_ERROR,
        scan_block_comment(data, p).err is Some <==> scan_block_comment(data, p).kind == TOK_ERROR,
    decreases data.len() - p,
{
    if p < data.len() && data[p] < 0x80 {
        if data[p] as int == '*' as int {
            if peek(data, p + 1) != '/' as int {
                lemma_scan_block_comment_bounds(data, p + 1);
            }
        } else {
            lemma_scan_block_comment_bounds(data, p + 1);
        }
    }
}

/// Bounds of the shared numeric trailing check.
pub proof fn lemma_scan_num_tail_bounds(data: Seq<u8>, e: int, kind: u8)
    requires
        0 <= e <= data.len(),
        kind != TOK_ERROR,
        kind != TOK_END,
    ensures
        scan_num_tail(data, e, kind).kind != TOK_END,
        e <= scan_num_tail(data, e, kind).end <= data.len(),
        scan_num_tail(data, e, kind).kind == kind || scan_num_tail(data, e, kind).kind
            == TOK_ERROR,
        scan_num_tail(data, e, kind).err is Some <==> scan_num_tail(data, e, kind).kind
            == TOK_ERROR,
{
}

/// Bounds of an exponent scan alone.
pub proof fn lemma_scan_exp_tail_bounds(data: Seq<u8>, p: int)
    requires
        0 <= p <= data.len(),
    ensures
        ({
            let r = scan_exponent(data, p);
            p <= r.end <= data.len() && r.kind != TOK_END && (r.err is Some <==> r.kind
                == TOK_ERROR)
        }),
        ({
            let r = scan_exp_digits(data, p);
            p <= r.end <= data.len() && r.kind != TOK_END && (r.err is Some <==> r.kind
                == TOK_ERROR)
        }),
{
    lemma_scan_while(data, p, |c: int| digit_code(c));
    lemma_scan_num_tail_bounds(data, scan_while(data, p, |c: int| digit_code(c)),
        TOK_FLOAT_LITERAL);
    if p < data.len() {
        lemma_scan_while(data, p + 1, |c: int| digit_code(c));
        lemma_scan_num_tail_bounds(data, scan_while(data, p + 1, |c: int| digit_code(c)),
            TOK_FLOAT_LITERAL);
        if p + 1 < data.len() {
            lemma_scan_while(data, p + 2, |c: int| digit_code(c));
            lemma_scan_num_tail_bounds(data, scan_while(data, p + 2, |c: int| digit_code(c)),
                TOK_FLOAT_LITERAL);
        }
    }
}

/// Bounds of a float-fraction scan.
pub proof fn lemma_scan_fraction_bounds(data: Seq<u8>, p: int)
    requires
        0 <= p <= data.len(),
    ensures
        ({
            let r = scan_fraction(data, p);
            p <= r.end <= data.len() && r.kind != TOK_END && (r.err is Some <==> r.kind
                == TOK_ERROR)
        }),
{
    lemma_scan_while(data, p, |c: int| digit_code(c));
    let e = scan_while(data, p, |c: int| digit_code(c));
    if e < data.len() {
        lemma_scan_exp_tail_bounds(data, e + 1);
    }
}

/// Bounds of a hex-literal scan.
pub proof fn lemma_scan_hex_bounds(data: Seq<u8>, p: int)
    requires
        0 <= p <= data.len(),
    ensures
        ({
            let r = scan_hex(data, p);
            p <= r.end <= data.len() && r.kind != TOK_END && (r.err is Some <==> r.kind
                == TOK_ERROR)
        }),
{
    if p < data.len() {
        lemma_scan_while(data, p + 1, |c: int| hex_digit_code(c));
        lemma_scan_num_tail_bounds(data, scan_while(data, p + 1, |c: int| hex_digit_code(c)),
            TOK_HEX_INTEGER_LITERAL);
    }
}

/// Bounds of the numeric scans: each stays inside the buffer, never
/// yields the end kind, and records an error exactly when it emits the
/// error kind.
pub proof fn lemma_scan_number_bounds(data: Seq<u8>, p: int)
    requires
        0 <= p <= data.len(),
    ensures
        ({
            let r = scan_zero_number(data, p);
            p <= r.end <= data.len() && r.kind != TOK_END && (r.err is Some <==> r.kind
                == TOK_ERROR)
        }),
        ({
            let r = scan_decimal(data, p);
            p <= r.end <= data.len() && r.kind != TOK_END && (r.err is Some <==> r.kind
                == TOK_ERROR)
        }),
        ({
            let r = scan_oct(data, p);
            p <= r.end <= data.len() && r.kind != TOK_END && (r.err is Some <==> r.kind
                == TOK_ERROR)
        }),
{
    lemma_scan_while(data, p, |c: int| digit_code(c));
    lemma_scan_while(data, p, |c: int| oct_digit_code(c));
    lemma_scan_num_tail_bounds(data, scan_while(data, p, |c: int| oct_digit_code(c)),
        TOK_OCT_INTEGER_LITERAL);
    let de = scan_while(data, p, |c: int| digit_code(c));
    if de < data.len() {
        lemma_scan_fraction_bounds(data, de + 1);
        lemma_scan_exp_tail_bounds(data, de + 1);
    }
    if p < data.len() {
        lemma_scan_hex_bounds(data, p + 1);
        lemma_scan_while(data, p + 1, |c: int| oct_digit_code(c));
        lemma_scan_num_tail_bounds(data, scan_while(data, p + 1, |c: int| oct_digit_code(c)),
            TOK_OCT_INTEGER_LITERAL);
        lemma_scan_fraction_bounds(data, p + 1);
        lemma_scan_exp_tail_bounds(data, p + 1);
    }
}

/// Progress and bounds of one scan: the end stays inside the buffer;
/// the end-of-input kind comes exactly at the buffer end and consumes
/// nothing, every other token consumes at least one byte, and an error
/// is recorded exactly when the emitted token has the error kind.
pub proof fn lemma_scan_token_progress(data: Seq<u8>, pos: int, check_kw: bool)
    requires
        0 <= pos <= data.len(),
    ensures
        ({
            let res = scan_token(data, pos, check_kw);
            &&& pos <= res.end <= data.len()
            &&& (res.kind == TOK_END <==> pos == data.len())
            &&& (res.kind == TOK_END ==> res.end == pos)
            &&& (res.kind != TOK_END ==> res.end > pos)
            &&& (res.err is Some <==> res.kind == TOK_ERROR)
        }),
{
    if pos < data.len() {
        let c = data[pos] as int;
        lemma_scan_while(data, pos + 1, |b: int| ws_code(b));
        lemma_scan_while(data, pos + 1, |b: int| identifier_continue_code(b));
        lemma_scan_number_bounds(data, pos + 1);
        if pos + 1 < data.len() {
            lemma_scan_number_bounds(data, pos + 2);
        }
        if pos + 1 <= data.len() {
            lemma_scan_line_comment_bounds(data, if pos + 2 <= data.len() {
                pos + 2
            } else {
                pos + 1
            });
            lemma_scan_block_comment_bounds(data, if pos + 2 <= data.len() {
                pos + 2
            } else {
                pos + 1
            });
        }
    }
}

/// The offset of the next significant token: the position reached after
/// skipping every whitespace, comment and newline token from `pos` on.
pub open spec fn skip_trivia(data: Seq<u8>, pos: int) -> int
    decreases data.len() - pos,
    when 0 <= pos <= data.len()
    via skip_trivia_decreases
{
    let res = scan_token(data, pos, true);
    if res.kind == TOK_WHITESPACE || res.kind == TOK_COMMENT || res.kind == TOK_NEWLINE {
        skip_trivia(data, res.end)
    } else {
        pos
    }
}

#[via_fn]
proof fn skip_trivia_decreases(data: Seq<u8>, pos: int) {
    lemma_scan_token_progress(data, pos, true);
}

/// Whether the trivia skipped from `pos` to the next significant token
/// includes a newline (the restricted-production signal).
#[verifier::opaque]
pub open spec fn newline_skipped(data: Seq<u8>, pos: int) -> bool
    decreases data.len() - pos,
    when 0 <= pos <= data.len()
    via newline_skipped_decreases
{
    let res = scan_token(data, pos, true);
    if res.kind == TOK_WHITESPACE || res.kind == TOK_COMMENT || res.kind == TOK_NEWLINE {
        res.kind == TOK_NEWLINE || newline_skipped(data, res.end)
    } else {
        false
    }
}

#[via_fn]
proof fn newline_skipped_decreases(data: Seq<u8>, pos: int) {
    lemma_scan_token_progress(data, pos, true);
}

/// Skipping trivia stays inside the buffer, lands on a position whose
/// token is significant, and is idempotent.
pub proof fn lemma_skip_trivia(data: Seq<u8>, pos: int)
    requires
        0 <= pos <= data.len(),
    ensures
        pos <= skip_trivia(data, pos) <= data.len(),
        ({
            let res = scan_token(data, skip_trivia(data, pos), true);
            res.kind != TOK_WHITESPACE && res.kind != TOK_COMMENT && res.kind != TOK_NEWLINE
        }),
        skip_trivia(data, skip_trivia(data, pos)) == skip_trivia(data, pos),
    decreases data.len() - pos,
{
    lemma_scan_token_progress(data, pos, true);
    let res = scan_token(data, pos, true);
    if res.kind == TOK_WHITESPACE || res.kind == TOK_COMMENT || res.kind == TOK_NEWLINE {
        lemma_skip_trivia(data, res.end);
    }
}

/// The scan bounds of every position at once, for termination proofs.
pub proof fn lemma_scan_token_progress_all(data: Seq<u8>)
    ensures
        forall|p: int|
            0 <= p <= data.len() ==> {
                let res = #[trigger] scan_token(data, p, true);
                &&& p <= res.end <= data.len()
                &&& (res.kind != TOK_END ==> res.end > p)
            },
{
    assert forall|p: int| 0 <= p <= data.len() implies {
        let res = #[trigger] scan_token(data, p, true);
        &&& p <= res.end <= data.len()
        &&& (res.kind != TOK_END ==> res.end > p)
    } by {
        lemma_scan_token_progress(data, p, true);
    }
}

/// The trivia-skip bounds of every position at once.
pub proof fn lemma_skip_trivia_all(data: Seq<u8>)
    ensures
        forall|p: int|
            0 <= p <= data.len() ==> p <= #[trigger] skip_trivia(data, p) <= data.len(),
{
    assert forall|p: int| 0 <= p <= data.len() implies p <= #[trigger] skip_trivia(data, p)
        <= data.len() by {
        lemma_skip_trivia(data, p);
    }
}

/// The tokenizer for a full parse: owns the input stream, the error
/// state, and at most one pushed-back token.
pub struct Tokenizer {
    input_stream: VecInputStream,
    tokenizer_mode: FullTokenizerMode,
    token_start_position: StreamPosition,
    token_error: Option<TokenError>,
    pushed_back_token: Option<FullToken>,
}

impl Tokenizer {
    /// The underlying input stream.
    pub closed spec fn stream(&self) -> VecInputStream {
        self.input_stream
    }

    /// The source bytes being tokenized.
    pub open spec fn bytes(&self) -> Seq<u8> {
        self.stream().bytes()
    }

    /// The byte cursor of the underlying stream.
    pub open spec fn cursor(&self) -> int {
        self.stream().cursor()
    }

    /// The recorded lexical error, if one has been raised.
    pub closed spec fn error(&self) -> Option<TokenError> {
        self.token_error
    }

    /// The pending pushed-back token, if any.
    pub closed spec fn pushback(&self) -> Option<FullToken> {
        self.pushed_back_token
    }

    /// The offset at which the next token starts: the pushed-back
    /// token's own start if one is pending, else the stream cursor.
    pub open spec fn effective_position(&self) -> int {
        match self.pushback() {
            Some(t) => t.spec_location().spec_start_offset().spec_value() as int,
            None => self.cursor(),
        }
    }

    pub open spec fn wf(&self) -> bool {
        &&& self.stream().wf()
        &&& match self.pushback() {
            Some(t) => {
                &&& t.spec_location().spec_start_offset().spec_value() <= self.cursor()
                &&& t.spec_kind().id() != TOK_END ==> t.spec_location(
                ).spec_start_offset().spec_value() < self.cursor()
            },
            None => true,
        }
    }

    pub fn new(input_stream: VecInputStream, tokenizer_mode: FullTokenizerMode) -> (r: Tokenizer)
        requires
            input_stream.wf(),
        ensures
            r.wf(),
            r.bytes() == input_stream.bytes(),
            r.cursor() == input_stream.cursor(),
            r.error() is None,
            r.pushback() is None,
    {
        Tokenizer {
            input_stream,
            tokenizer_mode,
            token_start_position: StreamPosition::default(),
            token_error: None,
            pushed_back_token: None,
        }
    }

    pub fn get_error(&self) -> (r: TokenError)
        requires
            self.error() is Some,
        ensures
            r == self.error()->0,
    {
        self.token_error.unwrap()
    }


    /// The offset where the token being scanned began.
    spec fn token_start(&self) -> int {
        self.token_start_position.spec_value() as int
    }

    fn read_ascii_char(&mut self) -> (r: AsciiChar)
        requires
            old(self).wf(),
        ensures
            final(self).wf(),
            final(self).bytes() == old(self).bytes(),
            final(self).pushback() == old(self).pushback(),
            final(self).error() == old(self).error(),
            final(self).token_start_position == old(self).token_start_position,
            r.code() == peek(old(self).bytes(), old(self).cursor()),
            final(self).cursor() == if old(self).cursor() < old(self).bytes().len() {
                old(self).cursor() + 1
            } else {
                old(self).cursor()
            },
    {
        self.input_stream.read_ascii()
    }

    fn unread_ascii_char(&mut self, ch: AsciiChar)
        requires
            old(self).wf(),
            ch.code() == -1 || (old(self).cursor() >= 1 && ch.code() == old(self).bytes()[old(
                self,
            ).cursor() - 1]),
            old(self).pushback() is None,
        ensures
            final(self).wf(),
            final(self).bytes() == old(self).bytes(),
            final(self).pushback() == old(self).pushback(),
            final(self).error() == old(self).error(),
            final(self).token_start_position == old(self).token_start_position,
            final(self).cursor() == if ch.code() == -1 {
                old(self).cursor()
            } else {
                old(self).cursor() - 1
            },
    {
        self.input_stream.unread_ascii(ch);
    }

    fn emit_token_impl(&mut self, kind: TokenKind, check_kw: bool) -> (r: FullToken)
        requires
            old(self).wf(),
        ensures
            *final(self) == *old(self),
            r.spec_kind() == kind,
            r.spec_location().spec_start_offset() == old(self).token_start_position,
            r.spec_location().spec_end_offset().spec_value() == old(self).cursor(),
    {
        let token_end_position = self.input_stream.mark();
        let token_location = TokenLocation::new(self.token_start_position, token_end_position);
        FullToken::make(kind, token_location)
    }

    fn emit_token(&mut self, kind: TokenKind) -> (r: FullToken)
        requires
            old(self).wf(),
        ensures
            *final(self) == *old(self),
            r.spec_kind() == kind,
            r.spec_location().spec_start_offset() == old(self).token_start_position,
            r.spec_location().spec_end_offset().spec_value() == old(self).cursor(),
    {
        self.emit_token_impl(kind, false)
    }

    fn emit_token_check_kw(&mut self, kind: TokenKind) -> (r: FullToken)
        requires
            old(self).wf(),
        ensures
            *final(self) == *old(self),
            r.spec_kind() == kind,
            r.spec_location().spec_start_offset() == old(self).token_start_position,
            r.spec_location().spec_end_offset().spec_value() == old(self).cursor(),
    {
        self.emit_token_impl(kind, true)
    }

    fn emit_error(&mut self, err: TokenError) -> (r: FullToken)
        requires
            old(self).wf(),
        ensures
            final(self).wf(),
            final(self).bytes() == old(self).bytes(),
            final(self).cursor() == old(self).cursor(),
            final(self).pushback() == old(self).pushback(),
            final(self).token_start() == old(self).token_start(),
            final(self).token_start_position == old(self).token_start_position,
            final(self).error() == Some(err),
            r.spec_kind().id() == TOK_ERROR,
            r.spec_location().spec_start_offset() == old(self).token_start_position,
            r.spec_location().spec_end_offset().spec_value() == old(self).cursor(),
    {
        self.token_error = Some(err);
        let token_end_position = self.input_stream.mark();
        let token_location = TokenLocation::new(self.token_start_position, token_end_position);
        self.tokenizer_mode_make_token(TokenKind::error(), token_location)
    }

    /// Builds the concrete token for this tokenizer's mode.
    fn tokenizer_mode_make_token(&self, kind: TokenKind, location: TokenLocation) -> (r:
        FullToken)
        ensures
            r.spec_kind() == kind,
            r.spec_location() == location,
    {
        FullToken::make(kind, location)
    }

    fn read_whitespace(&mut self) -> (r: FullToken)
        requires
            old(self).wf(),
            old(self).error() is None,
            old(self).pushback() is None,
        ensures
            final(self).wf(),
            final(self).bytes() == old(self).bytes(),
            final(self).pushback() is None,
            final(self).error() is None,
            final(self).token_start_position == old(self).token_start_position,
            final(self).cursor() == scan_while(
                old(self).bytes(),
                old(self).cursor(),
                |c: int| ws_code(c),
            ),
            r.spec_kind().id() == TOK_WHITESPACE,
            r.spec_location().spec_start_offset() == old(self).token_start_position,
            r.spec_location().spec_end_offset().spec_value() == final(self).cursor(),
    {
        let ghost b0 = self.bytes();
        let ghost c0 = self.cursor();
        proof {
            lemma_scan_while(b0, c0, |c: int| ws_code(c));
        }
        loop
            invariant
                self.wf(),
                self.error() is None,
                self.pushback() is None,
                self.bytes() == b0,
                self.token_start_position == old(self).token_start_position,
                b0 == old(self).bytes(),
                old(self).error() is None,
                old(self).pushback() is None,
                c0 == old(self).cursor(),
                c0 <= self.cursor() <= b0.len(),
                scan_while(b0, self.cursor(), |c: int| ws_code(c)) == scan_while(
                    b0,
                    c0,
                    |c: int| ws_code(c),
                ),
            ensures
                self.wf(),
                self.error() is None,
                self.pushback() is None,
                self.bytes() == b0,
                self.token_start_position == old(self).token_start_position,
                b0 == old(self).bytes(),
                old(self).error() is None,
                old(self).pushback() is None,
                self.cursor() == scan_while(b0, c0, |c: int| ws_code(c)),
            decreases b0.len() - self.cursor(),
        {
            let ch = self.read_ascii_char();
            if !ch.is_whitespace() {
                self.unread_ascii_char(ch);
                break;
            }
        }
        self.emit_token(TokenKind::whitespace())
    }

    fn read_identifier(&mut self) -> (r: FullToken)
        requires
            old(self).wf(),
            old(self).error() is None,
            old(self).pushback() is None,
        ensures
            final(self).wf(),
            final(self).bytes() == old(self).bytes(),
            final(self).pushback() is None,
            final(self).error() is None,
            final(self).token_start_position == old(self).token_start_position,
            final(self).cursor() == scan_while(
                old(self).bytes(),
                old(self).cursor(),
                |c: int| identifier_continue_code(c),
            ),
            r.spec_kind().id() == TOK_IDENTIFIER,
            r.spec_location().spec_start_offset() == old(self).token_start_position,
            r.spec_location().spec_end_offset().spec_value() == final(self).cursor(),
    {
        let ghost b0 = self.bytes();
        let ghost c0 = self.cursor();
        proof {
            lemma_scan_while(b0, c0, |c: int| identifier_continue_code(c));
        }
        loop
            invariant
                self.wf(),
                self.error() is None,
                self.pushback() is None,
                self.bytes() == b0,
                self.token_start_position == old(self).token_start_position,
                b0 == old(self).bytes(),
                old(self).error() is None,
                old(self).pushback() is None,
                c0 == old(self).cursor(),
                c0 <= self.cursor() <= b0.len(),
                scan_while(b0, self.cursor(), |c: int| identifier_continue_code(c)) == scan_while(
                    b0,
                    c0,
                    |c: int| identifier_continue_code(c),
                ),
            ensures
                self.wf(),
                self.error() is None,
                self.pushback() is None,
                self.bytes() == b0,
                self.token_start_position == old(self).token_start_position,
                b0 == old(self).bytes(),
                old(self).error() is None,
                old(self).pushback() is None,
                self.cursor() == scan_while(b0, c0, |c: int| identifier_continue_code(c)),
            decreases b0.len() - self.cursor(),
        {
            let ch = self.read_ascii_char();
            if !ch.is_identifier_continue() {
                self.unread_ascii_char(ch);
                break;
            }
        }
        self.emit_token(TokenKind::identifier())
    }


    fn read_ascii_number_starting_with_zero(&mut self) -> (r: FullToken)
        requires
            old(self).wf(),
            old(self).error() is None,
            old(self).pushback() is None,
        ensures
            scanned(
                *old(self),
                *final(self),
                r,
                scan_zero_number(old(self).bytes(), old(self).cursor()),
            ),
    {
        let ch1 = self.read_ascii_char();
        if ch1.is_char('x') || ch1.is_char('X') {
            return self.read_ascii_hex_number();
        }
        if ch1.is_digit() {
            return self.read_ascii_oct_number();
        }
        if ch1.is_char('.') {
            return self.read_ascii_float_fraction();
        }
        if ch1.is_char('e') || ch1.is_char('E') {
            return self.read_ascii_float_exponent();
        }
        if ch1.is_identifier_continue() {
            return self.emit_error(TokenError::BadNumber);
        }
        if !ch1.is_ascii_or_end() {
            return self.emit_error(TokenError::CantHandleUnicodeYet);
        }
        self.unread_ascii_char(ch1);
        self.emit_token(TokenKind::integer_literal())
    }

    fn read_ascii_hex_number(&mut self) -> (r: FullToken)
        requires
            old(self).wf(),
            old(self).error() is None,
            old(self).pushback() is None,
        ensures
            scanned(*old(self), *final(self), r, scan_hex(old(self).bytes(), old(self).cursor())),
    {
        let ghost b0 = self.bytes();
        let ghost c0 = self.cursor();
        let ch0 = self.read_ascii_char();
        if !ch0.is_hex_digit() {
            if !ch0.is_ascii_or_end() {
                return self.emit_error(TokenError::CantHandleUnicodeYet);
            }
            return self.emit_error(TokenError::BadNumber);
        }
        proof {
            lemma_scan_while(b0, c0 + 1, |c: int| hex_digit_code(c));
        }
        loop
            invariant
                self.wf(),
                self.error() is None,
                self.pushback() is None,
                self.bytes() == b0,
                self.token_start_position == old(self).token_start_position,
                b0 == old(self).bytes(),
                old(self).error() is None,
                old(self).pushback() is None,
                c0 == old(self).cursor(),
                hex_digit_code(peek(b0, c0)),
                c0 + 1 <= self.cursor() <= b0.len(),
                scan_while(b0, self.cursor(), |c: int| hex_digit_code(c)) == scan_while(
                    b0,
                    c0 + 1,
                    |c: int| hex_digit_code(c),
                ),
            ensures
                self.wf(),
                self.error() is None,
                self.pushback() is None,
                self.bytes() == b0,
                self.token_start_position == old(self).token_start_position,
                b0 == old(self).bytes(),
                old(self).error() is None,
                old(self).pushback() is None,
                self.cursor() == scan_while(b0, c0 + 1, |c: int| hex_digit_code(c)),
                !(identifier_continue_code(peek(b0, self.cursor())) || peek(b0, self.cursor())
                    >= 0x80),
            decreases b0.len() - self.cursor(),
        {
            let ch = self.read_ascii_char();
            if !ch.is_hex_digit() {
                if ch.is_identifier_continue() {
                    return self.emit_error(TokenError::BadNumber);
                }
                if !ch.is_ascii_or_end() {
                    return self.emit_error(TokenError::CantHandleUnicodeYet);
                }
                self.unread_ascii_char(ch);
                break;
            }
        }
        self.emit_token(TokenKind::hex_integer_literal())
    }

    fn read_ascii_oct_number(&mut self) -> (r: FullToken)
        requires
            old(self).wf(),
            old(self).error() is None,
            old(self).pushback() is None,
        ensures
            scanned(*old(self), *final(self), r, scan_oct(old(self).bytes(), old(self).cursor())),
    {
        let ghost b0 = self.bytes();
        let ghost c0 = self.cursor();
        proof {
            lemma_scan_while(b0, c0, |c: int| oct_digit_code(c));
        }
        loop
            invariant
                self.wf(),
                self.error() is None,
                self.pushback() is None,
                self.bytes() == b0,
                self.token_start_position == old(self).token_start_position,
                b0 == old(self).bytes(),
                old(self).error() is None,
                old(self).pushback() is None,
                c0 == old(self).cursor(),
                c0 <= self.cursor() <= b0.len(),
                scan_while(b0, self.cursor(), |c: int| oct_digit_code(c)) == scan_while(
                    b0,
                    c0,
                    |c: int| oct_digit_code(c),
                ),
            ensures
                self.wf(),
                self.error() is None,
                self.pushback() is None,
                self.bytes() == b0,
                self.token_start_position == old(self).token_start_position,
                b0 == old(self).bytes(),
                old(self).error() is None,
                old(self).pushback() is None,
                self.cursor() == scan_while(b0, c0, |c: int| oct_digit_code(c)),
                !(identifier_continue_code(peek(b0, self.cursor())) || peek(b0, self.cursor())
                    >= 0x80),
            decreases b0.len() - self.cursor(),
        {
            let ch = self.read_ascii_char();
            if !ch.is_oct_digit() {
                if ch.is_identifier_continue() {
                    return self.emit_error(TokenError::BadNumber);
                }
                if !ch.is_ascii_or_end() {
                    return self.emit_error(TokenError::CantHandleUnicodeYet);
                }
                self.unread_ascii_char(ch);
                break;
            }
        }
        self.emit_token(TokenKind::oct_integer_literal())
    }

    fn read_ascii_number(&mut self) -> (r: FullToken)
        requires
            old(self).wf(),
            old(self).error() is None,
            old(self).pushback() is None,
        ensures
            scanned(
                *old(self),
                *final(self),
                r,
                scan_decimal(old(self).bytes(), old(self).cursor()),
            ),
    {
        let ghost b0 = self.bytes();
        let ghost c0 = self.cursor();
        proof {
            lemma_scan_while(b0, c0, |c: int| digit_code(c));
        }
        loop
            invariant
                self.wf(),
                self.error() is None,
                self.pushback() is None,
                self.bytes() == b0,
                self.token_start_position == old(self).token_start_position,
                b0 == old(self).bytes(),
                old(self).error() is None,
                old(self).pushback() is None,
                c0 == old(self).cursor(),
                c0 <= self.cursor() <= b0.len(),
                scan_while(b0, self.cursor(), |c: int| digit_code(c)) == scan_while(
                    b0,
                    c0,
                    |c: int| digit_code(c),
                ),
            ensures
                self.wf(),
                self.error() is None,
                self.pushback() is None,
                self.bytes() == b0,
                self.token_start_position == old(self).token_start_position,
                b0 == old(self).bytes(),
                old(self).error() is None,
                old(self).pushback() is None,
                self.cursor() == scan_while(b0, c0, |c: int| digit_code(c)),
                !(peek(b0, self.cursor()) == '.' as int || peek(b0, self.cursor()) == 'e' as int
                    || peek(b0, self.cursor()) == 'E' as int || identifier_continue_code(
                    peek(b0, self.cursor()),
                ) || peek(b0, self.cursor()) >= 0x80),
            decreases b0.len() - self.cursor(),
        {
            let ch = self.read_ascii_char();
            if !ch.is_digit() {
                if ch.is_char('.') {
                    return self.read_ascii_float_fraction();
                }
                if ch.is_char('e') || ch.is_char('E') {
                    return self.read_ascii_float_exponent();
                }
                if ch.is_identifier_continue() {
                    return self.emit_error(TokenError::BadNumber);
                }
                if !ch.is_ascii_or_end() {
                    return self.emit_error(TokenError::CantHandleUnicodeYet);
                }
                self.unread_ascii_char(ch);
                break;
            }
        }
        self.emit_token(TokenKind::integer_literal())
    }

    fn read_ascii_float_fraction(&mut self) -> (r: FullToken)
        requires
            old(self).wf(),
            old(self).error() is None,
            old(self).pushback() is None,
        ensures
            scanned(
                *old(self),
                *final(self),
                r,
                scan_fraction(old(self).bytes(), old(self).cursor()),
            ),
    {
        let ghost b0 = self.bytes();
        let ghost c0 = self.cursor();
        proof {
            lemma_scan_while(b0, c0, |c: int| digit_code(c));
        }
        loop
            invariant
                self.wf(),
                self.error() is None,
                self.pushback() is None,
                self.bytes() == b0,
                self.token_start_position == old(self).token_start_position,
                b0 == old(self).bytes(),
                old(self).error() is None,
                old(self).pushback() is None,
                c0 == old(self).cursor(),
                c0 <= self.cursor() <= b0.len(),
                scan_while(b0, self.cursor(), |c: int| digit_code(c)) == scan_while(
                    b0,
                    c0,
                    |c: int| digit_code(c),
                ),
            ensures
                self.wf(),
                self.error() is None,
                self.pushback() is None,
                self.bytes() == b0,
                self.token_start_position == old(self).token_start_position,
                b0 == old(self).bytes(),
                old(self).error() is None,
                old(self).pushback() is None,
                self.cursor() == scan_while(b0, c0, |c: int| digit_code(c)),
                !(peek(b0, self.cursor()) == 'e' as int || peek(b0, self.cursor()) == 'E' as int
                    || identifier_continue_code(peek(b0, self.cursor())) || peek(b0, self.cursor())
                    >= 0x80),
            decreases b0.len() - self.cursor(),
        {
            let ch = self.read_ascii_char();
            if !ch.is_digit() {
                if ch.is_char('e') || ch.is_char('E') {
                    return self.read_ascii_float_exponent();
                }
                if ch.is_identifier_continue() {
                    return self.emit_error(TokenError::BadNumber);
                }
                if !ch.is_ascii_or_end() {
                    return self.emit_error(TokenError::CantHandleUnicodeYet);
                }
                self.unread_ascii_char(ch);
                break;
            }
        }
        self.emit_token(TokenKind::float_literal())
    }

    fn read_ascii_float_exponent(&mut self) -> (r: FullToken)
        requires
            old(self).wf(),
            old(self).error() is None,
            old(self).pushback() is None,
        ensures
            scanned(
                *old(self),
                *final(self),
                r,
                scan_exponent(old(self).bytes(), old(self).cursor()),
            ),
    {
        let ghost b0 = self.bytes();
        let ghost e0 = self.cursor();
        let ch0 = self.read_ascii_char();
        if ch0.is_char('+') || ch0.is_char('-') {
            let ch1 = self.read_ascii_char();
            if !ch1.is_digit() {
                if ch1.is_identifier_continue() {
                    return self.emit_error(TokenError::BadNumber);
                }
                if !ch1.is_ascii_or_end() {
                    return self.emit_error(TokenError::CantHandleUnicodeYet);
                }
                if ch1.is_end() {
                    return self.emit_error(
                        TokenError::PrematureEnd(TokenKind::float_literal()),
                    );
                }
                self.unread_ascii_char(ch1);
                return self.emit_error(TokenError::BadNumber);
            }
        } else if !ch0.is_digit() {
            if ch0.is_identifier_continue() {
                return self.emit_error(TokenError::BadNumber);
            }
            if !ch0.is_ascii_or_end() {
                return self.emit_error(TokenError::CantHandleUnicodeYet);
            }
            if ch0.is_end() {
                return self.emit_error(TokenError::PrematureEnd(TokenKind::float_literal()));
            }
            self.unread_ascii_char(ch0);
            return self.emit_error(TokenError::BadNumber);
        }
        let ghost c0 = self.cursor();
        proof {
            lemma_scan_while(b0, c0, |c: int| digit_code(c));
            assert(scan_exponent(b0, e0).end == scan_exp_digits(b0, c0).end
                && scan_exponent(b0, e0).kind == scan_exp_digits(b0, c0).kind && scan_exponent(
                b0,
                e0,
            ).err == scan_exp_digits(b0, c0).err);
        }
        loop
            invariant
                self.wf(),
                self.error() is None,
                self.pushback() is None,
                self.bytes() == b0,
                self.token_start_position == old(self).token_start_position,
                b0 == old(self).bytes(),
                old(self).error() is None,
                old(self).pushback() is None,
                e0 == old(self).cursor(),
                c0 <= self.cursor() <= b0.len(),
                scan_exponent(b0, e0).end == scan_exp_digits(b0, c0).end && scan_exponent(
                    b0,
                    e0,
                ).kind == scan_exp_digits(b0, c0).kind && scan_exponent(b0, e0).err
                    == scan_exp_digits(b0, c0).err,
                scan_while(b0, self.cursor(), |c: int| digit_code(c)) == scan_while(
                    b0,
                    c0,
                    |c: int| digit_code(c),
                ),
            ensures
                self.wf(),
                self.error() is None,
                self.pushback() is None,
                self.bytes() == b0,
                self.token_start_position == old(self).token_start_position,
                b0 == old(self).bytes(),
                old(self).error() is None,
                old(self).pushback() is None,
                scan_exponent(b0, e0).end == scan_exp_digits(b0, c0).end && scan_exponent(
                    b0,
                    e0,
                ).kind == scan_exp_digits(b0, c0).kind && scan_exponent(b0, e0).err
                    == scan_exp_digits(b0, c0).err,
                self.cursor() == scan_while(b0, c0, |c: int| digit_code(c)),
                !(identifier_continue_code(peek(b0, self.cursor())) || peek(b0, self.cursor())
                    >= 0x80),
            decreases b0.len() - self.cursor(),
        {
            let ch = self.read_ascii_char();
            if !ch.is_digit() {
                if ch.is_identifier_continue() {
                    return self.emit_error(TokenError::BadNumber);
                }
                if !ch.is_ascii_or_end() {
                    return self.emit_error(TokenError::CantHandleUnicodeYet);
                }
                self.unread_ascii_char(ch);
                break;
            }
        }
        self.emit_token(TokenKind::float_literal())
    }


    /// Newline recognition shared by the token and comment scanners: a
    /// line feed, or a carriage return optionally followed by a line
    /// feed, collapses to one newline.
    fn check_and_finish_ascii_newline(&mut self, ch: AsciiChar) -> (r: bool)
        requires
            old(self).wf(),
            old(self).pushback() is None,
            ch.code() == -1 || (old(self).cursor() >= 1 && ch.code() == old(self).bytes()[old(
                self,
            ).cursor() - 1]),
        ensures
            final(self).wf(),
            final(self).bytes() == old(self).bytes(),
            final(self).pushback() is None,
            final(self).error() == old(self).error(),
            final(self).token_start_position == old(self).token_start_position,
            r <==> (ch.code() == '\n' as int || ch.code() == '\r' as int),
            final(self).cursor() == if ch.code() == '\r' as int && peek(
                old(self).bytes(),
                old(self).cursor(),
            ) == '\n' as int {
                old(self).cursor() + 1
            } else {
                old(self).cursor()
            },
    {
        if ch.is_line_feed() {
            self.tokenizer_mode.note_newline();
            true
        } else if ch.is_carriage_return() {
            let ch2 = self.read_ascii_char();
            if !ch2.is_line_feed() {
                self.unread_ascii_char(ch2);
            }
            self.tokenizer_mode.note_newline();
            true
        } else {
            false
        }
    }

    fn read_line_comment(&mut self) -> (r: FullToken)
        requires
            old(self).wf(),
            old(self).error() is None,
            old(self).pushback() is None,
        ensures
            scanned(
                *old(self),
                *final(self),
                r,
                scan_line_comment(old(self).bytes(), old(self).cursor()),
            ),
    {
        let ghost b0 = self.bytes();
        let ghost c0 = self.cursor();
        loop
            invariant_except_break
                scan_line_comment(b0, self.cursor()) == scan_line_comment(b0, c0),
            invariant
                self.wf(),
                self.error() is None,
                self.pushback() is None,
                self.bytes() == b0,
                self.token_start_position == old(self).token_start_position,
                b0 == old(self).bytes(),
                old(self).error() is None,
                old(self).pushback() is None,
                c0 == old(self).cursor(),
                c0 <= self.cursor() <= b0.len(),
            ensures
                self.wf(),
                self.error() is None,
                self.pushback() is None,
                self.bytes() == b0,
                self.token_start_position == old(self).token_start_position,
                self.cursor() == scan_line_comment(b0, c0).end,
                scan_line_comment(b0, c0).kind == TOK_COMMENT,
                scan_line_comment(b0, c0).err is None,
            decreases b0.len() - self.cursor(),
        {
            let ch = self.read_ascii_char();
            if self.check_and_finish_ascii_newline(ch) {
                break;
            }
            if !ch.is_ascii_or_end() {
                return self.emit_error(TokenError::CantHandleUnicodeYet);
            }
            if ch.is_end() {
                break;
            }
        }
        self.emit_token(TokenKind::comment())
    }

    fn read_block_comment(&mut self) -> (r: FullToken)
        requires
            old(self).wf(),
            old(self).error() is None,
            old(self).pushback() is None,
        ensures
            scanned(
                *old(self),
                *final(self),
                r,
                scan_block_comment(old(self).bytes(), old(self).cursor()),
            ),
    {
        let ghost b0 = self.bytes();
        let ghost c0 = self.cursor();
        loop
            invariant_except_break
                scan_block_comment(b0, self.cursor()) == scan_block_comment(b0, c0),
            invariant
                self.wf(),
                self.error() is None,
                self.pushback() is None,
                self.bytes() == b0,
                self.token_start_position == old(self).token_start_position,
                b0 == old(self).bytes(),
                old(self).error() is None,
                old(self).pushback() is None,
                c0 == old(self).cursor(),
                c0 <= self.cursor() <= b0.len(),
            ensures
                self.wf(),
                self.error() is None,
                self.pushback() is None,
                self.bytes() == b0,
                self.token_start_position == old(self).token_start_position,
                self.cursor() == scan_block_comment(b0, c0).end,
                scan_block_comment(b0, c0).kind == TOK_COMMENT,
                scan_block_comment(b0, c0).err is None,
            decreases b0.len() - self.cursor(),
        {
            let ch = self.read_ascii_char();
            if ch.is_char('*') {
                let ch2 = self.read_ascii_char();
                if ch2.is_char('/') {
                    break;
                }
                self.unread_ascii_char(ch2);
                continue;
            }
            if self.tokenizer_mode.cares_about_newline() {
                if self.check_and_finish_ascii_newline(ch) {
                    continue;
                }
            }
            if !ch.is_ascii_or_end() {
                return self.emit_error(TokenError::CantHandleUnicodeYet);
            }
            if ch.is_end() {
                return self.emit_error(TokenError::PrematureEnd(TokenKind::newline()));
            }
        }
        self.emit_token(TokenKind::comment())
    }


    fn make_tail_word_2(ch0: char, ch1: char) -> (r: u32)
        requires
            (ch0 as int) < 0x80,
            (ch1 as int) < 0x80,
        ensures
            r == pack2(ch0 as u8, ch1 as u8),
    {
        ((ch0 as u32) << 8) | (ch1 as u32)
    }

    fn make_tail_word_3(ch0: char, ch1: char, ch2: char) -> (r: u32)
        requires
            (ch0 as int) < 0x80,
            (ch1 as int) < 0x80,
            (ch2 as int) < 0x80,
        ensures
            r == pack3(ch0 as u8, ch1 as u8, ch2 as u8),
    {
        ((ch0 as u32) << 16) | ((ch1 as u32) << 8) | (ch2 as u32)
    }

    fn make_tail_word_4(ch0: char, ch1: char, ch2: char, ch3: char) -> (r: u32)
        requires
            (ch0 as int) < 0x80,
            (ch1 as int) < 0x80,
            (ch2 as int) < 0x80,
            (ch3 as int) < 0x80,
        ensures
            r == pack4(ch0 as u8, ch1 as u8, ch2 as u8, ch3 as u8),
    {
        ((ch0 as u32) << 24) | ((ch1 as u32) << 16) | ((ch2 as u32) << 8) | (ch3 as u32)
    }

    fn read_identifier_or_keyword(&mut self, ch0: AsciiChar) -> (r: FullToken)
        requires
            old(self).wf(),
            old(self).error() is None,
            old(self).pushback() is None,
            old(self).cursor() >= 1,
            old(self).token_start() == old(self).cursor() - 1,
            ch0.code() == old(self).bytes()[old(self).cursor() - 1],
            identifier_start_code(ch0.code()),
        ensures
            scanned(
                *old(self),
                *final(self),
                r,
                scan_ok(
                    keyword_kind_at(
                        old(self).bytes(),
                        old(self).cursor() - 1,
                        scan_while(
                            old(self).bytes(),
                            old(self).cursor(),
                            |c: int| identifier_continue_code(c),
                        ),
                    ),
                    scan_while(
                        old(self).bytes(),
                        old(self).cursor(),
                        |c: int| identifier_continue_code(c),
                    ),
                ),
            ),
    {
        let ghost b0 = self.bytes();
        let ghost c0 = self.cursor();
        let ghost startp = c0 - 1;
        proof {
            lemma_scan_while(b0, c0, |c: int| identifier_continue_code(c));
        }
        let mut tail_word: u32 = ch0.ascii_value() as u32;
        proof {
            assert(b0.subrange(startp, c0) =~= seq![b0[startp]]);
            lemma_tail_fp_small(b0.subrange(startp, c0));
        }
        loop
            invariant
                self.wf(),
                self.error() is None,
                self.pushback() is None,
                self.bytes() == b0,
                self.token_start_position == old(self).token_start_position,
                b0 == old(self).bytes(),
                old(self).error() is None,
                old(self).pushback() is None,
                c0 == old(self).cursor(),
                startp == c0 - 1,
                0 <= startp,
                c0 <= self.cursor() <= b0.len(),
                scan_while(b0, self.cursor(), |c: int| identifier_continue_code(c)) == scan_while(
                    b0,
                    c0,
                    |c: int| identifier_continue_code(c),
                ),
                forall|i: int|
                    startp <= i < self.cursor() ==> identifier_continue_code(
                        #[trigger] b0[i] as int,
                    ),
                tail_word == tail_fp(b0.subrange(startp, self.cursor())),
            ensures
                self.wf(),
                self.error() is None,
                self.pushback() is None,
                self.bytes() == b0,
                self.token_start_position == old(self).token_start_position,
                self.cursor() == scan_while(b0, c0, |c: int| identifier_continue_code(c)),
                forall|i: int|
                    startp <= i < self.cursor() ==> identifier_continue_code(
                        #[trigger] b0[i] as int,
                    ),
                tail_word == tail_fp(b0.subrange(startp, self.cursor())),
            decreases b0.len() - self.cursor(),
        {
            let ch = self.read_ascii_char();
            if !ch.is_identifier_continue() {
                self.unread_ascii_char(ch);
                break;
            }
            let ghost cur_pre = self.cursor() - 1;
            proof {
                assert(startp <= cur_pre && cur_pre + 1 <= b0.len());
                assert(b0.subrange(startp, cur_pre + 1).drop_last() =~= b0.subrange(
                    startp,
                    cur_pre,
                ));
                assert(b0.subrange(startp, cur_pre + 1).last() == b0[cur_pre]);
            }
            tail_word = (tail_word << 8) | (ch.ascii_value() as u32);
        }
        self.emit_keyword_or_identifier(tail_word)
    }

    /// Decide between a keyword and a plain identifier for the span just
    /// scanned, from its tail fingerprint. A fingerprint match is
    /// necessary but not sufficient: the span's length and, for longer
    /// keywords, a text check of the leading bytes confirm the keyword,
    /// and any collision that fails confirmation falls through to a
    /// plain identifier.
    #[verifier::rlimit(100)]
    fn emit_keyword_or_identifier(&mut self, tail_word: u32) -> (r: FullToken)
        requires
            old(self).wf(),
            old(self).error() is None,
            old(self).pushback() is None,
            0 <= old(self).token_start() < old(self).cursor() <= old(self).bytes().len(),
            forall|i: int|
                old(self).token_start() <= i < old(self).cursor() ==> identifier_continue_code(
                    #[trigger] old(self).bytes()[i] as int,
                ),
            tail_word == tail_fp(
                old(self).bytes().subrange(old(self).token_start(), old(self).cursor()),
            ),
        ensures
            *final(self) == *old(self),
            r.spec_kind().id() == keyword_kind_at(
                old(self).bytes(),
                old(self).token_start(),
                old(self).cursor(),
            ),
            r.spec_location().spec_start_offset() == old(self).token_start_position,
            r.spec_location().spec_end_offset().spec_value() == old(self).cursor(),
    {
        let ghost b = self.bytes();
        let ghost st = self.token_start();
        let ghost e = self.cursor();
        proof {
            lemma_ident_tail(b, st, e);
        }
        let tok_len: u32 = self.input_stream.current_offset() - self.token_start_position.value();
        if tail_word == Self::make_tail_word_4('t', 'h', 'i', 's') {
            if tok_len == 4 {
                proof {
                    assert(is_kw_this(b, st, e));
                    assert(keyword_kind_at(b, st, e) == TOK_THIS_KEYWORD);
                }
                return self.emit_token_check_kw(TokenKind::this_keyword());
            }
        } else if tail_word == Self::make_tail_word_4('t', 'i', 'o', 'n') {
            proof {
                reveal_strlit("func");
                assert(vstd::string::is_ascii("func")) by {
                    assert forall|i: int| 0 <= i < ("func"@).len() implies (("func"@)[i]
                        as nat) < 128 by {
                        if i == 0 {
                            assert((("func"@)[0] as nat) < 128);
                        }
                        if i == 1 {
                            assert((("func"@)[1] as nat) < 128);
                        }
                        if i == 2 {
                            assert((("func"@)[2] as nat) < 128);
                        }
                        if i == 3 {
                            assert((("func"@)[3] as nat) < 128);
                        }
                    }
                }
            }
            if tok_len == 8 && self.input_stream.check_ascii_text(
                "func",
                self.token_start_position,
            ) {
                proof {
                    reveal_strlit("func");
                    assert(b[st + 0] == ("func"@)[0] as u8);
                    assert(b[st + 1] == ("func"@)[1] as u8);
                    assert(b[st + 2] == ("func"@)[2] as u8);
                    assert(b[st + 3] == ("func"@)[3] as u8);
                    assert(is_kw_function(b, st, e));
                    assert(keyword_kind_at(b, st, e) == TOK_FUNCTION_KEYWORD);
                }
                return self.emit_token_check_kw(TokenKind::function_keyword());
            }
        } else if tail_word == Self::make_tail_word_2('i', 'f') {
            proof {
                assert(is_kw_if(b, st, e));
                assert(keyword_kind_at(b, st, e) == TOK_IF_KEYWORD);
            }
            return self.emit_token_check_kw(TokenKind::if_keyword());
        } else if tail_word == Self::make_tail_word_4('t', 'u', 'r', 'n') {
            proof {
                reveal_strlit("ret");
                assert(vstd::string::is_ascii("ret")) by {
                    assert forall|i: int| 0 <= i < ("ret"@).len() implies (("ret"@)[i]
                        as nat) < 128 by {
                        if i == 0 {
                            assert((("ret"@)[0] as nat) < 128);
                        }
                        if i == 1 {
                            assert((("ret"@)[1] as nat) < 128);
                        }
                        if i == 2 {
                            assert((("ret"@)[2] as nat) < 128);
                        }
                    }
                }
            }
            if tok_len == 6 && self.input_stream.check_ascii_text(
                "ret",
                self.token_start_position,
            ) {
                proof {
                    reveal_strlit("ret");
                    assert(b[st + 0] == ("ret"@)[0] as u8);
                    assert(b[st + 1] == ("ret"@)[1] as u8);
                    assert(b[st + 2] == ("ret"@)[2] as u8);
                    assert(is_kw_return(b, st, e));
                    assert(keyword_kind_at(b, st, e) == TOK_RETURN_KEYWORD);
                }
                return self.emit_token_check_kw(TokenKind::return_keyword());
            }
        } else if tail_word == Self::make_tail_word_3('v', 'a', 'r') {
            proof {
                assert(is_kw_var(b, st, e));
                assert(keyword_kind_at(b, st, e) == TOK_VAR_KEYWORD);
            }
            return self.emit_token_check_kw(TokenKind::var_keyword());
        } else if tail_word == Self::make_tail_word_4('e', 'l', 's', 'e') {
            if tok_len == 4 {
                proof {
                    assert(is_kw_else(b, st, e));
                    assert(keyword_kind_at(b, st, e) == TOK_ELSE_KEYWORD);
                }
                return self.emit_token_check_kw(TokenKind::else_keyword());
            }
        } else if tail_word == Self::make_tail_word_3('f', 'o', 'r') {
            proof {
                assert(is_kw_for(b, st, e));
                assert(keyword_kind_at(b, st, e) == TOK_FOR_KEYWORD);
            }
            return self.emit_token_check_kw(TokenKind::for_keyword());
        } else if tail_word == Self::make_tail_word_3('n', 'e', 'w') {
            proof {
                assert(is_kw_new(b, st, e));
                assert(keyword_kind_at(b, st, e) == TOK_NEW_KEYWORD);
            }
            return self.emit_token_check_kw(TokenKind::new_keyword());
        } else if tail_word == Self::make_tail_word_2('i', 'n') {
            proof {
                assert(is_kw_in(b, st, e));
                assert(keyword_kind_at(b, st, e) == TOK_IN_KEYWORD);
            }
            return self.emit_token_check_kw(TokenKind::in_keyword());
        } else if tail_word == Self::make_tail_word_4('p', 'e', 'o', 'f') {
            proof {
                reveal_strlit("ty");
                assert(vstd::string::is_ascii("ty")) by {
                    assert forall|i: int| 0 <= i < ("ty"@).len() implies (("ty"@)[i]
                        as nat) < 128 by {
                        if i == 0 {
                            assert((("ty"@)[0] as nat) < 128);
                        }
                        if i == 1 {
                            assert((("ty"@)[1] as nat) < 128);
                        }
                    }
                }
            }
            if tok_len == 6 && self.input_stream.check_ascii_text(
                "ty",
                self.token_start_position,
            ) {
                proof {
                    reveal_strlit("ty");
                    assert(b[st + 0] == ("ty"@)[0] as u8);
                    assert(b[st + 1] == ("ty"@)[1] as u8);
                    assert(is_kw_typeof(b, st, e));
                    assert(keyword_kind_at(b, st, e) == TOK_TYPEOF_KEYWORD);
                }
                return self.emit_token_check_kw(TokenKind::typeof_keyword());
            }
        } else if tail_word == Self::make_tail_word_4('h', 'i', 'l', 'e') {
            proof {
                reveal_strlit("w");
                assert(vstd::string::is_ascii("w")) by {
                    assert forall|i: int| 0 <= i < ("w"@).len() implies (("w"@)[i]
                        as nat) < 128 by {
                        if i == 0 {
                            assert((("w"@)[0] as nat) < 128);
                        }
                    }
                }
            }
            if tok_len == 5 && self.input_stream.check_ascii_text(
                "w",
                self.token_start_position,
            ) {
                proof {
                    reveal_strlit("w");
                    assert(b[st + 0] == ("w"@)[0] as u8);
                    assert(is_kw_while(b, st, e));
                    assert(keyword_kind_at(b, st, e) == TOK_WHILE_KEYWORD);
                }
                return self.emit_token_check_kw(TokenKind::while_keyword());
            }
        } else if tail_word == Self::make_tail_word_4('c', 'a', 's', 'e') {
            if tok_len == 4 {
                proof {
                    assert(is_kw_case(b, st, e));
                    assert(keyword_kind_at(b, st, e) == TOK_CASE_KEYWORD);
                }
                return self.emit_token_check_kw(TokenKind::case_keyword());
            }
        } else if tail_word == Self::make_tail_word_4('r', 'e', 'a', 'k') {
            proof {
                reveal_strlit("b");
                assert(vstd::string::is_ascii("b")) by {
                    assert forall|i: int| 0 <= i < ("b"@).len() implies (("b"@)[i]
                        as nat) < 128 by {
                        if i == 0 {
                            assert((("b"@)[0] as nat) < 128);
                        }
                    }
                }
            }
            if tok_len == 5 && self.input_stream.check_ascii_text(
                "b",
                self.token_start_position,
            ) {
                proof {
                    reveal_strlit("b");
                    assert(b[st + 0] == ("b"@)[0] as u8);
                    assert(is_kw_break(b, st, e));
                    assert(keyword_kind_at(b, st, e) == TOK_BREAK_KEYWORD);
                }
                return self.emit_token_check_kw(TokenKind::break_keyword());
            }
        } else if tail_word == Self::make_tail_word_3('t', 'r', 'y') {
            proof {
                assert(is_kw_try(b, st, e));
                assert(keyword_kind_at(b, st, e) == TOK_TRY_KEYWORD);
            }
            return self.emit_token_check_kw(TokenKind::try_keyword());
        } else if tail_word == Self::make_tail_word_4('a', 't', 'c', 'h') {
            proof {
                reveal_strlit("c");
                assert(vstd::string::is_ascii("c")) by {
                    assert forall|i: int| 0 <= i < ("c"@).len() implies (("c"@)[i]
                        as nat) < 128 by {
                        if i == 0 {
                            assert((("c"@)[0] as nat) < 128);
                        }
                    }
                }
            }
            if tok_len == 5 && self.input_stream.check_ascii_text(
                "c",
                self.token_start_position,
            ) {
                proof {
                    reveal_strlit("c");
                    assert(b[st + 0] == ("c"@)[0] as u8);
                    assert(is_kw_catch(b, st, e));
                    assert(keyword_kind_at(b, st, e) == TOK_CATCH_KEYWORD);
                }
                return self.emit_token_check_kw(TokenKind::catch_keyword());
            }
        } else if tail_word == Self::make_tail_word_4('l', 'e', 't', 'e') {
            proof {
                reveal_strlit("de");
                assert(vstd::string::is_ascii("de")) by {
                    assert forall|i: int| 0 <= i < ("de"@).len() implies (("de"@)[i]
                        as nat) < 128 by {
                        if i == 0 {
                            assert((("de"@)[0] as nat) < 128);
                        }
                        if i == 1 {
                            assert((("de"@)[1] as nat) < 128);
                        }
                    }
                }
            }
            if tok_len == 6 && self.input_stream.check_ascii_text(
                "de",
                self.token_start_position,
            ) {
                proof {
                    reveal_strlit("de");
                    assert(b[st + 0] == ("de"@)[0] as u8);
                    assert(b[st + 1] == ("de"@)[1] as u8);
                    assert(is_kw_delete(b, st, e));
                    assert(keyword_kind_at(b, st, e) == TOK_DELETE_KEYWORD);
                }
                return self.emit_token_check_kw(TokenKind::delete_keyword());
            }
        } else if tail_word == Self::make_tail_word_4('h', 'r', 'o', 'w') {
            proof {
                reveal_strlit("t");
                assert(vstd::string::is_ascii("t")) by {
                    assert forall|i: int| 0 <= i < ("t"@).len() implies (("t"@)[i]
                        as nat) < 128 by {
                        if i == 0 {
                            assert((("t"@)[0] as nat) < 128);
                        }
                    }
                }
            }
            if tok_len == 5 && self.input_stream.check_ascii_text(
                "t",
                self.token_start_position,
            ) {
                proof {
                    reveal_strlit("t");
                    assert(b[st + 0] == ("t"@)[0] as u8);
                    assert(is_kw_throw(b, st, e));
                    assert(keyword_kind_at(b, st, e) == TOK_THROW_KEYWORD);
                }
                return self.emit_token_check_kw(TokenKind::throw_keyword());
            }
        } else if tail_word == Self::make_tail_word_4('i', 't', 'c', 'h') {
            proof {
                reveal_strlit("sw");
                assert(vstd::string::is_ascii("sw")) by {
                    assert forall|i: int| 0 <= i < ("sw"@).len() implies (("sw"@)[i]
                        as nat) < 128 by {
                        if i == 0 {
                            assert((("sw"@)[0] as nat) < 128);
                        }
                        if i == 1 {
                            assert((("sw"@)[1] as nat) < 128);
                        }
                    }
                }
            }
            if tok_len == 6 && self.input_stream.check_ascii_text(
                "sw",
                self.token_start_position,
            ) {
                proof {
                    reveal_strlit("sw");
                    assert(b[st + 0] == ("sw"@)[0] as u8);
                    assert(b[st + 1] == ("sw"@)[1] as u8);
                    assert(is_kw_switch(b, st, e));
                    assert(keyword_kind_at(b, st, e) == TOK_SWITCH_KEYWORD);
                }
                return self.emit_token_check_kw(TokenKind::switch_keyword());
            }
        } else if tail_word == Self::make_tail_word_4('i', 'n', 'u', 'e') {
            proof {
                reveal_strlit("cont");
                assert(vstd::string::is_ascii("cont")) by {
                    assert forall|i: int| 0 <= i < ("cont"@).len() implies (("cont"@)[i]
                        as nat) < 128 by {
                        if i == 0 {
                            assert((("cont"@)[0] as nat) < 128);
                        }
                        if i == 1 {
                            assert((("cont"@)[1] as nat) < 128);
                        }
                        if i == 2 {
                            assert((("cont"@)[2] as nat) < 128);
                        }
                        if i == 3 {
                            assert((("cont"@)[3] as nat) < 128);
                        }
                    }
                }
            }
            if tok_len == 8 && self.input_stream.check_ascii_text(
                "cont",
                self.token_start_position,
            ) {
                proof {
                    reveal_strlit("cont");
                    assert(b[st + 0] == ("cont"@)[0] as u8);
                    assert(b[st + 1] == ("cont"@)[1] as u8);
                    assert(b[st + 2] == ("cont"@)[2] as u8);
                    assert(b[st + 3] == ("cont"@)[3] as u8);
                    assert(is_kw_continue(b, st, e));
                    assert(keyword_kind_at(b, st, e) == TOK_CONTINUE_KEYWORD);
                }
                return self.emit_token_check_kw(TokenKind::continue_keyword());
            }
        } else if tail_word == Self::make_tail_word_4('a', 'u', 'l', 't') {
            proof {
                reveal_strlit("def");
                assert(vstd::string::is_ascii("def")) by {
                    assert forall|i: int| 0 <= i < ("def"@).len() implies (("def"@)[i]
                        as nat) < 128 by {
                        if i == 0 {
                            assert((("def"@)[0] as nat) < 128);
                        }
                        if i == 1 {
                            assert((("def"@)[1] as nat) < 128);
                        }
                        if i == 2 {
                            assert((("def"@)[2] as nat) < 128);
                        }
                    }
                }
            }
            if tok_len == 7 && self.input_stream.check_ascii_text(
                "def",
                self.token_start_position,
            ) {
                proof {
                    reveal_strlit("def");
                    assert(b[st + 0] == ("def"@)[0] as u8);
                    assert(b[st + 1] == ("def"@)[1] as u8);
                    assert(b[st + 2] == ("def"@)[2] as u8);
                    assert(is_kw_default(b, st, e));
                    assert(keyword_kind_at(b, st, e) == TOK_DEFAULT_KEYWORD);
                }
                return self.emit_token_check_kw(TokenKind::default_keyword());
            }
        } else if tail_word == Self::make_tail_word_4('c', 'e', 'o', 'f') {
            proof {
                reveal_strlit("instan");
                assert(vstd::string::is_ascii("instan")) by {
                    assert forall|i: int| 0 <= i < ("instan"@).len() implies (("instan"@)[i]
                        as nat) < 128 by {
                        if i == 0 {
                            assert((("instan"@)[0] as nat) < 128);
                        }
                        if i == 1 {
                            assert((("instan"@)[1] as nat) < 128);
                        }
                        if i == 2 {
                            assert((("instan"@)[2] as nat) < 128);
                        }
                        if i == 3 {
                            assert((("instan"@)[3] as nat) < 128);
                        }
                        if i == 4 {
                            assert((("instan"@)[4] as nat) < 128);
                        }
                        if i == 5 {
                            assert((("instan"@)[5] as nat) < 128);
                        }
                    }
                }
            }
            if tok_len == 10 && self.input_stream.check_ascii_text(
                "instan",
                self.token_start_position,
            ) {
                proof {
                    reveal_strlit("instan");
                    assert(b[st + 0] == ("instan"@)[0] as u8);
                    assert(b[st + 1] == ("instan"@)[1] as u8);
                    assert(b[st + 2] == ("instan"@)[2] as u8);
                    assert(b[st + 3] == ("instan"@)[3] as u8);
                    assert(b[st + 4] == ("instan"@)[4] as u8);
                    assert(b[st + 5] == ("instan"@)[5] as u8);
                    assert(is_kw_instanceof(b, st, e));
                    assert(keyword_kind_at(b, st, e) == TOK_INSTANCEOF_KEYWORD);
                }
                return self.emit_token_check_kw(TokenKind::instanceof_keyword());
            }
        } else if tail_word == Self::make_tail_word_2('d', 'o') {
            proof {
                assert(is_kw_do(b, st, e));
                assert(keyword_kind_at(b, st, e) == TOK_DO_KEYWORD);
            }
            return self.emit_token_check_kw(TokenKind::do_keyword());
        } else if tail_word == Self::make_tail_word_4('v', 'o', 'i', 'd') {
            if tok_len == 4 {
                proof {
                    assert(is_kw_void(b, st, e));
                    assert(keyword_kind_at(b, st, e) == TOK_VOID_KEYWORD);
                }
                return self.emit_token_check_kw(TokenKind::void_keyword());
            }
        } else if tail_word == Self::make_tail_word_4('a', 'l', 'l', 'y') {
            proof {
                reveal_strlit("fin");
                assert(vstd::string::is_ascii("fin")) by {
                    assert forall|i: int| 0 <= i < ("fin"@).len() implies (("fin"@)[i]
                        as nat) < 128 by {
                        if i == 0 {
                            assert((("fin"@)[0] as nat) < 128);
                        }
                        if i == 1 {
                            assert((("fin"@)[1] as nat) < 128);
                        }
                        if i == 2 {
                            assert((("fin"@)[2] as nat) < 128);
                        }
                    }
                }
            }
            if tok_len == 7 && self.input_stream.check_ascii_text(
                "fin",
                self.token_start_position,
            ) {
                proof {
                    reveal_strlit("fin");
                    assert(b[st + 0] == ("fin"@)[0] as u8);
                    assert(b[st + 1] == ("fin"@)[1] as u8);
                    assert(b[st + 2] == ("fin"@)[2] as u8);
                    assert(is_kw_finally(b, st, e));
                    assert(keyword_kind_at(b, st, e) == TOK_FINALLY_KEYWORD);
                }
                return self.emit_token_check_kw(TokenKind::finally_keyword());
            }
        }
        proof {
            assert(!is_kw_this(b, st, e));
            assert(!is_kw_function(b, st, e)) by {
                reveal_strlit("func");
                if is_kw_function(b, st, e) {
                    assert(crate::parser::input_stream::bytes_match_text(b, st, "func"@)) by {
                        assert forall|i: int| 0 <= i < ("func"@).len() implies b[st + i]
                            == ((#[trigger] ("func"@)[i]) as u8) by {
                            if i == 0 {
                                assert(("func"@)[0] == 'f');
                            }
                            if i == 1 {
                                assert(("func"@)[1] == 'u');
                            }
                            if i == 2 {
                                assert(("func"@)[2] == 'n');
                            }
                            if i == 3 {
                                assert(("func"@)[3] == 'c');
                            }
                        }
                    }
                }
            }
            assert(!is_kw_if(b, st, e));
            assert(!is_kw_return(b, st, e)) by {
                reveal_strlit("ret");
                if is_kw_return(b, st, e) {
                    assert(crate::parser::input_stream::bytes_match_text(b, st, "ret"@)) by {
                        assert forall|i: int| 0 <= i < ("ret"@).len() implies b[st + i]
                            == ((#[trigger] ("ret"@)[i]) as u8) by {
                            if i == 0 {
                                assert(("ret"@)[0] == 'r');
                            }
                            if i == 1 {
                                assert(("ret"@)[1] == 'e');
                            }
                            if i == 2 {
                                assert(("ret"@)[2] == 't');
                            }
                        }
                    }
                }
            }
            assert(!is_kw_var(b, st, e));
            assert(!is_kw_else(b, st, e));
            assert(!is_kw_for(b, st, e));
            assert(!is_kw_new(b, st, e));
            assert(!is_kw_in(b, st, e));
            assert(!is_kw_typeof(b, st, e)) by {
                reveal_strlit("ty");
                if is_kw_typeof(b, st, e) {
                    assert(crate::parser::input_stream::bytes_match_text(b, st, "ty"@)) by {
                        assert forall|i: int| 0 <= i < ("ty"@).len() implies b[st + i]
                            == ((#[trigger] ("ty"@)[i]) as u8) by {
                            if i == 0 {
                                assert(("ty"@)[0] == 't');
                            }
                            if i == 1 {
                                assert(("ty"@)[1] == 'y');
                            }
                        }
                    }
                }
            }
            assert(!is_kw_while(b, st, e)) by {
                reveal_strlit("w");
                if is_kw_while(b, st, e) {
                    assert(crate::parser::input_stream::bytes_match_text(b, st, "w"@)) by {
                        assert forall|i: int| 0 <= i < ("w"@).len() implies b[st + i]
                            == ((#[trigger] ("w"@)[i]) as u8) by {
                            if i == 0 {
                                assert(("w"@)[0] == 'w');
                            }
                        }
                    }
                }
            }
            assert(!is_kw_case(b, st, e));
            assert(!is_kw_break(b, st, e)) by {
                reveal_strlit("b");
                if is_kw_break(b, st, e) {
                    assert(crate::parser::input_stream::bytes_match_text(b, st, "b"@)) by {
                        assert forall|i: int| 0 <= i < ("b"@).len() implies b[st + i]
                            == ((#[trigger] ("b"@)[i]) as u8) by {
                            if i == 0 {
                                assert(("b"@)[0] == 'b');
                            }
                        }
                    }
                }
            }
            assert(!is_kw_try(b, st, e));
            assert(!is_kw_catch(b, st, e)) by {
                reveal_strlit("c");
                if is_kw_catch(b, st, e) {
                    assert(crate::parser::input_stream::bytes_match_text(b, st, "c"@)) by {
                        assert forall|i: int| 0 <= i < ("c"@).len() implies b[st + i]
                            == ((#[trigger] ("c"@)[i]) as u8) by {
                            if i == 0 {
                                assert(("c"@)[0] == 'c');
                            }
                        }
                    }
                }
            }
            assert(!is_kw_delete(b, st, e)) by {
                reveal_strlit("de");
                if is_kw_delete(b, st, e) {
                    assert(crate::parser::input_stream::bytes_match_text(b, st, "de"@)) by {
                        assert forall|i: int| 0 <= i < ("de"@).len() implies b[st + i]
                            == ((#[trigger] ("de"@)[i]) as u8) by {
                            if i == 0 {
                                assert(("de"@)[0] == 'd');
                            }
                            if i == 1 {
                                assert(("de"@)[1] == 'e');
                            }
                        }
                    }
                }
            }
            assert(!is_kw_throw(b, st, e)) by {
                reveal_strlit("t");
                if is_kw_throw(b, st, e) {
                    assert(crate::parser::input_stream::bytes_match_text(b, st, "t"@)) by {
                        assert forall|i: int| 0 <= i < ("t"@).len() implies b[st + i]
                            == ((#[trigger] ("t"@)[i]) as u8) by {
                            if i == 0 {
                                assert(("t"@)[0] == 't');
                            }
                        }
                    }
                }
            }
            assert(!is_kw_switch(b, st, e)) by {
                reveal_strlit("sw");
                if is_kw_switch(b, st, e) {
                    assert(crate::parser::input_stream::bytes_match_text(b, st, "sw"@)) by {
                        assert forall|i: int| 0 <= i < ("sw"@).len() implies b[st + i]
                            == ((#[trigger] ("sw"@)[i]) as u8) by {
                            if i == 0 {
                                assert(("sw"@)[0] == 's');
                            }
                            if i == 1 {
                                assert(("sw"@)[1] == 'w');
                            }
                        }
                    }
                }
            }
            assert(!is_kw_continue(b, st, e)) by {
                reveal_strlit("cont");
                if is_kw_continue(b, st, e) {
                    assert(crate::parser::input_stream::bytes_match_text(b, st, "cont"@)) by {
                        assert forall|i: int| 0 <= i < ("cont"@).len() implies b[st + i]
                            == ((#[trigger] ("cont"@)[i]) as u8) by {
                            if i == 0 {
                                assert(("cont"@)[0] == 'c');
                            }
                            if i == 1 {
                                assert(("cont"@)[1] == 'o');
                            }
                            if i == 2 {
                                assert(("cont"@)[2] == 'n');
                            }
                            if i == 3 {
                                assert(("cont"@)[3] == 't');
                            }
                        }
                    }
                }
            }
            assert(!is_kw_default(b, st, e)) by {
                reveal_strlit("def");
                if is_kw_default(b, st, e) {
                    assert(crate::parser::input_stream::bytes_match_text(b, st, "def"@)) by {
                        assert forall|i: int| 0 <= i < ("def"@).len() implies b[st + i]
                            == ((#[trigger] ("def"@)[i]) as u8) by {
                            if i == 0 {
                                assert(("def"@)[0] == 'd');
                            }
                            if i == 1 {
                                assert(("def"@)[1] == 'e');
                            }
                            if i == 2 {
                                assert(("def"@)[2] == 'f');
                            }
                        }
                    }
                }
            }
            assert(!is_kw_instanceof(b, st, e)) by {
                reveal_strlit("instan");
                if is_kw_instanceof(b, st, e) {
                    assert(crate::parser::input_stream::bytes_match_text(b, st, "instan"@)) by {
                        assert forall|i: int| 0 <= i < ("instan"@).len() implies b[st + i]
                            == ((#[trigger] ("instan"@)[i]) as u8) by {
                            if i == 0 {
                                assert(("instan"@)[0] == 'i');
                            }
                            if i == 1 {
                                assert(("instan"@)[1] == 'n');
                            }
                            if i == 2 {
                                assert(("instan"@)[2] == 's');
                            }
                            if i == 3 {
                                assert(("instan"@)[3] == 't');
                            }
                            if i == 4 {
                                assert(("instan"@)[4] == 'a');
                            }
                            if i == 5 {
                                assert(("instan"@)[5] == 'n');
                            }
                        }
                    }
                }
            }
            assert(!is_kw_do(b, st, e));
            assert(!is_kw_void(b, st, e));
            assert(!is_kw_finally(b, st, e)) by {
                reveal_strlit("fin");
                if is_kw_finally(b, st, e) {
                    assert(crate::parser::input_stream::bytes_match_text(b, st, "fin"@)) by {
                        assert forall|i: int| 0 <= i < ("fin"@).len() implies b[st + i]
                            == ((#[trigger] ("fin"@)[i]) as u8) by {
                            if i == 0 {
                                assert(("fin"@)[0] == 'f');
                            }
                            if i == 1 {
                                assert(("fin"@)[1] == 'i');
                            }
                            if i == 2 {
                                assert(("fin"@)[2] == 'n');
                            }
                        }
                    }
                }
            }
            assert(keyword_kind_at(b, st, e) == TOK_IDENTIFIER);
        }
        self.emit_token_check_kw(TokenKind::identifier())
    }


    fn read_token(&mut self, check_kw: bool) -> (r: FullToken)
        requires
            old(self).wf(),
            old(self).error() is None,
            old(self).pushback() is None,
        ensures
            ({
                let res = scan_token(old(self).bytes(), old(self).cursor(), check_kw);
                &&& final(self).wf()
                &&& final(self).bytes() == old(self).bytes()
                &&& final(self).pushback() is None
                &&& final(self).cursor() == res.end
                &&& final(self).error() == res.err
                &&& r.spec_kind().id() == res.kind
                &&& r.spec_location().spec_start_offset().spec_value() == old(self).cursor()
                &&& r.spec_location().spec_end_offset().spec_value() == final(self).cursor()
            }),
    {
        self.token_start_position = self.input_stream.mark();

        let ch0 = self.read_ascii_char();

        if ch0.is_whitespace() {
            return self.read_whitespace();
        }
        if ch0.is_identifier_start() {
            if check_kw {
                return self.read_identifier_or_keyword(ch0);
            } else {
                return self.read_identifier();
            }
        }
        let single_kind = check_single_char_token(ch0);
        if !single_kind.is_error() {
            return self.emit_token(single_kind);
        }
        if ch0.is_digit() {
            if ch0.is_char('0') {
                return self.read_ascii_number_starting_with_zero();
            } else {
                return self.read_ascii_number();
            }
        }
        if ch0.is_char('/') {
            let ch1 = self.read_ascii_char();
            if ch1.is_char('/') {
                return self.read_line_comment();
            }
            if ch1.is_char('*') {
                return self.read_block_comment();
            }
            if ch1.is_char('=') {
                return self.emit_token(TokenKind::slash_assign());
            }
            self.unread_ascii_char(ch1);
            return self.emit_token(TokenKind::slash());
        }
        if ch0.is_char('=') {
            let ch1 = self.read_ascii_char();
            if ch1.is_char('=') {
                let ch2 = self.read_ascii_char();
                if ch2.is_char('=') {
                    return self.emit_token(TokenKind::strict_equal());
                }
                self.unread_ascii_char(ch2);
                return self.emit_token(TokenKind::equal());
            }
            self.unread_ascii_char(ch1);
            return self.emit_token(TokenKind::assign());
        }
        if ch0.is_char('!') {
            let ch1 = self.read_ascii_char();
            if ch1.is_char('=') {
                let ch2 = self.read_ascii_char();
                if ch2.is_char('=') {
                    return self.emit_token(TokenKind::strict_not_equal());
                }
                self.unread_ascii_char(ch2);
                return self.emit_token(TokenKind::not_equal());
            }
            self.unread_ascii_char(ch1);
            return self.emit_token(TokenKind::bang());
        }
        if ch0.is_char('<') {
            let ch1 = self.read_ascii_char();
            if ch1.is_char('=') {
                return self.emit_token(TokenKind::less_equal());
            }
            if ch1.is_char('<') {
                let ch2 = self.read_ascii_char();
                if ch2.is_char('=') {
                    return self.emit_token(TokenKind::shift_left_assign());
                }
                self.unread_ascii_char(ch2);
                return self.emit_token(TokenKind::shift_left());
            }
            self.unread_ascii_char(ch1);
            return self.emit_token(TokenKind::less());
        }
        if ch0.is_char('>') {
            let ch1 = self.read_ascii_char();
            if ch1.is_char('=') {
                return self.emit_token(TokenKind::greater_equal());
            }
            if ch1.is_char('>') {
                let ch2 = self.read_ascii_char();
                if ch2.is_char('=') {
                    return self.emit_token(TokenKind::shift_right_assign());
                }
                if ch2.is_char('>') {
                    let ch3 = self.read_ascii_char();
                    if ch3.is_char('=') {
                        return self.emit_token(TokenKind::arithmetic_shift_right_assign());
                    }
                    self.unread_ascii_char(ch3);
                    return self.emit_token(TokenKind::arithmetic_shift_right());
                }
                self.unread_ascii_char(ch2);
                return self.emit_token(TokenKind::shift_right());
            }
            self.unread_ascii_char(ch1);
            return self.emit_token(TokenKind::greater());
        }
        if ch0.is_char('*') {
            let ch1 = self.read_ascii_char();
            if ch1.is_char('=') {
                return self.emit_token(TokenKind::star_assign());
            }
            self.unread_ascii_char(ch1);
            return self.emit_token(TokenKind::star());
        }
        if ch0.is_char('+') {
            let ch1 = self.read_ascii_char();
            if ch1.is_char('+') {
                return self.emit_token(TokenKind::plus_plus());
            }
            if ch1.is_char('=') {
                return self.emit_token(TokenKind::plus_assign());
            }
            self.unread_ascii_char(ch1);
            return self.emit_token(TokenKind::plus());
        }
        if ch0.is_char('-') {
            let ch1 = self.read_ascii_char();
            if ch1.is_char('-') {
                return self.emit_token(TokenKind::minus_minus());
            }
            if ch1.is_char('=') {
                return self.emit_token(TokenKind::minus_assign());
            }
            self.unread_ascii_char(ch1);
            return self.emit_token(TokenKind::minus());
        }
        if ch0.is_char('%') {
            let ch1 = self.read_ascii_char();
            if ch1.is_char('=') {
                return self.emit_token(TokenKind::percent_assign());
            }
            self.unread_ascii_char(ch1);
            return self.emit_token(TokenKind::percent());
        }
        if ch0.is_char('&') {
            let ch1 = self.read_ascii_char();
            if ch1.is_char('=') {
                return self.emit_token(TokenKind::bit_and_assign());
            }
            if ch1.is_char('&') {
                return self.emit_token(TokenKind::logical_and());
            }
            self.unread_ascii_char(ch1);
            return self.emit_token(TokenKind::bit_and());
        }
        if ch0.is_char('|') {
            let ch1 = self.read_ascii_char();
            if ch1.is_char('=') {
                return self.emit_token(TokenKind::bit_or_assign());
            }
            if ch1.is_char('|') {
                return self.emit_token(TokenKind::logical_or());
            }
            self.unread_ascii_char(ch1);
            return self.emit_token(TokenKind::bit_or());
        }
        if ch0.is_char('^') {
            let ch1 = self.read_ascii_char();
            if ch1.is_char('=') {
                return self.emit_token(TokenKind::bit_xor_assign());
            }
            self.unread_ascii_char(ch1);
            return self.emit_token(TokenKind::bit_xor());
        }
        if self.check_and_finish_ascii_newline(ch0) {
            return self.emit_token(TokenKind::newline());
        }
        if !ch0.is_ascii_or_end() {
            return self.emit_error(TokenError::CantHandleUnicodeYet);
        }
        if ch0.is_end() {
            return self.emit_token(TokenKind::end());
        }
        self.emit_error(TokenError::UnrecognizedChar(ch0.octet_value() as char))
    }

    /// Return the pushed-back token if one is pending, else scan a fresh
    /// token from the stream.
    ///
    /// A fresh scan's token spans exactly the bytes the scan consumed:
    /// its location runs from the cursor before the call to the cursor
    /// after it, so slicing the buffer with the location recovers the
    /// lexeme exactly.
    pub fn next_token(&mut self, check_kw: bool) -> (r: FullToken)
        requires
            old(self).wf(),
            old(self).error() is None,
        ensures
            final(self).wf(),
            final(self).bytes() == old(self).bytes(),
            final(self).pushback() is None,
            old(self).pushback() matches Some(t) ==> r == t && final(self).cursor() == old(
                self,
            ).cursor() && final(self).error() is None,
            old(self).pushback() is None ==> ({
                let res = scan_token(old(self).bytes(), old(self).cursor(), check_kw);
                &&& final(self).cursor() == res.end
                &&& final(self).error() == res.err
                &&& r.spec_kind().id() == res.kind
                &&& r.spec_location().spec_start_offset().spec_value() == old(self).cursor()
                &&& r.spec_location().spec_end_offset().spec_value() == final(self).cursor()
            }),
    {
        if self.pushed_back_token.is_some() {
            let tok = self.pushed_back_token.take().unwrap();
            return tok;
        }
        self.read_token(check_kw)
    }

    /// What `push_back_token` leaves behind: the same state with the
    /// token pending.
    pub closed spec fn push_back_spec(&self, token: FullToken) -> Tokenizer {
        Tokenizer {
            pushed_back_token: Some(token),
            input_stream: self.input_stream,
            tokenizer_mode: FullTokenizerMode {  },
            token_start_position: self.token_start_position,
            token_error: self.token_error,
        }
    }

    /// Law (pushback idempotence): after `push_back_token(t)`, the state
    /// holds exactly `t` pending over an untouched stream, so the next
    /// fetch returns a token equal to `t` (see the pushback clause of
    /// `next_token`), whatever the underlying stream state.
    pub proof fn lemma_pushback_idempotent(&self, token: FullToken)
        ensures
            self.push_back_spec(token).pushback() == Some(token),
            self.push_back_spec(token).bytes() == self.bytes(),
            self.push_back_spec(token).cursor() == self.cursor(),
            self.push_back_spec(token).error() == self.error(),
    {
    }

    /// Store exactly one token for re-delivery by the next fetch. At most
    /// one pushback is representable; pushing while one is pending is a
    /// contract violation.
    pub fn push_back_token(&mut self, token: FullToken)
        requires
            old(self).wf(),
            old(self).pushback() is None,
            token.spec_location().spec_start_offset().spec_value() <= old(self).cursor(),
            token.spec_kind().id() != TOK_END ==> token.spec_location(
            ).spec_start_offset().spec_value() < old(self).cursor(),
        ensures
            final(self).wf(),
            final(self).bytes() == old(self).bytes(),
            final(self).cursor() == old(self).cursor(),
            final(self).error() == old(self).error(),
            final(self).pushback() == Some(token),
            *final(self) == old(self).push_back_spec(token),
    {
        self.pushed_back_token = Some(token);
    }

    /// A checkpoint at the next token's start: the pushed-back token's
    /// own start offset if one is pending, else the stream cursor.
    pub fn mark_position(&self) -> (r: TokenizerPosition)
        requires
            self.wf(),
            self.error() is None,
        ensures
            r.value() == self.effective_position(),
    {
        match &self.pushed_back_token {
            Some(tok) => TokenizerPosition { position: tok.start_offset() },
            None => TokenizerPosition { position: self.input_stream.mark() },
        }
    }

    /// Rewind to an earlier checkpoint, discarding any pending pushback.
    pub fn rewind_position(&mut self, position: TokenizerPosition)
        requires
            old(self).wf(),
            old(self).error() is None,
            position.value() <= old(self).effective_position(),
        ensures
            final(self).wf(),
            final(self).bytes() == old(self).bytes(),
            final(self).cursor() == position.value(),
            final(self).error() is None,
            final(self).pushback() is None,
    {
        self.pushed_back_token = None;
        self.input_stream.rewind(position.position);
    }
}

/// The single-character token lookup: the kind for a byte that alone
/// forms a token, or the error kind for every other byte.
pub fn check_single_char_token(ch: AsciiChar) -> (r: TokenKind)
    ensures
        r.id() == single_char_kind(ch.code()),
{
    if ch.is_char('(') {
        TokenKind::open_paren()
    } else if ch.is_char(')') {
        TokenKind::close_paren()
    } else if ch.is_char('[') {
        TokenKind::open_bracket()
    } else if ch.is_char(']') {
        TokenKind::close_bracket()
    } else if ch.is_char('{') {
        TokenKind::open_brace()
    } else if ch.is_char('}') {
        TokenKind::close_brace()
    } else if ch.is_char('.') {
        TokenKind::dot()
    } else if ch.is_char(';') {
        TokenKind::semicolon()
    } else if ch.is_char(',') {
        TokenKind::comma()
    } else if ch.is_char('?') {
        TokenKind::question()
    } else if ch.is_char(':') {
        TokenKind::colon()
    } else if ch.is_char('~') {
        TokenKind::tilde()
    } else {
        TokenKind::error()
    }
}

} // verus!
