//! The closed enumeration of token kinds, as a small ordered value type.
//!
//! Identity is by category, not lexeme. The numbering is contiguous so that
//! operator classes (assignment operators, keywords, and the classifier
//! groups the parser dispatches on) are range checks over the identifier.

use vstd::prelude::*;

verus! {

pub const TOK_ERROR: u8 = 0;
pub const TOK_END: u8 = 1;
pub const TOK_WHITESPACE: u8 = 2;
pub const TOK_NEWLINE: u8 = 3;
pub const TOK_COMMENT: u8 = 4;
pub const TOK_IDENTIFIER: u8 = 5;
pub const TOK_INTEGER_LITERAL: u8 = 6;
pub const TOK_HEX_INTEGER_LITERAL: u8 = 7;
pub const TOK_OCT_INTEGER_LITERAL: u8 = 8;
pub const TOK_FLOAT_LITERAL: u8 = 9;
pub const TOK_OPEN_PAREN: u8 = 10;
pub const TOK_CLOSE_PAREN: u8 = 11;
pub const TOK_OPEN_BRACKET: u8 = 12;
pub const TOK_CLOSE_BRACKET: u8 = 13;
pub const TOK_OPEN_BRACE: u8 = 14;
pub const TOK_CLOSE_BRACE: u8 = 15;
pub const TOK_DOT: u8 = 16;
pub const TOK_SEMICOLON: u8 = 17;
pub const TOK_COMMA: u8 = 18;
pub const TOK_QUESTION: u8 = 19;
pub const TOK_COLON: u8 = 20;
pub const TOK_EQUAL: u8 = 21;
pub const TOK_STRICT_EQUAL: u8 = 22;
pub const TOK_NOT_EQUAL: u8 = 23;
pub const TOK_STRICT_NOT_EQUAL: u8 = 24;
pub const TOK_LESS: u8 = 25;
pub const TOK_LESS_EQUAL: u8 = 26;
pub const TOK_GREATER: u8 = 27;
pub const TOK_GREATER_EQUAL: u8 = 28;
pub const TOK_TILDE: u8 = 29;
pub const TOK_BANG: u8 = 30;
pub const TOK_PLUS: u8 = 31;
pub const TOK_PLUS_PLUS: u8 = 32;
pub const TOK_MINUS: u8 = 33;
pub const TOK_MINUS_MINUS: u8 = 34;
pub const TOK_STAR: u8 = 35;
pub const TOK_SLASH: u8 = 36;
pub const TOK_PERCENT: u8 = 37;
pub const TOK_SHIFT_LEFT: u8 = 38;
pub const TOK_SHIFT_RIGHT: u8 = 39;
pub const TOK_ARITHMETIC_SHIFT_RIGHT: u8 = 40;
pub const TOK_BIT_AND: u8 = 41;
pub const TOK_BIT_OR: u8 = 42;
pub const TOK_BIT_XOR: u8 = 43;
pub const TOK_LOGICAL_AND: u8 = 44;
pub const TOK_LOGICAL_OR: u8 = 45;
pub const TOK_ASSIGN: u8 = 46;
pub const TOK_PLUS_ASSIGN: u8 = 47;
pub const TOK_MINUS_ASSIGN: u8 = 48;
pub const TOK_STAR_ASSIGN: u8 = 49;
pub const TOK_SLASH_ASSIGN: u8 = 50;
pub const TOK_PERCENT_ASSIGN: u8 = 51;
pub const TOK_SHIFT_LEFT_ASSIGN: u8 = 52;
pub const TOK_SHIFT_RIGHT_ASSIGN: u8 = 53;
pub const TOK_ARITHMETIC_SHIFT_RIGHT_ASSIGN: u8 = 54;
pub const TOK_BIT_AND_ASSIGN: u8 = 55;
pub const TOK_BIT_OR_ASSIGN: u8 = 56;
pub const TOK_BIT_XOR_ASSIGN: u8 = 57;
pub const TOK_BREAK_KEYWORD: u8 = 58;
pub const TOK_CASE_KEYWORD: u8 = 59;
pub const TOK_CATCH_KEYWORD: u8 = 60;
pub const TOK_CONTINUE_KEYWORD: u8 = 61;
pub const TOK_DEFAULT_KEYWORD: u8 = 62;
pub const TOK_DELETE_KEYWORD: u8 = 63;
pub const TOK_DO_KEYWORD: u8 = 64;
pub const TOK_ELSE_KEYWORD: u8 = 65;
pub const TOK_FINALLY_KEYWORD: u8 = 66;
pub const TOK_FOR_KEYWORD: u8 = 67;
pub const TOK_FUNCTION_KEYWORD: u8 = 68;
pub const TOK_IF_KEYWORD: u8 = 69;
pub const TOK_IN_KEYWORD: u8 = 70;
pub const TOK_INSTANCEOF_KEYWORD: u8 = 71;
pub const TOK_NEW_KEYWORD: u8 = 72;
pub const TOK_RETURN_KEYWORD: u8 = 73;
pub const TOK_SWITCH_KEYWORD: u8 = 74;
pub const TOK_THIS_KEYWORD: u8 = 75;
pub const TOK_THROW_KEYWORD: u8 = 76;
pub const TOK_TRY_KEYWORD: u8 = 77;
pub const TOK_TYPEOF_KEYWORD: u8 = 78;
pub const TOK_VAR_KEYWORD: u8 = 79;
pub const TOK_VOID_KEYWORD: u8 = 80;
pub const TOK_WHILE_KEYWORD: u8 = 81;

pub const MIN_ASSIGN_TOK_ID: u8 = TOK_ASSIGN;
pub const MAX_ASSIGN_TOK_ID: u8 = TOK_BIT_XOR_ASSIGN;
pub const MIN_KEYWORD_TOK_ID: u8 = TOK_BREAK_KEYWORD;
pub const MAX_KEYWORD_TOK_ID: u8 = TOK_WHILE_KEYWORD;
pub const MAX_TOK_ID: u8 = TOK_WHILE_KEYWORD;

/// The kind whose identifier is `id`. Contracts elsewhere name kinds by
/// their identifier through this function.
pub closed spec fn kind_from_id(id: u8) -> TokenKind {
    TokenKind { id }
}

pub broadcast proof fn lemma_kind_from_id(id: u8)
    ensures
        (#[trigger] kind_from_id(id)).id() == id,
{
}

/// A kind is determined by its identifier.
pub broadcast proof fn lemma_kind_id_injective(k1: TokenKind, k2: TokenKind)
    ensures
        #[trigger] k1.id() == #[trigger] k2.id() ==> k1 == k2,
{
}

/// A lexical category, one of the `TOK_*` identifiers.
#[derive(Debug, Clone, Copy, PartialEq, Eq, Structural)]
pub struct TokenKind {
    id: u8,
}

impl TokenKind {
    /// The identifier of this kind in the closed numbering.
    pub closed spec fn id(self) -> u8 {
        self.id
    }

    /// Every kind produced by this module falls inside the table.
    pub open spec fn wf(self) -> bool {
        self.id() <= MAX_TOK_ID
    }

    /// The diagnostic name of this kind.
    pub open spec fn spec_name(self) -> Seq<char> {
        if self.id() == TOK_ERROR {
            "error"@
        } else if self.id() == TOK_END {
            "end"@
        } else if self.id() == TOK_WHITESPACE {
            "whitespace"@
        } else if self.id() == TOK_NEWLINE {
            "newline"@
        } else if self.id() == TOK_COMMENT {
            "comment"@
        } else if self.id() == TOK_IDENTIFIER {
            "identifier"@
        } else if self.id() == TOK_INTEGER_LITERAL {
            "integer_literal"@
        } else if self.id() == TOK_HEX_INTEGER_LITERAL {
            "hex_integer_literal"@
        } else if self.id() == TOK_OCT_INTEGER_LITERAL {
            "oct_integer_literal"@
        } else if self.id() == TOK_FLOAT_LITERAL {
            "float_literal"@
        } else if self.id() == TOK_OPEN_PAREN {
            "open_paren"@
        } else if self.id() == TOK_CLOSE_PAREN {
            "close_paren"@
        } else if self.id() == TOK_OPEN_BRACKET {
            "open_bracket"@
        } else if self.id() == TOK_CLOSE_BRACKET {
            "close_bracket"@
        } else if self.id() == TOK_OPEN_BRACE {
            "open_brace"@
        } else if self.id() == TOK_CLOSE_BRACE {
            "close_brace"@
        } else if self.id() == TOK_DOT {
            "dot"@
        } else if self.id() == TOK_SEMICOLON {
            "semicolon"@
        } else if self.id() == TOK_COMMA {
            "comma"@
        } else if self.id() == TOK_QUESTION {
            "question"@
        } else if self.id() == TOK_COLON {
            "colon"@
        } else if self.id() == TOK_EQUAL {
            "equal"@
        } else if self.id() == TOK_STRICT_EQUAL {
            "strict_equal"@
        } else if self.id() == TOK_NOT_EQUAL {
            "not_equal"@
        } else if self.id() == TOK_STRICT_NOT_EQUAL {
            "strict_not_equal"@
        } else if self.id() == TOK_LESS {
            "less"@
        } else if self.id() == TOK_LESS_EQUAL {
            "less_equal"@
        } else if self.id() == TOK_GREATER {
            "greater"@
        } else if self.id() == TOK_GREATER_EQUAL {
            "greater_equal"@
        } else if self.id() == TOK_TILDE {
            "tilde"@
        } else if self.id() == TOK_BANG {
            "bang"@
        } else if self.id() == TOK_PLUS {
            "plus"@
        } else if self.id() == TOK_PLUS_PLUS {
            "plus_plus"@
        } else if self.id() == TOK_MINUS {
            "minus"@
        } else if self.id() == TOK_MINUS_MINUS {
            "minus_minus"@
        } else if self.id() == TOK_STAR {
            "star"@
        } else if self.id() == TOK_SLASH {
            "slash"@
        } else if self.id() == TOK_PERCENT {
            "percent"@
        } else if self.id() == TOK_SHIFT_LEFT {
            "shift_left"@
        } else if self.id() == TOK_SHIFT_RIGHT {
            "shift_right"@
        } else if self.id() == TOK_ARITHMETIC_SHIFT_RIGHT {
            "arithmetic_shift_right"@
        } else if self.id() == TOK_BIT_AND {
            "bit_and"@
        } else if self.id() == TOK_BIT_OR {
            "bit_or"@
        } else if self.id() == TOK_BIT_XOR {
            "bit_xor"@
        } else if self.id() == TOK_LOGICAL_AND {
            "logical_and"@
        } else if self.id() == TOK_LOGICAL_OR {
            "logical_or"@
        } else if self.id() == TOK_ASSIGN {
            "assign"@
        } else if self.id() == TOK_PLUS_ASSIGN {
            "plus_assign"@
        } else if self.id() == TOK_MINUS_ASSIGN {
            "minus_assign"@
        } else if self.id() == TOK_STAR_ASSIGN {
            "star_assign"@
        } else if self.id() == TOK_SLASH_ASSIGN {
            "slash_assign"@
        } else if self.id() == TOK_PERCENT_ASSIGN {
            "percent_assign"@
        } else if self.id() == TOK_SHIFT_LEFT_ASSIGN {
            "shift_left_assign"@
        } else if self.id() == TOK_SHIFT_RIGHT_ASSIGN {
            "shift_right_assign"@
        } else if self.id() == TOK_ARITHMETIC_SHIFT_RIGHT_ASSIGN {
            "arithmetic_shift_right_assign"@
        } else if self.id() == TOK_BIT_AND_ASSIGN {
            "bit_and_assign"@
        } else if self.id() == TOK_BIT_OR_ASSIGN {
            "bit_or_assign"@
        } else if self.id() == TOK_BIT_XOR_ASSIGN {
            "bit_xor_assign"@
        } else if self.id() == TOK_BREAK_KEYWORD {
            "break_keyword"@
        } else if self.id() == TOK_CASE_KEYWORD {
            "case_keyword"@
        } else if self.id() == TOK_CATCH_KEYWORD {
            "catch_keyword"@
        } else if self.id() == TOK_CONTINUE_KEYWORD {
            "continue_keyword"@
        } else if self.id() == TOK_DEFAULT_KEYWORD {
            "default_keyword"@
        } else if self.id() == TOK_DELETE_KEYWORD {
            "delete_keyword"@
        } else if self.id() == TOK_DO_KEYWORD {
            "do_keyword"@
        } else if self.id() == TOK_ELSE_KEYWORD {
            "else_keyword"@
        } else if self.id() == TOK_FINALLY_KEYWORD {
            "finally_keyword"@
        } else if self.id() == TOK_FOR_KEYWORD {
            "for_keyword"@
        } else if self.id() == TOK_FUNCTION_KEYWORD {
            "function_keyword"@
        } else if self.id() == TOK_IF_KEYWORD {
            "if_keyword"@
        } else if self.id() == TOK_IN_KEYWORD {
            "in_keyword"@
        } else if self.id() == TOK_INSTANCEOF_KEYWORD {
            "instanceof_keyword"@
        } else if self.id() == TOK_NEW_KEYWORD {
            "new_keyword"@
        } else if self.id() == TOK_RETURN_KEYWORD {
            "return_keyword"@
        } else if self.id() == TOK_SWITCH_KEYWORD {
            "switch_keyword"@
        } else if self.id() == TOK_THIS_KEYWORD {
            "this_keyword"@
        } else if self.id() == TOK_THROW_KEYWORD {
            "throw_keyword"@
        } else if self.id() == TOK_TRY_KEYWORD {
            "try_keyword"@
        } else if self.id() == TOK_TYPEOF_KEYWORD {
            "typeof_keyword"@
        } else if self.id() == TOK_VAR_KEYWORD {
            "var_keyword"@
        } else if self.id() == TOK_VOID_KEYWORD {
            "void_keyword"@
        } else if self.id() == TOK_WHILE_KEYWORD {
            "while_keyword"@
        } else {
            ""@
        }
    }

    pub fn name(&self) -> (r: &'static str)
        ensures
            r@ == self.spec_name(),
    {
        if self.id == TOK_ERROR {
            "error"
        } else if self.id == TOK_END {
            "end"
        } else if self.id == TOK_WHITESPACE {
            "whitespace"
        } else if self.id == TOK_NEWLINE {
            "newline"
        } else if self.id == TOK_COMMENT {
            "comment"
        } else if self.id == TOK_IDENTIFIER {
            "identifier"
        } else if self.id == TOK_INTEGER_LITERAL {
            "integer_literal"
        } else if self.id == TOK_HEX_INTEGER_LITERAL {
            "hex_integer_literal"
        } else if self.id == TOK_OCT_INTEGER_LITERAL {
            "oct_integer_literal"
        } else if self.id == TOK_FLOAT_LITERAL {
            "float_literal"
        } else if self.id == TOK_OPEN_PAREN {
            "open_paren"
        } else if self.id == TOK_CLOSE_PAREN {
            "close_paren"
        } else if self.id == TOK_OPEN_BRACKET {
            "open_bracket"
        } else if self.id == TOK_CLOSE_BRACKET {
            "close_bracket"
        } else if self.id == TOK_OPEN_BRACE {
            "open_brace"
        } else if self.id == TOK_CLOSE_BRACE {
            "close_brace"
        } else if self.id == TOK_DOT {
            "dot"
        } else if self.id == TOK_SEMICOLON {
            "semicolon"
        } else if self.id == TOK_COMMA {
            "comma"
        } else if self.id == TOK_QUESTION {
            "question"
        } else if self.id == TOK_COLON {
            "colon"
        } else if self.id == TOK_EQUAL {
            "equal"
        } else if self.id == TOK_STRICT_EQUAL {
            "strict_equal"
        } else if self.id == TOK_NOT_EQUAL {
            "not_equal"
        } else if self.id == TOK_STRICT_NOT_EQUAL {
            "strict_not_equal"
        } else if self.id == TOK_LESS {
            "less"
        } else if self.id == TOK_LESS_EQUAL {
            "less_equal"
        } else if self.id == TOK_GREATER {
            "greater"
        } else if self.id == TOK_GREATER_EQUAL {
            "greater_equal"
        } else if self.id == TOK_TILDE {
            "tilde"
        } else if self.id == TOK_BANG {
            "bang"
        } else if self.id == TOK_PLUS {
            "plus"
        } else if self.id == TOK_PLUS_PLUS {
            "plus_plus"
        } else if self.id == TOK_MINUS {
            "minus"
        } else if self.id == TOK_MINUS_MINUS {
            "minus_minus"
        } else if self.id == TOK_STAR {
            "star"
        } else if self.id == TOK_SLASH {
            "slash"
        } else if self.id == TOK_PERCENT {
            "percent"
        } else if self.id == TOK_SHIFT_LEFT {
            "shift_left"
        } else if self.id == TOK_SHIFT_RIGHT {
            "shift_right"
        } else if self.id == TOK_ARITHMETIC_SHIFT_RIGHT {
            "arithmetic_shift_right"
        } else if self.id == TOK_BIT_AND {
            "bit_and"
        } else if self.id == TOK_BIT_OR {
            "bit_or"
        } else if self.id == TOK_BIT_XOR {
            "bit_xor"
        } else if self.id == TOK_LOGICAL_AND {
            "logical_and"
        } else if self.id == TOK_LOGICAL_OR {
            "logical_or"
        } else if self.id == TOK_ASSIGN {
            "assign"
        } else if self.id == TOK_PLUS_ASSIGN {
            "plus_assign"
        } else if self.id == TOK_MINUS_ASSIGN {
            "minus_assign"
        } else if self.id == TOK_STAR_ASSIGN {
            "star_assign"
        } else if self.id == TOK_SLASH_ASSIGN {
            "slash_assign"
        } else if self.id == TOK_PERCENT_ASSIGN {
            "percent_assign"
        } else if self.id == TOK_SHIFT_LEFT_ASSIGN {
            "shift_left_assign"
        } else if self.id == TOK_SHIFT_RIGHT_ASSIGN {
            "shift_right_assign"
        } else if self.id == TOK_ARITHMETIC_SHIFT_RIGHT_ASSIGN {
            "arithmetic_shift_right_assign"
        } else if self.id == TOK_BIT_AND_ASSIGN {
            "bit_and_assign"
        } else if self.id == TOK_BIT_OR_ASSIGN {
            "bit_or_assign"
        } else if self.id == TOK_BIT_XOR_ASSIGN {
            "bit_xor_assign"
        } else if self.id == TOK_BREAK_KEYWORD {
            "break_keyword"
        } else if self.id == TOK_CASE_KEYWORD {
            "case_keyword"
        } else if self.id == TOK_CATCH_KEYWORD {
            "catch_keyword"
        } else if self.id == TOK_CONTINUE_KEYWORD {
            "continue_keyword"
        } else if self.id == TOK_DEFAULT_KEYWORD {
            "default_keyword"
        } else if self.id == TOK_DELETE_KEYWORD {
            "delete_keyword"
        } else if self.id == TOK_DO_KEYWORD {
            "do_keyword"
        } else if self.id == TOK_ELSE_KEYWORD {
            "else_keyword"
        } else if self.id == TOK_FINALLY_KEYWORD {
            "finally_keyword"
        } else if self.id == TOK_FOR_KEYWORD {
            "for_keyword"
        } else if self.id == TOK_FUNCTION_KEYWORD {
            "function_keyword"
        } else if self.id == TOK_IF_KEYWORD {
            "if_keyword"
        } else if self.id == TOK_IN_KEYWORD {
            "in_keyword"
        } else if self.id == TOK_INSTANCEOF_KEYWORD {
            "instanceof_keyword"
        } else if self.id == TOK_NEW_KEYWORD {
            "new_keyword"
        } else if self.id == TOK_RETURN_KEYWORD {
            "return_keyword"
        } else if self.id == TOK_SWITCH_KEYWORD {
            "switch_keyword"
        } else if self.id == TOK_THIS_KEYWORD {
            "this_keyword"
        } else if self.id == TOK_THROW_KEYWORD {
            "throw_keyword"
        } else if self.id == TOK_TRY_KEYWORD {
            "try_keyword"
        } else if self.id == TOK_TYPEOF_KEYWORD {
            "typeof_keyword"
        } else if self.id == TOK_VAR_KEYWORD {
            "var_keyword"
        } else if self.id == TOK_VOID_KEYWORD {
            "void_keyword"
        } else if self.id == TOK_WHILE_KEYWORD {
            "while_keyword"
        } else {
            ""
        }
    }

    pub fn error() -> (r: TokenKind)
        ensures
            r.id() == TOK_ERROR,
    {
        TokenKind { id: TOK_ERROR }
    }

    pub fn is_error(&self) -> (r: bool)
        ensures
            r <==> self.id() == TOK_ERROR,
    {
        self.id == TOK_ERROR
    }

    pub fn end() -> (r: TokenKind)
        ensures
            r.id() == TOK_END,
    {
        TokenKind { id: TOK_END }
    }

    pub fn is_end(&self) -> (r: bool)
        ensures
            r <==> self.id() == TOK_END,
    {
        self.id == TOK_END
    }

    pub fn whitespace() -> (r: TokenKind)
        ensures
            r.id() == TOK_WHITESPACE,
    {
        TokenKind { id: TOK_WHITESPACE }
    }

    pub fn is_whitespace(&self) -> (r: bool)
        ensures
            r <==> self.id() == TOK_WHITESPACE,
    {
        self.id == TOK_WHITESPACE
    }

    pub fn newline() -> (r: TokenKind)
        ensures
            r.id() == TOK_NEWLINE,
    {
        TokenKind { id: TOK_NEWLINE }
    }

    pub fn is_newline(&self) -> (r: bool)
        ensures
            r <==> self.id() == TOK_NEWLINE,
    {
        self.id == TOK_NEWLINE
    }

    pub fn comment() -> (r: TokenKind)
        ensures
            r.id() == TOK_COMMENT,
    {
        TokenKind { id: TOK_COMMENT }
    }

    pub fn is_comment(&self) -> (r: bool)
        ensures
            r <==> self.id() == TOK_COMMENT,
    {
        self.id == TOK_COMMENT
    }

    pub fn identifier() -> (r: TokenKind)
        ensures
            r.id() == TOK_IDENTIFIER,
    {
        TokenKind { id: TOK_IDENTIFIER }
    }

    pub fn is_identifier(&self) -> (r: bool)
        ensures
            r <==> self.id() == TOK_IDENTIFIER,
    {
        self.id == TOK_IDENTIFIER
    }

    pub fn integer_literal() -> (r: TokenKind)
        ensures
            r.id() == TOK_INTEGER_LITERAL,
    {
        TokenKind { id: TOK_INTEGER_LITERAL }
    }

    pub fn is_integer_literal(&self) -> (r: bool)
        ensures
            r <==> self.id() == TOK_INTEGER_LITERAL,
    {
        self.id == TOK_INTEGER_LITERAL
    }

    pub fn hex_integer_literal() -> (r: TokenKind)
        ensures
            r.id() == TOK_HEX_INTEGER_LITERAL,
    {
        TokenKind { id: TOK_HEX_INTEGER_LITERAL }
    }

    pub fn is_hex_integer_literal(&self) -> (r: bool)
        ensures
            r <==> self.id() == TOK_HEX_INTEGER_LITERAL,
    {
        self.id == TOK_HEX_INTEGER_LITERAL
    }

    pub fn oct_integer_literal() -> (r: TokenKind)
        ensures
            r.id() == TOK_OCT_INTEGER_LITERAL,
    {
        TokenKind { id: TOK_OCT_INTEGER_LITERAL }
    }

    pub fn is_oct_integer_literal(&self) -> (r: bool)
        ensures
            r <==> self.id() == TOK_OCT_INTEGER_LITERAL,
    {
        self.id == TOK_OCT_INTEGER_LITERAL
    }

    pub fn float_literal() -> (r: TokenKind)
        ensures
            r.id() == TOK_FLOAT_LITERAL,
    {
        TokenKind { id: TOK_FLOAT_LITERAL }
    }

    pub fn is_float_literal(&self) -> (r: bool)
        ensures
            r <==> self.id() == TOK_FLOAT_LITERAL,
    {
        self.id == TOK_FLOAT_LITERAL
    }

    pub fn open_paren() -> (r: TokenKind)
        ensures
            r.id() == TOK_OPEN_PAREN,
    {
        TokenKind { id: TOK_OPEN_PAREN }
    }

    pub fn is_open_paren(&self) -> (r: bool)
        ensures
            r <==> self.id() == TOK_OPEN_PAREN,
    {
        self.id == TOK_OPEN_PAREN
    }

    pub fn close_paren() -> (r: TokenKind)
        ensures
            r.id() == TOK_CLOSE_PAREN,
    {
        TokenKind { id: TOK_CLOSE_PAREN }
    }

    pub fn is_close_paren(&self) -> (r: bool)
        ensures
            r <==> self.id() == TOK_CLOSE_PAREN,
    {
        self.id == TOK_CLOSE_PAREN
    }

    pub fn open_bracket() -> (r: TokenKind)
        ensures
            r.id() == TOK_OPEN_BRACKET,
    {
        TokenKind { id: TOK_OPEN_BRACKET }
    }

    pub fn is_open_bracket(&self) -> (r: bool)
        ensures
            r <==> self.id() == TOK_OPEN_BRACKET,
    {
        self.id == TOK_OPEN_BRACKET
    }

    pub fn close_bracket() -> (r: TokenKind)
        ensures
            r.id() == TOK_CLOSE_BRACKET,
    {
        TokenKind { id: TOK_CLOSE_BRACKET }
    }

    pub fn is_close_bracket(&self) -> (r: bool)
        ensures
            r <==> self.id() == TOK_CLOSE_BRACKET,
    {
        self.id == TOK_CLOSE_BRACKET
    }

    pub fn open_brace() -> (r: TokenKind)
        ensures
            r.id() == TOK_OPEN_BRACE,
    {
        TokenKind { id: TOK_OPEN_BRACE }
    }

    pub fn is_open_brace(&self) -> (r: bool)
        ensures
            r <==> self.id() == TOK_OPEN_BRACE,
    {
        self.id == TOK_OPEN_BRACE
    }

    pub fn close_brace() -> (r: TokenKind)
        ensures
            r.id() == TOK_CLOSE_BRACE,
    {
        TokenKind { id: TOK_CLOSE_BRACE }
    }

    pub fn is_close_brace(&self) -> (r: bool)
        ensures
            r <==> self.id() == TOK_CLOSE_BRACE,
    {
        self.id == TOK_CLOSE_BRACE
    }

    pub fn dot() -> (r: TokenKind)
        ensures
            r.id() == TOK_DOT,
    {
        TokenKind { id: TOK_DOT }
    }

    pub fn is_dot(&self) -> (r: bool)
        ensures
            r <==> self.id() == TOK_DOT,
    {
        self.id == TOK_DOT
    }

    pub fn semicolon() -> (r: TokenKind)
        ensures
            r.id() == TOK_SEMICOLON,
    {
        TokenKind { id: TOK_SEMICOLON }
    }

    pub fn is_semicolon(&self) -> (r: bool)
        ensures
            r <==> self.id() == TOK_SEMICOLON,
    {
        self.id == TOK_SEMICOLON
    }

    pub fn comma() -> (r: TokenKind)
        ensures
            r.id() == TOK_COMMA,
    {
        TokenKind { id: TOK_COMMA }
    }

    pub fn is_comma(&self) -> (r: bool)
        ensures
            r <==> self.id() == TOK_COMMA,
    {
        self.id == TOK_COMMA
    }

    pub fn question() -> (r: TokenKind)
        ensures
            r.id() == TOK_QUESTION,
    {
        TokenKind { id: TOK_QUESTION }
    }

    pub fn is_question(&self) -> (r: bool)
        ensures
            r <==> self.id() == TOK_QUESTION,
    {
        self.id == TOK_QUESTION
    }

    pub fn colon() -> (r: TokenKind)
        ensures
            r.id() == TOK_COLON,
    {
        TokenKind { id: TOK_COLON }
    }

    pub fn is_colon(&self) -> (r: bool)
        ensures
            r <==> self.id() == TOK_COLON,
    {
        self.id == TOK_COLON
    }

    pub fn equal() -> (r: TokenKind)
        ensures
            r.id() == TOK_EQUAL,
    {
        TokenKind { id: TOK_EQUAL }
    }

    pub fn is_equal(&self) -> (r: bool)
        ensures
            r <==> self.id() == TOK_EQUAL,
    {
        self.id == TOK_EQUAL
    }

    pub fn strict_equal() -> (r: TokenKind)
        ensures
            r.id() == TOK_STRICT_EQUAL,
    {
        TokenKind { id: TOK_STRICT_EQUAL }
    }

    pub fn is_strict_equal(&self) -> (r: bool)
        ensures
            r <==> self.id() == TOK_STRICT_EQUAL,
    {
        self.id == TOK_STRICT_EQUAL
    }

    pub fn not_equal() -> (r: TokenKind)
        ensures
            r.id() == TOK_NOT_EQUAL,
    {
        TokenKind { id: TOK_NOT_EQUAL }
    }

    pub fn is_not_equal(&self) -> (r: bool)
        ensures
            r <==> self.id() == TOK_NOT_EQUAL,
    {
        self.id == TOK_NOT_EQUAL
    }

    pub fn strict_not_equal() -> (r: TokenKind)
        ensures
            r.id() == TOK_STRICT_NOT_EQUAL,
    {
        TokenKind { id: TOK_STRICT_NOT_EQUAL }
    }

    pub fn is_strict_not_equal(&self) -> (r: bool)
        ensures
            r <==> self.id() == TOK_STRICT_NOT_EQUAL,
    {
        self.id == TOK_STRICT_NOT_EQUAL
    }

    pub fn less() -> (r: TokenKind)
        ensures
            r.id() == TOK_LESS,
    {
        TokenKind { id: TOK_LESS }
    }

    pub fn is_less(&self) -> (r: bool)
        ensures
            r <==> self.id() == TOK_LESS,
    {
        self.id == TOK_LESS
    }

    pub fn less_equal() -> (r: TokenKind)
        ensures
            r.id() == TOK_LESS_EQUAL,
    {
        TokenKind { id: TOK_LESS_EQUAL }
    }

    pub fn is_less_equal(&self) -> (r: bool)
        ensures
            r <==> self.id() == TOK_LESS_EQUAL,
    {
        self.id == TOK_LESS_EQUAL
    }

    pub fn greater() -> (r: TokenKind)
        ensures
            r.id() == TOK_GREATER,
    {
        TokenKind { id: TOK_GREATER }
    }

    pub fn is_greater(&self) -> (r: bool)
        ensures
            r <==> self.id() == TOK_GREATER,
    {
        self.id == TOK_GREATER
    }

    pub fn greater_equal() -> (r: TokenKind)
        ensures
            r.id() == TOK_GREATER_EQUAL,
    {
        TokenKind { id: TOK_GREATER_EQUAL }
    }

    pub fn is_greater_equal(&self) -> (r: bool)
        ensures
            r <==> self.id() == TOK_GREATER_EQUAL,
    {
        self.id == TOK_GREATER_EQUAL
    }

    pub fn tilde() -> (r: TokenKind)
        ensures
            r.id() == TOK_TILDE,
    {
        TokenKind { id: TOK_TILDE }
    }

    pub fn is_tilde(&self) -> (r: bool)
        ensures
            r <==> self.id() == TOK_TILDE,
    {
        self.id == TOK_TILDE
    }

    pub fn bang() -> (r: TokenKind)
        ensures
            r.id() == TOK_BANG,
    {
        TokenKind { id: TOK_BANG }
    }

    pub fn is_bang(&self) -> (r: bool)
        ensures
            r <==> self.id() == TOK_BANG,
    {
        self.id == TOK_BANG
    }

    pub fn plus() -> (r: TokenKind)
        ensures
            r.id() == TOK_PLUS,
    {
        TokenKind { id: TOK_PLUS }
    }

    pub fn is_plus(&self) -> (r: bool)
        ensures
            r <==> self.id() == TOK_PLUS,
    {
        self.id == TOK_PLUS
    }

    pub fn plus_plus() -> (r: TokenKind)
        ensures
            r.id() == TOK_PLUS_PLUS,
    {
        TokenKind { id: TOK_PLUS_PLUS }
    }

    pub fn is_plus_plus(&self) -> (r: bool)
        ensures
            r <==> self.id() == TOK_PLUS_PLUS,
    {
        self.id == TOK_PLUS_PLUS
    }

    pub fn minus() -> (r: TokenKind)
        ensures
            r.id() == TOK_MINUS,
    {
        TokenKind { id: TOK_MINUS }
    }

    pub fn is_minus(&self) -> (r: bool)
        ensures
            r <==> self.id() == TOK_MINUS,
    {
        self.id == TOK_MINUS
    }

    pub fn minus_minus() -> (r: TokenKind)
        ensures
            r.id() == TOK_MINUS_MINUS,
    {
        TokenKind { id: TOK_MINUS_MINUS }
    }

    pub fn is_minus_minus(&self) -> (r: bool)
        ensures
            r <==> self.id() == TOK_MINUS_MINUS,
    {
        self.id == TOK_MINUS_MINUS
    }

    pub fn star() -> (r: TokenKind)
        ensures
            r.id() == TOK_STAR,
    {
        TokenKind { id: TOK_STAR }
    }

    pub fn is_star(&self) -> (r: bool)
        ensures
            r <==> self.id() == TOK_STAR,
    {
        self.id == TOK_STAR
    }

    pub fn slash() -> (r: TokenKind)
        ensures
            r.id() == TOK_SLASH,
    {
        TokenKind { id: TOK_SLASH }
    }

    pub fn is_slash(&self) -> (r: bool)
        ensures
            r <==> self.id() == TOK_SLASH,
    {
        self.id == TOK_SLASH
    }

    pub fn percent() -> (r: TokenKind)
        ensures
            r.id() == TOK_PERCENT,
    {
        TokenKind { id: TOK_PERCENT }
    }

    pub fn is_percent(&self) -> (r: bool)
        ensures
            r <==> self.id() == TOK_PERCENT,
    {
        self.id == TOK_PERCENT
    }

    pub fn shift_left() -> (r: TokenKind)
        ensures
            r.id() == TOK_SHIFT_LEFT,
    {
        TokenKind { id: TOK_SHIFT_LEFT }
    }

    pub fn is_shift_left(&self) -> (r: bool)
        ensures
            r <==> self.id() == TOK_SHIFT_LEFT,
    {
        self.id == TOK_SHIFT_LEFT
    }

    pub fn shift_right() -> (r: TokenKind)
        ensures
            r.id() == TOK_SHIFT_RIGHT,
    {
        TokenKind { id: TOK_SHIFT_RIGHT }
    }

    pub fn is_shift_right(&self) -> (r: bool)
        ensures
            r <==> self.id() == TOK_SHIFT_RIGHT,
    {
        self.id == TOK_SHIFT_RIGHT
    }

    pub fn arithmetic_shift_right() -> (r: TokenKind)
        ensures
            r.id() == TOK_ARITHMETIC_SHIFT_RIGHT,
    {
        TokenKind { id: TOK_ARITHMETIC_SHIFT_RIGHT }
    }

    pub fn is_arithmetic_shift_right(&self) -> (r: bool)
        ensures
            r <==> self.id() == TOK_ARITHMETIC_SHIFT_RIGHT,
    {
        self.id == TOK_ARITHMETIC_SHIFT_RIGHT
    }

    pub fn bit_and() -> (r: TokenKind)
        ensures
            r.id() == TOK_BIT_AND,
    {
        TokenKind { id: TOK_BIT_AND }
    }

    pub fn is_bit_and(&self) -> (r: bool)
        ensures
            r <==> self.id() == TOK_BIT_AND,
    {
        self.id == TOK_BIT_AND
    }

    pub fn bit_or() -> (r: TokenKind)
        ensures
            r.id() == TOK_BIT_OR,
    {
        TokenKind { id: TOK_BIT_OR }
    }

    pub fn is_bit_or(&self) -> (r: bool)
        ensures
            r <==> self.id() == TOK_BIT_OR,
    {
        self.id == TOK_BIT_OR
    }

    pub fn bit_xor() -> (r: TokenKind)
        ensures
            r.id() == TOK_BIT_XOR,
    {
        TokenKind { id: TOK_BIT_XOR }
    }

    pub fn is_bit_xor(&self) -> (r: bool)
        ensures
            r <==> self.id() == TOK_BIT_XOR,
    {
        self.id == TOK_BIT_XOR
    }

    pub fn logical_and() -> (r: TokenKind)
        ensures
            r.id() == TOK_LOGICAL_AND,
    {
        TokenKind { id: TOK_LOGICAL_AND }
    }

    pub fn is_logical_and(&self) -> (r: bool)
        ensures
            r <==> self.id() == TOK_LOGICAL_AND,
    {
        self.id == TOK_LOGICAL_AND
    }

    pub fn logical_or() -> (r: TokenKind)
        ensures
            r.id() == TOK_LOGICAL_OR,
    {
        TokenKind { id: TOK_LOGICAL_OR }
    }

    pub fn is_logical_or(&self) -> (r: bool)
        ensures
            r <==> self.id() == TOK_LOGICAL_OR,
    {
        self.id == TOK_LOGICAL_OR
    }

    pub fn assign() -> (r: TokenKind)
        ensures
            r.id() == TOK_ASSIGN,
    {
        TokenKind { id: TOK_ASSIGN }
    }

    pub fn is_assign(&self) -> (r: bool)
        ensures
            r <==> self.id() == TOK_ASSIGN,
    {
        self.id == TOK_ASSIGN
    }

    pub fn plus_assign() -> (r: TokenKind)
        ensures
            r.id() == TOK_PLUS_ASSIGN,
    {
        TokenKind { id: TOK_PLUS_ASSIGN }
    }

    pub fn is_plus_assign(&self) -> (r: bool)
        ensures
            r <==> self.id() == TOK_PLUS_ASSIGN,
    {
        self.id == TOK_PLUS_ASSIGN
    }

    pub fn minus_assign() -> (r: TokenKind)
        ensures
            r.id() == TOK_MINUS_ASSIGN,
    {
        TokenKind { id: TOK_MINUS_ASSIGN }
    }

    pub fn is_minus_assign(&self) -> (r: bool)
        ensures
            r <==> self.id() == TOK_MINUS_ASSIGN,
    {
        self.id == TOK_MINUS_ASSIGN
    }

    pub fn star_assign() -> (r: TokenKind)
        ensures
            r.id() == TOK_STAR_ASSIGN,
    {
        TokenKind { id: TOK_STAR_ASSIGN }
    }

    pub fn is_star_assign(&self) -> (r: bool)
        ensures
            r <==> self.id() == TOK_STAR_ASSIGN,
    {
        self.id == TOK_STAR_ASSIGN
    }

    pub fn slash_assign() -> (r: TokenKind)
        ensures
            r.id() == TOK_SLASH_ASSIGN,
    {
        TokenKind { id: TOK_SLASH_ASSIGN }
    }

    pub fn is_slash_assign(&self) -> (r: bool)
        ensures
            r <==> self.id() == TOK_SLASH_ASSIGN,
    {
        self.id == TOK_SLASH_ASSIGN
    }

    pub fn percent_assign() -> (r: TokenKind)
        ensures
            r.id() == TOK_PERCENT_ASSIGN,
    {
        TokenKind { id: TOK_PERCENT_ASSIGN }
    }

    pub fn is_percent_assign(&self) -> (r: bool)
        ensures
            r <==> self.id() == TOK_PERCENT_ASSIGN,
    {
        self.id == TOK_PERCENT_ASSIGN
    }

    pub fn shift_left_assign() -> (r: TokenKind)
        ensures
            r.id() == TOK_SHIFT_LEFT_ASSIGN,
    {
        TokenKind { id: TOK_SHIFT_LEFT_ASSIGN }
    }

    pub fn is_shift_left_assign(&self) -> (r: bool)
        ensures
            r <==> self.id() == TOK_SHIFT_LEFT_ASSIGN,
    {
        self.id == TOK_SHIFT_LEFT_ASSIGN
    }

    pub fn shift_right_assign() -> (r: TokenKind)
        ensures
            r.id() == TOK_SHIFT_RIGHT_ASSIGN,
    {
        TokenKind { id: TOK_SHIFT_RIGHT_ASSIGN }
    }

    pub fn is_shift_right_assign(&self) -> (r: bool)
        ensures
            r <==> self.id() == TOK_SHIFT_RIGHT_ASSIGN,
    {
        self.id == TOK_SHIFT_RIGHT_ASSIGN
    }

    pub fn arithmetic_shift_right_assign() -> (r: TokenKind)
        ensures
            r.id() == TOK_ARITHMETIC_SHIFT_RIGHT_ASSIGN,
    {
        TokenKind { id: TOK_ARITHMETIC_SHIFT_RIGHT_ASSIGN }
    }

    pub fn is_arithmetic_shift_right_assign(&self) -> (r: bool)
        ensures
            r <==> self.id() == TOK_ARITHMETIC_SHIFT_RIGHT_ASSIGN,
    {
        self.id == TOK_ARITHMETIC_SHIFT_RIGHT_ASSIGN
    }

    pub fn bit_and_assign() -> (r: TokenKind)
        ensures
            r.id() == TOK_BIT_AND_ASSIGN,
    {
        TokenKind { id: TOK_BIT_AND_ASSIGN }
    }

    pub fn is_bit_and_assign(&self) -> (r: bool)
        ensures
            r <==> self.id() == TOK_BIT_AND_ASSIGN,
    {
        self.id == TOK_BIT_AND_ASSIGN
    }

    pub fn bit_or_assign() -> (r: TokenKind)
        ensures
            r.id() == TOK_BIT_OR_ASSIGN,
    {
        TokenKind { id: TOK_BIT_OR_ASSIGN }
    }

    pub fn is_bit_or_assign(&self) -> (r: bool)
        ensures
            r <==> self.id() == TOK_BIT_OR_ASSIGN,
    {
        self.id == TOK_BIT_OR_ASSIGN
    }

    pub fn bit_xor_assign() -> (r: TokenKind)
        ensures
            r.id() == TOK_BIT_XOR_ASSIGN,
    {
        TokenKind { id: TOK_BIT_XOR_ASSIGN }
    }

    pub fn is_bit_xor_assign(&self) -> (r: bool)
        ensures
            r <==> self.id() == TOK_BIT_XOR_ASSIGN,
    {
        self.id == TOK_BIT_XOR_ASSIGN
    }

    pub fn break_keyword() -> (r: TokenKind)
        ensures
            r.id() == TOK_BREAK_KEYWORD,
    {
        TokenKind { id: TOK_BREAK_KEYWORD }
    }

    pub fn is_break_keyword(&self) -> (r: bool)
        ensures
            r <==> self.id() == TOK_BREAK_KEYWORD,
    {
        self.id == TOK_BREAK_KEYWORD
    }

    pub fn case_keyword() -> (r: TokenKind)
        ensures
            r.id() == TOK_CASE_KEYWORD,
    {
        TokenKind { id: TOK_CASE_KEYWORD }
    }

    pub fn is_case_keyword(&self) -> (r: bool)
        ensures
            r <==> self.id() == TOK_CASE_KEYWORD,
    {
        self.id == TOK_CASE_KEYWORD
    }

    pub fn catch_keyword() -> (r: TokenKind)
        ensures
            r.id() == TOK_CATCH_KEYWORD,
    {
        TokenKind { id: TOK_CATCH_KEYWORD }
    }

    pub fn is_catch_keyword(&self) -> (r: bool)
        ensures
            r <==> self.id() == TOK_CATCH_KEYWORD,
    {
        self.id == TOK_CATCH_KEYWORD
    }

    pub fn continue_keyword() -> (r: TokenKind)
        ensures
            r.id() == TOK_CONTINUE_KEYWORD,
    {
        TokenKind { id: TOK_CONTINUE_KEYWORD }
    }

    pub fn is_continue_keyword(&self) -> (r: bool)
        ensures
            r <==> self.id() == TOK_CONTINUE_KEYWORD,
    {
        self.id == TOK_CONTINUE_KEYWORD
    }

    pub fn default_keyword() -> (r: TokenKind)
        ensures
            r.id() == TOK_DEFAULT_KEYWORD,
    {
        TokenKind { id: TOK_DEFAULT_KEYWORD }
    }

    pub fn is_default_keyword(&self) -> (r: bool)
        ensures
            r <==> self.id() == TOK_DEFAULT_KEYWORD,
    {
        self.id == TOK_DEFAULT_KEYWORD
    }

    pub fn delete_keyword() -> (r: TokenKind)
        ensures
            r.id() == TOK_DELETE_KEYWORD,
    {
        TokenKind { id: TOK_DELETE_KEYWORD }
    }

    pub fn is_delete_keyword(&self) -> (r: bool)
        ensures
            r <==> self.id() == TOK_DELETE_KEYWORD,
    {
        self.id == TOK_DELETE_KEYWORD
    }

    pub fn do_keyword() -> (r: TokenKind)
        ensures
            r.id() == TOK_DO_KEYWORD,
    {
        TokenKind { id: TOK_DO_KEYWORD }
    }

    pub fn is_do_keyword(&self) -> (r: bool)
        ensures
            r <==> self.id() == TOK_DO_KEYWORD,
    {
        self.id == TOK_DO_KEYWORD
    }

    pub fn else_keyword() -> (r: TokenKind)
        ensures
            r.id() == TOK_ELSE_KEYWORD,
    {
        TokenKind { id: TOK_ELSE_KEYWORD }
    }

    pub fn is_else_keyword(&self) -> (r: bool)
        ensures
            r <==> self.id() == TOK_ELSE_KEYWORD,
    {
        self.id == TOK_ELSE_KEYWORD
    }

    pub fn finally_keyword() -> (r: TokenKind)
        ensures
            r.id() == TOK_FINALLY_KEYWORD,
    {
        TokenKind { id: TOK_FINALLY_KEYWORD }
    }

    pub fn is_finally_keyword(&self) -> (r: bool)
        ensures
            r <==> self.id() == TOK_FINALLY_KEYWORD,
    {
        self.id == TOK_FINALLY_KEYWORD
    }

    pub fn for_keyword() -> (r: TokenKind)
        ensures
            r.id() == TOK_FOR_KEYWORD,
    {
        TokenKind { id: TOK_FOR_KEYWORD }
    }

    pub fn is_for_keyword(&self) -> (r: bool)
        ensures
            r <==> self.id() == TOK_FOR_KEYWORD,
    {
        self.id == TOK_FOR_KEYWORD
    }

    pub fn function_keyword() -> (r: TokenKind)
        ensures
            r.id() == TOK_FUNCTION_KEYWORD,
    {
        TokenKind { id: TOK_FUNCTION_KEYWORD }
    }

    pub fn is_function_keyword(&self) -> (r: bool)
        ensures
            r <==> self.id() == TOK_FUNCTION_KEYWORD,
    {
        self.id == TOK_FUNCTION_KEYWORD
    }

    pub fn if_keyword() -> (r: TokenKind)
        ensures
            r.id() == TOK_IF_KEYWORD,
    {
        TokenKind { id: TOK_IF_KEYWORD }
    }

    pub fn is_if_keyword(&self) -> (r: bool)
        ensures
            r <==> self.id() == TOK_IF_KEYWORD,
    {
        self.id == TOK_IF_KEYWORD
    }

    pub fn in_keyword() -> (r: TokenKind)
        ensures
            r.id() == TOK_IN_KEYWORD,
    {
        TokenKind { id: TOK_IN_KEYWORD }
    }

    pub fn is_in_keyword(&self) -> (r: bool)
        ensures
            r <==> self.id() == TOK_IN_KEYWORD,
    {
        self.id == TOK_IN_KEYWORD
    }

    pub fn instanceof_keyword() -> (r: TokenKind)
        ensures
            r.id() == TOK_INSTANCEOF_KEYWORD,
    {
        TokenKind { id: TOK_INSTANCEOF_KEYWORD }
    }

    pub fn is_instanceof_keyword(&self) -> (r: bool)
        ensures
            r <==> self.id() == TOK_INSTANCEOF_KEYWORD,
    {
        self.id == TOK_INSTANCEOF_KEYWORD
    }

    pub fn new_keyword() -> (r: TokenKind)
        ensures
            r.id() == TOK_NEW_KEYWORD,
    {
        TokenKind { id: TOK_NEW_KEYWORD }
    }

    pub fn is_new_keyword(&self) -> (r: bool)
        ensures
            r <==> self.id() == TOK_NEW_KEYWORD,
    {
        self.id == TOK_NEW_KEYWORD
    }

    pub fn return_keyword() -> (r: TokenKind)
        ensures
            r.id() == TOK_RETURN_KEYWORD,
    {
        TokenKind { id: TOK_RETURN_KEYWORD }
    }

    pub fn is_return_keyword(&self) -> (r: bool)
        ensures
            r <==> self.id() == TOK_RETURN_KEYWORD,
    {
        self.id == TOK_RETURN_KEYWORD
    }

    pub fn switch_keyword() -> (r: TokenKind)
        ensures
            r.id() == TOK_SWITCH_KEYWORD,
    {
        TokenKind { id: TOK_SWITCH_KEYWORD }
    }

    pub fn is_switch_keyword(&self) -> (r: bool)
        ensures
            r <==> self.id() == TOK_SWITCH_KEYWORD,
    {
        self.id == TOK_SWITCH_KEYWORD
    }

    pub fn this_keyword() -> (r: TokenKind)
        ensures
            r.id() == TOK_THIS_KEYWORD,
    {
        TokenKind { id: TOK_THIS_KEYWORD }
    }

    pub fn is_this_keyword(&self) -> (r: bool)
        ensures
            r <==> self.id() == TOK_THIS_KEYWORD,
    {
        self.id == TOK_THIS_KEYWORD
    }

    pub fn throw_keyword() -> (r: TokenKind)
        ensures
            r.id() == TOK_THROW_KEYWORD,
    {
        TokenKind { id: TOK_THROW_KEYWORD }
    }

    pub fn is_throw_keyword(&self) -> (r: bool)
        ensures
            r <==> self.id() == TOK_THROW_KEYWORD,
    {
        self.id == TOK_THROW_KEYWORD
    }

    pub fn try_keyword() -> (r: TokenKind)
        ensures
            r.id() == TOK_TRY_KEYWORD,
    {
        TokenKind { id: TOK_TRY_KEYWORD }
    }

    pub fn is_try_keyword(&self) -> (r: bool)
        ensures
            r <==> self.id() == TOK_TRY_KEYWORD,
    {
        self.id == TOK_TRY_KEYWORD
    }

    pub fn typeof_keyword() -> (r: TokenKind)
        ensures
            r.id() == TOK_TYPEOF_KEYWORD,
    {
        TokenKind { id: TOK_TYPEOF_KEYWORD }
    }

    pub fn is_typeof_keyword(&self) -> (r: bool)
        ensures
            r <==> self.id() == TOK_TYPEOF_KEYWORD,
    {
        self.id == TOK_TYPEOF_KEYWORD
    }

    pub fn var_keyword() -> (r: TokenKind)
        ensures
            r.id() == TOK_VAR_KEYWORD,
    {
        TokenKind { id: TOK_VAR_KEYWORD }
    }

    pub fn is_var_keyword(&self) -> (r: bool)
        ensures
            r <==> self.id() == TOK_VAR_KEYWORD,
    {
        self.id == TOK_VAR_KEYWORD
    }

    pub fn void_keyword() -> (r: TokenKind)
        ensures
            r.id() == TOK_VOID_KEYWORD,
    {
        TokenKind { id: TOK_VOID_KEYWORD }
    }

    pub fn is_void_keyword(&self) -> (r: bool)
        ensures
            r <==> self.id() == TOK_VOID_KEYWORD,
    {
        self.id == TOK_VOID_KEYWORD
    }

    pub fn while_keyword() -> (r: TokenKind)
        ensures
            r.id() == TOK_WHILE_KEYWORD,
    {
        TokenKind { id: TOK_WHILE_KEYWORD }
    }

    pub fn is_while_keyword(&self) -> (r: bool)
        ensures
            r <==> self.id() == TOK_WHILE_KEYWORD,
    {
        self.id == TOK_WHILE_KEYWORD
    }

    /// Membership in the contiguous run of assignment-operator kinds.
    pub open spec fn spec_is_assignment_op(self) -> bool {
        MIN_ASSIGN_TOK_ID <= self.id() <= MAX_ASSIGN_TOK_ID
    }

    pub fn is_assignment_op(&self) -> (r: bool)
        ensures
            r == self.spec_is_assignment_op(),
    {
        (self.id >= MIN_ASSIGN_TOK_ID) && (self.id <= MAX_ASSIGN_TOK_ID)
    }

    /// Membership in the contiguous run of reserved-keyword kinds.
    pub open spec fn spec_is_keyword(self) -> bool {
        MIN_KEYWORD_TOK_ID <= self.id() <= MAX_KEYWORD_TOK_ID
    }

    pub fn is_keyword(&self) -> (r: bool)
        ensures
            r == self.spec_is_keyword(),
    {
        (self.id >= MIN_KEYWORD_TOK_ID) && (self.id <= MAX_KEYWORD_TOK_ID)
    }

    /// A token that forms an atomic (leaf) expression: an identifier or a
    /// literal.
    pub open spec fn spec_is_atomic_expr(self) -> bool {
        self.id() == TOK_IDENTIFIER || TOK_INTEGER_LITERAL <= self.id() <= TOK_FLOAT_LITERAL
    }

    pub fn is_atomic_expr(&self) -> (r: bool)
        ensures
            r == self.spec_is_atomic_expr(),
    {
        self.id == TOK_IDENTIFIER || (self.id >= TOK_INTEGER_LITERAL && self.id
            <= TOK_FLOAT_LITERAL)
    }

    /// A token that may begin a unary-operator expression.
    pub open spec fn spec_is_unary_op(self) -> bool {
        self.id() == TOK_TILDE || self.id() == TOK_BANG || self.id() == TOK_PLUS || self.id()
            == TOK_MINUS || self.id() == TOK_PLUS_PLUS || self.id() == TOK_MINUS_MINUS || self.id()
            == TOK_DELETE_KEYWORD || self.id() == TOK_VOID_KEYWORD || self.id()
            == TOK_TYPEOF_KEYWORD
    }

    pub fn is_unary_op(&self) -> (r: bool)
        ensures
            r == self.spec_is_unary_op(),
    {
        self.id == TOK_TILDE || self.id == TOK_BANG || self.id == TOK_PLUS || self.id == TOK_MINUS
            || self.id == TOK_PLUS_PLUS || self.id == TOK_MINUS_MINUS || self.id
            == TOK_DELETE_KEYWORD || self.id == TOK_VOID_KEYWORD || self.id == TOK_TYPEOF_KEYWORD
    }

    /// An equality-comparison operator.
    pub open spec fn spec_is_equality_op(self) -> bool {
        TOK_EQUAL <= self.id() <= TOK_STRICT_NOT_EQUAL
    }

    pub fn is_equality_op(&self) -> (r: bool)
        ensures
            r == self.spec_is_equality_op(),
    {
        (self.id >= TOK_EQUAL) && (self.id <= TOK_STRICT_NOT_EQUAL)
    }

    /// A relational-comparison operator, including `in` and `instanceof`.
    pub open spec fn spec_is_relational_op(self) -> bool {
        TOK_LESS <= self.id() <= TOK_GREATER_EQUAL || self.id() == TOK_IN_KEYWORD || self.id()
            == TOK_INSTANCEOF_KEYWORD
    }

    pub fn is_relational_op(&self) -> (r: bool)
        ensures
            r == self.spec_is_relational_op(),
    {
        (self.id >= TOK_LESS && self.id <= TOK_GREATER_EQUAL) || self.id == TOK_IN_KEYWORD
            || self.id == TOK_INSTANCEOF_KEYWORD
    }

    /// A shift operator.
    pub open spec fn spec_is_shift_op(self) -> bool {
        TOK_SHIFT_LEFT <= self.id() <= TOK_ARITHMETIC_SHIFT_RIGHT
    }

    pub fn is_shift_op(&self) -> (r: bool)
        ensures
            r == self.spec_is_shift_op(),
    {
        (self.id >= TOK_SHIFT_LEFT) && (self.id <= TOK_ARITHMETIC_SHIFT_RIGHT)
    }
}

} // verus!
