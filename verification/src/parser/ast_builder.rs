//! The AST builder: drives the tokenizer to produce a program AST via
//! recursive descent for statements and precedence climbing for
//! expressions.

use vstd::prelude::*;
use crate::parser::ast::{
    deep_decls,
    lemma_deep_args,
    lemma_deep_exprs_empty,
    deep_expr,
    deep_exprs,
    deep_stmt,
    deep_stmts,
    SpecExpr,
    SpecStmt,
    SpecVarDecl,
    AtomicExprNode,
    BinaryOpExprNode,
    BlockStmtNode,
    CallExprNode,
    CommaExprNode,
    CondExprNode,
    ConstructExprNode,
    ElementExprNode,
    EmptyStmtNode,
    ExprNode,
    ExprStmtNode,
    IfStmtNode,
    PostfixOpExprNode,
    ProgramNode,
    PropertyExprNode,
    StmtNode,
    UnaryOpExprNode,
    VarStmtNode,
    AssignExprNode,
    wf_expr,
    wf_program,
    wf_stmt,
    wf_var_decl,
};
use crate::parser::input_stream::{StreamPosition, VecInputStream};
use crate::parser::precedence::{
    Precedence,
    PREC_ADDITIVE,
    PREC_ASSIGNMENT,
    PREC_BITWISE_AND,
    PREC_BITWISE_OR,
    PREC_BITWISE_XOR,
    PREC_CALL_OR_NEW,
    PREC_COMMA,
    PREC_CONDITIONAL,
    PREC_EQUALITY,
    PREC_LEFT_HAND_SIDE,
    PREC_LOGICAL_AND,
    PREC_LOGICAL_OR,
    PREC_LOWEST,
    PREC_MEMBER,
    PREC_MULTIPLICATIVE,
    PREC_RELATIONAL,
    PREC_SHIFT,
    PREC_UNARY,
};
use crate::parser::token_kind::TokenKind;
use crate::parser::token_kind::{
    TOK_CLOSE_BRACE,
    TOK_CLOSE_BRACKET,
    TOK_CLOSE_PAREN,
    TOK_COLON,
    TOK_COMMA,
    TOK_COMMENT,
    TOK_DOT,
    TOK_ELSE_KEYWORD,
    TOK_END,
    TOK_ERROR,
    TOK_IDENTIFIER,
    TOK_IF_KEYWORD,
    TOK_LOGICAL_AND,
    TOK_LOGICAL_OR,
    TOK_MINUS,
    TOK_MINUS_MINUS,
    TOK_NEWLINE,
    TOK_NEW_KEYWORD,
    TOK_OPEN_BRACE,
    TOK_OPEN_BRACKET,
    TOK_OPEN_PAREN,
    TOK_PERCENT,
    TOK_PLUS,
    TOK_PLUS_PLUS,
    TOK_QUESTION,
    TOK_SEMICOLON,
    TOK_SLASH,
    TOK_STAR,
    TOK_VAR_KEYWORD,
    TOK_WHITESPACE,
};
use crate::parser::tokenizer::{
    lemma_scan_token_progress,
    lemma_scan_token_progress_all,
    lemma_skip_trivia,
    lemma_skip_trivia_all,
    newline_skipped,
    scan_token,
    skip_trivia,
    TokenError,
    Tokenizer,
    TokenizerPosition,
    TokenLocation,
};

verus! {

/// A token that carries its full source location.
#[derive(Debug, Clone, PartialEq, Eq, Structural)]
pub struct FullToken {
    kind: TokenKind,
    location: TokenLocation,
}

impl FullToken {
    pub closed spec fn spec_kind(&self) -> TokenKind {
        self.kind
    }

    pub closed spec fn spec_location(self) -> TokenLocation {
        self.location
    }

    pub fn new(kind: TokenKind, location: TokenLocation) -> (r: FullToken)
        ensures
            r.spec_kind() == kind,
            r.spec_location() == location,
    {
        FullToken { kind, location }
    }

    /// Builds a token; an alias of `new`.
    pub fn make(kind: TokenKind, location: TokenLocation) -> (r: FullToken)
        ensures
            r.spec_kind() == kind,
            r.spec_location() == location,
    {
        FullToken::new(kind, location)
    }

    pub fn location(&self) -> (r: &TokenLocation)
        ensures
            *r == self.spec_location(),
    {
        &self.location
    }

    #[verifier::when_used_as_spec(spec_kind)]
    pub fn kind(&self) -> (r: TokenKind)
        ensures
            r == self.spec_kind(),
    {
        self.kind
    }

    pub fn start_offset(&self) -> (r: StreamPosition)
        ensures
            r == self.spec_location().spec_start_offset(),
    {
        self.location.start_offset()
    }

    pub fn end_offset(&self) -> (r: StreamPosition)
        ensures
            r == self.spec_location().spec_end_offset(),
    {
        self.location.end_offset()
    }

    /// The token as text: its kind's name and its location range.
    pub fn token_string(&self) -> (r: String)
        ensures
            r@ == "Token("@ + self.spec_kind().spec_name() + "@"@ + crate::parser::tokenizer::dec_str(
                self.spec_location().spec_start_offset().spec_value() as nat,
            ) + "-"@ + crate::parser::tokenizer::dec_str(
                self.spec_location().spec_end_offset().spec_value() as nat,
            ) + ")"@,
    {
        let mut s = String::new();
        s.append("Token(");
        s.append(self.kind.name());
        s.append("@");
        let range = self.location.range_string();
        s.append(range.as_str());
        s.append(")");
        proof {
            assert(s@ =~= "Token("@ + self.spec_kind().spec_name() + "@"@
                + crate::parser::tokenizer::dec_str(
                self.spec_location().spec_start_offset().spec_value() as nat,
            ) + "-"@ + crate::parser::tokenizer::dec_str(
                self.spec_location().spec_end_offset().spec_value() as nat,
            ) + ")"@);
        }
        s
    }
}


/// The token a scan of kind `kind` over the bytes `[start, end)` yields.
pub closed spec fn spec_token(kind: u8, start: int, end: int) -> FullToken {
    FullToken {
        kind: crate::parser::token_kind::kind_from_id(kind),
        location: TokenLocation::at(start, end),
    }
}

/// A token is determined by its kind identifier and offsets.
pub proof fn lemma_token_fixed(t: FullToken, kind: u8, start: int, end: int)
    requires
        t.spec_kind().id() == kind,
        t.spec_location().spec_start_offset().spec_value() == start,
        t.spec_location().spec_end_offset().spec_value() == end,
    ensures
        t == spec_token(kind, start, end),
{
    crate::parser::token_kind::lemma_kind_from_id(kind);
    crate::parser::token_kind::lemma_kind_id_injective(
        t.spec_kind(),
        crate::parser::token_kind::kind_from_id(kind),
    );
    TokenLocation::lemma_fixed_by_offsets(t.spec_location(), start, end);
}

/// A structural parse error. Errors carry the expected and actual token
/// kinds (or the production that failed), never a formatted string.
#[derive(Debug, Clone, PartialEq, Eq, Structural)]
pub enum ParseError {
    Unspecified,
    ErrorToken(FullToken),
    TokenizerError(TokenError),
    UnexpectedToken { expected: TokenKind, got: TokenKind },
    ExpectedVariableName,
    ExpectedCommaOrSemicolon,
    ExpectedCommaOrCloseParen,
    ExpectedExpression,
    ExpectedStatement,
}

pub type ParseResult<T> = Result<T, ParseError>;

pub type MaybeParseResult<T> = ParseResult<Option<T>>;

/// What one significant-token fetch yields over the bytes: the token of
/// the scan at the first position past the trivia, with the position
/// after it, or the lexical-error report of that scan.
#[verifier::opaque]
pub open spec fn sp_fetch(data: Seq<u8>, pos: int) -> Result<(FullToken, int), ParseError> {
    let sp = skip_trivia(data, pos);
    let res = scan_token(data, sp, true);
    if res.err is Some {
        Err(ParseError::ErrorToken(spec_token(TOK_ERROR, sp, res.end)))
    } else {
        Ok((spec_token(res.kind, sp, res.end), res.end))
    }
}

/// The required-token check: the fetched token on a kind match, or the
/// expected-versus-actual report on a mismatch.
pub open spec fn sp_must_expect(data: Seq<u8>, pos: int, kind: u8) -> Result<
    (FullToken, int),
    ParseError,
> {
    match sp_fetch(data, pos) {
        Err(e) => Err(e),
        Ok((t, q)) => if t.spec_kind().id() == kind {
            Ok((t, q))
        } else {
            Err(
                ParseError::UnexpectedToken {
                    expected: crate::parser::token_kind::kind_from_id(kind),
                    got: t.spec_kind(),
                },
            )
        },
    }
}

/// The optional-token check: the fetched token on a kind match, or no
/// token and an untouched position.
pub open spec fn sp_opt_expect(data: Seq<u8>, pos: int, kind: u8) -> Result<
    (Option<FullToken>, int),
    ParseError,
> {
    match sp_fetch(data, pos) {
        Err(e) => Err(e),
        Ok((t, q)) => if t.spec_kind().id() == kind {
            Ok((Some(t), q))
        } else {
            Ok((None, pos))
        },
    }
}

/// A result position pulled back into `[lo, |data|]`; the identity on
/// every position a parse actually produces.
pub open spec fn clamp_pos(data: Seq<u8>, lo: int, q: int) -> int {
    if q < lo {
        lo
    } else if q > data.len() {
        data.len() as int
    } else {
        q
    }
}

/// The expression continuations: fold operators into the tree while
/// their binding strength clears the threshold, mirroring the
/// precedence-climbing loop.
#[verifier::opaque]
pub open spec fn sp_rest(data: Seq<u8>, pos: int, left: SpecExpr, prec: u8) -> Result<
    (SpecExpr, int),
    ParseError,
>
    decreases data.len() - pos, 0int,
    when 0 <= pos <= data.len()
    via sp_rest_decreases
{
    match sp_fetch(data, pos) {
        Err(e) => Err(e),
        Ok((t, fe)) => {
            let k = t.spec_kind();
            if k.id() == TOK_COMMA {
                if prec >= PREC_COMMA {
                    Ok((left, pos))
                } else {
                    match sp_expr(data, fe, PREC_COMMA) {
                        Err(e) => Err(e),
                        Ok((r, q)) => sp_rest(
                            data,
                            clamp_pos(data, fe, q),
                            SpecExpr::Comma(Box::new(left), Box::new(r)),
                            prec,
                        ),
                    }
                }
            } else if k.spec_is_assignment_op() {
                if prec > PREC_ASSIGNMENT {
                    Ok((left, pos))
                } else {
                    match sp_expr(data, fe, PREC_ASSIGNMENT) {
                        Err(e) => Err(e),
                        Ok((r, q)) => sp_rest(
                            data,
                            clamp_pos(data, fe, q),
                            SpecExpr::Assign(t, Box::new(left), Box::new(r)),
                            prec,
                        ),
                    }
                }
            } else if k.id() == TOK_QUESTION {
                if prec > PREC_CONDITIONAL {
                    Ok((left, pos))
                } else {
                    match sp_expr(data, fe, PREC_ASSIGNMENT) {
                        Err(e) => Err(e),
                        Ok((r1, q1)) => match sp_must_expect(
                            data,
                            clamp_pos(data, fe, q1),
                            TOK_COLON,
                        ) {
                            Err(e) => Err(e),
                            Ok((c, qc)) => match sp_expr(
                                data,
                                clamp_pos(data, fe, qc),
                                PREC_ASSIGNMENT,
                            ) {
                                Err(e) => Err(e),
                                Ok((r2, q2)) => sp_rest(
                                    data,
                                    clamp_pos(data, fe, q2),
                                    SpecExpr::Cond(Box::new(left), Box::new(r1), Box::new(r2)),
                                    prec,
                                ),
                            },
                        },
                    }
                }
            } else if k.id() == TOK_LOGICAL_OR {
                if prec >= PREC_LOGICAL_OR {
                    Ok((left, pos))
                } else {
                    match sp_expr(data, fe, PREC_LOGICAL_OR) {
                        Err(e) => Err(e),
                        Ok((r, q)) => sp_rest(
                            data,
                            clamp_pos(data, fe, q),
                            SpecExpr::Binary(t, Box::new(left), Box::new(r)),
                            prec,
                        ),
                    }
                }
            } else if k.id() == TOK_LOGICAL_AND {
                if prec >= PREC_LOGICAL_AND {
                    Ok((left, pos))
                } else {
                    match sp_expr(data, fe, PREC_LOGICAL_AND) {
                        Err(e) => Err(e),
                        Ok((r, q)) => sp_rest(
                            data,
                            clamp_pos(data, fe, q),
                            SpecExpr::Binary(t, Box::new(left), Box::new(r)),
                            prec,
                        ),
                    }
                }
            } else if k.id() == crate::parser::token_kind::TOK_BIT_OR {
                if prec >= PREC_BITWISE_OR {
                    Ok((left, pos))
                } else {
                    match sp_expr(data, fe, PREC_BITWISE_OR) {
                        Err(e) => Err(e),
                        Ok((r, q)) => sp_rest(
                            data,
                            clamp_pos(data, fe, q),
                            SpecExpr::Binary(t, Box::new(left), Box::new(r)),
                            prec,
                        ),
                    }
                }
            } else if k.id() == crate::parser::token_kind::TOK_BIT_XOR {
                if prec >= PREC_BITWISE_XOR {
                    Ok((left, pos))
                } else {
                    match sp_expr(data, fe, PREC_BITWISE_XOR) {
                        Err(e) => Err(e),
                        Ok((r, q)) => sp_rest(
                            data,
                            clamp_pos(data, fe, q),
                            SpecExpr::Binary(t, Box::new(left), Box::new(r)),
                            prec,
                        ),
                    }
                }
            } else if k.id() == crate::parser::token_kind::TOK_BIT_AND {
                if prec >= PREC_BITWISE_AND {
                    Ok((left, pos))
                } else {
                    match sp_expr(data, fe, PREC_BITWISE_AND) {
                        Err(e) => Err(e),
                        Ok((r, q)) => sp_rest(
                            data,
                            clamp_pos(data, fe, q),
                            SpecExpr::Binary(t, Box::new(left), Box::new(r)),
                            prec,
                        ),
                    }
                }
            } else if k.spec_is_equality_op() {
                if prec >= PREC_EQUALITY {
                    Ok((left, pos))
                } else {
                    match sp_expr(data, fe, PREC_EQUALITY) {
                        Err(e) => Err(e),
                        Ok((r, q)) => sp_rest(
                            data,
                            clamp_pos(data, fe, q),
                            SpecExpr::Binary(t, Box::new(left), Box::new(r)),
                            prec,
                        ),
                    }
                }
            } else if k.spec_is_relational_op() {
                if prec >= PREC_RELATIONAL {
                    Ok((left, pos))
                } else {
                    match sp_expr(data, fe, PREC_RELATIONAL) {
                        Err(e) => Err(e),
                        Ok((r, q)) => sp_rest(
                            data,
                            clamp_pos(data, fe, q),
                            SpecExpr::Binary(t, Box::new(left), Box::new(r)),
                            prec,
                        ),
                    }
                }
            } else if k.spec_is_shift_op() {
                if prec >= PREC_SHIFT {
                    Ok((left, pos))
                } else {
                    match sp_expr(data, fe, PREC_SHIFT) {
                        Err(e) => Err(e),
                        Ok((r, q)) => sp_rest(
                            data,
                            clamp_pos(data, fe, q),
                            SpecExpr::Binary(t, Box::new(left), Box::new(r)),
                            prec,
                        ),
                    }
                }
            } else if k.id() == TOK_PLUS || k.id() == TOK_MINUS {
                if prec >= PREC_ADDITIVE {
                    Ok((left, pos))
                } else {
                    match sp_expr(data, fe, PREC_ADDITIVE) {
                        Err(e) => Err(e),
                        Ok((r, q)) => sp_rest(
                            data,
                            clamp_pos(data, fe, q),
                            SpecExpr::Binary(t, Box::new(left), Box::new(r)),
                            prec,
                        ),
                    }
                }
            } else if k.id() == TOK_STAR || k.id() == TOK_SLASH || k.id() == TOK_PERCENT {
                if prec >= PREC_MULTIPLICATIVE {
                    Ok((left, pos))
                } else {
                    match sp_expr(data, fe, PREC_MULTIPLICATIVE) {
                        Err(e) => Err(e),
                        Ok((r, q)) => sp_rest(
                            data,
                            clamp_pos(data, fe, q),
                            SpecExpr::Binary(t, Box::new(left), Box::new(r)),
                            prec,
                        ),
                    }
                }
            } else if k.id() == TOK_PLUS_PLUS || k.id() == TOK_MINUS_MINUS {
                if newline_skipped(data, pos) {
                    Ok((left, pos))
                } else {
                    sp_rest(data, fe, SpecExpr::Postfix(t, Box::new(left)), prec)
                }
            } else if k.id() == TOK_DOT {
                match sp_must_expect(data, fe, TOK_IDENTIFIER) {
                    Err(e) => Err(e),
                    Ok((name, qn)) => sp_rest(
                        data,
                        clamp_pos(data, fe, qn),
                        SpecExpr::Property(Box::new(left), name),
                        prec,
                    ),
                }
            } else if k.id() == TOK_OPEN_BRACKET {
                match sp_expr(data, fe, PREC_LOWEST) {
                    Err(e) => Err(e),
                    Ok((r, q)) => match sp_must_expect(
                        data,
                        clamp_pos(data, fe, q),
                        TOK_CLOSE_BRACKET,
                    ) {
                        Err(e) => Err(e),
                        Ok((c, qc)) => sp_rest(
                            data,
                            clamp_pos(data, fe, qc),
                            SpecExpr::Element(Box::new(left), Box::new(r)),
                            prec,
                        ),
                    },
                }
            } else if k.id() == TOK_OPEN_PAREN {
                if prec > PREC_CALL_OR_NEW {
                    Ok((left, pos))
                } else {
                    match sp_args(data, fe) {
                        Err(e) => Err(e),
                        Ok((args, qa)) => sp_rest(
                            data,
                            clamp_pos(data, fe, qa),
                            SpecExpr::Call(Box::new(left), args),
                            prec,
                        ),
                    }
                }
            } else {
                Ok((left, pos))
            }
        },
    }
}

#[via_fn]
proof fn sp_rest_decreases(data: Seq<u8>, pos: int, left: SpecExpr, prec: u8) {
    reveal_with_fuel(sp_fetch, 1);
    lemma_skip_trivia_all(data);
    lemma_scan_token_progress_all(data);
    assert forall|k: u8| (#[trigger] crate::parser::token_kind::kind_from_id(k)).id() == k by {
        crate::parser::token_kind::lemma_kind_from_id(k);
    }
}

/// An expression at the given threshold, or the expected-expression
/// report where none begins here.
#[verifier::opaque]
pub open spec fn sp_expr(data: Seq<u8>, pos: int, prec: u8) -> Result<(SpecExpr, int), ParseError>
    decreases data.len() - pos, 1int,
    when 0 <= pos <= data.len()
{
    match sp_check_expr(data, pos, prec) {
        Err(e) => Err(e),
        Ok((Some(e), q)) => Ok((e, q)),
        Ok((None, q)) => Err(ParseError::ExpectedExpression),
    }
}

/// An optional expression: on no match, the position is untouched.
#[verifier::opaque]
pub open spec fn sp_check_expr(data: Seq<u8>, pos: int, prec: u8) -> Result<
    (Option<SpecExpr>, int),
    ParseError,
>
    decreases data.len() - pos, 0int,
    when 0 <= pos <= data.len()
    via sp_check_expr_decreases
{
    match sp_fetch(data, pos) {
        Err(e) => Err(e),
        Ok((t, fe)) => if t.spec_kind().id() == TOK_END {
            Ok((None, pos))
        } else {
            match sp_try(data, fe, t, prec) {
                Err(e) => Err(e),
                Ok((Some(e), q)) => Ok((Some(e), q)),
                Ok((None, q)) => Ok((None, pos)),
            }
        },
    }
}

#[via_fn]
proof fn sp_check_expr_decreases(data: Seq<u8>, pos: int, prec: u8) {
    reveal_with_fuel(sp_fetch, 1);
    lemma_skip_trivia_all(data);
    lemma_scan_token_progress_all(data);
    assert forall|k: u8| (#[trigger] crate::parser::token_kind::kind_from_id(k)).id() == k by {
        crate::parser::token_kind::lemma_kind_from_id(k);
    }
}

/// An expression whose first token `tok` was already consumed, the
/// position standing just past it.
#[verifier::opaque]
pub open spec fn sp_try(data: Seq<u8>, pos: int, tok: FullToken, prec: u8) -> Result<
    (Option<SpecExpr>, int),
    ParseError,
>
    decreases data.len() - pos, 3int,
    when 0 <= pos <= data.len()
{
    if tok.spec_kind().spec_is_atomic_expr() {
        match sp_rest(data, pos, SpecExpr::Atomic(tok), prec) {
            Err(e) => Err(e),
            Ok((e, q)) => Ok((Some(e), q)),
        }
    } else if tok.spec_kind().spec_is_unary_op() {
        match sp_expr(data, pos, PREC_UNARY) {
            Err(e) => Err(e),
            Ok((sub, q)) => match sp_rest(
                data,
                clamp_pos(data, pos, q),
                SpecExpr::Unary(tok, Box::new(sub)),
                prec,
            ) {
                Err(e) => Err(e),
                Ok((e, q2)) => Ok((Some(e), q2)),
            },
        }
    } else if tok.spec_kind().id() == TOK_NEW_KEYWORD {
        sp_new_chain(data, pos, 1, prec)
    } else {
        Ok((None, pos))
    }
}

/// A run of consecutive `new` keywords, then the member expression the
/// chain requires.
#[verifier::opaque]
pub open spec fn sp_new_chain(data: Seq<u8>, pos: int, count: int, prec: u8) -> Result<
    (Option<SpecExpr>, int),
    ParseError,
>
    decreases data.len() - pos, 2int,
    when 0 <= pos <= data.len()
    via sp_new_chain_decreases
{
    match sp_fetch(data, pos) {
        Err(e) => Err(e),
        Ok((t, fe)) => if t.spec_kind().id() != TOK_NEW_KEYWORD {
            if t.spec_kind().id() == TOK_END {
                Err(ParseError::ExpectedExpression)
            } else {
                match sp_try(data, fe, t, PREC_MEMBER) {
                    Err(e) => Err(e),
                    Ok((None, q)) => Err(ParseError::ExpectedExpression),
                    Ok((Some(member), q)) => match sp_new_tail(
                        data,
                        clamp_pos(data, fe, q),
                        count,
                        member,
                        prec,
                    ) {
                        Err(e) => Err(e),
                        Ok((e, q2)) => Ok((Some(e), q2)),
                    },
                }
            }
        } else {
            sp_new_chain(
                data,
                fe,
                if count < usize::MAX as int {
                    count + 1
                } else {
                    count
                },
                prec,
            )
        },
    }
}

#[via_fn]
proof fn sp_new_chain_decreases(data: Seq<u8>, pos: int, count: int, prec: u8) {
    reveal_with_fuel(sp_fetch, 1);
    lemma_skip_trivia_all(data);
    lemma_scan_token_progress_all(data);
    assert forall|k: u8| (#[trigger] crate::parser::token_kind::kind_from_id(k)).id() == k by {
        crate::parser::token_kind::lemma_kind_from_id(k);
    }
}

/// Greedy matching of up to `total` trailing argument lists for a `new`
/// chain: each match wraps the accumulated expression in a construct
/// node with arguments.
#[verifier::opaque]
pub open spec fn sp_new_tail_loop(data: Seq<u8>, pos: int, cur: SpecExpr, made: int, total: int)
    -> Result<(SpecExpr, int, int), ParseError>
    decreases data.len() - pos, 1int,
    when 0 <= pos <= data.len()
    via sp_new_tail_loop_decreases
{
    match sp_fetch(data, pos) {
        Err(e) => Err(e),
        Ok((t, fe)) => if t.spec_kind().id() != TOK_OPEN_PAREN {
            Ok((cur, made, pos))
        } else {
            match sp_args(data, fe) {
                Err(e) => Err(e),
                Ok((args, qa)) => {
                    let cur2 = SpecExpr::Construct(Box::new(cur), args, true);
                    if made + 1 == total {
                        Ok((cur2, made + 1, clamp_pos(data, fe, qa)))
                    } else {
                        sp_new_tail_loop(data, clamp_pos(data, fe, qa), cur2, made + 1, total)
                    }
                },
            }
        },
    }
}

#[via_fn]
proof fn sp_new_tail_loop_decreases(data: Seq<u8>, pos: int, cur: SpecExpr, made: int, total: int) {
    reveal_with_fuel(sp_fetch, 1);
    lemma_skip_trivia_all(data);
    lemma_scan_token_progress_all(data);
    assert forall|k: u8| (#[trigger] crate::parser::token_kind::kind_from_id(k)).id() == k by {
        crate::parser::token_kind::lemma_kind_from_id(k);
    }
}

/// Argument-less construct nodes wrapped around an expression, one per
/// `new` not satisfied by an argument list.
#[verifier::opaque]
pub open spec fn sp_wrap_bares(e: SpecExpr, n: int) -> SpecExpr
    decreases n,
    when n >= 0
{
    if n <= 0 {
        e
    } else {
        sp_wrap_bares(SpecExpr::Construct(Box::new(e), Seq::empty(), false), n - 1)
    }
}

/// The tail of a `new` chain after its member expression: match up to
/// `total` argument lists, wrap the remaining `new`s bare, and continue
/// the expression.
#[verifier::opaque]
pub open spec fn sp_new_tail(data: Seq<u8>, pos: int, total: int, member: SpecExpr, prec: u8)
    -> Result<(SpecExpr, int), ParseError>
    decreases data.len() - pos, 2int,
    when 0 <= pos <= data.len()
{
    match sp_new_tail_loop(data, pos, member, 0, total) {
        Err(e) => Err(e),
        Ok((e1, made, q1)) => if made == total {
            match sp_rest(data, clamp_pos(data, pos, q1), e1, PREC_CALL_OR_NEW) {
                Err(e) => Err(e),
                Ok((e2, q2)) => sp_rest(data, clamp_pos(data, pos, q2), e2, prec),
            }
        } else {
            sp_rest(data, clamp_pos(data, pos, q1), sp_wrap_bares(e1, total - made), prec)
        },
    }
}

/// An argument list, the opening parenthesis already consumed: `)` at
/// once, or expressions at assignment precedence separated by commas
/// and closed by `)`.
#[verifier::opaque]
pub open spec fn sp_args(data: Seq<u8>, pos: int) -> Result<(Seq<SpecExpr>, int), ParseError>
    decreases data.len() - pos, 3int,
    when 0 <= pos <= data.len()
{
    match sp_opt_expect(data, pos, TOK_CLOSE_PAREN) {
        Err(e) => Err(e),
        Ok((Some(t), q)) => Ok((Seq::empty(), q)),
        Ok((None, q)) => sp_args_loop(data, pos, Seq::empty()),
    }
}

/// The comma-separated argument expressions, accumulated in order.
#[verifier::opaque]
pub open spec fn sp_args_loop(data: Seq<u8>, pos: int, acc: Seq<SpecExpr>) -> Result<
    (Seq<SpecExpr>, int),
    ParseError,
>
    decreases data.len() - pos, 2int,
    when 0 <= pos <= data.len()
    via sp_args_loop_decreases
{
    match sp_expr(data, pos, PREC_ASSIGNMENT) {
        Err(e) => Err(e),
        Ok((ex, q)) => match sp_fetch(data, clamp_pos(data, pos, q)) {
            Err(e) => Err(e),
            Ok((t, q2)) => if t.spec_kind().id() == TOK_CLOSE_PAREN {
                Ok((acc.push(ex), q2))
            } else if t.spec_kind().id() == TOK_COMMA {
                sp_args_loop(data, q2, acc.push(ex))
            } else {
                Err(ParseError::ExpectedCommaOrCloseParen)
            },
        },
    }
}

#[via_fn]
proof fn sp_args_loop_decreases(data: Seq<u8>, pos: int, acc: Seq<SpecExpr>) {
    reveal_with_fuel(sp_fetch, 1);
    lemma_skip_trivia_all(data);
    lemma_scan_token_progress_all(data);
    assert forall|k: u8| (#[trigger] crate::parser::token_kind::kind_from_id(k)).id() == k by {
        crate::parser::token_kind::lemma_kind_from_id(k);
    }
}

/// A block statement body: parsing of nested statements is not
/// implemented, so only the closing brace is required.
pub open spec fn sp_block(data: Seq<u8>, pos: int) -> Result<(SpecStmt, int), ParseError> {
    match sp_must_expect(data, pos, TOK_CLOSE_BRACE) {
        Err(e) => Err(e),
        Ok((t, q)) => Ok((SpecStmt::Block, q)),
    }
}

/// The declarations of a `var` statement, the keyword already consumed:
/// `name ('=' expr)?` separated by commas and closed by a semicolon,
/// accumulated in source order.
#[verifier::opaque]
pub open spec fn sp_var_loop(data: Seq<u8>, pos: int, decls: Seq<SpecVarDecl>) -> Result<
    (Seq<SpecVarDecl>, int),
    ParseError,
>
    decreases data.len() - pos,
    when 0 <= pos <= data.len()
    via sp_var_loop_decreases
{
    match sp_opt_expect(data, pos, TOK_IDENTIFIER) {
        Err(e) => Err(e),
        Ok((None, q)) => Err(ParseError::ExpectedVariableName),
        Ok((Some(name), qn)) => match sp_fetch(data, qn) {
            Err(e) => Err(e),
            Ok((t, q2)) => if t.spec_kind().id() == TOK_SEMICOLON {
                Ok((decls.push(SpecVarDecl { name, init: None }), q2))
            } else if t.spec_kind().id() == crate::parser::token_kind::TOK_ASSIGN {
                match sp_expr(data, q2, PREC_ASSIGNMENT) {
                    Err(e) => Err(e),
                    Ok((init, qe)) => {
                        let decls2 = decls.push(SpecVarDecl { name, init: Some(init) });
                        match sp_fetch(data, clamp_pos(data, q2, qe)) {
                            Err(e) => Err(e),
                            Ok((t3, q3)) => if t3.spec_kind().id() == TOK_SEMICOLON {
                                Ok((decls2, q3))
                            } else if t3.spec_kind().id() == TOK_COMMA {
                                sp_var_loop(data, q3, decls2)
                            } else {
                                Err(ParseError::ExpectedCommaOrSemicolon)
                            },
                        }
                    },
                }
            } else if t.spec_kind().id() == TOK_COMMA {
                sp_var_loop(data, q2, decls.push(SpecVarDecl { name, init: None }))
            } else {
                Err(ParseError::ExpectedCommaOrSemicolon)
            },
        },
    }
}

#[via_fn]
proof fn sp_var_loop_decreases(data: Seq<u8>, pos: int, decls: Seq<SpecVarDecl>) {
    reveal_with_fuel(sp_fetch, 1);
    lemma_skip_trivia_all(data);
    lemma_scan_token_progress_all(data);
    assert forall|k: u8| (#[trigger] crate::parser::token_kind::kind_from_id(k)).id() == k by {
        crate::parser::token_kind::lemma_kind_from_id(k);
    }
}

/// An `if` statement, the keyword already consumed: the condition
/// between mandatory parentheses, the true branch, and an `else` branch
/// where the keyword follows.
#[verifier::opaque]
pub open spec fn sp_if(data: Seq<u8>, pos: int) -> Result<(SpecStmt, int), ParseError>
    decreases data.len() - pos, 2int,
    when 0 <= pos <= data.len()
    via sp_if_decreases
{
    match sp_must_expect(data, pos, TOK_OPEN_PAREN) {
        Err(e) => Err(e),
        Ok((t1, q1)) => match sp_expr(data, q1, PREC_LOWEST) {
            Err(e) => Err(e),
            Ok((cond, qc)) => match sp_must_expect(data, clamp_pos(data, q1, qc), TOK_CLOSE_PAREN) {
                Err(e) => Err(e),
                Ok((t2, q2)) => match sp_stmt(data, q2) {
                    Err(e) => Err(e),
                    Ok((s1, qs)) => match sp_opt_expect(
                        data,
                        clamp_pos(data, q2, qs),
                        TOK_ELSE_KEYWORD,
                    ) {
                        Err(e) => Err(e),
                        Ok((None, qx)) => Ok(
                            (SpecStmt::If(cond, Box::new(s1), None), clamp_pos(data, q2, qs)),
                        ),
                        Ok((Some(t3), qe)) => match sp_stmt(data, qe) {
                            Err(e) => Err(e),
                            Ok((s2, q3)) => Ok(
                                (SpecStmt::If(cond, Box::new(s1), Some(Box::new(s2))), q3),
                            ),
                        },
                    },
                },
            },
        },
    }
}

#[via_fn]
proof fn sp_if_decreases(data: Seq<u8>, pos: int) {
    reveal_with_fuel(sp_fetch, 1);
    lemma_skip_trivia_all(data);
    lemma_scan_token_progress_all(data);
    assert forall|k: u8| (#[trigger] crate::parser::token_kind::kind_from_id(k)).id() == k by {
        crate::parser::token_kind::lemma_kind_from_id(k);
    }
}

/// An optional statement: the shape the leading token selects, or no
/// statement and an untouched position.
#[verifier::opaque]
pub open spec fn sp_check_stmt(data: Seq<u8>, pos: int) -> Result<(Option<SpecStmt>, int), ParseError>
    decreases data.len() - pos, 0int,
    when 0 <= pos <= data.len()
    via sp_check_stmt_decreases
{
    match sp_fetch(data, pos) {
        Err(e) => Err(e),
        Ok((t, fe)) => if t.spec_kind().id() == TOK_OPEN_BRACE {
            match sp_block(data, fe) {
                Err(e) => Err(e),
                Ok((st, q)) => Ok((Some(st), q)),
            }
        } else if t.spec_kind().id() == TOK_VAR_KEYWORD {
            match sp_var_loop(data, fe, Seq::empty()) {
                Err(e) => Err(e),
                Ok((decls, q)) => Ok((Some(SpecStmt::Var(decls)), q)),
            }
        } else if t.spec_kind().id() == TOK_SEMICOLON {
            Ok((Some(SpecStmt::Empty), fe))
        } else if t.spec_kind().id() == TOK_IF_KEYWORD {
            match sp_if(data, fe) {
                Err(e) => Err(e),
                Ok((st, q)) => Ok((Some(st), q)),
            }
        } else if t.spec_kind().id() == TOK_END {
            Ok((None, pos))
        } else {
            match sp_try(data, fe, t, PREC_LOWEST) {
                Err(e) => Err(e),
                Ok((Some(e), q)) => match sp_opt_expect(data, clamp_pos(data, fe, q), TOK_SEMICOLON) {
                    Err(er) => Err(er),
                    Ok((o, q2)) => Ok((Some(SpecStmt::Expr(e)), q2)),
                },
                Ok((None, q)) => Ok((None, pos)),
            }
        },
    }
}

#[via_fn]
proof fn sp_check_stmt_decreases(data: Seq<u8>, pos: int) {
    reveal_with_fuel(sp_fetch, 1);
    lemma_skip_trivia_all(data);
    lemma_scan_token_progress_all(data);
    assert forall|k: u8| (#[trigger] crate::parser::token_kind::kind_from_id(k)).id() == k by {
        crate::parser::token_kind::lemma_kind_from_id(k);
    }
}

/// A required statement: the expected-statement report where none
/// matches.
#[verifier::opaque]
pub open spec fn sp_stmt(data: Seq<u8>, pos: int) -> Result<(SpecStmt, int), ParseError>
    decreases data.len() - pos, 1int,
    when 0 <= pos <= data.len()
{
    match sp_check_stmt(data, pos) {
        Err(e) => Err(e),
        Ok((Some(st), q)) => Ok((st, q)),
        Ok((None, q)) => Err(ParseError::ExpectedStatement),
    }
}

/// A whole program from `pos` on: statements until none matches, then
/// the end of the input; a trailing unconsumed token is the
/// expected-versus-actual report against the end kind.
#[verifier::opaque]
pub open spec fn sp_program(data: Seq<u8>, pos: int, acc: Seq<SpecStmt>) -> Result<
    (Seq<SpecStmt>, int),
    ParseError,
>
    decreases data.len() - pos,
    when 0 <= pos <= data.len()
    via sp_program_decreases
{
    match sp_check_stmt(data, pos) {
        Err(e) => Err(e),
        Ok((Some(st), q)) => sp_program(data, clamp_pos(data, pos + 1, q), acc.push(st)),
        Ok((None, q)) => match sp_must_expect(data, pos, TOK_END) {
            Err(e) => Err(e),
            Ok((t, qe)) => Ok((acc, qe)),
        },
    }
}

#[via_fn]
proof fn sp_program_decreases(data: Seq<u8>, pos: int, acc: Seq<SpecStmt>) {
    reveal_with_fuel(sp_check_stmt, 1);
    reveal_with_fuel(sp_fetch, 1);
    lemma_skip_trivia_all(data);
    lemma_scan_token_progress_all(data);
    assert forall|k: u8| (#[trigger] crate::parser::token_kind::kind_from_id(k)).id() == k by {
        crate::parser::token_kind::lemma_kind_from_id(k);
    }
}

/// The exec result of an expression parse equals the specified one: the
/// tree projects onto the specified tree and the cursor stands at the
/// specified end, or the same error is reported.
pub open spec fn expr_matches(
    r: ParseResult<ExprNode>,
    s: Result<(SpecExpr, int), ParseError>,
    cur: int,
) -> bool {
    match (r, s) {
        (Ok(e), Ok((se, q))) => deep_expr(e) == se && cur == q,
        (Err(a), Err(b)) => a == b,
        _ => false,
    }
}

/// As `expr_matches`, for an optional expression.
pub open spec fn opt_expr_matches(
    r: ParseResult<Option<ExprNode>>,
    s: Result<(Option<SpecExpr>, int), ParseError>,
    cur: int,
) -> bool {
    match (r, s) {
        (Ok(eo), Ok((so, q))) => cur == q && match (eo, so) {
            (Some(e), Some(se)) => deep_expr(e) == se,
            (None, None) => true,
            _ => false,
        },
        (Err(a), Err(b)) => a == b,
        _ => false,
    }
}

/// As `expr_matches`, for a statement.
pub open spec fn stmt_matches(
    r: ParseResult<StmtNode>,
    s: Result<(SpecStmt, int), ParseError>,
    cur: int,
) -> bool {
    match (r, s) {
        (Ok(st), Ok((ss, q))) => deep_stmt(st) == ss && cur == q,
        (Err(a), Err(b)) => a == b,
        _ => false,
    }
}

/// As `expr_matches`, for an optional statement.
pub open spec fn opt_stmt_matches(
    r: ParseResult<Option<StmtNode>>,
    s: Result<(Option<SpecStmt>, int), ParseError>,
    cur: int,
) -> bool {
    match (r, s) {
        (Ok(so_e), Ok((so_s, q))) => cur == q && match (so_e, so_s) {
            (Some(st), Some(ss)) => deep_stmt(st) == ss,
            (None, None) => true,
            _ => false,
        },
        (Err(a), Err(b)) => a == b,
        _ => false,
    }
}

/// The AST builder: drives the tokenizer to produce a program AST. It
/// backtracks through stream checkpoints and never leaves a pushed-back
/// token pending.
pub struct AstBuilder {
    tokenizer: Tokenizer,
    skipped_newline: bool,
}

impl AstBuilder {
    /// The underlying tokenizer.
    pub closed spec fn tok(&self) -> Tokenizer {
        self.tokenizer
    }

    /// The source bytes being parsed.
    pub open spec fn bytes(&self) -> Seq<u8> {
        self.tok().bytes()
    }

    /// The byte cursor of the underlying stream.
    pub open spec fn cursor(&self) -> int {
        self.tok().cursor()
    }

    pub open spec fn wf(&self) -> bool {
        &&& self.tok().wf()
        &&& self.tok().pushback() is None
    }

    /// No lexical error has been raised yet.
    pub open spec fn live(&self) -> bool {
        self.tok().error() is None
    }

    /// Whether the last token fetch skipped over a newline.
    pub closed spec fn spec_skipped_newline(&self) -> bool {
        self.skipped_newline
    }

    pub fn new(stream: VecInputStream) -> (r: AstBuilder)
        requires
            stream.wf(),
        ensures
            r.wf(),
            r.live(),
            r.bytes() == stream.bytes(),
            r.cursor() == stream.cursor(),
    {
        AstBuilder { tokenizer: Tokenizer::new(stream, FullTokenizerMode {  }), skipped_newline: false }
    }

    /// Parse a whole program: statements until none matches, then the
    /// end of the input. A trailing unconsumed token is a parse error.
    pub fn parse_program(&mut self) -> (r: ParseResult<Box<ProgramNode>>)
        requires
            old(self).wf(),
            old(self).live(),
        ensures
            final(self).wf(),
            final(self).bytes() == old(self).bytes(),
            r matches Ok(p) ==> {
                &&& wf_program(*p)
                &&& final(self).live()
                &&& final(self).cursor() == final(self).bytes().len()
            },
            match (r, sp_program(old(self).bytes(), old(self).cursor(), Seq::empty())) {
                (Ok(p), Ok((ss, q))) => deep_stmts(p.source_elements@) == ss && final(self).cursor() == q,
                (Err(a), Err(b)) => a == b,
                _ => false,
            },
    {
        proof {
            reveal_with_fuel(sp_program, 1);
            reveal_with_fuel(sp_check_stmt, 1);
        }
        let mut program_node = ProgramNode::new();
        let ghost mut accs: Seq<SpecStmt> = Seq::empty();
        loop
            invariant
                self.wf(),
                self.live(),
                self.bytes() == old(self).bytes(),
                0 <= old(self).cursor() <= old(self).bytes().len(),
                old(self).cursor() <= self.cursor(),
                wf_program(program_node),
                deep_stmts(program_node.source_elements@) =~= accs,
                sp_program(old(self).bytes(), old(self).cursor(), Seq::empty()) == sp_program(
                    old(self).bytes(),
                    self.cursor(),
                    accs,
                ),
            ensures
                self.wf(),
                self.live(),
                self.bytes() == old(self).bytes(),
                old(self).cursor() <= self.cursor(),
                wf_program(program_node),
                deep_stmts(program_node.source_elements@) =~= accs,
                sp_program(old(self).bytes(), old(self).cursor(), Seq::empty()) == sp_program(
                    old(self).bytes(),
                    self.cursor(),
                    accs,
                ),
                sp_check_stmt(old(self).bytes(), self.cursor()) == Ok::<
                    (Option<SpecStmt>, int),
                    ParseError,
                >((None, self.cursor() as int)),
            decreases self.bytes().len() - self.cursor(),
        {
            proof {
                reveal_with_fuel(sp_program, 1);
                reveal_with_fuel(sp_check_stmt, 1);
            }
            match self.check_parse_statement() {
                Ok(Some(source_element)) => {
                    let ghost prev_elems = program_node.source_elements@;
                    let ghost sdeep = deep_stmt(source_element);
                    proof {
                        accs = accs.push(sdeep);
                    }
                    program_node.add_source_element(source_element);
                    proof {
                        assert(deep_stmts(program_node.source_elements@) =~= deep_stmts(
                            prev_elems,
                        ).push(sdeep));
                    }
                },
                Ok(None) => {
                    break;
                },
                Err(err) => {
                    return Err(err);
                },
            }
        }
        proof {
            reveal_with_fuel(sp_program, 1);
        }

        // Must have reached end of stream.
        match self.must_expect_token(TokenKind::end()) {
            Ok(_) => Ok(Box::new(program_node)),
            Err(err) => Err(err),
        }
    }

    fn parse_statement(&mut self) -> (r: ParseResult<StmtNode>)
        requires
            old(self).wf(),
            old(self).live(),
        ensures
            final(self).wf(),
            final(self).bytes() == old(self).bytes(),
            old(self).cursor() <= final(self).cursor(),
            r matches Ok(stmt) ==> {
                &&& wf_stmt(stmt)
                &&& final(self).live()
                &&& old(self).cursor() < final(self).cursor()
            },
            stmt_matches(r, sp_stmt(old(self).bytes(), old(self).cursor()), final(self).cursor()),
        decreases old(self).bytes().len() - old(self).cursor(), 1int,
    {
        proof {
            reveal_with_fuel(sp_stmt, 1);
            reveal_with_fuel(sp_check_stmt, 1);
        }
        match self.check_parse_statement() {
            Ok(Some(stmt)) => Ok(stmt),
            Ok(None) => Err(ParseError::ExpectedStatement),
            Err(err) => Err(err),
        }
    }

    fn check_parse_statement(&mut self) -> (r: MaybeParseResult<StmtNode>)
        requires
            old(self).wf(),
            old(self).live(),
        ensures
            final(self).wf(),
            final(self).bytes() == old(self).bytes(),
            old(self).cursor() <= final(self).cursor(),
            r matches Ok(stmt_opt) ==> {
                &&& final(self).live()
                &&& (stmt_opt matches Some(stmt) ==> wf_stmt(stmt) && old(self).cursor() < final(self).cursor())
                &&& (stmt_opt is None ==> final(self).cursor() == old(self).cursor())
            },
            opt_stmt_matches(
                r,
                sp_check_stmt(old(self).bytes(), old(self).cursor()),
                final(self).cursor(),
            ),
        decreases old(self).bytes().len() - old(self).cursor(), 0int,
    {
        proof {
            reveal_with_fuel(sp_check_stmt, 1);
            reveal_with_fuel(sp_var_loop, 1);
            reveal_with_fuel(sp_if, 1);
            reveal_with_fuel(sp_try, 1);
        }
        let begin_position = self.mark_position();
        let tok = match self.next_token() {
            Ok(t) => t,
            Err(err) => {
                return Err(err);
            },
        };
        proof {
            reveal_with_fuel(sp_fetch, 1);
            let sp = skip_trivia(old(self).bytes(), old(self).cursor());
            let res = scan_token(old(self).bytes(), sp, true);
            crate::parser::token_kind::lemma_kind_from_id(res.kind);
        }
        if tok.kind().is_open_brace() {
            match self.parse_block_statement() {
                Ok(stmt) => {
                    return Ok(Some(StmtNode::Block(*stmt)));
                },
                Err(err) => {
                    return Err(err);
                },
            }
        }
        if tok.kind().is_var_keyword() {
            match self.parse_var_statement() {
                Ok(stmt) => {
                    return Ok(Some(StmtNode::Var(*stmt)));
                },
                Err(err) => {
                    return Err(err);
                },
            }
        }
        if tok.kind().is_semicolon() {
            return Ok(Some(StmtNode::Empty(EmptyStmtNode::new())));
        }
        if tok.kind().is_if_keyword() {
            match self.parse_if_statement() {
                Ok(stmt) => {
                    return Ok(Some(stmt));
                },
                Err(err) => {
                    return Err(err);
                },
            }
        }
        // The end token begins no statement; backtrack so the caller
        // sees an untouched stream.
        if tok.kind().is_end() {
            self.rewind_position(begin_position);
            return Ok(None);
        }
        match self.try_parse_expression_with(tok, Precedence::lowest()) {
            Ok(Some(expr)) => {
                // An expression statement consumes its terminating
                // semicolon, where one follows.
                match self.expect_token(TokenKind::semicolon()) {
                    Ok(_) => {},
                    Err(err) => {
                        return Err(err);
                    },
                }
                return Ok(Some(StmtNode::Expr(ExprStmtNode::new(expr))));
            },
            Ok(None) => {},
            Err(err) => {
                return Err(err);
            },
        }

        self.rewind_position(begin_position);
        Ok(None)
    }

    fn parse_block_statement(&mut self) -> (r: ParseResult<Box<BlockStmtNode>>)
        requires
            old(self).wf(),
            old(self).live(),
        ensures
            final(self).wf(),
            final(self).bytes() == old(self).bytes(),
            old(self).cursor() <= final(self).cursor(),
            r matches Ok(stmt) ==> final(self).live(),
            match (r, sp_block(old(self).bytes(), old(self).cursor())) {
                (Ok(b), Ok((ss, q))) => ss == SpecStmt::Block && final(self).cursor() == q,
                (Err(a), Err(b)) => a == b,
                _ => false,
            },
        decreases old(self).bytes().len() - old(self).cursor(), 3int,
    {
        match self.must_expect_token(TokenKind::close_brace()) {
            Ok(_) => Ok(Box::new(BlockStmtNode::new())),
            Err(err) => Err(err),
        }
    }

    fn parse_var_statement(&mut self) -> (r: ParseResult<Box<VarStmtNode>>)
        requires
            old(self).wf(),
            old(self).live(),
        ensures
            final(self).wf(),
            final(self).bytes() == old(self).bytes(),
            old(self).cursor() <= final(self).cursor(),
            r matches Ok(stmt) ==> {
                &&& final(self).live()
                &&& forall|i: int|
                    0 <= i < stmt.var_decls@.len() ==> wf_var_decl(#[trigger] stmt.var_decls@[i])
            },
            match (r, sp_var_loop(old(self).bytes(), old(self).cursor(), Seq::empty())) {
                (Ok(v), Ok((ds, q))) => deep_decls(v.var_decls@) == ds && final(self).cursor()
                    == q,
                (Err(a), Err(b)) => a == b,
                _ => false,
            },
        decreases old(self).bytes().len() - old(self).cursor(), 3int,
    {
        let mut var_statement = Box::new(VarStmtNode::new());
        let ghost mut accd: Seq<SpecVarDecl> = Seq::empty();
        loop
            invariant_except_break
                sp_var_loop(old(self).bytes(), old(self).cursor(), Seq::empty()) == sp_var_loop(
                    old(self).bytes(),
                    self.cursor(),
                    accd,
                ),
            invariant
                self.wf(),
                self.live(),
                self.bytes() == old(self).bytes(),
                0 <= old(self).cursor() <= old(self).bytes().len(),
                old(self).cursor() <= self.cursor(),
                deep_decls(var_statement.var_decls@) =~= accd,
                forall|i: int|
                    0 <= i < var_statement.var_decls@.len() ==> wf_var_decl(
                        #[trigger] var_statement.var_decls@[i],
                    ),
            ensures
                self.wf(),
                self.live(),
                self.bytes() == old(self).bytes(),
                old(self).cursor() <= self.cursor(),
                deep_decls(var_statement.var_decls@) =~= accd,
                sp_var_loop(old(self).bytes(), old(self).cursor(), Seq::empty()) == Ok::<
                    (Seq<SpecVarDecl>, int),
                    ParseError,
                >((accd, self.cursor() as int)),
                forall|i: int|
                    0 <= i < var_statement.var_decls@.len() ==> wf_var_decl(
                        #[trigger] var_statement.var_decls@[i],
                    ),
            decreases self.bytes().len() - self.cursor(),
        {
            proof {
                reveal_with_fuel(sp_var_loop, 1);
                reveal_with_fuel(sp_expr, 1);
            }
            let name_token = match self.expect_get_token(TokenKind::identifier()) {
                Ok(Some(token)) => token,
                Ok(None) => {
                    return Err(ParseError::ExpectedVariableName);
                },
                Err(err) => {
                    return Err(err);
                },
            };

            let next_tok = match self.next_token() {
                Ok(t) => t,
                Err(err) => {
                    return Err(err);
                },
            };
            if next_tok.kind().is_semicolon() {
                let ghost prev_decls = var_statement.var_decls@;
                proof {
                    accd = accd.push(SpecVarDecl { name: name_token, init: None });
                }
                var_statement.add_var_decl(name_token);
                proof {
                    assert(deep_decls(var_statement.var_decls@) =~= deep_decls(prev_decls).push(
                        SpecVarDecl { name: name_token, init: None },
                    ));
                }
                break;
            }
            if next_tok.kind().is_assign() {
                // Parse an initializer.
                let init_expr = match self.parse_expression(Precedence::assignment()) {
                    Ok(e) => e,
                    Err(err) => {
                        return Err(err);
                    },
                };
                let ghost prev_decls = var_statement.var_decls@;
                let ghost init_deep = deep_expr(init_expr);
                proof {
                    accd = accd.push(SpecVarDecl { name: name_token, init: Some(init_deep) });
                }
                var_statement.add_var_decl_with_init(name_token, init_expr);
                proof {
                    assert(deep_decls(var_statement.var_decls@) =~= deep_decls(prev_decls).push(
                        SpecVarDecl { name: name_token, init: Some(init_deep) },
                    ));
                }

                let next_tok2 = match self.next_token() {
                    Ok(t) => t,
                    Err(err) => {
                        return Err(err);
                    },
                };
                if next_tok2.kind().is_semicolon() {
                    break;
                }
                if next_tok2.kind().is_comma() {
                    continue;
                }
                return Err(ParseError::ExpectedCommaOrSemicolon);
            }
            if next_tok.kind().is_comma() {
                let ghost prev_decls = var_statement.var_decls@;
                proof {
                    accd = accd.push(SpecVarDecl { name: name_token, init: None });
                }
                var_statement.add_var_decl(name_token);
                proof {
                    assert(deep_decls(var_statement.var_decls@) =~= deep_decls(prev_decls).push(
                        SpecVarDecl { name: name_token, init: None },
                    ));
                }
                continue;
            }
            return Err(ParseError::ExpectedCommaOrSemicolon);
        }
        Ok(var_statement)
    }

    fn parse_if_statement(&mut self) -> (r: ParseResult<StmtNode>)
        requires
            old(self).wf(),
            old(self).live(),
        ensures
            final(self).wf(),
            final(self).bytes() == old(self).bytes(),
            old(self).cursor() <= final(self).cursor(),
            r matches Ok(stmt) ==> {
                &&& wf_stmt(stmt)
                &&& final(self).live()
                &&& stmt is If
            },
            stmt_matches(r, sp_if(old(self).bytes(), old(self).cursor()), final(self).cursor()),
        decreases old(self).bytes().len() - old(self).cursor(), 3int,
    {
        proof {
            reveal_with_fuel(sp_if, 1);
            reveal_with_fuel(sp_expr, 1);
            reveal_with_fuel(sp_stmt, 1);
        }
        // "if" must be followed by "(".
        match self.must_expect_token(TokenKind::open_paren()) {
            Ok(_) => {},
            Err(err) => {
                return Err(err);
            },
        }
        let cond_expr = match self.parse_expression(Precedence::lowest()) {
            Ok(e) => e,
            Err(err) => {
                return Err(err);
            },
        };
        match self.must_expect_token(TokenKind::close_paren()) {
            Ok(_) => {},
            Err(err) => {
                return Err(err);
            },
        }
        let if_true_stmt = match self.parse_statement() {
            Ok(stmt) => stmt,
            Err(err) => {
                return Err(err);
            },
        };

        // Check for 'else'
        let has_else = match self.expect_token(TokenKind::else_keyword()) {
            Ok(b) => b,
            Err(err) => {
                return Err(err);
            },
        };
        if has_else {
            let if_false_stmt = match self.parse_statement() {
                Ok(stmt) => stmt,
                Err(err) => {
                    return Err(err);
                },
            };
            Ok(StmtNode::If(Box::new(IfStmtNode::new_if_else(cond_expr, if_true_stmt, if_false_stmt))))
        } else {
            Ok(StmtNode::If(Box::new(IfStmtNode::new_if(cond_expr, if_true_stmt))))
        }
    }

    #[verifier::rlimit(100)]
    #[verifier::spinoff_prover]
    fn parse_expression(&mut self, precedence: Precedence) -> (r: ParseResult<ExprNode>)
        requires
            old(self).wf(),
            old(self).live(),
            precedence.level() <= PREC_LEFT_HAND_SIDE,
        ensures
            final(self).wf(),
            final(self).bytes() == old(self).bytes(),
            old(self).cursor() <= final(self).cursor(),
            r matches Ok(expr) ==> {
                &&& wf_expr(expr)
                &&& final(self).live()
                &&& old(self).cursor() < final(self).cursor()
            },
            expr_matches(
                r,
                sp_expr(old(self).bytes(), old(self).cursor(), precedence.level()),
                final(self).cursor(),
            ),
        decreases old(self).bytes().len() - old(self).cursor(), 1int,
    {
        proof {
            reveal_with_fuel(sp_expr, 1);
        }
        match self.check_parse_expression(precedence) {
            Ok(Some(expr)) => Ok(expr),
            Ok(None) => Err(ParseError::ExpectedExpression),
            Err(err) => Err(err),
        }
    }

    #[verifier::rlimit(100)]
    #[verifier::spinoff_prover]
    fn check_parse_expression(&mut self, precedence: Precedence) -> (r: MaybeParseResult<ExprNode>)
        requires
            old(self).wf(),
            old(self).live(),
            precedence.level() <= PREC_LEFT_HAND_SIDE,
        ensures
            final(self).wf(),
            final(self).bytes() == old(self).bytes(),
            old(self).cursor() <= final(self).cursor(),
            r matches Ok(expr_opt) ==> {
                &&& final(self).live()
                &&& (expr_opt matches Some(expr) ==> wf_expr(expr) && old(self).cursor() < final(self).cursor())
                &&& (expr_opt is None ==> final(self).cursor() == old(self).cursor())
            },
            opt_expr_matches(
                r,
                sp_check_expr(old(self).bytes(), old(self).cursor(), precedence.level()),
                final(self).cursor(),
            ),
        decreases old(self).bytes().len() - old(self).cursor(), 0int,
    {
        proof {
            reveal_with_fuel(sp_check_expr, 1);
        }
        let position = self.mark_position();
        let tok = match self.next_token() {
            Ok(t) => t,
            Err(err) => {
                return Err(err);
            },
        };
        proof {
            let sp = skip_trivia(old(self).bytes(), old(self).cursor());
            let res = scan_token(old(self).bytes(), sp, true);
            crate::parser::token_kind::lemma_kind_from_id(res.kind);
            crate::parser::token_kind::lemma_kind_id_injective(
                tok.spec_kind(),
                crate::parser::token_kind::kind_from_id(res.kind),
            );
        }
        // The end token begins no expression; backtrack so the caller
        // sees an untouched stream.
        if tok.kind().is_end() {
            self.rewind_position(position);
            return Ok(None);
        }
        match self.try_parse_expression_with(tok, precedence) {
            Ok(Some(expr)) => Ok(Some(expr)),
            Ok(None) => {
                self.rewind_position(position);
                Ok(None)
            },
            Err(err) => Err(err),
        }
    }

    /// Attempt to parse an expression whose first token has already been
    /// consumed.
    #[verifier::rlimit(100)]
    #[verifier::spinoff_prover]
    fn try_parse_expression_with(&mut self, tok: FullToken, precedence: Precedence) -> (r:
        MaybeParseResult<ExprNode>)
        requires
            old(self).wf(),
            old(self).live(),
            precedence.level() <= PREC_MEMBER,
            tok.spec_kind().id() == TOK_NEW_KEYWORD ==> precedence.level()
                <= PREC_LEFT_HAND_SIDE,
            tok.spec_kind().id() != TOK_END,
        ensures
            final(self).wf(),
            final(self).bytes() == old(self).bytes(),
            old(self).cursor() <= final(self).cursor(),
            r matches Ok(expr_opt) ==> {
                &&& final(self).live()
                &&& (expr_opt matches Some(expr) ==> wf_expr(expr))
                &&& (expr_opt is None ==> final(self).cursor() == old(self).cursor())
                &&& (expr_opt is Some ==> (tok.spec_kind().spec_is_atomic_expr()
                    || tok.spec_kind().spec_is_unary_op() || tok.spec_kind().id()
                    == TOK_NEW_KEYWORD))
                &&& (expr_opt is None ==> !(tok.spec_kind().spec_is_atomic_expr()
                    || tok.spec_kind().spec_is_unary_op() || tok.spec_kind().id()
                    == TOK_NEW_KEYWORD))
            },
            opt_expr_matches(
                r,
                sp_try(old(self).bytes(), old(self).cursor(), tok, precedence.level()),
                final(self).cursor(),
            ),
        decreases old(self).bytes().len() - old(self).cursor(), 2int,
    {
        proof {
            reveal_with_fuel(sp_try, 1);
        }
        if tok.kind().is_atomic_expr() {
            let atomic_expr = ExprNode::Atomic(AtomicExprNode::new(tok));
            match self.parse_rest_of_expression(atomic_expr, precedence) {
                Ok(expr) => {
                    return Ok(Some(expr));
                },
                Err(err) => {
                    return Err(err);
                },
            }
        }
        if tok.kind().is_unary_op() {
            let sub_expr = match self.parse_expression(Precedence::unary()) {
                Ok(e) => e,
                Err(err) => {
                    return Err(err);
                },
            };
            let unary_expr = ExprNode::Unary(Box::new(UnaryOpExprNode::new(tok, sub_expr)));
            match self.parse_rest_of_expression(unary_expr, precedence) {
                Ok(expr) => {
                    return Ok(Some(expr));
                },
                Err(err) => {
                    return Err(err);
                },
            }
        }
        if tok.kind().is_new_keyword() {
            let mut new_count: usize = 1;
            loop
                invariant
                    self.wf(),
                    self.live(),
                    self.bytes() == old(self).bytes(),
                    0 <= old(self).cursor() <= old(self).bytes().len(),
                    old(self).cursor() <= self.cursor(),
                    precedence.level() <= PREC_LEFT_HAND_SIDE,
                    1 <= new_count,
                    tok.spec_kind().id() == TOK_NEW_KEYWORD,
                    sp_new_chain(
                        old(self).bytes(),
                        old(self).cursor(),
                        1,
                        precedence.level(),
                    ) == sp_new_chain(
                        old(self).bytes(),
                        self.cursor(),
                        new_count as int,
                        precedence.level(),
                    ),
                decreases self.bytes().len() - self.cursor(),
            {
                proof {
                    reveal_with_fuel(sp_try, 1);
                    reveal_with_fuel(sp_new_chain, 1);
                }
                let next_tok = match self.next_token() {
                    Ok(t) => t,
                    Err(err) => {
                        return Err(err);
                    },
                };
                if !next_tok.kind().is_new_keyword() {
                    // The end token cannot begin the member expression a
                    // `new` chain requires.
                    if next_tok.kind().is_end() {
                        return Err(ParseError::ExpectedExpression);
                    }
                    // Reached end of new keywords - this token must begin
                    // a member expression.
                    match self.try_parse_expression_with(next_tok, Precedence::member()) {
                        Ok(Some(member_expr)) => {
                            match self.parse_new_tail(new_count, member_expr, precedence) {
                                Ok(expr) => {
                                    return Ok(Some(expr));
                                },
                                Err(err) => {
                                    return Err(err);
                                },
                            }
                        },
                        Ok(None) => {
                            return Err(ParseError::ExpectedExpression);
                        },
                        Err(err) => {
                            return Err(err);
                        },
                    }
                }
                if new_count < usize::MAX {
                    new_count = new_count + 1;
                }
            }
        }
        Ok(None)
    }

    /// Greedily match up to `new_count` trailing argument lists for a
    /// run of `new` keywords; any `new` not satisfied by an argument
    /// list is wrapped as a bare construct node.
    #[verifier::rlimit(100)]
    #[verifier::spinoff_prover]
    fn parse_new_tail(&mut self, new_count: usize, member_expr: ExprNode, precedence: Precedence)
        -> (r: ParseResult<ExprNode>)
        requires
            old(self).wf(),
            old(self).live(),
            precedence.level() <= PREC_LEFT_HAND_SIDE,
            wf_expr(member_expr),
            new_count >= 1,
        ensures
            final(self).wf(),
            final(self).bytes() == old(self).bytes(),
            old(self).cursor() <= final(self).cursor(),
            r matches Ok(expr) ==> {
                &&& wf_expr(expr)
                &&& final(self).live()
            },
            expr_matches(
                r,
                sp_new_tail(
                    old(self).bytes(),
                    old(self).cursor(),
                    new_count as int,
                    deep_expr(member_expr),
                    precedence.level(),
                ),
                final(self).cursor(),
            ),
        decreases old(self).bytes().len() - old(self).cursor(), 1int,
    {
        proof {
            reveal_with_fuel(sp_new_tail, 1);
            reveal_with_fuel(sp_new_tail_loop, 1);
            reveal_with_fuel(sp_rest, 1);
        }
        let ghost d0 = deep_expr(member_expr);
        let mut cur_expr: ExprNode = member_expr;
        let mut cur_new_count: usize = 0;
        let mut matched_all = false;
        loop
            invariant_except_break
                cur_new_count < new_count,
                !matched_all,
                sp_new_tail_loop(
                    old(self).bytes(),
                    old(self).cursor(),
                    d0,
                    0,
                    new_count as int,
                ) == sp_new_tail_loop(
                    old(self).bytes(),
                    self.cursor(),
                    deep_expr(cur_expr),
                    cur_new_count as int,
                    new_count as int,
                ),
            invariant
                self.wf(),
                self.live(),
                self.bytes() == old(self).bytes(),
                0 <= old(self).cursor() <= old(self).bytes().len(),
                old(self).cursor() <= self.cursor(),
                wf_expr(cur_expr),
                cur_new_count <= new_count,
                matched_all ==> cur_new_count == new_count,
                d0 == deep_expr(member_expr),
            ensures
                self.wf(),
                self.live(),
                self.bytes() == old(self).bytes(),
                old(self).cursor() <= self.cursor(),
                wf_expr(cur_expr),
                cur_new_count <= new_count,
                matched_all ==> cur_new_count == new_count,
                !matched_all ==> cur_new_count < new_count,
                d0 == deep_expr(member_expr),
                sp_new_tail_loop(
                    old(self).bytes(),
                    old(self).cursor(),
                    d0,
                    0,
                    new_count as int,
                ) == Ok::<(SpecExpr, int, int), ParseError>(
                    (deep_expr(cur_expr), cur_new_count as int, self.cursor() as int),
                ),
            decreases self.bytes().len() - self.cursor(),
        {
            proof {
                reveal_with_fuel(sp_new_tail, 1);
                reveal_with_fuel(sp_new_tail_loop, 1);
            }
            // Check for a following "(", up to new_count times.
            let position = self.mark_position();
            let next_tok = match self.next_token() {
                Ok(t) => t,
                Err(err) => {
                    return Err(err);
                },
            };
            if !next_tok.kind().is_open_paren() {
                self.rewind_position(position);
                break;
            }
            let mut args_vec: Vec<ExprNode> = Vec::new();
            let ghost pre_args = args_vec@;
            match self.parse_arguments_list(&mut args_vec) {
                Ok(_) => {},
                Err(err) => {
                    return Err(err);
                },
            }
            proof {
                lemma_deep_exprs_empty(pre_args);
            }
            cur_expr = ExprNode::Construct(Box::new(ConstructExprNode::new_with_arguments(cur_expr, args_vec)));
            proof {
                lemma_deep_args(cur_expr);
            }
            cur_new_count = cur_new_count + 1;
            if cur_new_count == new_count {
                matched_all = true;
                break;
            }
        }

        proof {
            reveal_with_fuel(sp_new_tail, 1);
            reveal_with_fuel(sp_new_tail_loop, 1);
            reveal_with_fuel(sp_rest, 1);
        }
        if matched_all {
            // If all the 'new's matched with arguments, then we have a
            // member expression; finish with call precedence.
            cur_expr = match self.parse_rest_of_expression(cur_expr, Precedence::call_or_new()) {
                Ok(e) => e,
                Err(err) => {
                    proof {
                        reveal_with_fuel(sp_new_tail, 1);
                        reveal_with_fuel(sp_new_tail_loop, 1);
                        reveal_with_fuel(sp_rest, 1);
                    }
                    return Err(err);
                },
            };
        } else {
            // Wrap up the remaining "bare" new expressions.
            let ghost d1 = deep_expr(cur_expr);
            let ghost made1 = cur_new_count as int;
            while cur_new_count < new_count
                invariant
                    wf_expr(cur_expr),
                    cur_new_count <= new_count,
                    sp_wrap_bares(d1, new_count as int - made1) == sp_wrap_bares(
                        deep_expr(cur_expr),
                        new_count as int - cur_new_count as int,
                    ),
                decreases new_count - cur_new_count,
            {
                let ghost dprev = deep_expr(cur_expr);
                cur_expr = ExprNode::Construct(Box::new(ConstructExprNode::new_bare(cur_expr)));
                cur_new_count = cur_new_count + 1;
                proof {
                    reveal_with_fuel(sp_wrap_bares, 1);
                    lemma_deep_args(cur_expr);
                    if let ExprNode::Construct(n) = &cur_expr {
                        lemma_deep_exprs_empty(n.arguments@);
                    }
                    assert(deep_expr(cur_expr) == SpecExpr::Construct(
                        Box::new(dprev),
                        Seq::empty(),
                        false,
                    ));
                }
            }
            proof {
                reveal_with_fuel(sp_wrap_bares, 1);
                assert(deep_expr(cur_expr) == sp_wrap_bares(d1, new_count as int - made1));
            }
        }

        // Parse the rest of the expression with the given precedence.
        proof {
            reveal_with_fuel(sp_new_tail, 1);
            reveal_with_fuel(sp_new_tail_loop, 1);
            reveal_with_fuel(sp_rest, 1);
        }
        self.parse_rest_of_expression(cur_expr, precedence)
    }

    #[verifier::rlimit(100)]
    #[verifier::spinoff_prover]
    fn parse_arguments_list(&mut self, args_vec: &mut Vec<ExprNode>) -> (r: ParseResult<()>)
        requires
            old(self).wf(),
            old(self).live(),
            forall|i: int| 0 <= i < old(args_vec)@.len() ==> wf_expr(#[trigger] old(args_vec)@[i]),
        ensures
            final(self).wf(),
            final(self).bytes() == old(self).bytes(),
            old(self).cursor() <= final(self).cursor(),
            r matches Ok(u) ==> {
                &&& final(self).live()
                &&& forall|i: int|
                    0 <= i < final(args_vec)@.len() ==> wf_expr(#[trigger] final(args_vec)@[i])
            },
            match (r, sp_args(old(self).bytes(), old(self).cursor())) {
                (Ok(u), Ok((aa, q))) => deep_exprs(final(args_vec)@) == deep_exprs(
                    old(args_vec)@,
                ) + aa && final(self).cursor() == q,
                (Err(a), Err(b)) => a == b,
                _ => false,
            },
        decreases old(self).bytes().len() - old(self).cursor(), 2int,
    {
        proof {
            reveal_with_fuel(sp_args, 1);
        }
        // Check for an immediate ')' token.
        let immediate_close = match self.expect_token(TokenKind::close_paren()) {
            Ok(b) => b,
            Err(err) => {
                return Err(err);
            },
        };
        if immediate_close {
            return Ok(());
        }

        // Otherwise, parse argument expressions.
        let ghost mut acc: Seq<SpecExpr> = Seq::empty();
        proof {
            reveal_with_fuel(sp_args, 1);
            reveal_with_fuel(sp_args_loop, 1);
        }
        loop
            invariant_except_break
                sp_args(old(self).bytes(), old(self).cursor()) == sp_args_loop(
                    old(self).bytes(),
                    self.cursor(),
                    acc,
                ),
            invariant
                self.wf(),
                self.live(),
                self.bytes() == old(self).bytes(),
                0 <= old(self).cursor() <= old(self).bytes().len(),
                old(self).cursor() <= self.cursor(),
                forall|i: int| 0 <= i < args_vec@.len() ==> wf_expr(#[trigger] args_vec@[i]),
                deep_exprs(args_vec@) =~= deep_exprs(old(args_vec)@) + acc,
            ensures
                self.wf(),
                self.live(),
                self.bytes() == old(self).bytes(),
                old(self).cursor() <= self.cursor(),
                forall|i: int| 0 <= i < args_vec@.len() ==> wf_expr(#[trigger] args_vec@[i]),
                deep_exprs(args_vec@) =~= deep_exprs(old(args_vec)@) + acc,
                sp_args(old(self).bytes(), old(self).cursor()) == Ok::<
                    (Seq<SpecExpr>, int),
                    ParseError,
                >((acc, self.cursor() as int)),
            decreases self.bytes().len() - self.cursor(),
        {
            proof {
                reveal_with_fuel(sp_args, 1);
                reveal_with_fuel(sp_args_loop, 1);
            }
            let arg = match self.parse_expression(Precedence::assignment()) {
                Ok(e) => e,
                Err(err) => {
                    return Err(err);
                },
            };
            let ghost prev_vec = args_vec@;
            proof {
                acc = acc.push(deep_expr(arg));
            }
            args_vec.push(arg);
            proof {
                assert(deep_exprs(args_vec@) =~= deep_exprs(prev_vec).push(deep_expr(arg)));
                assert(deep_exprs(args_vec@) =~= deep_exprs(old(args_vec)@) + acc);
            }
            let next_tok = match self.next_token() {
                Ok(t) => t,
                Err(err) => {
                    return Err(err);
                },
            };
            if next_tok.kind().is_close_paren() {
                proof {
                    reveal_with_fuel(sp_args_loop, 1);
                }
                break;
            }
            if !next_tok.kind().is_comma() {
                return Err(ParseError::ExpectedCommaOrCloseParen);
            }
        }
        Ok(())
    }

    /// Precedence climbing: fold operators into the tree while their
    /// binding strength clears the caller's threshold.
    #[verifier::rlimit(100)]
    #[verifier::spinoff_prover]
    fn parse_rest_of_expression(&mut self, left_expr: ExprNode, precedence: Precedence) -> (r:
        ParseResult<ExprNode>)
        requires
            old(self).wf(),
            old(self).live(),
            precedence.level() <= PREC_MEMBER,
            wf_expr(left_expr),
        ensures
            final(self).wf(),
            final(self).bytes() == old(self).bytes(),
            old(self).cursor() <= final(self).cursor(),
            r matches Ok(expr) ==> {
                &&& wf_expr(expr)
                &&& final(self).live()
            },
            expr_matches(
                r,
                sp_rest(
                    old(self).bytes(),
                    old(self).cursor(),
                    deep_expr(left_expr),
                    precedence.level(),
                ),
                final(self).cursor(),
            ),
        decreases old(self).bytes().len() - old(self).cursor(), 0int,
    {
        let ghost d0 = deep_expr(left_expr);
        let mut cur_expr = left_expr;
        loop
            invariant
                self.wf(),
                self.live(),
                self.bytes() == old(self).bytes(),
                0 <= old(self).cursor() <= old(self).bytes().len(),
                old(self).cursor() <= self.cursor(),
                precedence.level() <= PREC_MEMBER,
                wf_expr(cur_expr),
                d0 == deep_expr(left_expr),
                sp_rest(old(self).bytes(), old(self).cursor(), d0, precedence.level())
                    == sp_rest(
                    old(self).bytes(),
                    self.cursor(),
                    deep_expr(cur_expr),
                    precedence.level(),
                ),
            ensures
                self.wf(),
                self.live(),
                self.bytes() == old(self).bytes(),
                old(self).cursor() <= self.cursor(),
                wf_expr(cur_expr),
                sp_rest(old(self).bytes(), old(self).cursor(), d0, precedence.level())
                    == Ok::<(SpecExpr, int), ParseError>(
                    (deep_expr(cur_expr), self.cursor() as int),
                ),
            decreases self.bytes().len() - self.cursor(),
        {
            proof {
                reveal_with_fuel(sp_rest, 1);
            }
            let position = self.mark_position();
            let tok = match self.next_token() {
                Ok(t) => t,
                Err(err) => {
                    return Err(err);
                },
            };
            if tok.kind().is_comma() {
                if precedence >= Precedence::comma() {
                    self.rewind_position(position);
                    return Ok(cur_expr);
                }
                let right_expr = match self.parse_expression(Precedence::comma()) {
                    Ok(e) => e,
                    Err(err) => {
                        return Err(err);
                    },
                };
                cur_expr = ExprNode::Comma(Box::new(CommaExprNode::new(cur_expr, right_expr)));
                continue;
            }

            if tok.kind().is_assignment_op() {
                // Assignment associates right-to-left, so test with '>'
                // instead of '>=' against the threshold.
                if precedence > Precedence::assignment() {
                    self.rewind_position(position);
                    return Ok(cur_expr);
                }
                let right_expr = match self.parse_expression(Precedence::assignment()) {
                    Ok(e) => e,
                    Err(err) => {
                        return Err(err);
                    },
                };
                cur_expr = ExprNode::Assign(Box::new(AssignExprNode::new(tok, cur_expr, right_expr)));
                continue;
            }

            if tok.kind().is_question() {
                if precedence > Precedence::conditional() {
                    self.rewind_position(position);
                    return Ok(cur_expr);
                }
                let if_expr = match self.parse_expression(Precedence::assignment()) {
                    Ok(e) => e,
                    Err(err) => {
                        return Err(err);
                    },
                };
                match self.must_expect_token(TokenKind::colon()) {
                    Ok(_) => {},
                    Err(err) => {
                        return Err(err);
                    },
                }
                let else_expr = match self.parse_expression(Precedence::assignment()) {
                    Ok(e) => e,
                    Err(err) => {
                        return Err(err);
                    },
                };
                cur_expr = ExprNode::Cond(Box::new(CondExprNode::new(cur_expr, if_expr, else_expr)));
                continue;
            }

            if tok.kind().is_logical_or() {
                if precedence >= Precedence::logical_or() {
                    self.rewind_position(position);
                    return Ok(cur_expr);
                }
                let right_expr = match self.parse_expression(Precedence::logical_or()) {
                    Ok(e) => e,
                    Err(err) => {
                        return Err(err);
                    },
                };
                cur_expr = ExprNode::Binary(Box::new(BinaryOpExprNode::new(tok, cur_expr, right_expr)));
                continue;
            }

            if tok.kind().is_logical_and() {
                if precedence >= Precedence::logical_and() {
                    self.rewind_position(position);
                    return Ok(cur_expr);
                }
                let right_expr = match self.parse_expression(Precedence::logical_and()) {
                    Ok(e) => e,
                    Err(err) => {
                        return Err(err);
                    },
                };
                cur_expr = ExprNode::Binary(Box::new(BinaryOpExprNode::new(tok, cur_expr, right_expr)));
                continue;
            }

            if tok.kind().is_bit_or() {
                if precedence >= Precedence::bitwise_or() {
                    self.rewind_position(position);
                    return Ok(cur_expr);
                }
                let right_expr = match self.parse_expression(Precedence::bitwise_or()) {
                    Ok(e) => e,
                    Err(err) => {
                        return Err(err);
                    },
                };
                cur_expr = ExprNode::Binary(Box::new(BinaryOpExprNode::new(tok, cur_expr, right_expr)));
                continue;
            }

            if tok.kind().is_bit_xor() {
                if precedence >= Precedence::bitwise_xor() {
                    self.rewind_position(position);
                    return Ok(cur_expr);
                }
                let right_expr = match self.parse_expression(Precedence::bitwise_xor()) {
                    Ok(e) => e,
                    Err(err) => {
                        return Err(err);
                    },
                };
                cur_expr = ExprNode::Binary(Box::new(BinaryOpExprNode::new(tok, cur_expr, right_expr)));
                continue;
            }

            if tok.kind().is_bit_and() {
                if precedence >= Precedence::bitwise_and() {
                    self.rewind_position(position);
                    return Ok(cur_expr);
                }
                let right_expr = match self.parse_expression(Precedence::bitwise_and()) {
                    Ok(e) => e,
                    Err(err) => {
                        return Err(err);
                    },
                };
                cur_expr = ExprNode::Binary(Box::new(BinaryOpExprNode::new(tok, cur_expr, right_expr)));
                continue;
            }

            if tok.kind().is_equality_op() {
                if precedence >= Precedence::equality() {
                    self.rewind_position(position);
                    return Ok(cur_expr);
                }
                let right_expr = match self.parse_expression(Precedence::equality()) {
                    Ok(e) => e,
                    Err(err) => {
                        return Err(err);
                    },
                };
                cur_expr = ExprNode::Binary(Box::new(BinaryOpExprNode::new(tok, cur_expr, right_expr)));
                continue;
            }

            if tok.kind().is_relational_op() {
                if precedence >= Precedence::relational() {
                    self.rewind_position(position);
                    return Ok(cur_expr);
                }
                let right_expr = match self.parse_expression(Precedence::relational()) {
                    Ok(e) => e,
                    Err(err) => {
                        return Err(err);
                    },
                };
                cur_expr = ExprNode::Binary(Box::new(BinaryOpExprNode::new(tok, cur_expr, right_expr)));
                continue;
            }

            if tok.kind().is_shift_op() {
                if precedence >= Precedence::shift() {
                    self.rewind_position(position);
                    return Ok(cur_expr);
                }
                let right_expr = match self.parse_expression(Precedence::shift()) {
                    Ok(e) => e,
                    Err(err) => {
                        return Err(err);
                    },
                };
                cur_expr = ExprNode::Binary(Box::new(BinaryOpExprNode::new(tok, cur_expr, right_expr)));
                continue;
            }

            if tok.kind().is_plus() || tok.kind().is_minus() {
                if precedence >= Precedence::additive() {
                    self.rewind_position(position);
                    return Ok(cur_expr);
                }
                let right_expr = match self.parse_expression(Precedence::additive()) {
                    Ok(e) => e,
                    Err(err) => {
                        return Err(err);
                    },
                };
                cur_expr = ExprNode::Binary(Box::new(BinaryOpExprNode::new(tok, cur_expr, right_expr)));
                continue;
            }

            if tok.kind().is_star() || tok.kind().is_slash() || tok.kind().is_percent() {
                if precedence >= Precedence::multiplicative() {
                    self.rewind_position(position);
                    return Ok(cur_expr);
                }
                let right_expr = match self.parse_expression(Precedence::multiplicative()) {
                    Ok(e) => e,
                    Err(err) => {
                        return Err(err);
                    },
                };
                cur_expr = ExprNode::Binary(Box::new(BinaryOpExprNode::new(tok, cur_expr, right_expr)));
                continue;
            }

            if tok.kind().is_plus_plus() || tok.kind().is_minus_minus() {
                // Precedence doesn't matter here: the operator applies to
                // the left-hand-side expression directly, unless a newline
                // was skipped before it (the restricted production).
                if self.skipped_newline {
                    self.rewind_position(position);
                    return Ok(cur_expr);
                }
                cur_expr = ExprNode::Postfix(Box::new(PostfixOpExprNode::new(tok, cur_expr)));
                continue;
            }

            if tok.kind().is_dot() {
                let name_tok = match self.must_expect_get_token(TokenKind::identifier()) {
                    Ok(t) => t,
                    Err(err) => {
                        return Err(err);
                    },
                };
                cur_expr = ExprNode::Property(Box::new(PropertyExprNode::new(cur_expr, name_tok)));
                continue;
            }

            if tok.kind().is_open_bracket() {
                let rest_expr = match self.parse_expression(Precedence::lowest()) {
                    Ok(e) => e,
                    Err(err) => {
                        return Err(err);
                    },
                };
                match self.must_expect_token(TokenKind::close_bracket()) {
                    Ok(_) => {},
                    Err(err) => {
                        return Err(err);
                    },
                }
                cur_expr = ExprNode::Element(Box::new(ElementExprNode::new(cur_expr, rest_expr)));
                continue;
            }

            if tok.kind().is_open_paren() {
                // Call arguments bind at call level: at member precedence
                // the parenthesis is left for an enclosing `new` chain.
                if precedence > Precedence::call_or_new() {
                    self.rewind_position(position);
                    return Ok(cur_expr);
                }
                let mut args_vec: Vec<ExprNode> = Vec::new();
                let ghost pre_args = args_vec@;
                match self.parse_arguments_list(&mut args_vec) {
                    Ok(_) => {},
                    Err(err) => {
                        return Err(err);
                    },
                }
                proof {
                    lemma_deep_exprs_empty(pre_args);
                }
                cur_expr = ExprNode::Call(Box::new(CallExprNode::new(cur_expr, args_vec)));
                proof {
                    lemma_deep_args(cur_expr);
                }
                continue;
            }

            // Unknown token terminates the expression.
            self.rewind_position(position);
            break;
        }

        Ok(cur_expr)
    }
    /// Require the next significant token to be of the given kind; on a
    /// mismatch, rewind and report the expected and actual kinds.
    fn must_expect_token(&mut self, kind: TokenKind) -> (r: ParseResult<()>)
        requires
            old(self).wf(),
            old(self).live(),
        ensures
            final(self).wf(),
            final(self).bytes() == old(self).bytes(),
            old(self).cursor() <= final(self).cursor(),
            r matches Ok(u) ==> {
                &&& final(self).live()
                &&& (kind.id() != TOK_END ==> old(self).cursor() < final(self).cursor())
                &&& (kind.id() == TOK_END ==> final(self).cursor() == final(self).bytes().len())
            },
            r matches Err(e) ==> (e is UnexpectedToken ==> final(self).cursor() == old(
                self,
            ).cursor() && final(self).live()),
            match (r, sp_must_expect(old(self).bytes(), old(self).cursor(), kind.id())) {
                (Ok(u), Ok((st, q))) => final(self).cursor() == q,
                (Err(a), Err(b)) => a == b,
                _ => false,
            },
    {
        let position = self.mark_position();
        let token = match self.next_token() {
            Ok(t) => t,
            Err(err) => {
                return Err(err);
            },
        };
        proof {
            crate::parser::token_kind::lemma_kind_from_id(kind.id());
            crate::parser::token_kind::lemma_kind_id_injective(
                kind,
                crate::parser::token_kind::kind_from_id(kind.id()),
            );
            crate::parser::token_kind::lemma_kind_id_injective(token.spec_kind(), kind);
        }
        if token.kind() == kind {
            Ok(())
        } else {
            self.rewind_position(position);
            Err(ParseError::UnexpectedToken { expected: kind, got: token.kind() })
        }
    }

    fn must_expect_get_token(&mut self, kind: TokenKind) -> (r: ParseResult<FullToken>)
        requires
            old(self).wf(),
            old(self).live(),
        ensures
            final(self).wf(),
            final(self).bytes() == old(self).bytes(),
            old(self).cursor() <= final(self).cursor(),
            r matches Ok(t) ==> {
                &&& final(self).live()
                &&& t.spec_kind() == kind
                &&& (kind.id() != TOK_END ==> old(self).cursor() < final(self).cursor())
            },
            r matches Err(e) ==> (e is UnexpectedToken ==> final(self).cursor() == old(
                self,
            ).cursor() && final(self).live()),
            match (r, sp_must_expect(old(self).bytes(), old(self).cursor(), kind.id())) {
                (Ok(t), Ok((st, q))) => t == st && final(self).cursor() == q,
                (Err(a), Err(b)) => a == b,
                _ => false,
            },
    {
        let position = self.mark_position();
        let token = match self.next_token() {
            Ok(t) => t,
            Err(err) => {
                return Err(err);
            },
        };
        proof {
            crate::parser::token_kind::lemma_kind_from_id(kind.id());
            crate::parser::token_kind::lemma_kind_id_injective(
                kind,
                crate::parser::token_kind::kind_from_id(kind.id()),
            );
            crate::parser::token_kind::lemma_kind_id_injective(token.spec_kind(), kind);
        }
        if token.kind() == kind {
            Ok(token)
        } else {
            self.rewind_position(position);
            Err(ParseError::UnexpectedToken { expected: kind, got: token.kind() })
        }
    }

    /// Optionally match the next significant token; never an error, only
    /// a yes or no with an exact rewind on no.
    fn expect_token(&mut self, kind: TokenKind) -> (r: ParseResult<bool>)
        requires
            old(self).wf(),
            old(self).live(),
        ensures
            final(self).wf(),
            final(self).bytes() == old(self).bytes(),
            old(self).cursor() <= final(self).cursor(),
            r matches Ok(b) ==> {
                &&& final(self).live()
                &&& (b && kind.id() != TOK_END ==> old(self).cursor() < final(self).cursor())
                &&& (!b ==> final(self).cursor() == old(self).cursor())
            },
            match (r, sp_opt_expect(old(self).bytes(), old(self).cursor(), kind.id())) {
                (Ok(b), Ok((o, q))) => b == (o is Some) && final(self).cursor() == q,
                (Err(a), Err(b)) => a == b,
                _ => false,
            },
    {
        let position = self.mark_position();
        let token = match self.next_token() {
            Ok(t) => t,
            Err(err) => {
                return Err(err);
            },
        };
        proof {
            crate::parser::token_kind::lemma_kind_id_injective(token.spec_kind(), kind);
        }
        if token.kind() == kind {
            Ok(true)
        } else {
            self.rewind_position(position);
            Ok(false)
        }
    }

    fn expect_get_token(&mut self, kind: TokenKind) -> (r: ParseResult<Option<FullToken>>)
        requires
            old(self).wf(),
            old(self).live(),
        ensures
            final(self).wf(),
            final(self).bytes() == old(self).bytes(),
            old(self).cursor() <= final(self).cursor(),
            r matches Ok(t_opt) ==> {
                &&& final(self).live()
                &&& (t_opt matches Some(t) ==> t.spec_kind() == kind && (kind.id() != TOK_END
                    ==> old(self).cursor() < final(self).cursor()))
                &&& (t_opt is None ==> final(self).cursor() == old(self).cursor())
            },
            match (r, sp_opt_expect(old(self).bytes(), old(self).cursor(), kind.id())) {
                (Ok(t_opt), Ok((o, q))) => t_opt == o && final(self).cursor() == q,
                (Err(a), Err(b)) => a == b,
                _ => false,
            },
    {
        let position = self.mark_position();
        let token = match self.next_token() {
            Ok(t) => t,
            Err(err) => {
                return Err(err);
            },
        };
        proof {
            crate::parser::token_kind::lemma_kind_id_injective(token.spec_kind(), kind);
        }
        if token.kind() == kind {
            Ok(Some(token))
        } else {
            self.rewind_position(position);
            Ok(None)
        }
    }


    fn mark_position(&self) -> (r: TokenizerPosition)
        requires
            self.wf(),
            self.live(),
        ensures
            r.value() == self.cursor(),
    {
        self.tokenizer.mark_position()
    }

    fn rewind_position(&mut self, position: TokenizerPosition)
        requires
            old(self).wf(),
            old(self).live(),
            position.value() <= old(self).cursor(),
        ensures
            final(self).wf(),
            final(self).live(),
            final(self).bytes() == old(self).bytes(),
            final(self).cursor() == position.value(),
    {
        self.tokenizer.rewind_position(position);
    }

    fn next_token(&mut self) -> (r: ParseResult<FullToken>)
        requires
            old(self).wf(),
            old(self).live(),
        ensures
            final(self).wf(),
            final(self).bytes() == old(self).bytes(),
            old(self).cursor() <= final(self).cursor(),
            r matches Ok(t) ==> {
                &&& final(self).live()
                &&& t.spec_kind().id() != TOK_WHITESPACE
                &&& t.spec_kind().id() != TOK_COMMENT
                &&& t.spec_kind().id() != TOK_NEWLINE
                &&& t.spec_kind().id() != TOK_ERROR
                &&& (t.spec_kind().id() != TOK_END ==> old(self).cursor() < final(self).cursor())
                &&& (t.spec_kind().id() == TOK_END ==> final(self).cursor() == final(self).bytes().len())
            },
            r matches Err(e) ==> e is ErrorToken,
            match (r, sp_fetch(old(self).bytes(), old(self).cursor())) {
                (Ok(t), Ok((st, q))) => t == st && final(self).cursor() == q,
                (Err(a), Err(b)) => a == b,
                _ => false,
            },
            final(self).spec_skipped_newline() == crate::parser::tokenizer::newline_skipped(
                old(self).bytes(),
                old(self).cursor(),
            ),
    {
        self.next_token_impl()
    }

    /// Fetch the next significant token, skipping whitespace, comments
    /// and newlines, and noting whether a newline was skipped. The
    /// result is exactly the scan at the first position past the trivia:
    /// the token of that scan on success, or its recorded lexical error.
    fn next_token_impl(&mut self) -> (r: ParseResult<FullToken>)
        requires
            old(self).wf(),
            old(self).live(),
        ensures
            final(self).wf(),
            final(self).bytes() == old(self).bytes(),
            old(self).cursor() <= final(self).cursor(),
            r matches Ok(t) ==> {
                &&& final(self).live()
                &&& t.spec_kind().id() != TOK_WHITESPACE
                &&& t.spec_kind().id() != TOK_COMMENT
                &&& t.spec_kind().id() != TOK_NEWLINE
                &&& t.spec_kind().id() != TOK_ERROR
                &&& (t.spec_kind().id() != TOK_END ==> old(self).cursor() < final(self).cursor())
                &&& (t.spec_kind().id() == TOK_END ==> final(self).cursor() == final(self).bytes().len())
            },
            r matches Err(e) ==> e is ErrorToken,
            match (r, sp_fetch(old(self).bytes(), old(self).cursor())) {
                (Ok(t), Ok((st, q))) => t == st && final(self).cursor() == q,
                (Err(a), Err(b)) => a == b,
                _ => false,
            },
            final(self).spec_skipped_newline() == crate::parser::tokenizer::newline_skipped(
                old(self).bytes(),
                old(self).cursor(),
            ),
    {
        proof {
            reveal_with_fuel(sp_fetch, 1);
            reveal_with_fuel(newline_skipped, 1);
        }
        self.skipped_newline = false;
        let ghost b0 = self.bytes();
        let ghost c0 = self.cursor();
        proof {
            crate::parser::tokenizer::lemma_skip_trivia(b0, c0);
        }
        loop
            invariant
                self.wf(),
                self.live(),
                self.bytes() == b0,
                b0 == old(self).bytes(),
                c0 == old(self).cursor(),
                old(self).cursor() <= self.cursor(),
                self.cursor() <= self.bytes().len(),
                skip_trivia(b0, self.cursor()) == skip_trivia(b0, c0),
                crate::parser::tokenizer::newline_skipped(b0, c0) == (self.spec_skipped_newline()
                    || crate::parser::tokenizer::newline_skipped(b0, self.cursor())),
            decreases self.bytes().len() - self.cursor(),
        {
            let ghost it0 = self.cursor();
            proof {
                reveal_with_fuel(sp_fetch, 1);
                reveal_with_fuel(newline_skipped, 1);
                crate::parser::tokenizer::lemma_scan_token_progress(b0, it0, true);
            }
            let token = self.tokenizer.next_token(true);
            let kind = token.kind();
            // Ignore whitespace, comment, and newline tokens.
            if kind.is_whitespace() || kind.is_comment() {
                continue;
            }
            if kind.is_newline() {
                self.skipped_newline = true;
                continue;
            }
            proof {
                let res = scan_token(b0, it0, true);
                lemma_token_fixed(token, res.kind, it0, res.end);
            }
            if kind.is_error() {
                return Err(ParseError::ErrorToken(token));
            }
            return Ok(token);
        }
    }
}

/// The tokenizer mode for a full parse. Newlines are not semantically
/// significant in this mode: automatic semicolon insertion is out of
/// scope, so the answer is always no.
pub struct FullTokenizerMode {}

impl FullTokenizerMode {
    pub fn cares_about_newline(&self) -> (r: bool)
        ensures
            r == false,
    {
        false
    }

    pub fn note_newline(&mut self) {
    }
}

} // verus!
