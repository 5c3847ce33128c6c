use oxyjs::parser::ast::{ExprNode, ProgramNode, StmtNode};
use oxyjs::parser::ast_builder::{AstBuilder, ParseError};
use oxyjs::parser::input_stream::VecInputStream;

fn parse(src: &str) -> Result<Box<ProgramNode>, ParseError> {
    oxyjs::initialize_library();
    let stream = VecInputStream::new(src.as_bytes().to_vec());
    let mut builder = AstBuilder::new(stream);
    builder.parse_program()
}

fn parse_ok(src: &str) -> Box<ProgramNode> {
    match parse(src) {
        Ok(p) => p,
        Err(e) => panic!("parse of {:?} failed: {:?}", src, e),
    }
}

fn only_stmt(p: &ProgramNode) -> &StmtNode {
    assert_eq!(p.source_elements().len(), 1);
    &p.source_elements()[0]
}

fn stmt_expr<'a>(s: &'a StmtNode) -> &'a ExprNode {
    match s {
        StmtNode::Expr(n) => n.expression(),
        other => panic!("expected expression statement, got {:?}", other.kind()),
    }
}

/// Assignment binds looser than the conditional: `a = b ? c : d` is
/// `Assign(a, Cond(b, c, d))`.
#[test]
fn precedence_assign_conditional() {
    let p = parse_ok("a = b ? c : d;");
    let expr = stmt_expr(only_stmt(&p));
    match expr {
        ExprNode::Assign(assign) => {
            assert!(assign.assignment_op().kind().is_assign());
            match assign.left_expr() {
                ExprNode::Atomic(a) => assert!(a.name().kind().is_identifier()),
                other => panic!("expected atomic lhs, got {:?}", other.kind()),
            }
            match assign.right_expr() {
                ExprNode::Cond(cond) => {
                    assert!(matches!(cond.cond_expr(), ExprNode::Atomic(_)));
                    assert!(matches!(cond.if_expr(), ExprNode::Atomic(_)));
                    assert!(matches!(cond.else_expr(), ExprNode::Atomic(_)));
                },
                other => panic!("expected conditional rhs, got {:?}", other.kind()),
            }
        },
        other => panic!("expected assignment, got {:?}", other.kind()),
    }
}

/// At comma precedence, `a , b = c` is `Comma(a, Assign(b, c))`.
#[test]
fn precedence_comma_assign() {
    let p = parse_ok("a , b = c;");
    let expr = stmt_expr(only_stmt(&p));
    match expr {
        ExprNode::Comma(comma) => {
            assert!(matches!(comma.left_expr(), ExprNode::Atomic(_)));
            match comma.right_expr() {
                ExprNode::Assign(assign) => {
                    assert!(matches!(assign.left_expr(), ExprNode::Atomic(_)));
                    assert!(matches!(assign.right_expr(), ExprNode::Atomic(_)));
                },
                other => panic!("expected assignment, got {:?}", other.kind()),
            }
        },
        other => panic!("expected comma expression, got {:?}", other.kind()),
    }
}

#[test]
fn precedence_additive_multiplicative() {
    let p = parse_ok("a + b * c;");
    let expr = stmt_expr(only_stmt(&p));
    match expr {
        ExprNode::Binary(add) => {
            assert!(add.binary_op().kind().is_plus());
            assert!(matches!(add.left_expr(), ExprNode::Atomic(_)));
            match add.right_expr() {
                ExprNode::Binary(mul) => {
                    assert!(mul.binary_op().kind().is_star());
                },
                other => panic!("expected multiplication, got {:?}", other.kind()),
            }
        },
        other => panic!("expected addition, got {:?}", other.kind()),
    }
}

/// `var x, y = 1;` parses to a Var node with two declarations, the
/// first without an initializer, the second with the literal `1`.
#[test]
fn var_statement_two_decls() {
    let p = parse_ok("var x, y = 1;");
    match only_stmt(&p) {
        StmtNode::Var(var) => {
            let decls = var.var_decls();
            assert_eq!(decls.len(), 2);
            assert!(decls[0].name().kind().is_identifier());
            assert!(!decls[0].has_init_expr());
            assert!(decls[0].init_expr().is_none());
            assert!(decls[1].name().kind().is_identifier());
            assert!(decls[1].has_init_expr());
            match decls[1].init_expr() {
                Some(ExprNode::Atomic(a)) => {
                    assert!(a.name().kind().is_integer_literal());
                },
                other => panic!("expected integer initializer, got {:?}", other.is_some()),
            }
        },
        other => panic!("expected var statement, got {:?}", other.kind()),
    }
}

#[test]
fn var_statement_name_positions() {
    let p = parse_ok("var x, y = 1;");
    match only_stmt(&p) {
        StmtNode::Var(var) => {
            let decls = var.var_decls();
            assert_eq!(decls[0].name().location().start_offset().value(), 4);
            assert_eq!(decls[0].name().location().end_offset().value(), 5);
            assert_eq!(decls[1].name().location().start_offset().value(), 7);
            assert_eq!(decls[1].name().location().end_offset().value(), 8);
        },
        other => panic!("expected var statement, got {:?}", other.kind()),
    }
}

/// `if (x) y; else z;` has a false branch; `if (x) y;` has none.
#[test]
fn if_else_statements() {
    let p = parse_ok("if (x) y; else z;");
    match only_stmt(&p) {
        StmtNode::If(ifn) => {
            assert!(matches!(ifn.cond_expr(), ExprNode::Atomic(_)));
            assert!(matches!(ifn.if_true_stmt(), StmtNode::Expr(_)));
            assert!(ifn.has_if_false_stmt());
            assert!(matches!(ifn.if_false_stmt(), Some(StmtNode::Expr(_))));
        },
        other => panic!("expected if statement, got {:?}", other.kind()),
    }

    let p2 = parse_ok("if (x) y;");
    match only_stmt(&p2) {
        StmtNode::If(ifn) => {
            assert!(!ifn.has_if_false_stmt());
            assert!(ifn.if_false_stmt().is_none());
        },
        other => panic!("expected if statement, got {:?}", other.kind()),
    }
}

/// `var x` with no terminator fails with expected-comma-or-semicolon,
/// not a successful partial parse.
#[test]
fn unexpected_end_of_var() {
    match parse("var x") {
        Err(ParseError::ExpectedCommaOrSemicolon) => {},
        other => panic!("expected ExpectedCommaOrSemicolon, got {:?}", other),
    }
}

#[test]
fn var_requires_name() {
    match parse("var ;") {
        Err(ParseError::ExpectedVariableName) => {},
        other => panic!("expected ExpectedVariableName, got {:?}", other),
    }
}

#[test]
fn empty_and_block_statements() {
    let p = parse_ok(";");
    assert!(matches!(only_stmt(&p), StmtNode::Empty(_)));
    let p2 = parse_ok("{}");
    assert!(matches!(only_stmt(&p2), StmtNode::Block(_)));
    let p3 = parse_ok("");
    assert_eq!(p3.source_elements().len(), 0);
}

#[test]
fn trailing_token_is_an_error() {
    match parse("a; )") {
        Err(ParseError::UnexpectedToken { expected, got }) => {
            assert!(expected.is_end());
            assert!(got.is_close_paren());
        },
        other => panic!("expected UnexpectedToken, got {:?}", other),
    }
}

#[test]
fn if_requires_parenthesis() {
    match parse("if x) y;") {
        Err(ParseError::UnexpectedToken { expected, got }) => {
            assert!(expected.is_open_paren());
            assert!(got.is_identifier());
        },
        other => panic!("expected UnexpectedToken, got {:?}", other),
    }
}

#[test]
fn arguments_need_comma_or_close_paren() {
    match parse("f(a b);") {
        Err(ParseError::ExpectedCommaOrCloseParen) => {},
        other => panic!("expected ExpectedCommaOrCloseParen, got {:?}", other),
    }
}

#[test]
fn initializer_needs_expression() {
    match parse("var x = ;") {
        Err(ParseError::ExpectedExpression) => {},
        other => panic!("expected ExpectedExpression, got {:?}", other),
    }
}

#[test]
fn if_body_needs_statement() {
    match parse("if (x) )") {
        Err(ParseError::ExpectedStatement) => {},
        other => panic!("expected ExpectedStatement, got {:?}", other),
    }
}

#[test]
fn tokenizer_error_aborts_parse() {
    match parse("var x = @;") {
        Err(ParseError::ErrorToken(tok)) => {
            assert!(tok.kind().is_error());
        },
        other => panic!("expected ErrorToken, got {:?}", other),
    }
}

#[test]
fn unary_and_postfix() {
    let p = parse_ok("!a;");
    match stmt_expr(only_stmt(&p)) {
        ExprNode::Unary(u) => assert!(u.unary_op().kind().is_bang()),
        other => panic!("expected unary, got {:?}", other.kind()),
    }

    let p2 = parse_ok("a++;");
    match stmt_expr(only_stmt(&p2)) {
        ExprNode::Postfix(post) => {
            assert!(post.postfix_op().kind().is_plus_plus());
            assert!(matches!(post.sub_expr(), ExprNode::Atomic(_)));
        },
        other => panic!("expected postfix, got {:?}", other.kind()),
    }

    let p3 = parse_ok("typeof a;");
    match stmt_expr(only_stmt(&p3)) {
        ExprNode::Unary(u) => assert!(u.unary_op().kind().is_typeof_keyword()),
        other => panic!("expected unary, got {:?}", other.kind()),
    }
}

/// A newline before `++` detaches the operator from the left operand
/// (the restricted production), so the `++` begins a new statement and
/// fails there; without the newline the operator attaches.
#[test]
fn postfix_newline_restriction() {
    assert!(parse("a++;").is_ok());
    assert!(parse("a\n++;").is_err());
}

#[test]
fn member_access_chain() {
    let p = parse_ok("a.b[c](d);");
    match stmt_expr(only_stmt(&p)) {
        ExprNode::Call(call) => {
            assert_eq!(call.arguments().len(), 1);
            match call.callee_expr() {
                ExprNode::Element(elem) => {
                    assert!(matches!(elem.element_expr(), ExprNode::Atomic(_)));
                    match elem.target_expr() {
                        ExprNode::Property(prop) => {
                            assert!(prop.property_name().kind().is_identifier());
                            assert!(matches!(prop.target_expr(), ExprNode::Atomic(_)));
                        },
                        other => panic!("expected property, got {:?}", other.kind()),
                    }
                },
                other => panic!("expected element, got {:?}", other.kind()),
            }
        },
        other => panic!("expected call, got {:?}", other.kind()),
    }
}

#[test]
fn new_with_arguments() {
    let p = parse_ok("new a(b, c);");
    match stmt_expr(only_stmt(&p)) {
        ExprNode::Construct(ctor) => {
            assert!(ctor.has_arguments());
            assert_eq!(ctor.arguments().len(), 2);
            assert!(matches!(ctor.sub_expr(), ExprNode::Atomic(_)));
        },
        other => panic!("expected construct, got {:?}", other.kind()),
    }
}

#[test]
fn new_without_arguments() {
    let p = parse_ok("new a;");
    match stmt_expr(only_stmt(&p)) {
        ExprNode::Construct(ctor) => {
            assert!(!ctor.has_arguments());
            assert_eq!(ctor.arguments().len(), 0);
        },
        other => panic!("expected construct, got {:?}", other.kind()),
    }
}

#[test]
fn nested_new_binds_to_nearest_call() {
    let p = parse_ok("new new a(b);");
    match stmt_expr(only_stmt(&p)) {
        ExprNode::Construct(outer) => {
            assert!(!outer.has_arguments());
            match outer.sub_expr() {
                ExprNode::Construct(inner) => {
                    assert!(inner.has_arguments());
                    assert_eq!(inner.arguments().len(), 1);
                },
                other => panic!("expected inner construct, got {:?}", other.kind()),
            }
        },
        other => panic!("expected construct, got {:?}", other.kind()),
    }
}

#[test]
fn comments_and_whitespace_are_skipped() {
    let p = parse_ok("  // lead\n var /* x */ q;");
    match only_stmt(&p) {
        StmtNode::Var(var) => assert_eq!(var.var_decls().len(), 1),
        other => panic!("expected var statement, got {:?}", other.kind()),
    }
}

#[test]
fn multiple_statements_in_order() {
    let p = parse_ok("var a; ; b;");
    let elems = p.source_elements();
    assert_eq!(elems.len(), 3);
    assert!(matches!(&elems[0], StmtNode::Var(_)));
    assert!(matches!(&elems[1], StmtNode::Empty(_)));
    assert!(matches!(&elems[2], StmtNode::Expr(_)));
}

#[test]
fn tree_dump_shapes() {
    let p = parse_ok("var x, y = 1;");
    let dump = p.tree_string();
    assert!(dump.starts_with("ProgramNode{Var{"), "dump: {}", dump);
    assert!(dump.contains(" = AtomicExpr{"), "dump: {}", dump);

    let p2 = parse_ok("if (x) y; else z;");
    let dump2 = p2.tree_string();
    assert!(dump2.contains("If("), "dump: {}", dump2);
    assert!(dump2.contains("Else{"), "dump: {}", dump2);
}
